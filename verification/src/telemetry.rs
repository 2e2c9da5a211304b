//! The choice made once at start-up: whether spans are exported to a
//! collector beside being printed on the console.

use vstd::prelude::*;

verus! {

/// What the tracing pipeline consists of.
#[derive(Clone, Debug, PartialEq, Eq)]
pub enum TracingPlan {
    /// Only the console formatter is installed.
    ConsoleOnly,
    /// The console formatter and an exporter that sends spans to `endpoint`.
    ConsoleAndExporter { endpoint: String },
}

/// The plan that a configuration asks for: an exporter exactly where an
/// endpoint is configured.
pub open spec fn tracing_plan(endpoint: Option<String>) -> TracingPlan {
    match endpoint {
        Some(endpoint) => TracingPlan::ConsoleAndExporter { endpoint },
        None => TracingPlan::ConsoleOnly,
    }
}

/// Whether a plan installs an exporter.
pub open spec fn has_exporter(plan: TracingPlan) -> bool {
    plan is ConsoleAndExporter
}

/// Decides the tracing pipeline from the exporter endpoint found in the
/// environment. An absent endpoint disables the export and is no error; a
/// present one is taken as it stands.
pub fn plan_tracing(endpoint: Option<String>) -> (plan: TracingPlan)
    ensures
        plan == tracing_plan(endpoint),
{
    match endpoint {
        Some(endpoint) => TracingPlan::ConsoleAndExporter { endpoint },
        None => TracingPlan::ConsoleOnly,
    }
}

impl TracingPlan {
    /// Whether an exporter is installed, and so has to be shut down before
    /// the process ends.
    pub fn exports(&self) -> (exports: bool)
        ensures
            exports == has_exporter(*self),
    {
        match self {
            TracingPlan::ConsoleAndExporter { .. } => true,
            TracingPlan::ConsoleOnly => false,
        }
    }
}

/// The choice is all or nothing: an exporter is installed exactly where an
/// endpoint is configured, and it sends to that endpoint.
pub proof fn lemma_exporter_iff_configured(endpoint: Option<String>)
    ensures
        has_exporter(tracing_plan(endpoint)) <==> endpoint is Some,
        endpoint is Some ==> tracing_plan(endpoint) == (TracingPlan::ConsoleAndExporter {
            endpoint: endpoint->0,
        }),
{
}

} // verus!
