//! The route table of the service and the rule by which a request is matched
//! against it.

use vstd::prelude::*;

verus! {

/// The request methods that the route table tells apart.
#[derive(Clone, Copy, Debug, PartialEq, Eq, Structural)]
pub enum Method {
    Get,
    Post,
    /// Any other method: no route answers it.
    Other,
}

/// The endpoints of the service.
#[derive(Clone, Copy, Debug, PartialEq, Eq, Structural)]
pub enum Route {
    /// `GET /health`: the liveness probe.
    Health,
    /// `GET /`: the GraphQL playground page.
    Playground,
    /// `POST /`: GraphQL execution.
    Execute,
    /// `GET /metrics`: the metrics of the process in text form.
    Metrics,
}

/// What became of a request at the router.
#[derive(Clone, Copy, Debug, PartialEq, Eq, Structural)]
pub enum Resolution {
    /// The request goes to this endpoint.
    Matched(Route),
    /// The path is served, but not with this method: status 405.
    MethodNotAllowed,
    /// No endpoint has this path: status 404.
    NotFound,
}

/// Whether requests to the metrics endpoint are themselves counted.
#[derive(Clone, Copy, Debug, PartialEq, Eq, Structural)]
pub struct RouterConfig {
    pub track_metrics_route: bool,
}

/// The path of an endpoint.
pub open spec fn route_path(route: Route) -> Seq<char> {
    match route {
        Route::Health => "/health"@,
        Route::Playground => "/"@,
        Route::Execute => "/"@,
        Route::Metrics => "/metrics"@,
    }
}

/// The method of an endpoint.
pub open spec fn route_method(route: Route) -> Method {
    match route {
        Route::Health => Method::Get,
        Route::Playground => Method::Get,
        Route::Execute => Method::Post,
        Route::Metrics => Method::Get,
    }
}

/// The endpoints in the order in which they are registered.
pub open spec fn route_table() -> Seq<Route> {
    seq![Route::Health, Route::Playground, Route::Execute, Route::Metrics]
}

/// Whether some endpoint is served on a path.
pub open spec fn path_is_served(path: Seq<char>) -> bool {
    exists|route: Route| route_path(route) == path
}

/// Whether an endpoint answers a method on a path.
pub open spec fn answers(route: Route, method: Method, path: Seq<char>) -> bool {
    route_path(route) == path && route_method(route) == method
}

/// The routing rule: a request goes to the endpoint that has its path and its
/// method; a path that is served with other methods only is refused as such;
/// any other path is not found.
pub open spec fn resolution(method: Method, path: Seq<char>) -> Resolution {
    if exists|route: Route| answers(route, method, path) {
        Resolution::Matched(choose|route: Route| answers(route, method, path))
    } else if path_is_served(path) {
        Resolution::MethodNotAllowed
    } else {
        Resolution::NotFound
    }
}

/// The HTTP status with which the router itself answers, where it does.
pub open spec fn router_status(resolution: Resolution) -> Option<u16> {
    match resolution {
        Resolution::Matched(_) => None,
        Resolution::MethodNotAllowed => Some(405u16),
        Resolution::NotFound => Some(404u16),
    }
}

/// Whether the metrics middleware wraps an endpoint: always for the health,
/// playground and execution endpoints, and for the metrics endpoint as the
/// configuration says.
pub open spec fn is_counted(route: Route, config: RouterConfig) -> bool {
    route != Route::Metrics || config.track_metrics_route
}

/// What the paths of the table are, letter by letter.
pub proof fn lemma_route_paths()
    ensures
        route_path(Route::Health) == seq!['/', 'h', 'e', 'a', 'l', 't', 'h'],
        route_path(Route::Playground) == seq!['/'],
        route_path(Route::Execute) == seq!['/'],
        route_path(Route::Metrics) == seq!['/', 'm', 'e', 't', 'r', 'i', 'c', 's'],
{
    reveal_strlit("/health");
    reveal_strlit("/");
    reveal_strlit("/metrics");
    assert(route_path(Route::Health) =~= seq!['/', 'h', 'e', 'a', 'l', 't', 'h']);
    assert(route_path(Route::Playground) =~= seq!['/']);
    assert(route_path(Route::Metrics) =~= seq!['/', 'm', 'e', 't', 'r', 'i', 'c', 's']);
}

/// No two endpoints answer the same method on the same path, so the router
/// never has to choose.
pub proof fn lemma_routes_unambiguous(first: Route, second: Route, method: Method, path: Seq<char>)
    requires
        answers(first, method, path),
        answers(second, method, path),
    ensures
        first == second,
{
    lemma_route_paths();
    assert(seq!['/', 'h', 'e', 'a', 'l', 't', 'h'].len() == 7);
    assert(seq!['/'].len() == 1);
    assert(seq!['/', 'm', 'e', 't', 'r', 'i', 'c', 's'].len() == 8);
}

/// Every endpoint of the table is reached by its own method and path.
pub proof fn lemma_table_routes_resolve(route: Route)
    ensures
        resolution(route_method(route), route_path(route)) == Resolution::Matched(route),
{
    let method = route_method(route);
    let path = route_path(route);
    assert(answers(route, method, path));
    let chosen = choose|r: Route| answers(r, method, path);
    lemma_routes_unambiguous(chosen, route, method, path);
}

/// A request is matched to an endpoint exactly when that endpoint answers its
/// method on its path.
pub proof fn lemma_resolution_matches(method: Method, path: Seq<char>, route: Route)
    ensures
        resolution(method, path) == Resolution::Matched(route) <==> answers(route, method, path),
{
    if answers(route, method, path) {
        let chosen = choose|r: Route| answers(r, method, path);
        lemma_routes_unambiguous(chosen, route, method, path);
    }
}

/// The metrics middleware always wraps the health, playground and execution
/// endpoints; whether it wraps the metrics endpoint is the configuration's
/// choice and nothing else.
pub proof fn lemma_counting_scope(route: Route, config: RouterConfig)
    ensures
        route != Route::Metrics ==> is_counted(route, config),
        is_counted(Route::Metrics, config) == config.track_metrics_route,
{
}

fn same_text(left: &str, right: &str) -> (same: bool)
    ensures
        same == (left@ == right@),
{
    left.to_owned() == right.to_owned()
}

impl Route {
    /// The path on which the endpoint is served.
    pub fn path(&self) -> (path: &'static str)
        ensures
            path@ == route_path(*self),
    {
        match self {
            Route::Health => "/health",
            Route::Playground => "/",
            Route::Execute => "/",
            Route::Metrics => "/metrics",
        }
    }

    /// The method that the endpoint answers.
    pub fn method(&self) -> (method: Method)
        ensures
            method == route_method(*self),
    {
        match self {
            Route::Health => Method::Get,
            Route::Playground => Method::Get,
            Route::Execute => Method::Post,
            Route::Metrics => Method::Get,
        }
    }
}

/// The route table, in registration order.
pub fn routes() -> (table: Vec<Route>)
    ensures
        table@ == route_table(),
{
    let table = vec![Route::Health, Route::Playground, Route::Execute, Route::Metrics];
    assert(table@ =~= route_table());
    table
}

/// Matches a request against the route table.
pub fn resolve(method: Method, path: &str) -> (found: Resolution)
    ensures
        found == resolution(method, path@),
{
    proof {
        lemma_route_paths();
        assert(seq!['/', 'h', 'e', 'a', 'l', 't', 'h'].len() == 7);
        assert(seq!['/'].len() == 1);
        assert(seq!['/', 'm', 'e', 't', 'r', 'i', 'c', 's'].len() == 8);
    }
    let found = if same_text(path, "/health") {
        match method {
            Method::Get => Resolution::Matched(Route::Health),
            _ => Resolution::MethodNotAllowed,
        }
    } else if same_text(path, "/") {
        match method {
            Method::Get => Resolution::Matched(Route::Playground),
            Method::Post => Resolution::Matched(Route::Execute),
            Method::Other => Resolution::MethodNotAllowed,
        }
    } else if same_text(path, "/metrics") {
        match method {
            Method::Get => Resolution::Matched(Route::Metrics),
            _ => Resolution::MethodNotAllowed,
        }
    } else {
        Resolution::NotFound
    };
    proof {
        match found {
            Resolution::Matched(route) => {
                assert(answers(route, method, path@));
                lemma_resolution_matches(method, path@, route);
            },
            Resolution::MethodNotAllowed => {
                assert(route_path(Route::Health) == path@ || route_path(Route::Playground)
                    == path@ || route_path(Route::Metrics) == path@);
                assert(path_is_served(path@));
                assert forall|route: Route| !answers(route, method, path@) by {}
            },
            Resolution::NotFound => {
                assert forall|route: Route| route_path(route) != path@ by {}
            },
        }
    }
    found
}

/// Whether the metrics middleware wraps an endpoint under a configuration.
pub fn counted(route: Route, config: RouterConfig) -> (wrapped: bool)
    ensures
        wrapped == is_counted(route, config),
{
    match route {
        Route::Metrics => config.track_metrics_route,
        _ => true,
    }
}

} // verus!
