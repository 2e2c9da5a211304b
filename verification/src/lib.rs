//! Verified core of a small HTTP/GraphQL service: the liveness payload, the
//! route table, request accounting, the GraphQL response extensions, and the
//! start-up and shutdown decisions. Everything here works on plain values;
//! sockets, signals and the async runtime belong to the binary around it.

pub mod graphql;
pub mod health;
pub mod lifecycle;
pub mod metrics;
pub mod routing;
pub mod telemetry;
