//! The contract of a minimal JSON greeting server: one route,
//! `GET /api/hello-world`, answered with a fixed JSON payload, and a 404 for
//! everything else. The crate holds the payload, the routing table, the
//! responses and the start-up decisions; sockets and the runtime live with the
//! caller.

pub mod json;
pub mod lifecycle;
pub mod payload;
pub mod response;
pub mod routing;
pub mod server;
pub mod text;
