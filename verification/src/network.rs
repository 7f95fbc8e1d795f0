//! Host routing while the tunnel is up.

pub mod routes;
