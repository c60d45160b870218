//! Handlers that can be registered with the router.

pub mod example_endpoint;
