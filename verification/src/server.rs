//! The proxy server's side of the library: its settings, its content policy and the
//! decisions it takes on each request.
pub mod config;
pub mod content_types;
pub mod http_client;
pub mod router;
