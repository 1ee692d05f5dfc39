//! The fetch clients of the server. Each host environment brings its own way to send a
//! request; what is checked of the response is the same for all.
pub mod worker_impl;

pub use crate::server::http_client::worker_impl::{WorkerFetchClient, WorkerFetchResponse};
