//! A client for the Better Uptime monitoring service that performs no I/O of
//! its own: it says which HTTP request an operation sends, and what the
//! operation returns for the reply that came back.

pub mod client;
pub mod envelope;
pub mod error;
pub mod http;
pub mod incident;
pub mod json;

pub use client::{Uptime, API_URL};
pub use envelope::maybe_uptime_api_error;
pub use error::{DecodeError, Error, TransportError};
pub use http::{Header, Method, Reply, Request};
pub use incident::{Incident, IncidentRequest};
