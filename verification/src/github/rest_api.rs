//! The REST API.

pub mod request;
