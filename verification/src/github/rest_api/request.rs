//! Bodies of requests to the REST API.

pub mod create_a_tree;
