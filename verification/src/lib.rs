//! Commits to a branch on GitHub as a GitHub app.
//!
//! - [`github`] holds the client, the requests and the answers, and the conversation that puts
//!   a commit on a branch
//! - [`headers`], [`jwt`], [`clock`] and [`status`] are what the conversation needs of HTTP and
//!   of the app's credentials
//! - [`json`] and [`text`] write the bodies of requests
//! - [`json_lookup`] and [`json_reading`] say what is found in a body by whoever reads it, and the
//!   modules of laws say what holds of all of this

pub mod clock;
pub mod config;
pub mod github;
pub mod headers;
pub mod json;
pub mod json_laws;
pub mod json_lookup;
pub mod json_reading;
pub mod jwt;
pub mod status;
pub mod text;
pub mod text_laws;
