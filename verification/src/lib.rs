//! A typed client library for the fuzz-introspector HTTP/JSON API.
//!
//! The remote service exposes five read-only query endpoints.  For each one
//! this crate knows the endpoint path, the expected `result` status literal,
//! and the exact shape of the JSON payload.  The verified core turns a raw
//! response body into the typed payload, or into one of three errors:
//! the body is not JSON or does not match the schema (decode failure), or
//! the service answered but flagged the query as unsuccessful.
//!
//! The network transport itself (one HTTPS GET per call) is ordinary
//! asynchronous code and lives outside this library; it hands the response
//! body in as plain bytes.

pub mod json;
pub mod types;
pub mod introspector;

pub use introspector::{
    IntroSpectorAPIError, render_url, annotated_config, far_reach_but_low_coverage,
    project_summary, branch_blockers, all_functions,
};
