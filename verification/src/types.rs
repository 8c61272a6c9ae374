//! The response schemas, one module per endpoint, with the record shapes
//! that several endpoints share factored into [`common`].

pub mod common;
pub mod annotated_config;
pub mod far_but_reach_low_coverage;
pub mod all_functions;
pub mod branch_blockers;
pub mod project_summary;
