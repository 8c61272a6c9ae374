//! The five query operations and their shared error type.
//!
//! Each operation takes the raw response body of its endpoint, decodes the
//! endpoint's envelope, checks the `result` status discriminator against the
//! success literal, and returns the payload field.  The network request that
//! produces the body is plain asynchronous code outside this library.

use vstd::prelude::*;
use vstd::string::StringExecFns;
use crate::json::{JsonV, json_of, parse_json};
use crate::types::{annotated_config, far_but_reach_low_coverage, project_summary,
    branch_blockers, all_functions};

verus! {

/// What a query can fail with: the transport failed before a body arrived,
/// the body did not decode as the endpoint's schema, or the service answered
/// with a `result` other than the endpoint's success literal.
#[derive(Clone, Copy, Debug, PartialEq, Eq, Structural)]
pub enum IntroSpectorAPIError {
    TransportError,
    DecodeError,
    IntrospectorAPIError,
}

/// The URL of one endpoint query.
pub fn render_url(endpoint: &str, project: &str) -> (r: String)
    ensures
        r@ == "https://introspector.oss-fuzz.com/api/"@ + endpoint@ + "?project="@ + project@,
{
    let mut url = String::from_str("https://introspector.oss-fuzz.com/api/");
    url.append(endpoint);
    url.append("?project=");
    url.append(project);
    url
}

/// What `annotated_config` returns for a response body that parsed into `j`.
pub open spec fn spec_annotated_config(j: JsonV) -> Result<
    annotated_config::ProjectV,
    IntroSpectorAPIError,
> {
    match annotated_config::Root::spec_from_json(j) {
        Option::None => Result::Err(IntroSpectorAPIError::DecodeError),
        Option::Some(root) => if root.result == "success"@ {
            Result::Ok(root.project)
        } else {
            Result::Err(IntroSpectorAPIError::IntrospectorAPIError)
        },
    }
}

/// Decodes an `annotated-cfg` response body into its payload.
pub fn annotated_config(body: &[u8]) -> (r: Result<
    annotated_config::Project,
    IntroSpectorAPIError,
>)
    ensures
        ({
            let expected = match json_of(body@) {
                Option::None => Result::Err(IntroSpectorAPIError::DecodeError),
                Option::Some(j) => spec_annotated_config(j),
            };
            match (r, expected) {
                (Result::Ok(p), Result::Ok(pv)) => p.deep_view() == pv,
                (Result::Err(e1), Result::Err(e2)) => e1 == e2,
                _ => false,
            }
        }),
{
    match parse_json(body) {
        Option::None => Result::Err(IntroSpectorAPIError::DecodeError),
        Option::Some(doc) => match annotated_config::Root::from_json(&doc) {
            Option::None => Result::Err(IntroSpectorAPIError::DecodeError),
            Option::Some(root) => if root.result == String::from_str("success") {
                Result::Ok(root.project)
            } else {
                Result::Err(IntroSpectorAPIError::IntrospectorAPIError)
            },
        },
    }
}

/// A response whose `result` is the success literal yields its payload.
pub proof fn annotated_config_success(j: JsonV, root: annotated_config::RootV)
    requires
        annotated_config::Root::spec_from_json(j) == Some(root),
        root.result == "success"@,
    ensures
        spec_annotated_config(j) == Result::<
            annotated_config::ProjectV,
            IntroSpectorAPIError,
        >::Ok(root.project),
{
}

/// A response whose `result` is any other string yields the status error.
pub proof fn annotated_config_failure(j: JsonV, root: annotated_config::RootV)
    requires
        annotated_config::Root::spec_from_json(j) == Some(root),
        root.result != "success"@,
    ensures
        spec_annotated_config(j) == Result::<
            annotated_config::ProjectV,
            IntroSpectorAPIError,
        >::Err(IntroSpectorAPIError::IntrospectorAPIError),
{
}

/// What `far_reach_but_low_coverage` returns for a body that parsed into `j`.
pub open spec fn spec_far_reach_but_low_coverage(j: JsonV) -> Result<
    Seq<far_but_reach_low_coverage::FunctionV>,
    IntroSpectorAPIError,
> {
    match far_but_reach_low_coverage::Root::spec_from_json(j) {
        Option::None => Result::Err(IntroSpectorAPIError::DecodeError),
        Option::Some(root) => if root.result == "success"@ {
            Result::Ok(root.functions)
        } else {
            Result::Err(IntroSpectorAPIError::IntrospectorAPIError)
        },
    }
}

/// Decodes a `far-reach-but-low-coverage` response body into its payload.
pub fn far_reach_but_low_coverage(body: &[u8]) -> (r: Result<
    Vec<far_but_reach_low_coverage::Function>,
    IntroSpectorAPIError,
>)
    ensures
        ({
            let expected = match json_of(body@) {
                Option::None => Result::Err(IntroSpectorAPIError::DecodeError),
                Option::Some(j) => spec_far_reach_but_low_coverage(j),
            };
            match (r, expected) {
                (Result::Ok(fs), Result::Ok(fsv)) => fs.deep_view() == fsv,
                (Result::Err(e1), Result::Err(e2)) => e1 == e2,
                _ => false,
            }
        }),
{
    match parse_json(body) {
        Option::None => Result::Err(IntroSpectorAPIError::DecodeError),
        Option::Some(doc) => match far_but_reach_low_coverage::Root::from_json(&doc) {
            Option::None => Result::Err(IntroSpectorAPIError::DecodeError),
            Option::Some(root) => if root.result == String::from_str("success") {
                Result::Ok(root.functions)
            } else {
                Result::Err(IntroSpectorAPIError::IntrospectorAPIError)
            },
        },
    }
}

/// A response whose `result` is the success literal yields its payload.
pub proof fn far_reach_but_low_coverage_success(
    j: JsonV,
    root: far_but_reach_low_coverage::RootV,
)
    requires
        far_but_reach_low_coverage::Root::spec_from_json(j) == Some(root),
        root.result == "success"@,
    ensures
        spec_far_reach_but_low_coverage(j) == Result::<
            Seq<far_but_reach_low_coverage::FunctionV>,
            IntroSpectorAPIError,
        >::Ok(root.functions),
{
}

/// A response whose `result` is any other string yields the status error.
pub proof fn far_reach_but_low_coverage_failure(
    j: JsonV,
    root: far_but_reach_low_coverage::RootV,
)
    requires
        far_but_reach_low_coverage::Root::spec_from_json(j) == Some(root),
        root.result != "success"@,
    ensures
        spec_far_reach_but_low_coverage(j) == Result::<
            Seq<far_but_reach_low_coverage::FunctionV>,
            IntroSpectorAPIError,
        >::Err(IntroSpectorAPIError::IntrospectorAPIError),
{
}

/// What `project_summary` returns for a body that parsed into `j`.
pub open spec fn spec_project_summary(j: JsonV) -> Result<
    project_summary::ProjectV,
    IntroSpectorAPIError,
> {
    match project_summary::Root::spec_from_json(j) {
        Option::None => Result::Err(IntroSpectorAPIError::DecodeError),
        Option::Some(root) => if root.result == "success"@ {
            Result::Ok(root.project)
        } else {
            Result::Err(IntroSpectorAPIError::IntrospectorAPIError)
        },
    }
}

/// Decodes a `project-summary` response body into its payload.
pub fn project_summary(body: &[u8]) -> (r: Result<
    project_summary::Project,
    IntroSpectorAPIError,
>)
    ensures
        ({
            let expected = match json_of(body@) {
                Option::None => Result::Err(IntroSpectorAPIError::DecodeError),
                Option::Some(j) => spec_project_summary(j),
            };
            match (r, expected) {
                (Result::Ok(p), Result::Ok(pv)) => p.deep_view() == pv,
                (Result::Err(e1), Result::Err(e2)) => e1 == e2,
                _ => false,
            }
        }),
{
    match parse_json(body) {
        Option::None => Result::Err(IntroSpectorAPIError::DecodeError),
        Option::Some(doc) => match project_summary::Root::from_json(&doc) {
            Option::None => Result::Err(IntroSpectorAPIError::DecodeError),
            Option::Some(root) => if root.result == String::from_str("success") {
                Result::Ok(root.project)
            } else {
                Result::Err(IntroSpectorAPIError::IntrospectorAPIError)
            },
        },
    }
}

/// A response whose `result` is the success literal yields its payload.
pub proof fn project_summary_success(j: JsonV, root: project_summary::RootV)
    requires
        project_summary::Root::spec_from_json(j) == Some(root),
        root.result == "success"@,
    ensures
        spec_project_summary(j) == Result::<
            project_summary::ProjectV,
            IntroSpectorAPIError,
        >::Ok(root.project),
{
}

/// A response whose `result` is any other string yields the status error.
pub proof fn project_summary_failure(j: JsonV, root: project_summary::RootV)
    requires
        project_summary::Root::spec_from_json(j) == Some(root),
        root.result != "success"@,
    ensures
        spec_project_summary(j) == Result::<
            project_summary::ProjectV,
            IntroSpectorAPIError,
        >::Err(IntroSpectorAPIError::IntrospectorAPIError),
{
}

/// What `branch_blockers` returns for a body that parsed into `j`.
pub open spec fn spec_branch_blockers(j: JsonV) -> Result<
    Seq<branch_blockers::BlockerV>,
    IntroSpectorAPIError,
> {
    match branch_blockers::Root::spec_from_json(j) {
        Option::None => Result::Err(IntroSpectorAPIError::DecodeError),
        Option::Some(root) => if root.result == "success"@ {
            Result::Ok(root.project_blockers)
        } else {
            Result::Err(IntroSpectorAPIError::IntrospectorAPIError)
        },
    }
}

/// Decodes a `branch-blockers` response body into its payload.
pub fn branch_blockers(body: &[u8]) -> (r: Result<
    Vec<branch_blockers::Blocker>,
    IntroSpectorAPIError,
>)
    ensures
        ({
            let expected = match json_of(body@) {
                Option::None => Result::Err(IntroSpectorAPIError::DecodeError),
                Option::Some(j) => spec_branch_blockers(j),
            };
            match (r, expected) {
                (Result::Ok(bs), Result::Ok(bsv)) => bs.deep_view() == bsv,
                (Result::Err(e1), Result::Err(e2)) => e1 == e2,
                _ => false,
            }
        }),
{
    match parse_json(body) {
        Option::None => Result::Err(IntroSpectorAPIError::DecodeError),
        Option::Some(doc) => match branch_blockers::Root::from_json(&doc) {
            Option::None => Result::Err(IntroSpectorAPIError::DecodeError),
            Option::Some(root) => if root.result == String::from_str("success") {
                Result::Ok(root.project_blockers)
            } else {
                Result::Err(IntroSpectorAPIError::IntrospectorAPIError)
            },
        },
    }
}

/// A response whose `result` is the success literal yields its payload.
pub proof fn branch_blockers_success(j: JsonV, root: branch_blockers::RootV)
    requires
        branch_blockers::Root::spec_from_json(j) == Some(root),
        root.result == "success"@,
    ensures
        spec_branch_blockers(j) == Result::<
            Seq<branch_blockers::BlockerV>,
            IntroSpectorAPIError,
        >::Ok(root.project_blockers),
{
}

/// A response whose `result` is any other string yields the status error.
pub proof fn branch_blockers_failure(j: JsonV, root: branch_blockers::RootV)
    requires
        branch_blockers::Root::spec_from_json(j) == Some(root),
        root.result != "success"@,
    ensures
        spec_branch_blockers(j) == Result::<
            Seq<branch_blockers::BlockerV>,
            IntroSpectorAPIError,
        >::Err(IntroSpectorAPIError::IntrospectorAPIError),
{
}

/// What `all_functions` returns for a body that parsed into `j`.
pub open spec fn spec_all_functions(j: JsonV) -> Result<
    Seq<all_functions::FunctionV>,
    IntroSpectorAPIError,
> {
    match all_functions::Root::spec_from_json(j) {
        Option::None => Result::Err(IntroSpectorAPIError::DecodeError),
        Option::Some(root) => if root.result == "success"@ {
            Result::Ok(root.functions)
        } else {
            Result::Err(IntroSpectorAPIError::IntrospectorAPIError)
        },
    }
}

/// Decodes an `all-functions` response body into its payload.
pub fn all_functions(body: &[u8]) -> (r: Result<
    Vec<all_functions::Function>,
    IntroSpectorAPIError,
>)
    ensures
        ({
            let expected = match json_of(body@) {
                Option::None => Result::Err(IntroSpectorAPIError::DecodeError),
                Option::Some(j) => spec_all_functions(j),
            };
            match (r, expected) {
                (Result::Ok(fs), Result::Ok(fsv)) => fs.deep_view() == fsv,
                (Result::Err(e1), Result::Err(e2)) => e1 == e2,
                _ => false,
            }
        }),
{
    match parse_json(body) {
        Option::None => Result::Err(IntroSpectorAPIError::DecodeError),
        Option::Some(doc) => match all_functions::Root::from_json(&doc) {
            Option::None => Result::Err(IntroSpectorAPIError::DecodeError),
            Option::Some(root) => if root.result == String::from_str("success") {
                Result::Ok(root.functions)
            } else {
                Result::Err(IntroSpectorAPIError::IntrospectorAPIError)
            },
        },
    }
}

/// A response whose `result` is the success literal yields its payload.
pub proof fn all_functions_success(j: JsonV, root: all_functions::RootV)
    requires
        all_functions::Root::spec_from_json(j) == Some(root),
        root.result == "success"@,
    ensures
        spec_all_functions(j) == Result::<
            Seq<all_functions::FunctionV>,
            IntroSpectorAPIError,
        >::Ok(root.functions),
{
}

/// A response whose `result` is any other string yields the status error.
pub proof fn all_functions_failure(j: JsonV, root: all_functions::RootV)
    requires
        all_functions::Root::spec_from_json(j) == Some(root),
        root.result != "success"@,
    ensures
        spec_all_functions(j) == Result::<
            Seq<all_functions::FunctionV>,
            IntroSpectorAPIError,
        >::Err(IntroSpectorAPIError::IntrospectorAPIError),
{
}

} // verus!
