//! The five operations, driven by concrete response bodies.

use fuzz_introspector_client::{
    all_functions, annotated_config, branch_blockers, far_reach_but_low_coverage, project_summary,
    render_url, IntroSpectorAPIError,
};

#[test]
fn render_url_builds_the_endpoint_query() {
    let url = render_url("annotated-cfg", "json-c");
    assert_eq!(url, "https://introspector.oss-fuzz.com/api/annotated-cfg?project=json-c");
}

#[test]
fn annotated_config_success_returns_payload() {
    let body = br#"{
        "result": "success",
        "project": {
            "name": "json-c",
            "annotated_cfg": [
                {
                    "fuzzer_name": "fuzz1",
                    "src_file": "fuzz1.c",
                    "destinations": [
                        {
                            "accummulated_cyclomatic_complexity": 7,
                            "arg_names": ["a", "b"],
                            "arg_types": ["int", "char *"],
                            "cyclomatic_complexity": 3,
                            "function_name": "parse",
                            "raw_function_name": "parse",
                            "return_type": "int",
                            "source_file": "parse.c"
                        }
                    ]
                }
            ]
        }
    }"#;
    let project = annotated_config(body).unwrap();
    assert_eq!(project.name, "json-c");
    assert_eq!(project.annotated_cfg.len(), 1);
    let cfg = &project.annotated_cfg[0];
    assert_eq!(cfg.fuzzer_name, "fuzz1");
    assert_eq!(cfg.src_file, "fuzz1.c");
    assert_eq!(cfg.destinations.len(), 1);
    let dest = &cfg.destinations[0];
    assert_eq!(dest.accummulated_cyclomatic_complexity, 7);
    assert_eq!(dest.arg_names, vec!["a".to_string(), "b".to_string()]);
    assert_eq!(dest.arg_types, vec!["int".to_string(), "char *".to_string()]);
    assert_eq!(dest.cyclomatic_complexity, 3);
    assert_eq!(dest.function_name, "parse");
    assert_eq!(dest.return_type, "int");
    assert_eq!(dest.source_file, "parse.c");
}

#[test]
fn annotated_config_other_status_is_remote_error() {
    let body = br#"{"result": "failure", "project": {"name": "x", "annotated_cfg": []}}"#;
    assert_eq!(annotated_config(body), Err(IntroSpectorAPIError::IntrospectorAPIError));
}

#[test]
fn far_reach_but_low_coverage_success_returns_functions() {
    let body = br#"{
        "result": "success",
        "functions": [
            {
                "accummulated_complexity": 40,
                "function_argument_names": ["ptr"],
                "function_arguments": ["void *"],
                "function_filename": "lib.c",
                "function_name": "walk",
                "is_reached": false,
                "raw_function_name": "walk",
                "reached_by_fuzzers": [],
                "return_type": "void",
                "runtime_coverage_percent": 12.5
            }
        ]
    }"#;
    let functions = far_reach_but_low_coverage(body).unwrap();
    assert_eq!(functions.len(), 1);
    let f = &functions[0];
    assert_eq!(f.accummulated_complexity, 40);
    assert_eq!(f.function_argument_names, vec!["ptr".to_string()]);
    assert_eq!(f.function_name, "walk");
    assert!(!f.is_reached);
    assert!(f.reached_by_fuzzers.is_empty());
    assert_eq!(
        f.runtime_coverage_percent,
        fuzz_introspector_client::json::Number::Float(12.5f64.to_bits())
    );
}

#[test]
fn far_reach_but_low_coverage_other_status_is_remote_error() {
    let body = br#"{"result": "error", "functions": []}"#;
    assert_eq!(
        far_reach_but_low_coverage(body),
        Err(IntroSpectorAPIError::IntrospectorAPIError)
    );
}

#[test]
fn project_summary_success_returns_summary() {
    let body = br#"{
        "result": "success",
        "project": {
            "name": "json-c",
            "introspector-data": {
                "annotated_cfg": [],
                "branch_pairs": [],
                "coverage_lines": 71.25,
                "function_count": 254,
                "functions_covered_estimate": 62.5,
                "fuzzer_count": 2,
                "introspector_report_url": "https://example.invalid/report",
                "static_reachability": 80.5
            },
            "runtime-coverage-data": {
                "coverage_url": "https://example.invalid/coverage",
                "line_coverage": {
                    "count": 4000,
                    "covered": 2850,
                    "percent": 71.25
                }
            }
        }
    }"#;
    let summary = project_summary(body).unwrap();
    assert_eq!(summary.name, "json-c");
    assert_eq!(summary.introspector_data.function_count, 254);
    assert_eq!(summary.introspector_data.fuzzer_count, 2);
    assert_eq!(summary.runtime_coverage_data.line_coverage.count, 4000);
    assert_eq!(summary.runtime_coverage_data.line_coverage.covered, 2850);
    assert_eq!(
        summary.runtime_coverage_data.line_coverage.percent,
        fuzz_introspector_client::json::Number::Float(71.25f64.to_bits())
    );
}

#[test]
fn project_summary_other_status_is_remote_error() {
    let body = br#"{
        "result": "succes ",
        "project": {
            "name": "x",
            "introspector_data": {
                "annotated_cfg": [], "branch_pairs": [], "coverage_lines": 0,
                "function_count": 0, "functions_covered_estimate": 0,
                "fuzzer_count": 0, "introspector_report_url": "",
                "static_reachability": 0
            },
            "runtime_coverage_data": {
                "coverage_url": "",
                "line_coverage": {"count": 0, "covered": 0, "percent": 0}
            }
        }
    }"#;
    assert_eq!(project_summary(body), Err(IntroSpectorAPIError::IntrospectorAPIError));
}

#[test]
fn branch_blockers_empty_list_is_ok() {
    let body = br#"{"result": "success", "project-blockers": []}"#;
    let blockers = branch_blockers(body).unwrap();
    assert!(blockers.is_empty());
}

#[test]
fn branch_blockers_success_returns_blockers() {
    let body = br#"{
        "result": "success",
        "project_blockers": [
            {
                "blocked_unique_functions": ["xmlParse"],
                "function_name": "entry",
                "project_name": "libxml2",
                "source_file": "entry.c",
                "src_linenumber": "33",
                "unique_blocked_coverage": 120
            }
        ]
    }"#;
    let blockers = branch_blockers(body).unwrap();
    assert_eq!(blockers.len(), 1);
    assert_eq!(blockers[0].blocked_unique_functions, vec!["xmlParse".to_string()]);
    assert_eq!(blockers[0].function_name, "entry");
    assert_eq!(blockers[0].project_name, "libxml2");
    assert_eq!(blockers[0].src_linenumber, "33");
    assert_eq!(blockers[0].unique_blocked_coverage, 120);
}

#[test]
fn branch_blockers_other_status_is_remote_error() {
    let body = br#"{"result": "nope", "project_blockers": []}"#;
    assert_eq!(branch_blockers(body), Err(IntroSpectorAPIError::IntrospectorAPIError));
}

#[test]
fn all_functions_success_returns_functions() {
    let body = br#"{
        "result": "success",
        "functions": [
            {
                "accummulated_complexity": -1,
                "function_argument_names": [],
                "function_arguments": [],
                "function_filename": "",
                "function_name": "noop",
                "is_reached": true,
                "raw_function_name": "noop",
                "reached_by_fuzzers": ["fuzz1", "fuzz2"],
                "return_type": "void",
                "runtime_coverage_percent": 100
            }
        ]
    }"#;
    let functions = all_functions(body).unwrap();
    assert_eq!(functions.len(), 1);
    assert_eq!(functions[0].accummulated_complexity, -1);
    assert!(functions[0].is_reached);
    assert_eq!(
        functions[0].reached_by_fuzzers,
        vec!["fuzz1".to_string(), "fuzz2".to_string()]
    );
    assert_eq!(
        functions[0].runtime_coverage_percent,
        fuzz_introspector_client::json::Number::Int(100)
    );
}

#[test]
fn all_functions_other_status_is_remote_error() {
    let body = br#"{"result": "failed", "functions": []}"#;
    assert_eq!(all_functions(body), Err(IntroSpectorAPIError::IntrospectorAPIError));
}

#[test]
fn invalid_json_is_decode_error() {
    let body = br#"{"result": "success""#;
    assert_eq!(branch_blockers(body), Err(IntroSpectorAPIError::DecodeError));
}

#[test]
fn missing_required_field_is_decode_error() {
    let body = br#"{"result": "success"}"#;
    assert_eq!(branch_blockers(body), Err(IntroSpectorAPIError::DecodeError));
}

#[test]
fn wrong_field_type_is_decode_error() {
    let body = br#"{"result": "success", "project_blockers": [
        {
            "blocked_unique_functions": [],
            "function_name": 7,
            "project_name": "x",
            "source_file": "x.c",
            "src_linenumber": "1",
            "unique_blocked_coverage": 0
        }
    ]}"#;
    assert_eq!(branch_blockers(body), Err(IntroSpectorAPIError::DecodeError));
}

#[test]
fn non_object_body_is_decode_error() {
    let body = br#"[1, 2, 3]"#;
    assert_eq!(all_functions(body), Err(IntroSpectorAPIError::DecodeError));
}

#[test]
fn unknown_fields_are_ignored() {
    let body = br#"{
        "result": "success",
        "schema_version": 4,
        "notes": {"arbitrary": ["nested", {"stuff": null}]},
        "project-blockers": [
            {
                "blocked_unique_functions": [],
                "function_name": "entry",
                "project_name": "libxml2",
                "source_file": "entry.c",
                "src_linenumber": "1",
                "unique_blocked_coverage": 5,
                "future_field": true
            }
        ]
    }"#;
    let blockers = branch_blockers(body).unwrap();
    assert_eq!(blockers.len(), 1);
    assert_eq!(blockers[0].function_name, "entry");
    assert_eq!(blockers[0].unique_blocked_coverage, 5);
}
