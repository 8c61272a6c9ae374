//! Round trips and edge cases of the JSON codec for each payload record.

use fuzz_introspector_client::json::{JsonCodec, JVal, Number, parse_json};
use fuzz_introspector_client::types::annotated_config;
use fuzz_introspector_client::types::branch_blockers::Blocker;
use fuzz_introspector_client::types::common::{AnnotatedCfg, Destination, Function};
use fuzz_introspector_client::types::project_summary::{
    BranchPair, IntrospectorData, LineCoverage, Project, RuntimeCoverageData,
};

fn sample_destination() -> Destination {
    Destination {
        accummulated_cyclomatic_complexity: -3,
        arg_names: vec!["".to_string(), "len".to_string()],
        arg_types: vec!["char *".to_string(), "size_t".to_string()],
        cyclomatic_complexity: 0,
        function_name: "read_value".to_string(),
        raw_function_name: "_Z10read_value".to_string(),
        return_type: "int".to_string(),
        source_file: "value.c".to_string(),
    }
}

#[test]
fn destination_roundtrips() {
    let d = sample_destination();
    let decoded = Destination::from_json(&d.to_json()).unwrap();
    assert_eq!(decoded, d);
}

#[test]
fn destination_roundtrips_empty_and_zero() {
    let d = Destination {
        accummulated_cyclomatic_complexity: 0,
        arg_names: vec![],
        arg_types: vec![],
        cyclomatic_complexity: 0,
        function_name: "".to_string(),
        raw_function_name: "".to_string(),
        return_type: "".to_string(),
        source_file: "".to_string(),
    };
    let decoded = Destination::from_json(&d.to_json()).unwrap();
    assert_eq!(decoded, d);
}

#[test]
fn annotated_cfg_roundtrips() {
    let cfg = AnnotatedCfg {
        destinations: vec![sample_destination()],
        fuzzer_name: "fuzz_parse".to_string(),
        src_file: "fuzz_parse.c".to_string(),
    };
    let decoded = AnnotatedCfg::from_json(&cfg.to_json()).unwrap();
    assert_eq!(decoded, cfg);
}

#[test]
fn annotated_config_project_roundtrips() {
    let p = annotated_config::Project {
        annotated_cfg: vec![AnnotatedCfg {
            destinations: vec![],
            fuzzer_name: "f".to_string(),
            src_file: "f.c".to_string(),
        }],
        name: "json-c".to_string(),
    };
    let decoded = annotated_config::Project::from_json(&p.to_json()).unwrap();
    assert_eq!(decoded, p);
}

#[test]
fn function_roundtrips_with_float_coverage() {
    let f = Function {
        accummulated_complexity: 9000,
        function_argument_names: vec!["data".to_string(), "size".to_string()],
        function_arguments: vec!["const uint8_t *".to_string(), "size_t".to_string()],
        function_filename: "fuzz.c".to_string(),
        function_name: "LLVMFuzzerTestOneInput".to_string(),
        is_reached: true,
        raw_function_name: "LLVMFuzzerTestOneInput".to_string(),
        reached_by_fuzzers: vec!["fuzz1".to_string()],
        return_type: "int".to_string(),
        runtime_coverage_percent: Number::Float(33.333f64.to_bits()),
    };
    let decoded = Function::from_json(&f.to_json()).unwrap();
    assert_eq!(decoded, f);
}

#[test]
fn function_roundtrips_boundary_numbers() {
    let f = Function {
        accummulated_complexity: i64::MIN,
        function_argument_names: vec![],
        function_arguments: vec![],
        function_filename: "".to_string(),
        function_name: "f".to_string(),
        is_reached: false,
        raw_function_name: "f".to_string(),
        reached_by_fuzzers: vec![],
        return_type: "".to_string(),
        runtime_coverage_percent: Number::Int(0),
    };
    let decoded = Function::from_json(&f.to_json()).unwrap();
    assert_eq!(decoded, f);
}

#[test]
fn blocker_roundtrips() {
    let b = Blocker {
        blocked_unique_functions: vec![],
        function_name: "entry".to_string(),
        project_name: "libxml2".to_string(),
        source_file: "entry.c".to_string(),
        src_linenumber: "10".to_string(),
        unique_blocked_coverage: -7,
    };
    let decoded = Blocker::from_json(&b.to_json()).unwrap();
    assert_eq!(decoded, b);
}

#[test]
fn project_summary_roundtrips() {
    let p = Project {
        introspector_data: IntrospectorData {
            annotated_cfg: vec![],
            branch_pairs: vec![BranchPair {
                blocked_runtime_coverage: 0,
                blocked_unique_functions: vec!["g".to_string()],
                function_name: "f".to_string(),
                linenumber: "12".to_string(),
                project: "json-c".to_string(),
                source_file: "f.c".to_string(),
            }],
            coverage_lines: Number::Float(0.0f64.to_bits()),
            function_count: 0,
            functions_covered_estimate: Number::Int(-1),
            fuzzer_count: 1,
            introspector_report_url: "".to_string(),
            static_reachability: Number::UInt(u64::MAX),
        },
        name: "json-c".to_string(),
        runtime_coverage_data: RuntimeCoverageData {
            coverage_url: "https://example.invalid/cov".to_string(),
            line_coverage: LineCoverage {
                count: i64::MAX,
                covered: 0,
                percent: Number::Float(0.5f64.to_bits()),
            },
        },
    };
    let decoded = Project::from_json(&p.to_json()).unwrap();
    assert_eq!(decoded, p);
}

#[test]
fn parse_json_reads_numbers_by_kind() {
    let doc = parse_json(br#"{"a": -2, "b": 18446744073709551615, "c": 2.5}"#).unwrap();
    match doc {
        JVal::Obj(fields) => {
            assert_eq!(fields.len(), 3);
            assert_eq!(fields[0], ("a".to_string(), JVal::Num(Number::Int(-2))));
            assert_eq!(fields[1], ("b".to_string(), JVal::Num(Number::UInt(u64::MAX))));
            assert_eq!(fields[2], ("c".to_string(), JVal::Num(Number::Float(2.5f64.to_bits()))));
        }
        other => panic!("expected an object, got {:?}", other),
    }
}

#[test]
fn parse_json_rejects_garbage() {
    assert!(parse_json(b"not json at all").is_none());
}

#[test]
fn parse_json_reads_nested_structure() {
    let doc = parse_json(br#"[null, true, "s", []]"#).unwrap();
    match doc {
        JVal::Arr(items) => {
            assert_eq!(items.len(), 4);
            assert!(matches!(items[0], JVal::Null));
            assert!(matches!(items[1], JVal::Bool(true)));
            assert!(matches!(&items[2], JVal::Str(s) if s == "s"));
            assert!(matches!(&items[3], JVal::Arr(inner) if inner.is_empty()));
        }
        other => panic!("expected an array, got {:?}", other),
    }
}
