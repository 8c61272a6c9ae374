//! The schema of the `project-summary` endpoint.

use vstd::prelude::*;
use crate::json::{
    JVal, JsonV, Number, JsonCodec, view_json, view_obj, lemma_view_obj, i64_field, str_field,
    str_arr_field, num_field, get_i64, get_str, get_str_vec, get_num, str_vec_to_json,
    spec_str_arr, lemma_str_arr_roundtrip, lemma_lookup_found, lemma_field_push, rec_field,
    rec_arr_field, get_rec, get_rec_vec, vec_to_json, spec_seq_to_json, lemma_seq_roundtrip,
};

pub use crate::types::common::{AnnotatedCfg, AnnotatedCfgV, Destination, DestinationV};

verus! {

/// One branch pair: a branch and the coverage its untaken side blocks.
#[derive(Debug, Clone, PartialEq, Eq)]
pub struct BranchPair {
    pub blocked_runtime_coverage: i64,
    pub blocked_unique_functions: Vec<String>,
    pub function_name: String,
    pub linenumber: String,
    pub project: String,
    pub source_file: String,
}

/// The mathematical value of a [`BranchPair`].
#[verifier::ext_equal]
pub struct BranchPairV {
    pub blocked_runtime_coverage: i64,
    pub blocked_unique_functions: Seq<Seq<char>>,
    pub function_name: Seq<char>,
    pub linenumber: Seq<char>,
    pub project: Seq<char>,
    pub source_file: Seq<char>,
}

impl DeepView for BranchPair {
    type V = BranchPairV;

    open spec fn deep_view(&self) -> BranchPairV {
        BranchPairV {
            blocked_runtime_coverage: self.blocked_runtime_coverage,
            blocked_unique_functions: self.blocked_unique_functions.deep_view(),
            function_name: self.function_name@,
            linenumber: self.linenumber@,
            project: self.project@,
            source_file: self.source_file@,
        }
    }
}

impl JsonCodec for BranchPair {
    open spec fn spec_from_json(j: JsonV) -> Option<BranchPairV> {
        match j {
            JsonV::Obj(o) => match (
                i64_field(o, "blocked_runtime_coverage"@, "blocked-runtime-coverage"@),
                str_arr_field(o, "blocked_unique_functions"@, "blocked-unique-functions"@),
                str_field(o, "function_name"@, "function-name"@),
                str_field(o, "linenumber"@, "linenumber"@),
                str_field(o, "project"@, "project"@),
                str_field(o, "source_file"@, "source-file"@),
            ) {
                (Some(brc), Some(buf), Some(fnm), Some(ln), Some(pj), Some(sf)) => Some(
                    BranchPairV {
                        blocked_runtime_coverage: brc,
                        blocked_unique_functions: buf,
                        function_name: fnm,
                        linenumber: ln,
                        project: pj,
                        source_file: sf,
                    },
                ),
                _ => None,
            },
            _ => None,
        }
    }

    open spec fn spec_to_json(v: BranchPairV) -> JsonV {
        JsonV::Obj(
            seq![
                (
                    "blocked_runtime_coverage"@,
                    JsonV::Num(Number::Int(v.blocked_runtime_coverage)),
                ),
                (
                    "blocked_unique_functions"@,
                    JsonV::Arr(spec_str_arr(v.blocked_unique_functions)),
                ),
                ("function_name"@, JsonV::Str(v.function_name)),
                ("linenumber"@, JsonV::Str(v.linenumber)),
                ("project"@, JsonV::Str(v.project)),
                ("source_file"@, JsonV::Str(v.source_file)),
            ],
        )
    }

    fn from_json(j: &JVal) -> (r: Option<Self>) {
        match j {
            JVal::Obj(o) => match (
                get_i64(o, "blocked_runtime_coverage", "blocked-runtime-coverage"),
                get_str_vec(o, "blocked_unique_functions", "blocked-unique-functions"),
                get_str(o, "function_name", "function-name"),
                get_str(o, "linenumber", "linenumber"),
                get_str(o, "project", "project"),
                get_str(o, "source_file", "source-file"),
            ) {
                (Some(brc), Some(buf), Some(fnm), Some(ln), Some(pj), Some(sf)) => Some(
                    BranchPair {
                        blocked_runtime_coverage: brc,
                        blocked_unique_functions: buf,
                        function_name: fnm,
                        linenumber: ln,
                        project: pj,
                        source_file: sf,
                    },
                ),
                _ => None,
            },
            _ => None,
        }
    }

    fn to_json(&self) -> (r: JVal) {
        let mut o: Vec<(String, JVal)> = Vec::new();
        o.push(
            (
                String::from_str("blocked_runtime_coverage"),
                JVal::Num(Number::Int(self.blocked_runtime_coverage)),
            ),
        );
        o.push(
            (
                String::from_str("blocked_unique_functions"),
                str_vec_to_json(&self.blocked_unique_functions),
            ),
        );
        o.push((String::from_str("function_name"), JVal::Str(self.function_name.clone())));
        o.push((String::from_str("linenumber"), JVal::Str(self.linenumber.clone())));
        o.push((String::from_str("project"), JVal::Str(self.project.clone())));
        o.push((String::from_str("source_file"), JVal::Str(self.source_file.clone())));
        proof {
            lemma_view_obj(o@);
            assert(view_obj(o@) =~= Self::spec_to_json(self.deep_view())->Obj_0);
        }
        JVal::Obj(o)
    }

    proof fn roundtrip(v: BranchPairV) {
        reveal_strlit("blocked_runtime_coverage");
        reveal_strlit("blocked_unique_functions");
        reveal_strlit("function_name");
        reveal_strlit("linenumber");
        reveal_strlit("project");
        reveal_strlit("source_file");
        lemma_str_arr_roundtrip(v.blocked_unique_functions);
        let o = Self::spec_to_json(v)->Obj_0;
        assert(o[0].0 == "blocked_runtime_coverage"@);
        assert(o[1].0 == "blocked_unique_functions"@);
        assert(o[2].0 == "function_name"@);
        assert(o[3].0 == "linenumber"@);
        assert(o[4].0 == "project"@);
        assert(o[5].0 == "source_file"@);
        assert("blocked_runtime_coverage"@[8] != "blocked_unique_functions"@[8]);
        lemma_lookup_found(o, 0, "blocked_runtime_coverage"@);
        lemma_lookup_found(o, 1, "blocked_unique_functions"@);
        lemma_lookup_found(o, 2, "function_name"@);
        lemma_lookup_found(o, 3, "linenumber"@);
        lemma_lookup_found(o, 4, "project"@);
        lemma_lookup_found(o, 5, "source_file"@);
        assert(Self::spec_from_json(Self::spec_to_json(v)) == Some(v));
    }
}

/// Line-coverage counters of the whole project.
#[derive(Debug, Clone, PartialEq, Eq)]
pub struct LineCoverage {
    pub count: i64,
    pub covered: i64,
    pub percent: Number,
}

/// The mathematical value of a [`LineCoverage`].
#[verifier::ext_equal]
pub struct LineCoverageV {
    pub count: i64,
    pub covered: i64,
    pub percent: Number,
}

impl DeepView for LineCoverage {
    type V = LineCoverageV;

    open spec fn deep_view(&self) -> LineCoverageV {
        LineCoverageV { count: self.count, covered: self.covered, percent: self.percent }
    }
}

impl JsonCodec for LineCoverage {
    open spec fn spec_from_json(j: JsonV) -> Option<LineCoverageV> {
        match j {
            JsonV::Obj(o) => match (
                i64_field(o, "count"@, "count"@),
                i64_field(o, "covered"@, "covered"@),
                num_field(o, "percent"@, "percent"@),
            ) {
                (Some(cn), Some(cv), Some(pc)) => Some(
                    LineCoverageV { count: cn, covered: cv, percent: pc },
                ),
                _ => None,
            },
            _ => None,
        }
    }

    open spec fn spec_to_json(v: LineCoverageV) -> JsonV {
        JsonV::Obj(
            seq![
                ("count"@, JsonV::Num(Number::Int(v.count))),
                ("covered"@, JsonV::Num(Number::Int(v.covered))),
                ("percent"@, JsonV::Num(v.percent)),
            ],
        )
    }

    fn from_json(j: &JVal) -> (r: Option<Self>) {
        match j {
            JVal::Obj(o) => match (
                get_i64(o, "count", "count"),
                get_i64(o, "covered", "covered"),
                get_num(o, "percent", "percent"),
            ) {
                (Some(cn), Some(cv), Some(pc)) => Some(
                    LineCoverage { count: cn, covered: cv, percent: pc },
                ),
                _ => None,
            },
            _ => None,
        }
    }

    fn to_json(&self) -> (r: JVal) {
        let mut o: Vec<(String, JVal)> = Vec::new();
        o.push((String::from_str("count"), JVal::Num(Number::Int(self.count))));
        o.push((String::from_str("covered"), JVal::Num(Number::Int(self.covered))));
        o.push((String::from_str("percent"), JVal::Num(self.percent)));
        proof {
            lemma_view_obj(o@);
            assert(view_obj(o@) =~= Self::spec_to_json(self.deep_view())->Obj_0);
        }
        JVal::Obj(o)
    }

    proof fn roundtrip(v: LineCoverageV) {
        reveal_strlit("count");
        reveal_strlit("covered");
        reveal_strlit("percent");
        let o = Self::spec_to_json(v)->Obj_0;
        assert(o[0].0 == "count"@);
        assert(o[1].0 == "covered"@);
        assert(o[2].0 == "percent"@);
        assert("covered"@[0] != "percent"@[0]);
        lemma_lookup_found(o, 0, "count"@);
        lemma_lookup_found(o, 1, "covered"@);
        lemma_lookup_found(o, 2, "percent"@);
        assert(Self::spec_from_json(Self::spec_to_json(v)) == Some(v));
    }
}

/// The project's runtime coverage report: where it lives and its totals.
#[derive(Debug, Clone, PartialEq, Eq)]
pub struct RuntimeCoverageData {
    pub coverage_url: String,
    pub line_coverage: LineCoverage,
}

/// The mathematical value of a [`RuntimeCoverageData`].
#[verifier::ext_equal]
pub struct RuntimeCoverageDataV {
    pub coverage_url: Seq<char>,
    pub line_coverage: LineCoverageV,
}

impl DeepView for RuntimeCoverageData {
    type V = RuntimeCoverageDataV;

    open spec fn deep_view(&self) -> RuntimeCoverageDataV {
        RuntimeCoverageDataV {
            coverage_url: self.coverage_url@,
            line_coverage: self.line_coverage.deep_view(),
        }
    }
}

impl JsonCodec for RuntimeCoverageData {
    open spec fn spec_from_json(j: JsonV) -> Option<RuntimeCoverageDataV> {
        match j {
            JsonV::Obj(o) => match (
                str_field(o, "coverage_url"@, "coverage-url"@),
                rec_field::<LineCoverage>(o, "line_coverage"@, "line-coverage"@),
            ) {
                (Some(cu), Some(lc)) => Some(
                    RuntimeCoverageDataV { coverage_url: cu, line_coverage: lc },
                ),
                _ => None,
            },
            _ => None,
        }
    }

    open spec fn spec_to_json(v: RuntimeCoverageDataV) -> JsonV {
        JsonV::Obj(
            seq![
                ("coverage_url"@, JsonV::Str(v.coverage_url)),
                ("line_coverage"@, LineCoverage::spec_to_json(v.line_coverage)),
            ],
        )
    }

    fn from_json(j: &JVal) -> (r: Option<Self>) {
        match j {
            JVal::Obj(o) => match (
                get_str(o, "coverage_url", "coverage-url"),
                get_rec::<LineCoverage>(o, "line_coverage", "line-coverage"),
            ) {
                (Some(cu), Some(lc)) => Some(
                    RuntimeCoverageData { coverage_url: cu, line_coverage: lc },
                ),
                _ => None,
            },
            _ => None,
        }
    }

    fn to_json(&self) -> (r: JVal) {
        let mut o: Vec<(String, JVal)> = Vec::new();
        o.push((String::from_str("coverage_url"), JVal::Str(self.coverage_url.clone())));
        o.push((String::from_str("line_coverage"), self.line_coverage.to_json()));
        proof {
            lemma_view_obj(o@);
            assert(view_obj(o@) =~= Self::spec_to_json(self.deep_view())->Obj_0);
        }
        JVal::Obj(o)
    }

    proof fn roundtrip(v: RuntimeCoverageDataV) {
        reveal_strlit("coverage_url");
        reveal_strlit("line_coverage");
        LineCoverage::roundtrip(v.line_coverage);
        let o = Self::spec_to_json(v)->Obj_0;
        assert(o[0].0 == "coverage_url"@);
        assert(o[1].0 == "line_coverage"@);
        lemma_lookup_found(o, 0, "coverage_url"@);
        lemma_lookup_found(o, 1, "line_coverage"@);
        assert(Self::spec_from_json(Self::spec_to_json(v)) == Some(v));
    }
}

/// What the introspector's static analysis found for the project.
#[derive(Debug, Clone, PartialEq, Eq)]
pub struct IntrospectorData {
    pub annotated_cfg: Vec<AnnotatedCfg>,
    pub branch_pairs: Vec<BranchPair>,
    pub coverage_lines: Number,
    pub function_count: i64,
    pub functions_covered_estimate: Number,
    pub fuzzer_count: i64,
    pub introspector_report_url: String,
    pub static_reachability: Number,
}

/// The mathematical value of an [`IntrospectorData`].
#[verifier::ext_equal]
pub struct IntrospectorDataV {
    pub annotated_cfg: Seq<AnnotatedCfgV>,
    pub branch_pairs: Seq<BranchPairV>,
    pub coverage_lines: Number,
    pub function_count: i64,
    pub functions_covered_estimate: Number,
    pub fuzzer_count: i64,
    pub introspector_report_url: Seq<char>,
    pub static_reachability: Number,
}

impl DeepView for IntrospectorData {
    type V = IntrospectorDataV;

    open spec fn deep_view(&self) -> IntrospectorDataV {
        IntrospectorDataV {
            annotated_cfg: self.annotated_cfg.deep_view(),
            branch_pairs: self.branch_pairs.deep_view(),
            coverage_lines: self.coverage_lines,
            function_count: self.function_count,
            functions_covered_estimate: self.functions_covered_estimate,
            fuzzer_count: self.fuzzer_count,
            introspector_report_url: self.introspector_report_url@,
            static_reachability: self.static_reachability,
        }
    }
}

impl JsonCodec for IntrospectorData {
    open spec fn spec_from_json(j: JsonV) -> Option<IntrospectorDataV> {
        match j {
            JsonV::Obj(o) => match (
                rec_arr_field::<AnnotatedCfg>(o, "annotated_cfg"@, "annotated-cfg"@),
                rec_arr_field::<BranchPair>(o, "branch_pairs"@, "branch-pairs"@),
                num_field(o, "coverage_lines"@, "coverage-lines"@),
                i64_field(o, "function_count"@, "function-count"@),
                num_field(o, "functions_covered_estimate"@, "functions-covered-estimate"@),
                i64_field(o, "fuzzer_count"@, "fuzzer-count"@),
                str_field(o, "introspector_report_url"@, "introspector-report-url"@),
                num_field(o, "static_reachability"@, "static-reachability"@),
            ) {
                (
                    Some(ac),
                    Some(bp),
                    Some(cl),
                    Some(fc),
                    Some(fce),
                    Some(fz),
                    Some(iru),
                    Some(sr),
                ) => Some(
                    IntrospectorDataV {
                        annotated_cfg: ac,
                        branch_pairs: bp,
                        coverage_lines: cl,
                        function_count: fc,
                        functions_covered_estimate: fce,
                        fuzzer_count: fz,
                        introspector_report_url: iru,
                        static_reachability: sr,
                    },
                ),
                _ => None,
            },
            _ => None,
        }
    }

    open spec fn spec_to_json(v: IntrospectorDataV) -> JsonV {
        JsonV::Obj(
            seq![
                ("annotated_cfg"@, JsonV::Arr(spec_seq_to_json::<AnnotatedCfg>(v.annotated_cfg))),
                ("branch_pairs"@, JsonV::Arr(spec_seq_to_json::<BranchPair>(v.branch_pairs))),
                ("coverage_lines"@, JsonV::Num(v.coverage_lines)),
                ("function_count"@, JsonV::Num(Number::Int(v.function_count))),
                ("functions_covered_estimate"@, JsonV::Num(v.functions_covered_estimate)),
                ("fuzzer_count"@, JsonV::Num(Number::Int(v.fuzzer_count))),
                ("introspector_report_url"@, JsonV::Str(v.introspector_report_url)),
                ("static_reachability"@, JsonV::Num(v.static_reachability)),
            ],
        )
    }

    fn from_json(j: &JVal) -> (r: Option<Self>) {
        match j {
            JVal::Obj(o) => match (
                get_rec_vec::<AnnotatedCfg>(o, "annotated_cfg", "annotated-cfg"),
                get_rec_vec::<BranchPair>(o, "branch_pairs", "branch-pairs"),
                get_num(o, "coverage_lines", "coverage-lines"),
                get_i64(o, "function_count", "function-count"),
                get_num(o, "functions_covered_estimate", "functions-covered-estimate"),
                get_i64(o, "fuzzer_count", "fuzzer-count"),
                get_str(o, "introspector_report_url", "introspector-report-url"),
                get_num(o, "static_reachability", "static-reachability"),
            ) {
                (
                    Some(ac),
                    Some(bp),
                    Some(cl),
                    Some(fc),
                    Some(fce),
                    Some(fz),
                    Some(iru),
                    Some(sr),
                ) => Some(
                    IntrospectorData {
                        annotated_cfg: ac,
                        branch_pairs: bp,
                        coverage_lines: cl,
                        function_count: fc,
                        functions_covered_estimate: fce,
                        fuzzer_count: fz,
                        introspector_report_url: iru,
                        static_reachability: sr,
                    },
                ),
                _ => None,
            },
            _ => None,
        }
    }

    fn to_json(&self) -> (r: JVal) {
        let mut o: Vec<(String, JVal)> = Vec::new();
        o.push(
            (String::from_str("annotated_cfg"), vec_to_json::<AnnotatedCfg>(&self.annotated_cfg)),
        );
        o.push((String::from_str("branch_pairs"), vec_to_json::<BranchPair>(&self.branch_pairs)));
        o.push((String::from_str("coverage_lines"), JVal::Num(self.coverage_lines)));
        o.push((String::from_str("function_count"), JVal::Num(Number::Int(self.function_count))));
        o.push(
            (
                String::from_str("functions_covered_estimate"),
                JVal::Num(self.functions_covered_estimate),
            ),
        );
        o.push((String::from_str("fuzzer_count"), JVal::Num(Number::Int(self.fuzzer_count))));
        o.push(
            (
                String::from_str("introspector_report_url"),
                JVal::Str(self.introspector_report_url.clone()),
            ),
        );
        o.push((String::from_str("static_reachability"), JVal::Num(self.static_reachability)));
        proof {
            lemma_view_obj(o@);
            assert(view_obj(o@) =~= Self::spec_to_json(self.deep_view())->Obj_0);
        }
        JVal::Obj(o)
    }

    proof fn roundtrip(v: IntrospectorDataV) {
        reveal_strlit("annotated_cfg");
        reveal_strlit("branch_pairs");
        reveal_strlit("coverage_lines");
        reveal_strlit("function_count");
        reveal_strlit("functions_covered_estimate");
        reveal_strlit("fuzzer_count");
        reveal_strlit("introspector_report_url");
        reveal_strlit("static_reachability");
        lemma_seq_roundtrip::<AnnotatedCfg>(v.annotated_cfg);
        lemma_seq_roundtrip::<BranchPair>(v.branch_pairs);
        let o = Self::spec_to_json(v)->Obj_0;
        assert(o[0].0 == "annotated_cfg"@);
        assert(o[1].0 == "branch_pairs"@);
        assert(o[2].0 == "coverage_lines"@);
        assert(o[3].0 == "function_count"@);
        assert(o[4].0 == "functions_covered_estimate"@);
        assert(o[5].0 == "fuzzer_count"@);
        assert(o[6].0 == "introspector_report_url"@);
        assert(o[7].0 == "static_reachability"@);
        assert("branch_pairs"@[0] != "fuzzer_count"@[0]);
        assert("coverage_lines"@[0] != "function_count"@[0]);
        lemma_lookup_found(o, 0, "annotated_cfg"@);
        lemma_lookup_found(o, 1, "branch_pairs"@);
        lemma_lookup_found(o, 2, "coverage_lines"@);
        lemma_lookup_found(o, 3, "function_count"@);
        lemma_lookup_found(o, 4, "functions_covered_estimate"@);
        lemma_lookup_found(o, 5, "fuzzer_count"@);
        lemma_lookup_found(o, 6, "introspector_report_url"@);
        lemma_lookup_found(o, 7, "static_reachability"@);
        assert(Self::spec_from_json(Self::spec_to_json(v)) == Some(v));
    }
}

/// The payload of the `project-summary` endpoint.
#[derive(Debug, Clone, PartialEq, Eq)]
pub struct Project {
    pub introspector_data: IntrospectorData,
    pub name: String,
    pub runtime_coverage_data: RuntimeCoverageData,
}

/// The mathematical value of a [`Project`].
#[verifier::ext_equal]
pub struct ProjectV {
    pub introspector_data: IntrospectorDataV,
    pub name: Seq<char>,
    pub runtime_coverage_data: RuntimeCoverageDataV,
}

impl DeepView for Project {
    type V = ProjectV;

    open spec fn deep_view(&self) -> ProjectV {
        ProjectV {
            introspector_data: self.introspector_data.deep_view(),
            name: self.name@,
            runtime_coverage_data: self.runtime_coverage_data.deep_view(),
        }
    }
}

impl JsonCodec for Project {
    open spec fn spec_from_json(j: JsonV) -> Option<ProjectV> {
        match j {
            JsonV::Obj(o) => match (
                rec_field::<IntrospectorData>(o, "introspector_data"@, "introspector-data"@),
                str_field(o, "name"@, "name"@),
                rec_field::<RuntimeCoverageData>(
                    o,
                    "runtime_coverage_data"@,
                    "runtime-coverage-data"@,
                ),
            ) {
                (Some(idt), Some(nm), Some(rcd)) => Some(
                    ProjectV { introspector_data: idt, name: nm, runtime_coverage_data: rcd },
                ),
                _ => None,
            },
            _ => None,
        }
    }

    open spec fn spec_to_json(v: ProjectV) -> JsonV {
        JsonV::Obj(
            seq![
                ("introspector_data"@, IntrospectorData::spec_to_json(v.introspector_data)),
                ("name"@, JsonV::Str(v.name)),
                (
                    "runtime_coverage_data"@,
                    RuntimeCoverageData::spec_to_json(v.runtime_coverage_data),
                ),
            ],
        )
    }

    fn from_json(j: &JVal) -> (r: Option<Self>) {
        match j {
            JVal::Obj(o) => match (
                get_rec::<IntrospectorData>(o, "introspector_data", "introspector-data"),
                get_str(o, "name", "name"),
                get_rec::<RuntimeCoverageData>(o, "runtime_coverage_data", "runtime-coverage-data"),
            ) {
                (Some(idt), Some(nm), Some(rcd)) => Some(
                    Project { introspector_data: idt, name: nm, runtime_coverage_data: rcd },
                ),
                _ => None,
            },
            _ => None,
        }
    }

    fn to_json(&self) -> (r: JVal) {
        let mut o: Vec<(String, JVal)> = Vec::new();
        o.push((String::from_str("introspector_data"), self.introspector_data.to_json()));
        o.push((String::from_str("name"), JVal::Str(self.name.clone())));
        o.push((String::from_str("runtime_coverage_data"), self.runtime_coverage_data.to_json()));
        proof {
            lemma_view_obj(o@);
            assert(view_obj(o@) =~= Self::spec_to_json(self.deep_view())->Obj_0);
        }
        JVal::Obj(o)
    }

    proof fn roundtrip(v: ProjectV) {
        reveal_strlit("introspector_data");
        reveal_strlit("name");
        reveal_strlit("runtime_coverage_data");
        IntrospectorData::roundtrip(v.introspector_data);
        RuntimeCoverageData::roundtrip(v.runtime_coverage_data);
        let o = Self::spec_to_json(v)->Obj_0;
        assert(o[0].0 == "introspector_data"@);
        assert(o[1].0 == "name"@);
        assert(o[2].0 == "runtime_coverage_data"@);
        lemma_lookup_found(o, 0, "introspector_data"@);
        lemma_lookup_found(o, 1, "name"@);
        lemma_lookup_found(o, 2, "runtime_coverage_data"@);
        assert(Self::spec_from_json(Self::spec_to_json(v)) == Some(v));
    }
}

/// The response envelope of the `project-summary` endpoint.
#[derive(Debug, Clone, PartialEq, Eq)]
pub struct Root {
    pub project: Project,
    pub result: String,
}

/// The mathematical value of a [`Root`].
#[verifier::ext_equal]
pub struct RootV {
    pub project: ProjectV,
    pub result: Seq<char>,
}

impl DeepView for Root {
    type V = RootV;

    open spec fn deep_view(&self) -> RootV {
        RootV { project: self.project.deep_view(), result: self.result@ }
    }
}

impl Root {
    /// The mathematical decode of the envelope.
    pub open spec fn spec_from_json(j: JsonV) -> Option<RootV> {
        match j {
            JsonV::Obj(o) => match (
                rec_field::<Project>(o, "project"@, "project"@),
                str_field(o, "result"@, "result"@),
            ) {
                (Some(p), Some(res)) => Some(RootV { project: p, result: res }),
                _ => None,
            },
            _ => None,
        }
    }

    /// Decodes the envelope from a JSON document.
    pub fn from_json(j: &JVal) -> (r: Option<Self>)
        ensures
            match r {
                Some(x) => Self::spec_from_json(view_json(*j)) == Some(x.deep_view()),
                None => Self::spec_from_json(view_json(*j)) is None,
            },
    {
        match j {
            JVal::Obj(o) => match (
                get_rec::<Project>(o, "project", "project"),
                get_str(o, "result", "result"),
            ) {
                (Some(p), Some(res)) => Some(Root { project: p, result: res }),
                _ => None,
            },
            _ => None,
        }
    }

    /// Decoding ignores fields it does not know: a response carrying an
    /// extra field under any other name decodes to the same value.
    pub proof fn lemma_ignores_unknown_field(
        o: Seq<(Seq<char>, JsonV)>,
        extra: (Seq<char>, JsonV),
    )
        requires
            extra.0 != "project"@,
            extra.0 != "result"@,
        ensures
            Self::spec_from_json(JsonV::Obj(o.push(extra))) == Self::spec_from_json(JsonV::Obj(o)),
    {
        lemma_field_push(o, "project"@, "project"@, extra);
        lemma_field_push(o, "result"@, "result"@, extra);
    }

    /// A response missing a required field, or holding it at the wrong
    /// type, does not decode.
    pub proof fn lemma_requires_fields(o: Seq<(Seq<char>, JsonV)>)
        requires
            rec_field::<Project>(o, "project"@, "project"@) is None || str_field(
                o,
                "result"@,
                "result"@,
            ) is None,
        ensures
            Self::spec_from_json(JsonV::Obj(o)) is None,
    {
    }
}

} // verus!
