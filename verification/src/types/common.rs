//! Record shapes that more than one endpoint's schema uses.

use vstd::prelude::*;
use crate::json::{
    JVal, JsonV, Number, JsonCodec, view_obj, lemma_view_obj, i64_field, str_field,
    str_arr_field, bool_field, num_field, get_i64, get_str, get_str_vec, get_bool, get_num,
    str_vec_to_json, spec_str_arr, lemma_str_arr_roundtrip, lemma_lookup_found, rec_arr_field,
    get_rec_vec, vec_to_json, spec_seq_to_json, lemma_seq_roundtrip,
};

verus! {

/// One reachable destination function in a fuzzer's annotated configuration.
#[derive(Debug, Clone, PartialEq, Eq)]
pub struct Destination {
    pub accummulated_cyclomatic_complexity: i64,
    pub arg_names: Vec<String>,
    pub arg_types: Vec<String>,
    pub cyclomatic_complexity: i64,
    pub function_name: String,
    pub raw_function_name: String,
    pub return_type: String,
    pub source_file: String,
}

/// The mathematical value of a [`Destination`].
#[verifier::ext_equal]
pub struct DestinationV {
    pub accummulated_cyclomatic_complexity: i64,
    pub arg_names: Seq<Seq<char>>,
    pub arg_types: Seq<Seq<char>>,
    pub cyclomatic_complexity: i64,
    pub function_name: Seq<char>,
    pub raw_function_name: Seq<char>,
    pub return_type: Seq<char>,
    pub source_file: Seq<char>,
}

impl DeepView for Destination {
    type V = DestinationV;

    open spec fn deep_view(&self) -> DestinationV {
        DestinationV {
            accummulated_cyclomatic_complexity: self.accummulated_cyclomatic_complexity,
            arg_names: self.arg_names.deep_view(),
            arg_types: self.arg_types.deep_view(),
            cyclomatic_complexity: self.cyclomatic_complexity,
            function_name: self.function_name@,
            raw_function_name: self.raw_function_name@,
            return_type: self.return_type@,
            source_file: self.source_file@,
        }
    }
}

impl JsonCodec for Destination {
    open spec fn spec_from_json(j: JsonV) -> Option<DestinationV> {
        match j {
            JsonV::Obj(o) => match (
                i64_field(
                    o,
                    "accummulated_cyclomatic_complexity"@,
                    "accummulated-cyclomatic-complexity"@,
                ),
                str_arr_field(o, "arg_names"@, "arg-names"@),
                str_arr_field(o, "arg_types"@, "arg-types"@),
                i64_field(o, "cyclomatic_complexity"@, "cyclomatic-complexity"@),
                str_field(o, "function_name"@, "function-name"@),
                str_field(o, "raw_function_name"@, "raw-function-name"@),
                str_field(o, "return_type"@, "return-type"@),
                str_field(o, "source_file"@, "source-file"@),
            ) {
                (
                    Some(acc),
                    Some(an),
                    Some(at),
                    Some(cc),
                    Some(fnm),
                    Some(rfn),
                    Some(rt),
                    Some(sf),
                ) => Some(
                    DestinationV {
                        accummulated_cyclomatic_complexity: acc,
                        arg_names: an,
                        arg_types: at,
                        cyclomatic_complexity: cc,
                        function_name: fnm,
                        raw_function_name: rfn,
                        return_type: rt,
                        source_file: sf,
                    },
                ),
                _ => None,
            },
            _ => None,
        }
    }

    open spec fn spec_to_json(v: DestinationV) -> JsonV {
        JsonV::Obj(
            seq![
                (
                    "accummulated_cyclomatic_complexity"@,
                    JsonV::Num(Number::Int(v.accummulated_cyclomatic_complexity)),
                ),
                ("arg_names"@, JsonV::Arr(spec_str_arr(v.arg_names))),
                ("arg_types"@, JsonV::Arr(spec_str_arr(v.arg_types))),
                ("cyclomatic_complexity"@, JsonV::Num(Number::Int(v.cyclomatic_complexity))),
                ("function_name"@, JsonV::Str(v.function_name)),
                ("raw_function_name"@, JsonV::Str(v.raw_function_name)),
                ("return_type"@, JsonV::Str(v.return_type)),
                ("source_file"@, JsonV::Str(v.source_file)),
            ],
        )
    }

    fn from_json(j: &JVal) -> (r: Option<Self>) {
        match j {
            JVal::Obj(o) => match (
                get_i64(
                    o,
                    "accummulated_cyclomatic_complexity",
                    "accummulated-cyclomatic-complexity",
                ),
                get_str_vec(o, "arg_names", "arg-names"),
                get_str_vec(o, "arg_types", "arg-types"),
                get_i64(o, "cyclomatic_complexity", "cyclomatic-complexity"),
                get_str(o, "function_name", "function-name"),
                get_str(o, "raw_function_name", "raw-function-name"),
                get_str(o, "return_type", "return-type"),
                get_str(o, "source_file", "source-file"),
            ) {
                (
                    Some(acc),
                    Some(an),
                    Some(at),
                    Some(cc),
                    Some(fnm),
                    Some(rfn),
                    Some(rt),
                    Some(sf),
                ) => Some(
                    Destination {
                        accummulated_cyclomatic_complexity: acc,
                        arg_names: an,
                        arg_types: at,
                        cyclomatic_complexity: cc,
                        function_name: fnm,
                        raw_function_name: rfn,
                        return_type: rt,
                        source_file: sf,
                    },
                ),
                _ => None,
            },
            _ => None,
        }
    }

    fn to_json(&self) -> (r: JVal) {
        let mut o: Vec<(String, JVal)> = Vec::new();
        o.push(
            (
                String::from_str("accummulated_cyclomatic_complexity"),
                JVal::Num(Number::Int(self.accummulated_cyclomatic_complexity)),
            ),
        );
        o.push((String::from_str("arg_names"), str_vec_to_json(&self.arg_names)));
        o.push((String::from_str("arg_types"), str_vec_to_json(&self.arg_types)));
        o.push(
            (
                String::from_str("cyclomatic_complexity"),
                JVal::Num(Number::Int(self.cyclomatic_complexity)),
            ),
        );
        o.push((String::from_str("function_name"), JVal::Str(self.function_name.clone())));
        o.push((String::from_str("raw_function_name"), JVal::Str(self.raw_function_name.clone())));
        o.push((String::from_str("return_type"), JVal::Str(self.return_type.clone())));
        o.push((String::from_str("source_file"), JVal::Str(self.source_file.clone())));
        proof {
            lemma_view_obj(o@);
            assert(view_obj(o@) =~= Self::spec_to_json(self.deep_view())->Obj_0);
        }
        JVal::Obj(o)
    }

    proof fn roundtrip(v: DestinationV) {
        reveal_strlit("accummulated_cyclomatic_complexity");
        reveal_strlit("arg_names");
        reveal_strlit("arg_types");
        reveal_strlit("cyclomatic_complexity");
        reveal_strlit("function_name");
        reveal_strlit("raw_function_name");
        reveal_strlit("return_type");
        reveal_strlit("source_file");
        lemma_str_arr_roundtrip(v.arg_names);
        lemma_str_arr_roundtrip(v.arg_types);
        let o = Self::spec_to_json(v)->Obj_0;
        assert(o[0].0 == "accummulated_cyclomatic_complexity"@);
        assert(o[1].0 == "arg_names"@);
        assert(o[2].0 == "arg_types"@);
        assert(o[3].0 == "cyclomatic_complexity"@);
        assert(o[4].0 == "function_name"@);
        assert(o[5].0 == "raw_function_name"@);
        assert(o[6].0 == "return_type"@);
        assert(o[7].0 == "source_file"@);
        assert("arg_names"@[4] != "arg_types"@[4]);
        assert("return_type"@[0] != "source_file"@[0]);
        lemma_lookup_found(o, 0, "accummulated_cyclomatic_complexity"@);
        lemma_lookup_found(o, 1, "arg_names"@);
        lemma_lookup_found(o, 2, "arg_types"@);
        lemma_lookup_found(o, 3, "cyclomatic_complexity"@);
        lemma_lookup_found(o, 4, "function_name"@);
        lemma_lookup_found(o, 5, "raw_function_name"@);
        lemma_lookup_found(o, 6, "return_type"@);
        lemma_lookup_found(o, 7, "source_file"@);
        assert(Self::spec_from_json(Self::spec_to_json(v)) == Some(v));
    }
}

/// One fuzzer's annotated configuration: the destinations it can reach
/// out of one source file.
#[derive(Debug, Clone, PartialEq, Eq)]
pub struct AnnotatedCfg {
    pub destinations: Vec<Destination>,
    pub fuzzer_name: String,
    pub src_file: String,
}

/// The mathematical value of an [`AnnotatedCfg`].
#[verifier::ext_equal]
pub struct AnnotatedCfgV {
    pub destinations: Seq<DestinationV>,
    pub fuzzer_name: Seq<char>,
    pub src_file: Seq<char>,
}

impl DeepView for AnnotatedCfg {
    type V = AnnotatedCfgV;

    open spec fn deep_view(&self) -> AnnotatedCfgV {
        AnnotatedCfgV {
            destinations: self.destinations.deep_view(),
            fuzzer_name: self.fuzzer_name@,
            src_file: self.src_file@,
        }
    }
}

impl JsonCodec for AnnotatedCfg {
    open spec fn spec_from_json(j: JsonV) -> Option<AnnotatedCfgV> {
        match j {
            JsonV::Obj(o) => match (
                rec_arr_field::<Destination>(o, "destinations"@, "destinations"@),
                str_field(o, "fuzzer_name"@, "fuzzer-name"@),
                str_field(o, "src_file"@, "src-file"@),
            ) {
                (Some(ds), Some(fz), Some(sf)) => Some(
                    AnnotatedCfgV { destinations: ds, fuzzer_name: fz, src_file: sf },
                ),
                _ => None,
            },
            _ => None,
        }
    }

    open spec fn spec_to_json(v: AnnotatedCfgV) -> JsonV {
        JsonV::Obj(
            seq![
                ("destinations"@, JsonV::Arr(spec_seq_to_json::<Destination>(v.destinations))),
                ("fuzzer_name"@, JsonV::Str(v.fuzzer_name)),
                ("src_file"@, JsonV::Str(v.src_file)),
            ],
        )
    }

    fn from_json(j: &JVal) -> (r: Option<Self>) {
        match j {
            JVal::Obj(o) => match (
                get_rec_vec::<Destination>(o, "destinations", "destinations"),
                get_str(o, "fuzzer_name", "fuzzer-name"),
                get_str(o, "src_file", "src-file"),
            ) {
                (Some(ds), Some(fz), Some(sf)) => Some(
                    AnnotatedCfg { destinations: ds, fuzzer_name: fz, src_file: sf },
                ),
                _ => None,
            },
            _ => None,
        }
    }

    fn to_json(&self) -> (r: JVal) {
        let mut o: Vec<(String, JVal)> = Vec::new();
        o.push((String::from_str("destinations"), vec_to_json::<Destination>(&self.destinations)));
        o.push((String::from_str("fuzzer_name"), JVal::Str(self.fuzzer_name.clone())));
        o.push((String::from_str("src_file"), JVal::Str(self.src_file.clone())));
        proof {
            lemma_view_obj(o@);
            assert(view_obj(o@) =~= Self::spec_to_json(self.deep_view())->Obj_0);
        }
        JVal::Obj(o)
    }

    proof fn roundtrip(v: AnnotatedCfgV) {
        reveal_strlit("destinations");
        reveal_strlit("fuzzer_name");
        reveal_strlit("src_file");
        lemma_seq_roundtrip::<Destination>(v.destinations);
        let o = Self::spec_to_json(v)->Obj_0;
        assert(o[0].0 == "destinations"@);
        assert(o[1].0 == "fuzzer_name"@);
        assert(o[2].0 == "src_file"@);
        lemma_lookup_found(o, 0, "destinations"@);
        lemma_lookup_found(o, 1, "fuzzer_name"@);
        lemma_lookup_found(o, 2, "src_file"@);
        assert(Self::spec_from_json(Self::spec_to_json(v)) == Some(v));
    }
}

/// One function descriptor as the coverage endpoints report it.
#[derive(Debug, Clone, PartialEq, Eq)]
pub struct Function {
    pub accummulated_complexity: i64,
    pub function_argument_names: Vec<String>,
    pub function_arguments: Vec<String>,
    pub function_filename: String,
    pub function_name: String,
    pub is_reached: bool,
    pub raw_function_name: String,
    pub reached_by_fuzzers: Vec<String>,
    pub return_type: String,
    pub runtime_coverage_percent: Number,
}

/// The mathematical value of a [`Function`].
#[verifier::ext_equal]
pub struct FunctionV {
    pub accummulated_complexity: i64,
    pub function_argument_names: Seq<Seq<char>>,
    pub function_arguments: Seq<Seq<char>>,
    pub function_filename: Seq<char>,
    pub function_name: Seq<char>,
    pub is_reached: bool,
    pub raw_function_name: Seq<char>,
    pub reached_by_fuzzers: Seq<Seq<char>>,
    pub return_type: Seq<char>,
    pub runtime_coverage_percent: Number,
}

impl DeepView for Function {
    type V = FunctionV;

    open spec fn deep_view(&self) -> FunctionV {
        FunctionV {
            accummulated_complexity: self.accummulated_complexity,
            function_argument_names: self.function_argument_names.deep_view(),
            function_arguments: self.function_arguments.deep_view(),
            function_filename: self.function_filename@,
            function_name: self.function_name@,
            is_reached: self.is_reached,
            raw_function_name: self.raw_function_name@,
            reached_by_fuzzers: self.reached_by_fuzzers.deep_view(),
            return_type: self.return_type@,
            runtime_coverage_percent: self.runtime_coverage_percent,
        }
    }
}

impl JsonCodec for Function {
    open spec fn spec_from_json(j: JsonV) -> Option<FunctionV> {
        match j {
            JsonV::Obj(o) => match (
                i64_field(o, "accummulated_complexity"@, "accummulated-complexity"@),
                str_arr_field(o, "function_argument_names"@, "function-argument-names"@),
                str_arr_field(o, "function_arguments"@, "function-arguments"@),
                str_field(o, "function_filename"@, "function-filename"@),
                str_field(o, "function_name"@, "function-name"@),
                bool_field(o, "is_reached"@, "is-reached"@),
                str_field(o, "raw_function_name"@, "raw-function-name"@),
                str_arr_field(o, "reached_by_fuzzers"@, "reached-by-fuzzers"@),
                str_field(o, "return_type"@, "return-type"@),
                num_field(o, "runtime_coverage_percent"@, "runtime-coverage-percent"@),
            ) {
                (
                    Some(acc),
                    Some(fan),
                    Some(fa),
                    Some(ff),
                    Some(fnm),
                    Some(ir),
                    Some(rfn),
                    Some(rbf),
                    Some(rt),
                    Some(rcp),
                ) => Some(
                    FunctionV {
                        accummulated_complexity: acc,
                        function_argument_names: fan,
                        function_arguments: fa,
                        function_filename: ff,
                        function_name: fnm,
                        is_reached: ir,
                        raw_function_name: rfn,
                        reached_by_fuzzers: rbf,
                        return_type: rt,
                        runtime_coverage_percent: rcp,
                    },
                ),
                _ => None,
            },
            _ => None,
        }
    }

    open spec fn spec_to_json(v: FunctionV) -> JsonV {
        JsonV::Obj(
            seq![
                ("accummulated_complexity"@, JsonV::Num(Number::Int(v.accummulated_complexity))),
                ("function_argument_names"@, JsonV::Arr(spec_str_arr(v.function_argument_names))),
                ("function_arguments"@, JsonV::Arr(spec_str_arr(v.function_arguments))),
                ("function_filename"@, JsonV::Str(v.function_filename)),
                ("function_name"@, JsonV::Str(v.function_name)),
                ("is_reached"@, JsonV::Bool(v.is_reached)),
                ("raw_function_name"@, JsonV::Str(v.raw_function_name)),
                ("reached_by_fuzzers"@, JsonV::Arr(spec_str_arr(v.reached_by_fuzzers))),
                ("return_type"@, JsonV::Str(v.return_type)),
                ("runtime_coverage_percent"@, JsonV::Num(v.runtime_coverage_percent)),
            ],
        )
    }

    fn from_json(j: &JVal) -> (r: Option<Self>) {
        match j {
            JVal::Obj(o) => match (
                get_i64(o, "accummulated_complexity", "accummulated-complexity"),
                get_str_vec(o, "function_argument_names", "function-argument-names"),
                get_str_vec(o, "function_arguments", "function-arguments"),
                get_str(o, "function_filename", "function-filename"),
                get_str(o, "function_name", "function-name"),
                get_bool(o, "is_reached", "is-reached"),
                get_str(o, "raw_function_name", "raw-function-name"),
                get_str_vec(o, "reached_by_fuzzers", "reached-by-fuzzers"),
                get_str(o, "return_type", "return-type"),
                get_num(o, "runtime_coverage_percent", "runtime-coverage-percent"),
            ) {
                (
                    Some(acc),
                    Some(fan),
                    Some(fa),
                    Some(ff),
                    Some(fnm),
                    Some(ir),
                    Some(rfn),
                    Some(rbf),
                    Some(rt),
                    Some(rcp),
                ) => Some(
                    Function {
                        accummulated_complexity: acc,
                        function_argument_names: fan,
                        function_arguments: fa,
                        function_filename: ff,
                        function_name: fnm,
                        is_reached: ir,
                        raw_function_name: rfn,
                        reached_by_fuzzers: rbf,
                        return_type: rt,
                        runtime_coverage_percent: rcp,
                    },
                ),
                _ => None,
            },
            _ => None,
        }
    }

    fn to_json(&self) -> (r: JVal) {
        let mut o: Vec<(String, JVal)> = Vec::new();
        o.push(
            (
                String::from_str("accummulated_complexity"),
                JVal::Num(Number::Int(self.accummulated_complexity)),
            ),
        );
        o.push(
            (
                String::from_str("function_argument_names"),
                str_vec_to_json(&self.function_argument_names),
            ),
        );
        o.push((String::from_str("function_arguments"), str_vec_to_json(&self.function_arguments)));
        o.push((String::from_str("function_filename"), JVal::Str(self.function_filename.clone())));
        o.push((String::from_str("function_name"), JVal::Str(self.function_name.clone())));
        o.push((String::from_str("is_reached"), JVal::Bool(self.is_reached)));
        o.push((String::from_str("raw_function_name"), JVal::Str(self.raw_function_name.clone())));
        o.push(
            (String::from_str("reached_by_fuzzers"), str_vec_to_json(&self.reached_by_fuzzers)),
        );
        o.push((String::from_str("return_type"), JVal::Str(self.return_type.clone())));
        o.push(
            (
                String::from_str("runtime_coverage_percent"),
                JVal::Num(self.runtime_coverage_percent),
            ),
        );
        proof {
            lemma_view_obj(o@);
            assert(view_obj(o@) =~= Self::spec_to_json(self.deep_view())->Obj_0);
        }
        JVal::Obj(o)
    }

    proof fn roundtrip(v: FunctionV) {
        reveal_strlit("accummulated_complexity");
        reveal_strlit("function_argument_names");
        reveal_strlit("function_arguments");
        reveal_strlit("function_filename");
        reveal_strlit("function_name");
        reveal_strlit("is_reached");
        reveal_strlit("raw_function_name");
        reveal_strlit("reached_by_fuzzers");
        reveal_strlit("return_type");
        reveal_strlit("runtime_coverage_percent");
        lemma_str_arr_roundtrip(v.function_argument_names);
        lemma_str_arr_roundtrip(v.function_arguments);
        lemma_str_arr_roundtrip(v.reached_by_fuzzers);
        let o = Self::spec_to_json(v)->Obj_0;
        assert(o[0].0 == "accummulated_complexity"@);
        assert(o[1].0 == "function_argument_names"@);
        assert(o[2].0 == "function_arguments"@);
        assert(o[3].0 == "function_filename"@);
        assert(o[4].0 == "function_name"@);
        assert(o[5].0 == "is_reached"@);
        assert(o[6].0 == "raw_function_name"@);
        assert(o[7].0 == "reached_by_fuzzers"@);
        assert(o[8].0 == "return_type"@);
        assert(o[9].0 == "runtime_coverage_percent"@);
        assert("function_filename"@[0] != "raw_function_name"@[0]);
        assert("function_arguments"@[0] != "reached_by_fuzzers"@[0]);
        assert("accummulated_complexity"@[0] != "function_argument_names"@[0]);
        lemma_lookup_found(o, 0, "accummulated_complexity"@);
        lemma_lookup_found(o, 1, "function_argument_names"@);
        lemma_lookup_found(o, 2, "function_arguments"@);
        lemma_lookup_found(o, 3, "function_filename"@);
        lemma_lookup_found(o, 4, "function_name"@);
        lemma_lookup_found(o, 5, "is_reached"@);
        lemma_lookup_found(o, 6, "raw_function_name"@);
        lemma_lookup_found(o, 7, "reached_by_fuzzers"@);
        lemma_lookup_found(o, 8, "return_type"@);
        lemma_lookup_found(o, 9, "runtime_coverage_percent"@);
        assert(Self::spec_from_json(Self::spec_to_json(v)) == Some(v));
    }
}

} // verus!
