//! The schema of the `branch-blockers` endpoint.

use vstd::prelude::*;
use crate::json::{
    JVal, JsonV, Number, JsonCodec, view_json, view_obj, lemma_view_obj, i64_field, str_field,
    str_arr_field, get_i64, get_str, get_str_vec, str_vec_to_json, spec_str_arr,
    lemma_str_arr_roundtrip, lemma_lookup_found, lemma_field_push, rec_arr_field, get_rec_vec,
};

verus! {

/// One branch blocker: a branch whose untaken side hides the given
/// functions from the project's fuzzers.
#[derive(Debug, Clone, PartialEq, Eq)]
pub struct Blocker {
    pub blocked_unique_functions: Vec<String>,
    pub function_name: String,
    pub project_name: String,
    pub source_file: String,
    pub src_linenumber: String,
    pub unique_blocked_coverage: i64,
}

/// The mathematical value of a [`Blocker`].
#[verifier::ext_equal]
pub struct BlockerV {
    pub blocked_unique_functions: Seq<Seq<char>>,
    pub function_name: Seq<char>,
    pub project_name: Seq<char>,
    pub source_file: Seq<char>,
    pub src_linenumber: Seq<char>,
    pub unique_blocked_coverage: i64,
}

impl DeepView for Blocker {
    type V = BlockerV;

    open spec fn deep_view(&self) -> BlockerV {
        BlockerV {
            blocked_unique_functions: self.blocked_unique_functions.deep_view(),
            function_name: self.function_name@,
            project_name: self.project_name@,
            source_file: self.source_file@,
            src_linenumber: self.src_linenumber@,
            unique_blocked_coverage: self.unique_blocked_coverage,
        }
    }
}

impl JsonCodec for Blocker {
    open spec fn spec_from_json(j: JsonV) -> Option<BlockerV> {
        match j {
            JsonV::Obj(o) => match (
                str_arr_field(o, "blocked_unique_functions"@, "blocked-unique-functions"@),
                str_field(o, "function_name"@, "function-name"@),
                str_field(o, "project_name"@, "project-name"@),
                str_field(o, "source_file"@, "source-file"@),
                str_field(o, "src_linenumber"@, "src-linenumber"@),
                i64_field(o, "unique_blocked_coverage"@, "unique-blocked-coverage"@),
            ) {
                (Some(bf), Some(fnm), Some(pn), Some(sf), Some(sl), Some(ub)) => Some(
                    BlockerV {
                        blocked_unique_functions: bf,
                        function_name: fnm,
                        project_name: pn,
                        source_file: sf,
                        src_linenumber: sl,
                        unique_blocked_coverage: ub,
                    },
                ),
                _ => None,
            },
            _ => None,
        }
    }

    open spec fn spec_to_json(v: BlockerV) -> JsonV {
        JsonV::Obj(
            seq![
                (
                    "blocked_unique_functions"@,
                    JsonV::Arr(spec_str_arr(v.blocked_unique_functions)),
                ),
                ("function_name"@, JsonV::Str(v.function_name)),
                ("project_name"@, JsonV::Str(v.project_name)),
                ("source_file"@, JsonV::Str(v.source_file)),
                ("src_linenumber"@, JsonV::Str(v.src_linenumber)),
                ("unique_blocked_coverage"@, JsonV::Num(Number::Int(v.unique_blocked_coverage))),
            ],
        )
    }

    fn from_json(j: &JVal) -> (r: Option<Self>) {
        match j {
            JVal::Obj(o) => match (
                get_str_vec(o, "blocked_unique_functions", "blocked-unique-functions"),
                get_str(o, "function_name", "function-name"),
                get_str(o, "project_name", "project-name"),
                get_str(o, "source_file", "source-file"),
                get_str(o, "src_linenumber", "src-linenumber"),
                get_i64(o, "unique_blocked_coverage", "unique-blocked-coverage"),
            ) {
                (Some(bf), Some(fnm), Some(pn), Some(sf), Some(sl), Some(ub)) => Some(
                    Blocker {
                        blocked_unique_functions: bf,
                        function_name: fnm,
                        project_name: pn,
                        source_file: sf,
                        src_linenumber: sl,
                        unique_blocked_coverage: ub,
                    },
                ),
                _ => None,
            },
            _ => None,
        }
    }

    fn to_json(&self) -> (r: JVal) {
        let mut o: Vec<(String, JVal)> = Vec::new();
        o.push(
            (
                String::from_str("blocked_unique_functions"),
                str_vec_to_json(&self.blocked_unique_functions),
            ),
        );
        o.push((String::from_str("function_name"), JVal::Str(self.function_name.clone())));
        o.push((String::from_str("project_name"), JVal::Str(self.project_name.clone())));
        o.push((String::from_str("source_file"), JVal::Str(self.source_file.clone())));
        o.push((String::from_str("src_linenumber"), JVal::Str(self.src_linenumber.clone())));
        o.push(
            (
                String::from_str("unique_blocked_coverage"),
                JVal::Num(Number::Int(self.unique_blocked_coverage)),
            ),
        );
        proof {
            lemma_view_obj(o@);
            assert(view_obj(o@) =~= Self::spec_to_json(self.deep_view())->Obj_0);
        }
        JVal::Obj(o)
    }

    proof fn roundtrip(v: BlockerV) {
        reveal_strlit("blocked_unique_functions");
        reveal_strlit("function_name");
        reveal_strlit("project_name");
        reveal_strlit("source_file");
        reveal_strlit("src_linenumber");
        reveal_strlit("unique_blocked_coverage");
        lemma_str_arr_roundtrip(v.blocked_unique_functions);
        let o = Self::spec_to_json(v)->Obj_0;
        assert(o[0].0 == "blocked_unique_functions"@);
        assert(o[1].0 == "function_name"@);
        assert(o[2].0 == "project_name"@);
        assert(o[3].0 == "source_file"@);
        assert(o[4].0 == "src_linenumber"@);
        assert(o[5].0 == "unique_blocked_coverage"@);
        lemma_lookup_found(o, 0, "blocked_unique_functions"@);
        lemma_lookup_found(o, 1, "function_name"@);
        lemma_lookup_found(o, 2, "project_name"@);
        lemma_lookup_found(o, 3, "source_file"@);
        lemma_lookup_found(o, 4, "src_linenumber"@);
        lemma_lookup_found(o, 5, "unique_blocked_coverage"@);
        assert(Self::spec_from_json(Self::spec_to_json(v)) == Some(v));
    }
}

/// The response envelope of the `branch-blockers` endpoint.
#[derive(Debug, Clone, PartialEq, Eq)]
pub struct Root {
    pub project_blockers: Vec<Blocker>,
    pub result: String,
}

/// The mathematical value of a [`Root`].
#[verifier::ext_equal]
pub struct RootV {
    pub project_blockers: Seq<BlockerV>,
    pub result: Seq<char>,
}

impl DeepView for Root {
    type V = RootV;

    open spec fn deep_view(&self) -> RootV {
        RootV { project_blockers: self.project_blockers.deep_view(), result: self.result@ }
    }
}

impl Root {
    /// The mathematical decode of the envelope.  The service spells the
    /// payload field `project-blockers`; both spellings are accepted.
    pub open spec fn spec_from_json(j: JsonV) -> Option<RootV> {
        match j {
            JsonV::Obj(o) => match (
                rec_arr_field::<Blocker>(o, "project_blockers"@, "project-blockers"@),
                str_field(o, "result"@, "result"@),
            ) {
                (Some(bs), Some(res)) => Some(RootV { project_blockers: bs, result: res }),
                _ => None,
            },
            _ => None,
        }
    }

    /// Decodes the envelope from a JSON document.
    pub fn from_json(j: &JVal) -> (r: Option<Self>)
        ensures
            match r {
                Some(x) => Self::spec_from_json(view_json(*j)) == Some(x.deep_view()),
                None => Self::spec_from_json(view_json(*j)) is None,
            },
    {
        match j {
            JVal::Obj(o) => match (
                get_rec_vec::<Blocker>(o, "project_blockers", "project-blockers"),
                get_str(o, "result", "result"),
            ) {
                (Some(bs), Some(res)) => Some(Root { project_blockers: bs, result: res }),
                _ => None,
            },
            _ => None,
        }
    }

    /// Decoding ignores fields it does not know: a response carrying an
    /// extra field under any other name decodes to the same value.
    pub proof fn lemma_ignores_unknown_field(
        o: Seq<(Seq<char>, JsonV)>,
        extra: (Seq<char>, JsonV),
    )
        requires
            extra.0 != "project_blockers"@,
            extra.0 != "project-blockers"@,
            extra.0 != "result"@,
        ensures
            Self::spec_from_json(JsonV::Obj(o.push(extra))) == Self::spec_from_json(JsonV::Obj(o)),
    {
        lemma_field_push(o, "project_blockers"@, "project-blockers"@, extra);
        lemma_field_push(o, "result"@, "result"@, extra);
    }

    /// A response missing a required field, or holding it at the wrong
    /// type, does not decode.
    pub proof fn lemma_requires_fields(o: Seq<(Seq<char>, JsonV)>)
        requires
            rec_arr_field::<Blocker>(o, "project_blockers"@, "project-blockers"@) is None
                || str_field(o, "result"@, "result"@) is None,
        ensures
            Self::spec_from_json(JsonV::Obj(o)) is None,
    {
    }
}

} // verus!
