//! The schema of the `annotated-cfg` endpoint.

use vstd::prelude::*;
use crate::json::{
    JVal, JsonV, JsonCodec, view_json, view_obj, lemma_view_obj, str_field, get_str, rec_field,
    rec_arr_field, get_rec, get_rec_vec, vec_to_json, spec_seq_to_json, lemma_seq_roundtrip,
    lemma_lookup_found, lemma_field_push,
};

pub use crate::types::common::{AnnotatedCfg, AnnotatedCfgV, Destination, DestinationV};

verus! {

/// The payload of the `annotated-cfg` endpoint: a project's name and the
/// annotated configuration of each of its fuzzers.
#[derive(Debug, Clone, PartialEq, Eq)]
pub struct Project {
    pub annotated_cfg: Vec<AnnotatedCfg>,
    pub name: String,
}

/// The mathematical value of a [`Project`].
#[verifier::ext_equal]
pub struct ProjectV {
    pub annotated_cfg: Seq<AnnotatedCfgV>,
    pub name: Seq<char>,
}

impl DeepView for Project {
    type V = ProjectV;

    open spec fn deep_view(&self) -> ProjectV {
        ProjectV { annotated_cfg: self.annotated_cfg.deep_view(), name: self.name@ }
    }
}

impl JsonCodec for Project {
    open spec fn spec_from_json(j: JsonV) -> Option<ProjectV> {
        match j {
            JsonV::Obj(o) => match (
                rec_arr_field::<AnnotatedCfg>(o, "annotated_cfg"@, "annotated-cfg"@),
                str_field(o, "name"@, "name"@),
            ) {
                (Some(ac), Some(nm)) => Some(ProjectV { annotated_cfg: ac, name: nm }),
                _ => None,
            },
            _ => None,
        }
    }

    open spec fn spec_to_json(v: ProjectV) -> JsonV {
        JsonV::Obj(
            seq![
                ("annotated_cfg"@, JsonV::Arr(spec_seq_to_json::<AnnotatedCfg>(v.annotated_cfg))),
                ("name"@, JsonV::Str(v.name)),
            ],
        )
    }

    fn from_json(j: &JVal) -> (r: Option<Self>) {
        match j {
            JVal::Obj(o) => match (
                get_rec_vec::<AnnotatedCfg>(o, "annotated_cfg", "annotated-cfg"),
                get_str(o, "name", "name"),
            ) {
                (Some(ac), Some(nm)) => Some(Project { annotated_cfg: ac, name: nm }),
                _ => None,
            },
            _ => None,
        }
    }

    fn to_json(&self) -> (r: JVal) {
        let mut o: Vec<(String, JVal)> = Vec::new();
        o.push(
            (String::from_str("annotated_cfg"), vec_to_json::<AnnotatedCfg>(&self.annotated_cfg)),
        );
        o.push((String::from_str("name"), JVal::Str(self.name.clone())));
        proof {
            lemma_view_obj(o@);
            assert(view_obj(o@) =~= Self::spec_to_json(self.deep_view())->Obj_0);
        }
        JVal::Obj(o)
    }

    proof fn roundtrip(v: ProjectV) {
        reveal_strlit("annotated_cfg");
        reveal_strlit("name");
        lemma_seq_roundtrip::<AnnotatedCfg>(v.annotated_cfg);
        let o = Self::spec_to_json(v)->Obj_0;
        assert(o[0].0 == "annotated_cfg"@);
        assert(o[1].0 == "name"@);
        lemma_lookup_found(o, 0, "annotated_cfg"@);
        lemma_lookup_found(o, 1, "name"@);
        assert(Self::spec_from_json(Self::spec_to_json(v)) == Some(v));
    }
}

/// The response envelope of the `annotated-cfg` endpoint.
#[derive(Debug, Clone, PartialEq, Eq)]
pub struct Root {
    pub project: Project,
    pub result: String,
}

/// The mathematical value of a [`Root`].
#[verifier::ext_equal]
pub struct RootV {
    pub project: ProjectV,
    pub result: Seq<char>,
}

impl DeepView for Root {
    type V = RootV;

    open spec fn deep_view(&self) -> RootV {
        RootV { project: self.project.deep_view(), result: self.result@ }
    }
}

impl Root {
    /// The mathematical decode of the envelope.
    pub open spec fn spec_from_json(j: JsonV) -> Option<RootV> {
        match j {
            JsonV::Obj(o) => match (
                rec_field::<Project>(o, "project"@, "project"@),
                str_field(o, "result"@, "result"@),
            ) {
                (Some(p), Some(res)) => Some(RootV { project: p, result: res }),
                _ => None,
            },
            _ => None,
        }
    }

    /// Decodes the envelope from a JSON document.
    pub fn from_json(j: &JVal) -> (r: Option<Self>)
        ensures
            match r {
                Some(x) => Self::spec_from_json(view_json(*j)) == Some(x.deep_view()),
                None => Self::spec_from_json(view_json(*j)) is None,
            },
    {
        match j {
            JVal::Obj(o) => match (
                get_rec::<Project>(o, "project", "project"),
                get_str(o, "result", "result"),
            ) {
                (Some(p), Some(res)) => Some(Root { project: p, result: res }),
                _ => None,
            },
            _ => None,
        }
    }

    /// Decoding ignores fields it does not know: a response carrying an
    /// extra field under any other name decodes to the same value.
    pub proof fn lemma_ignores_unknown_field(
        o: Seq<(Seq<char>, JsonV)>,
        extra: (Seq<char>, JsonV),
    )
        requires
            extra.0 != "project"@,
            extra.0 != "result"@,
        ensures
            Self::spec_from_json(JsonV::Obj(o.push(extra))) == Self::spec_from_json(JsonV::Obj(o)),
    {
        lemma_field_push(o, "project"@, "project"@, extra);
        lemma_field_push(o, "result"@, "result"@, extra);
    }

    /// A response missing a required field, or holding it at the wrong
    /// type, does not decode.
    pub proof fn lemma_requires_fields(o: Seq<(Seq<char>, JsonV)>)
        requires
            rec_field::<Project>(o, "project"@, "project"@) is None || str_field(
                o,
                "result"@,
                "result"@,
            ) is None,
        ensures
            Self::spec_from_json(JsonV::Obj(o)) is None,
    {
    }
}

} // verus!
