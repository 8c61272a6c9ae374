//! The schema of the `far-reach-but-low-coverage` endpoint.

use vstd::prelude::*;
use crate::json::{
    JVal, JsonV, view_json, str_field, get_str, rec_arr_field, get_rec_vec, lemma_field_push,
};

pub use crate::types::common::{Function, FunctionV};

verus! {

/// The response envelope of the `far-reach-but-low-coverage` endpoint:
/// the functions worth targeting, and the status discriminator.
#[derive(Debug, Clone, PartialEq, Eq)]
pub struct Root {
    pub functions: Vec<Function>,
    pub result: String,
}

/// The mathematical value of a [`Root`].
#[verifier::ext_equal]
pub struct RootV {
    pub functions: Seq<FunctionV>,
    pub result: Seq<char>,
}

impl DeepView for Root {
    type V = RootV;

    open spec fn deep_view(&self) -> RootV {
        RootV { functions: self.functions.deep_view(), result: self.result@ }
    }
}

impl Root {
    /// The mathematical decode of the envelope.
    pub open spec fn spec_from_json(j: JsonV) -> Option<RootV> {
        match j {
            JsonV::Obj(o) => match (
                rec_arr_field::<Function>(o, "functions"@, "functions"@),
                str_field(o, "result"@, "result"@),
            ) {
                (Some(fs), Some(res)) => Some(RootV { functions: fs, result: res }),
                _ => None,
            },
            _ => None,
        }
    }

    /// Decodes the envelope from a JSON document.
    pub fn from_json(j: &JVal) -> (r: Option<Self>)
        ensures
            match r {
                Some(x) => Self::spec_from_json(view_json(*j)) == Some(x.deep_view()),
                None => Self::spec_from_json(view_json(*j)) is None,
            },
    {
        match j {
            JVal::Obj(o) => match (
                get_rec_vec::<Function>(o, "functions", "functions"),
                get_str(o, "result", "result"),
            ) {
                (Some(fs), Some(res)) => Some(Root { functions: fs, result: res }),
                _ => None,
            },
            _ => None,
        }
    }

    /// Decoding ignores fields it does not know: a response carrying an
    /// extra field under any other name decodes to the same value.
    pub proof fn lemma_ignores_unknown_field(
        o: Seq<(Seq<char>, JsonV)>,
        extra: (Seq<char>, JsonV),
    )
        requires
            extra.0 != "functions"@,
            extra.0 != "result"@,
        ensures
            Self::spec_from_json(JsonV::Obj(o.push(extra))) == Self::spec_from_json(JsonV::Obj(o)),
    {
        lemma_field_push(o, "functions"@, "functions"@, extra);
        lemma_field_push(o, "result"@, "result"@, extra);
    }

    /// A response missing a required field, or holding it at the wrong
    /// type, does not decode.
    pub proof fn lemma_requires_fields(o: Seq<(Seq<char>, JsonV)>)
        requires
            rec_arr_field::<Function>(o, "functions"@, "functions"@) is None || str_field(
                o,
                "result"@,
                "result"@,
            ) is None,
        ensures
            Self::spec_from_json(JsonV::Obj(o)) is None,
    {
    }
}

} // verus!
