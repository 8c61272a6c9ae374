//! A small JSON document model.
//!
//! Response bodies are parsed (through `serde_json`) into [`JVal`], and the
//! typed schemas in [`crate::types`] are decoded from that tree by verified
//! code.  The mathematical shape of a document is [`JsonV`]; every contract
//! about decoding speaks of `JsonV` values.

use vstd::prelude::*;
use serde_json::Value;

verus! {

/// A JSON number as the wire carries it: a signed integer, an unsigned
/// integer too large for `i64`, or a floating-point value kept as its
/// IEEE-754 bit pattern.  This client treats coverage percentages and the
/// like as opaque data, so the bits are never interpreted here.
#[derive(Clone, Copy, Debug, PartialEq, Eq, Structural)]
pub enum Number {
    Int(i64),
    UInt(u64),
    Float(u64),
}

/// A JSON document.  An object keeps its fields as a list of pairs in the
/// order the parser handed them out; lookups take the first match.
#[derive(Debug, PartialEq, Eq)]
pub enum JVal {
    Null,
    Bool(bool),
    Num(Number),
    Str(String),
    Arr(Vec<JVal>),
    Obj(Vec<(String, JVal)>),
}

/// The mathematical shape of a JSON document.
pub enum JsonV {
    Null,
    Bool(bool),
    Num(Number),
    Str(Seq<char>),
    Arr(Seq<JsonV>),
    Obj(Seq<(Seq<char>, JsonV)>),
}

/// The abstraction of a [`JVal`] tree as a [`JsonV`] tree.
pub open spec fn view_json(j: JVal) -> JsonV
    decreases j,
{
    match j {
        JVal::Null => JsonV::Null,
        JVal::Bool(b) => JsonV::Bool(b),
        JVal::Num(n) => JsonV::Num(n),
        JVal::Str(s) => JsonV::Str(s@),
        JVal::Arr(a) => JsonV::Arr(view_arr(a@)),
        JVal::Obj(o) => JsonV::Obj(view_obj(o@)),
    }
}

/// The elementwise abstraction of a JSON array's contents.
pub open spec fn view_arr(s: Seq<JVal>) -> Seq<JsonV>
    decreases s,
{
    if s.len() == 0 {
        Seq::empty()
    } else {
        view_arr(s.drop_last()).push(view_json(s.last()))
    }
}

/// The elementwise abstraction of a JSON object's field list.
pub open spec fn view_obj(s: Seq<(String, JVal)>) -> Seq<(Seq<char>, JsonV)>
    decreases s,
{
    if s.len() == 0 {
        Seq::empty()
    } else {
        view_obj(s.drop_last()).push((s.last().0@, view_json(s.last().1)))
    }
}

pub proof fn lemma_view_arr(s: Seq<JVal>)
    ensures
        view_arr(s).len() == s.len(),
        forall|i: int| 0 <= i < s.len() ==> view_arr(s)[i] == view_json(s[i]),
    decreases s.len(),
{
    if s.len() > 0 {
        lemma_view_arr(s.drop_last());
    }
}

pub proof fn lemma_view_obj(s: Seq<(String, JVal)>)
    ensures
        view_obj(s).len() == s.len(),
        forall|i: int| 0 <= i < s.len() ==> view_obj(s)[i] == (s[i].0@, view_json(s[i].1)),
    decreases s.len(),
{
    if s.len() > 0 {
        lemma_view_obj(s.drop_last());
    }
}

/// The first field of `o` named `k`, if any.
pub open spec fn spec_lookup(o: Seq<(Seq<char>, JsonV)>, k: Seq<char>) -> Option<JsonV>
    decreases o,
{
    if o.len() == 0 {
        None
    } else if o[0].0 == k {
        Some(o[0].1)
    } else {
        spec_lookup(o.drop_first(), k)
    }
}

/// The field named `k1`, or failing that `k2`.  The service spells some
/// field names with hyphens where the schema uses underscores, so every
/// multi-word field is looked up under both spellings.
pub open spec fn spec_field(o: Seq<(Seq<char>, JsonV)>, k1: Seq<char>, k2: Seq<char>) -> Option<
    JsonV,
> {
    match spec_lookup(o, k1) {
        Some(v) => Some(v),
        None => spec_lookup(o, k2),
    }
}

/// Appending a field under any other name never changes what a lookup finds:
/// this is what lets a decoder ignore unknown fields.
pub proof fn lemma_lookup_push(o: Seq<(Seq<char>, JsonV)>, k: Seq<char>, extra: (Seq<char>, JsonV))
    requires
        extra.0 != k,
    ensures
        spec_lookup(o.push(extra), k) == spec_lookup(o, k),
    decreases o.len(),
{
    if o.len() == 0 {
        assert(o.push(extra).drop_first() =~= o);
    } else {
        assert(o.push(extra).drop_first() =~= o.drop_first().push(extra));
        lemma_lookup_push(o.drop_first(), k, extra);
    }
}

pub proof fn lemma_field_push(
    o: Seq<(Seq<char>, JsonV)>,
    k1: Seq<char>,
    k2: Seq<char>,
    extra: (Seq<char>, JsonV),
)
    requires
        extra.0 != k1,
        extra.0 != k2,
    ensures
        spec_field(o.push(extra), k1, k2) == spec_field(o, k1, k2),
{
    lemma_lookup_push(o, k1, extra);
    lemma_lookup_push(o, k2, extra);
}

/// A lookup finds the first field whose name matches.
pub proof fn lemma_lookup_found(o: Seq<(Seq<char>, JsonV)>, i: int, k: Seq<char>)
    requires
        0 <= i < o.len(),
        o[i].0 == k,
        forall|j: int| 0 <= j < i ==> (#[trigger] o[j]).0 != k,
    ensures
        spec_lookup(o, k) == Some(o[i].1),
    decreases i,
{
    if i > 0 {
        lemma_lookup_found(o.drop_first(), i - 1, k);
    }
}

/// The string under the given field, if the field is there and is a string.
pub open spec fn str_field(o: Seq<(Seq<char>, JsonV)>, k1: Seq<char>, k2: Seq<char>) -> Option<
    Seq<char>,
> {
    match spec_field(o, k1, k2) {
        Some(JsonV::Str(s)) => Some(s),
        _ => None,
    }
}

/// The signed integer under the given field.
pub open spec fn i64_field(o: Seq<(Seq<char>, JsonV)>, k1: Seq<char>, k2: Seq<char>) -> Option<
    i64,
> {
    match spec_field(o, k1, k2) {
        Some(JsonV::Num(Number::Int(i))) => Some(i),
        _ => None,
    }
}

/// The number under the given field, whatever representation it came in.
pub open spec fn num_field(o: Seq<(Seq<char>, JsonV)>, k1: Seq<char>, k2: Seq<char>) -> Option<
    Number,
> {
    match spec_field(o, k1, k2) {
        Some(JsonV::Num(n)) => Some(n),
        _ => None,
    }
}

/// The boolean under the given field.
pub open spec fn bool_field(o: Seq<(Seq<char>, JsonV)>, k1: Seq<char>, k2: Seq<char>) -> Option<
    bool,
> {
    match spec_field(o, k1, k2) {
        Some(JsonV::Bool(b)) => Some(b),
        _ => None,
    }
}

/// The array under the given field.
pub open spec fn arr_field(o: Seq<(Seq<char>, JsonV)>, k1: Seq<char>, k2: Seq<char>) -> Option<
    Seq<JsonV>,
> {
    match spec_field(o, k1, k2) {
        Some(JsonV::Arr(a)) => Some(a),
        _ => None,
    }
}

/// The object under the given field.
pub open spec fn obj_field(o: Seq<(Seq<char>, JsonV)>, k1: Seq<char>, k2: Seq<char>) -> Option<
    Seq<(Seq<char>, JsonV)>,
> {
    match spec_field(o, k1, k2) {
        Some(JsonV::Obj(m)) => Some(m),
        _ => None,
    }
}

/// The strings of a JSON array, if every element is a string.
pub open spec fn spec_str_seq(a: Seq<JsonV>) -> Option<Seq<Seq<char>>>
    decreases a,
{
    if a.len() == 0 {
        Some(Seq::empty())
    } else {
        match (spec_str_seq(a.drop_last()), a.last()) {
            (Some(ss), JsonV::Str(s)) => Some(ss.push(s)),
            _ => None,
        }
    }
}

/// The strings under the given field, if it holds an array of strings.
pub open spec fn str_arr_field(o: Seq<(Seq<char>, JsonV)>, k1: Seq<char>, k2: Seq<char>) -> Option<
    Seq<Seq<char>>,
> {
    match arr_field(o, k1, k2) {
        Some(a) => spec_str_seq(a),
        None => None,
    }
}

pub proof fn lemma_str_seq_none(a: Seq<JsonV>, i: int)
    requires
        0 <= i < a.len(),
        !(a[i] is Str),
    ensures
        spec_str_seq(a) is None,
    decreases a.len(),
{
    if i < a.len() - 1 {
        lemma_str_seq_none(a.drop_last(), i);
    }
}

/// The JSON array holding the given strings.
pub open spec fn spec_str_arr(ss: Seq<Seq<char>>) -> Seq<JsonV>
    decreases ss,
{
    if ss.len() == 0 {
        Seq::empty()
    } else {
        spec_str_arr(ss.drop_last()).push(JsonV::Str(ss.last()))
    }
}

pub proof fn lemma_str_arr_roundtrip(ss: Seq<Seq<char>>)
    ensures
        spec_str_seq(spec_str_arr(ss)) == Some(ss),
    decreases ss,
{
    if ss.len() > 0 {
        lemma_str_arr_roundtrip(ss.drop_last());
        assert(spec_str_arr(ss).drop_last() =~= spec_str_arr(ss.drop_last()));
        assert(ss.drop_last().push(ss.last()) =~= ss);
    }
}

fn lookup<'a>(o: &'a Vec<(String, JVal)>, k: &String) -> (r: Option<&'a JVal>)
    ensures
        match r {
            Some(v) => spec_lookup(view_obj(o@), k@) == Some(view_json(*v)),
            None => spec_lookup(view_obj(o@), k@) is None,
        },
{
    proof {
        lemma_view_obj(o@);
    }
    let ghost vo = view_obj(o@);
    let mut i: usize = 0;
    proof {
        assert(vo.skip(0) =~= vo);
    }
    while i < o.len()
        invariant
            i <= o.len(),
            vo == view_obj(o@),
            vo.len() == o@.len(),
            forall|j: int| 0 <= j < o@.len() ==> vo[j] == (o@[j].0@, view_json(o@[j].1)),
            spec_lookup(vo, k@) == spec_lookup(vo.skip(i as int), k@),
        decreases o.len() - i,
    {
        if o[i].0 == *k {
            assert(vo.skip(i as int)[0] == vo[i as int]);
            return Some(&o[i].1);
        }
        proof {
            assert(vo.skip(i as int)[0] == vo[i as int]);
            assert(vo.skip(i as int).drop_first() =~= vo.skip(i as int + 1));
        }
        i += 1;
    }
    proof {
        assert(vo.skip(o@.len() as int) =~= Seq::<(Seq<char>, JsonV)>::empty());
    }
    None
}

fn field<'a>(o: &'a Vec<(String, JVal)>, k1: &str, k2: &str) -> (r: Option<&'a JVal>)
    ensures
        match r {
            Some(v) => spec_field(view_obj(o@), k1@, k2@) == Some(view_json(*v)),
            None => spec_field(view_obj(o@), k1@, k2@) is None,
        },
{
    let key1 = String::from_str(k1);
    let r1 = lookup(o, &key1);
    match r1 {
        Some(v) => Some(v),
        None => {
            let key2 = String::from_str(k2);
            lookup(o, &key2)
        },
    }
}

/// The string field named `k1` (or `k2`), cloned out of the document.
pub fn get_str(o: &Vec<(String, JVal)>, k1: &str, k2: &str) -> (r: Option<String>)
    ensures
        match r {
            Some(s) => str_field(view_obj(o@), k1@, k2@) == Some(s@),
            None => str_field(view_obj(o@), k1@, k2@) is None,
        },
{
    match field(o, k1, k2) {
        Some(v) => match v {
            JVal::Str(s) => Some(s.clone()),
            _ => None,
        },
        None => None,
    }
}

/// The signed integer field named `k1` (or `k2`).
pub fn get_i64(o: &Vec<(String, JVal)>, k1: &str, k2: &str) -> (r: Option<i64>)
    ensures
        match r {
            Some(i) => i64_field(view_obj(o@), k1@, k2@) == Some(i),
            None => i64_field(view_obj(o@), k1@, k2@) is None,
        },
{
    match field(o, k1, k2) {
        Some(v) => match v {
            JVal::Num(Number::Int(i)) => Some(*i),
            _ => None,
        },
        None => None,
    }
}

/// The numeric field named `k1` (or `k2`), in whatever representation.
pub fn get_num(o: &Vec<(String, JVal)>, k1: &str, k2: &str) -> (r: Option<Number>)
    ensures
        match r {
            Some(n) => num_field(view_obj(o@), k1@, k2@) == Some(n),
            None => num_field(view_obj(o@), k1@, k2@) is None,
        },
{
    match field(o, k1, k2) {
        Some(v) => match v {
            JVal::Num(n) => Some(*n),
            _ => None,
        },
        None => None,
    }
}

/// The boolean field named `k1` (or `k2`).
pub fn get_bool(o: &Vec<(String, JVal)>, k1: &str, k2: &str) -> (r: Option<bool>)
    ensures
        match r {
            Some(b) => bool_field(view_obj(o@), k1@, k2@) == Some(b),
            None => bool_field(view_obj(o@), k1@, k2@) is None,
        },
{
    match field(o, k1, k2) {
        Some(v) => match v {
            JVal::Bool(b) => Some(*b),
            _ => None,
        },
        None => None,
    }
}

/// The array field named `k1` (or `k2`), borrowed from the document.
pub fn get_arr<'a>(o: &'a Vec<(String, JVal)>, k1: &str, k2: &str) -> (r: Option<&'a Vec<JVal>>)
    ensures
        match r {
            Some(a) => arr_field(view_obj(o@), k1@, k2@) == Some(view_arr(a@)),
            None => arr_field(view_obj(o@), k1@, k2@) is None,
        },
{
    match field(o, k1, k2) {
        Some(v) => match v {
            JVal::Arr(a) => Some(a),
            _ => None,
        },
        None => None,
    }
}

/// The object field named `k1` (or `k2`), borrowed from the document.
pub fn get_obj<'a>(o: &'a Vec<(String, JVal)>, k1: &str, k2: &str) -> (r: Option<
    &'a Vec<(String, JVal)>,
>)
    ensures
        match r {
            Some(m) => obj_field(view_obj(o@), k1@, k2@) == Some(view_obj(m@)),
            None => obj_field(view_obj(o@), k1@, k2@) is None,
        },
{
    match field(o, k1, k2) {
        Some(v) => match v {
            JVal::Obj(m) => Some(m),
            _ => None,
        },
        None => None,
    }
}

/// The field named `k1` (or `k2`) as a vector of strings.
pub fn get_str_vec(o: &Vec<(String, JVal)>, k1: &str, k2: &str) -> (r: Option<Vec<String>>)
    ensures
        match r {
            Some(v) => str_arr_field(view_obj(o@), k1@, k2@) == Some(v.deep_view()),
            None => str_arr_field(view_obj(o@), k1@, k2@) is None,
        },
{
    match field(o, k1, k2) {
        Some(v) => match v {
            JVal::Arr(a) => {
                proof {
                    lemma_view_arr(a@);
                }
                let ghost va = view_arr(a@);
                let mut out: Vec<String> = Vec::new();
                let mut i: usize = 0;
                proof {
                    assert(out.deep_view() =~= Seq::<Seq<char>>::empty());
                    assert(va.take(0) =~= Seq::<JsonV>::empty());
                }
                while i < a.len()
                    invariant
                        i <= a.len(),
                        va == view_arr(a@),
                        va.len() == a@.len(),
                        forall|j: int| 0 <= j < a@.len() ==> va[j] == view_json(a@[j]),
                        spec_str_seq(va.take(i as int)) == Some(out.deep_view()),
                        spec_field(view_obj(o@), k1@, k2@) == Some(JsonV::Arr(va)),
                    decreases a.len() - i,
                {
                    match &a[i] {
                        JVal::Str(s) => {
                            let ghost prev = out.deep_view();
                            out.push(s.clone());
                            proof {
                                assert(out.deep_view() =~= prev.push(s@));
                                assert(va.take(i as int + 1).drop_last() =~= va.take(i as int));
                            }
                        },
                        _ => {
                            proof {
                                lemma_str_seq_none(va, i as int);
                            }
                            return None;
                        },
                    }
                    i += 1;
                }
                proof {
                    assert(va.take(a@.len() as int) =~= va);
                }
                Some(out)
            },
            _ => None,
        },
        None => None,
    }
}

/// The JSON array holding the given strings, as a document node.
pub fn str_vec_to_json(v: &Vec<String>) -> (r: JVal)
    ensures
        view_json(r) == JsonV::Arr(spec_str_arr(v.deep_view())),
{
    let mut out: Vec<JVal> = Vec::new();
    let mut i: usize = 0;
    proof {
        assert(view_arr(out@) =~= spec_str_arr(v.deep_view().take(0)));
    }
    while i < v.len()
        invariant
            i <= v.len(),
            view_arr(out@) == spec_str_arr(v.deep_view().take(i as int)),
        decreases v.len() - i,
    {
        let ghost prevout = out@;
        out.push(JVal::Str(v[i].clone()));
        proof {
            assert(out@.drop_last() =~= prevout);
            assert(v.deep_view().take(i as int + 1).drop_last() =~= v.deep_view().take(i as int));
            assert(v.deep_view()[i as int] == v@[i as int]@);
            assert(view_json(out@.last()) == JsonV::Str(v@[i as int]@));
        }
        i += 1;
    }
    proof {
        assert(v.deep_view().take(v@.len() as int) =~= v.deep_view());
    }
    JVal::Arr(out)
}

/// A record type that decodes from, and encodes to, a JSON node.
///
/// `spec_from_json` and `spec_to_json` are the mathematical codec; the
/// executable pair is proved to match it, and `roundtrip` is the law that
/// encoding a record and decoding it back yields the record.
pub trait JsonCodec: DeepView + Sized {
    /// The mathematical decode of one record from a JSON node.
    spec fn spec_from_json(j: JsonV) -> Option<Self::V>;

    /// The JSON node a record encodes to.
    spec fn spec_to_json(v: Self::V) -> JsonV;

    fn from_json(j: &JVal) -> (r: Option<Self>)
        ensures
            match r {
                Some(x) => Self::spec_from_json(view_json(*j)) == Some(x.deep_view()),
                None => Self::spec_from_json(view_json(*j)) is None,
            },
    ;

    fn to_json(&self) -> (r: JVal)
        ensures
            view_json(r) == Self::spec_to_json(self.deep_view()),
    ;

    /// Encoding a record and decoding it back yields the record.
    proof fn roundtrip(v: Self::V)
        ensures
            Self::spec_from_json(Self::spec_to_json(v)) == Some(v),
    ;
}

/// The records of a JSON array, if every element decodes.
pub open spec fn spec_seq_from_json<T: JsonCodec>(a: Seq<JsonV>) -> Option<Seq<T::V>>
    decreases a,
{
    if a.len() == 0 {
        Some(Seq::empty())
    } else {
        match (spec_seq_from_json::<T>(a.drop_last()), T::spec_from_json(a.last())) {
            (Some(s), Some(v)) => Some(s.push(v)),
            _ => None,
        }
    }
}

/// The JSON array holding the given records.
pub open spec fn spec_seq_to_json<T: JsonCodec>(s: Seq<T::V>) -> Seq<JsonV>
    decreases s,
{
    if s.len() == 0 {
        Seq::empty()
    } else {
        spec_seq_to_json::<T>(s.drop_last()).push(T::spec_to_json(s.last()))
    }
}

pub proof fn lemma_seq_from_json_none<T: JsonCodec>(a: Seq<JsonV>, i: int)
    requires
        0 <= i < a.len(),
        T::spec_from_json(a[i]) is None,
    ensures
        spec_seq_from_json::<T>(a) is None,
    decreases a.len(),
{
    if i < a.len() - 1 {
        lemma_seq_from_json_none::<T>(a.drop_last(), i);
    }
}

pub proof fn lemma_seq_roundtrip<T: JsonCodec>(s: Seq<T::V>)
    ensures
        spec_seq_from_json::<T>(spec_seq_to_json::<T>(s)) == Some(s),
    decreases s.len(),
{
    if s.len() > 0 {
        lemma_seq_roundtrip::<T>(s.drop_last());
        T::roundtrip(s.last());
        assert(spec_seq_to_json::<T>(s).drop_last() =~= spec_seq_to_json::<T>(s.drop_last()));
        assert(s.drop_last().push(s.last()) =~= s);
    }
}

/// Decodes every element of a JSON array as a `T` record.
pub fn vec_from_json<T: JsonCodec>(a: &Vec<JVal>) -> (r: Option<Vec<T>>)
    ensures
        match r {
            Some(v) => spec_seq_from_json::<T>(view_arr(a@)) == Some(v.deep_view()),
            None => spec_seq_from_json::<T>(view_arr(a@)) is None,
        },
{
    proof {
        lemma_view_arr(a@);
    }
    let ghost va = view_arr(a@);
    let mut out: Vec<T> = Vec::new();
    let mut i: usize = 0;
    proof {
        assert(out.deep_view() =~= Seq::<T::V>::empty());
        assert(va.take(0) =~= Seq::<JsonV>::empty());
    }
    while i < a.len()
        invariant
            i <= a.len(),
            va == view_arr(a@),
            va.len() == a@.len(),
            forall|j: int| 0 <= j < a@.len() ==> va[j] == view_json(a@[j]),
            spec_seq_from_json::<T>(va.take(i as int)) == Some(out.deep_view()),
        decreases a.len() - i,
    {
        match T::from_json(&a[i]) {
            Some(x) => {
                let ghost prev = out.deep_view();
                let ghost xv = x.deep_view();
                out.push(x);
                proof {
                    assert(out.deep_view() =~= prev.push(xv));
                    assert(va.take(i as int + 1).drop_last() =~= va.take(i as int));
                }
            },
            None => {
                proof {
                    lemma_seq_from_json_none::<T>(va, i as int);
                }
                return None;
            },
        }
        i += 1;
    }
    proof {
        assert(va.take(a@.len() as int) =~= va);
    }
    Some(out)
}

/// Encodes every record of a vector into a JSON array node.
pub fn vec_to_json<T: JsonCodec>(v: &Vec<T>) -> (r: JVal)
    ensures
        view_json(r) == JsonV::Arr(spec_seq_to_json::<T>(v.deep_view())),
{
    let mut out: Vec<JVal> = Vec::new();
    let mut i: usize = 0;
    proof {
        assert(view_arr(out@) =~= spec_seq_to_json::<T>(v.deep_view().take(0)));
    }
    while i < v.len()
        invariant
            i <= v.len(),
            view_arr(out@) == spec_seq_to_json::<T>(v.deep_view().take(i as int)),
        decreases v.len() - i,
    {
        let ghost prevout = out@;
        let e = v[i].to_json();
        out.push(e);
        proof {
            assert(out@.drop_last() =~= prevout);
            assert(v.deep_view().take(i as int + 1).drop_last() =~= v.deep_view().take(i as int));
            assert(v.deep_view()[i as int] == v@[i as int].deep_view());
        }
        i += 1;
    }
    proof {
        assert(v.deep_view().take(v@.len() as int) =~= v.deep_view());
    }
    JVal::Arr(out)
}

/// The record decoded from the object under the given field.
pub open spec fn rec_field<T: JsonCodec>(
    o: Seq<(Seq<char>, JsonV)>,
    k1: Seq<char>,
    k2: Seq<char>,
) -> Option<T::V> {
    match spec_field(o, k1, k2) {
        Some(x) => T::spec_from_json(x),
        None => None,
    }
}

/// The records decoded from the array under the given field.
pub open spec fn rec_arr_field<T: JsonCodec>(
    o: Seq<(Seq<char>, JsonV)>,
    k1: Seq<char>,
    k2: Seq<char>,
) -> Option<Seq<T::V>> {
    match arr_field(o, k1, k2) {
        Some(a) => spec_seq_from_json::<T>(a),
        None => None,
    }
}

/// The field named `k1` (or `k2`) decoded as one `T` record.
pub fn get_rec<T: JsonCodec>(o: &Vec<(String, JVal)>, k1: &str, k2: &str) -> (r: Option<T>)
    ensures
        match r {
            Some(x) => rec_field::<T>(view_obj(o@), k1@, k2@) == Some(x.deep_view()),
            None => rec_field::<T>(view_obj(o@), k1@, k2@) is None,
        },
{
    match field(o, k1, k2) {
        Some(v) => T::from_json(v),
        None => None,
    }
}

/// The field named `k1` (or `k2`) decoded as a vector of `T` records.
pub fn get_rec_vec<T: JsonCodec>(o: &Vec<(String, JVal)>, k1: &str, k2: &str) -> (r: Option<
    Vec<T>,
>)
    ensures
        match r {
            Some(v) => rec_arr_field::<T>(view_obj(o@), k1@, k2@) == Some(v.deep_view()),
            None => rec_arr_field::<T>(view_obj(o@), k1@, k2@) is None,
        },
{
    match get_arr(o, k1, k2) {
        Some(a) => vec_from_json::<T>(a),
        None => None,
    }
}

/// What `serde_json` parses the given bytes into, if they are valid JSON.
/// The parse is a pure function of the bytes alone.
pub uninterp spec fn json_of(s: Seq<u8>) -> Option<JsonV>;

#[verifier::external_type_specification]
#[verifier::external_body]
pub struct ExValue(serde_json::Value);

/// Relies on `serde_json::Value` only for its variants: each one is moved
/// into the matching [`JVal`] variant, a number read as an integer where
/// one fits and as floating-point bits otherwise, and nested values
/// converted the same way.
#[verifier::external_body]
fn jval_from_value(v: Value) -> JVal {
    match v {
        Value::Null => JVal::Null,
        Value::Bool(b) => JVal::Bool(b),
        Value::Number(n) => JVal::Num(
            if let Some(i) = n.as_i64() { Number::Int(i) }
            else if let Some(u) = n.as_u64() { Number::UInt(u) }
            else { Number::Float(n.as_f64().map(|x| x.to_bits()).unwrap_or(0)) },
        ),
        Value::String(s) => JVal::Str(s),
        Value::Array(a) => JVal::Arr(a.into_iter().map(jval_from_value).collect()),
        Value::Object(m) => JVal::Obj(m.into_iter().map(|(k, x)| (k, jval_from_value(x))).collect()),
    }
}

/// Relies on `serde_json::from_slice`: whether the bytes parse, and what
/// document they parse into, depends on the bytes alone.
#[verifier::external_body]
pub fn parse_json(bytes: &[u8]) -> (r: Option<JVal>)
    ensures
        match r {
            Some(v) => json_of(bytes@) == Some(view_json(v)),
            None => json_of(bytes@) is None,
        },
{
    match serde_json::from_slice::<serde_json::Value>(bytes) {
        Ok(v) => Some(jval_from_value(v)),
        Err(_) => None,
    }
}

} // verus!
