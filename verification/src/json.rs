//! The document model consumed by type inference.

use vstd::prelude::*;

verus! {

/// A JSON document, reduced to what type inference reads: a number keeps only
/// its integral-versus-fractional classification, an object keeps its fields
/// in insertion order.
pub enum JsonValue {
    Null,
    Bool(bool),
    Number { integral: bool },
    Str(String),
    Array(Vec<JsonValue>),
    Object(Vec<(String, JsonValue)>),
}

/// Mathematical model of a `JsonValue`: strings become character sequences,
/// vectors become sequences.
pub enum JsonSpec {
    Null,
    Bool(bool),
    Number { integral: bool },
    Str(Seq<char>),
    Array(Seq<JsonSpec>),
    Object(Seq<(Seq<char>, JsonSpec)>),
}

pub open spec fn view_json(v: JsonValue) -> JsonSpec
    decreases v,
{
    match v {
        JsonValue::Null => JsonSpec::Null,
        JsonValue::Bool(b) => JsonSpec::Bool(b),
        JsonValue::Number { integral } => JsonSpec::Number { integral },
        JsonValue::Str(s) => JsonSpec::Str(s@),
        JsonValue::Array(vs) => JsonSpec::Array(view_json_seq(vs@)),
        JsonValue::Object(fs) => JsonSpec::Object(view_json_fields(fs@)),
    }
}

pub open spec fn view_json_seq(vs: Seq<JsonValue>) -> Seq<JsonSpec>
    decreases vs,
{
    if vs.len() == 0 {
        Seq::empty()
    } else {
        seq![view_json(vs[0])] + view_json_seq(vs.drop_first())
    }
}

pub open spec fn view_json_fields(fs: Seq<(String, JsonValue)>) -> Seq<(Seq<char>, JsonSpec)>
    decreases fs,
{
    if fs.len() == 0 {
        Seq::empty()
    } else {
        seq![(fs[0].0@, view_json(fs[0].1))] + view_json_fields(fs.drop_first())
    }
}

impl View for JsonValue {
    type V = JsonSpec;

    open spec fn view(&self) -> JsonSpec {
        view_json(*self)
    }
}

pub proof fn lemma_view_json_seq_index(vs: Seq<JsonValue>, i: int)
    ensures
        view_json_seq(vs).len() == vs.len(),
        0 <= i < vs.len() ==> view_json_seq(vs)[i] == view_json(vs[i]),
    decreases vs.len(),
{
    if vs.len() > 0 {
        lemma_view_json_seq_index(vs.drop_first(), i - 1);
    }
}

pub proof fn lemma_view_json_fields_index(fs: Seq<(String, JsonValue)>, i: int)
    ensures
        view_json_fields(fs).len() == fs.len(),
        0 <= i < fs.len() ==> view_json_fields(fs)[i] == (fs[i].0@, view_json(fs[i].1)),
    decreases fs.len(),
{
    if fs.len() > 0 {
        lemma_view_json_fields_index(fs.drop_first(), i - 1);
    }
}

} // verus!
