//! The recursive type-inference engine: the dispatch over value kinds, the
//! array homogeneity merger, and the record generator.

use vstd::prelude::*;

use crate::json::{
    lemma_view_json_fields_index, lemma_view_json_seq_index, view_json_fields, view_json_seq,
    JsonSpec, JsonValue,
};
use crate::naming::{snake_case, snake_case_spec, type_case, type_case_spec};
use crate::types::{
    defs_view, records_view, render_type_spec, view_field_seq, view_type, Options, RecordDef, RecordSpec,
    TypeExpr, TypeSpec,
};

verus! {

/// What inference returns for one value: its type expression and the record
/// definitions this value introduced, if any.
pub type Inferred = (TypeSpec, Option<Seq<RecordSpec>>);

/// The type expression and definition set inferred for a value met at `path`.
pub open spec fn infer_spec(path: Seq<char>, v: JsonSpec, serde: bool) -> Inferred
    decreases v, 2int,
{
    match v {
        JsonSpec::Null => (TypeSpec::NullableJson, None),
        JsonSpec::Bool(_) => (TypeSpec::Boolean, None),
        JsonSpec::Number { integral } => (
            if integral {
                TypeSpec::Integer
            } else {
                TypeSpec::Float
            },
            None,
        ),
        JsonSpec::Str(_) => (TypeSpec::Str, None),
        JsonSpec::Array(vs) => infer_array_spec(path, vs, serde),
        JsonSpec::Object(fs) => infer_object_spec(path, fs, serde),
    }
}

/// Each array element inferred independently, under the array's own path.
pub open spec fn infer_elems_spec(path: Seq<char>, vs: Seq<JsonSpec>, serde: bool) -> Seq<
    Inferred,
>
    decreases vs, 0int,
{
    if vs.len() == 0 {
        Seq::empty()
    } else {
        infer_elems_spec(path, vs.drop_last(), serde).push(infer_spec(path, vs.last(), serde))
    }
}

/// Whether every element's rendered type expression equals the first one's,
/// i.e. whether the set of distinct rendered element types has one member.
pub open spec fn all_same_type(rs: Seq<Inferred>) -> bool {
    forall|i: int|
        0 <= i < rs.len() ==> #[trigger] render_type_spec(rs[i].0) == render_type_spec(rs[0].0)
}

/// The first definition set any element produced, scanning left to right;
/// definition sets of later elements are discarded.
pub open spec fn first_defs(rs: Seq<Inferred>) -> Option<Seq<RecordSpec>>
    decreases rs.len(),
{
    if rs.len() == 0 {
        None
    } else {
        match first_defs(rs.drop_last()) {
            Some(ds) => Some(ds),
            None => rs.last().1,
        }
    }
}

/// The array homogeneity merger: a non-empty array whose elements all render
/// to one type expression is a collection of that type and propagates the
/// first definition set encountered; any other array — the empty one
/// included — is a collection of the untyped passthrough type and propagates
/// no definitions.
pub open spec fn infer_array_spec(path: Seq<char>, vs: Seq<JsonSpec>, serde: bool) -> Inferred
    decreases vs, 1int,
{
    let rs = infer_elems_spec(path, vs, serde);
    if vs.len() > 0 && all_same_type(rs) {
        (TypeSpec::Collection(Box::new(rs[0].0)), first_defs(rs))
    } else {
        (TypeSpec::Collection(Box::new(TypeSpec::UntypedJson)), None)
    }
}

/// Each object field's value inferred with the field's own key as its path.
pub open spec fn infer_fields_spec(fs: Seq<(Seq<char>, JsonSpec)>, serde: bool) -> Seq<Inferred>
    decreases fs, 0int,
{
    if fs.len() == 0 {
        Seq::empty()
    } else {
        infer_fields_spec(fs.drop_last(), serde).push(
            infer_spec(fs.last().0, fs.last().1, serde),
        )
    }
}

/// All definition sets the fields produced, concatenated in field order.
pub open spec fn concat_defs(rs: Seq<Inferred>) -> Seq<RecordSpec>
    decreases rs.len(),
{
    if rs.len() == 0 {
        Seq::empty()
    } else {
        concat_defs(rs.drop_last()) + (match rs.last().1 {
            Some(ds) => ds,
            None => Seq::empty(),
        })
    }
}

/// The field list of the record generated for an object: each key in snake
/// form, with the type inferred for its value under the key as path.
pub open spec fn record_fields_spec(fs: Seq<(Seq<char>, JsonSpec)>, serde: bool) -> Seq<
    (Seq<char>, TypeSpec),
>
    decreases fs, 0int,
{
    if fs.len() == 0 {
        Seq::empty()
    } else {
        record_fields_spec(fs.drop_last(), serde).push(
            (snake_case_spec(fs.last().0), infer_spec(fs.last().0, fs.last().1, serde).0),
        )
    }
}

/// The record generator: an object met at `path` becomes one record named
/// after the path, whose fields mirror the keys in insertion order, emitted
/// before the definitions its field values introduced.
pub open spec fn infer_object_spec(
    path: Seq<char>,
    fs: Seq<(Seq<char>, JsonSpec)>,
    serde: bool,
) -> Inferred
    decreases fs, 1int,
{
    let name = type_case_spec(path);
    let rec = RecordSpec {
        name: name,
        fields: record_fields_spec(fs, serde),
        serde: serde,
    };
    (TypeSpec::Record(name), Some(seq![rec] + concat_defs(infer_fields_spec(fs, serde))))
}

pub proof fn lemma_infer_elems_index(path: Seq<char>, vs: Seq<JsonSpec>, serde: bool, i: int)
    ensures
        infer_elems_spec(path, vs, serde).len() == vs.len(),
        0 <= i < vs.len() ==> infer_elems_spec(path, vs, serde)[i] == infer_spec(
            path,
            vs[i],
            serde,
        ),
    decreases vs.len(),
{
    if vs.len() > 0 {
        lemma_infer_elems_index(path, vs.drop_last(), serde, i);
    }
}

pub proof fn lemma_infer_fields_index(fs: Seq<(Seq<char>, JsonSpec)>, serde: bool, i: int)
    ensures
        infer_fields_spec(fs, serde).len() == fs.len(),
        0 <= i < fs.len() ==> infer_fields_spec(fs, serde)[i] == infer_spec(
            fs[i].0,
            fs[i].1,
            serde,
        ),
    decreases fs.len(),
{
    if fs.len() > 0 {
        lemma_infer_fields_index(fs.drop_last(), serde, i);
    }
}

pub proof fn lemma_record_fields_index(fs: Seq<(Seq<char>, JsonSpec)>, serde: bool, i: int)
    ensures
        record_fields_spec(fs, serde).len() == fs.len(),
        0 <= i < fs.len() ==> record_fields_spec(fs, serde)[i] == (
            snake_case_spec(fs[i].0),
            infer_spec(fs[i].0, fs[i].1, serde).0,
        ),
    decreases fs.len(),
{
    if fs.len() > 0 {
        lemma_record_fields_index(fs.drop_last(), serde, i);
    }
}

proof fn lemma_all_same_type_push(rs: Seq<Inferred>, x: Inferred)
    ensures
        all_same_type(rs.push(x)) == (rs.len() == 0 || (all_same_type(rs) && render_type_spec(
            x.0,
        ) == render_type_spec(rs[0].0))),
{
    let rs2 = rs.push(x);
    if rs.len() == 0 {
        assert(rs2[0] == x);
        assert(all_same_type(rs2));
    } else {
        assert(rs2[0] == rs[0]);
        if all_same_type(rs2) {
            assert(render_type_spec(rs2[rs.len() as int].0) == render_type_spec(rs2[0].0));
            assert forall|i: int| 0 <= i < rs.len() implies #[trigger] render_type_spec(rs[i].0)
                == render_type_spec(rs[0].0) by {
                assert(rs2[i] == rs[i]);
                assert(render_type_spec(rs2[i].0) == render_type_spec(rs2[0].0));
            }
        }
        if all_same_type(rs) && render_type_spec(x.0) == render_type_spec(rs[0].0) {
            assert forall|i: int| 0 <= i < rs2.len() implies #[trigger] render_type_spec(rs2[i].0)
                == render_type_spec(rs2[0].0) by {
                if i < rs.len() {
                    assert(rs2[i] == rs[i]);
                    assert(render_type_spec(rs[i].0) == render_type_spec(rs[0].0));
                } else {
                    assert(rs2[i] == x);
                }
            }
        }
    }
}

/// The dispatch over value kinds, total over the document model.
pub fn generate_type_from_value(options: &Options, path: &str, value: &JsonValue) -> (r: (
    TypeExpr,
    Option<Vec<RecordDef>>,
))
    ensures
        r.0@ == infer_spec(path@, value@, options.emit_serialization_support).0,
        defs_view(r.1) == infer_spec(path@, value@, options.emit_serialization_support).1,
    decreases *value, 2int,
{
    match value {
        JsonValue::Null => (TypeExpr::NullableJson, None),
        JsonValue::Bool(_) => (TypeExpr::Boolean, None),
        JsonValue::Number { integral } => (
            if *integral {
                TypeExpr::Integer
            } else {
                TypeExpr::Float
            },
            None,
        ),
        JsonValue::Str(_) => (TypeExpr::Str, None),
        JsonValue::Array(vs) => generate_type_for_array(options, path, vs),
        JsonValue::Object(fs) => generate_struct_from_object(options, path, fs),
    }
}

/// The array homogeneity merger over the elements of one array.
pub fn generate_type_for_array(options: &Options, path: &str, values: &Vec<JsonValue>) -> (r: (
    TypeExpr,
    Option<Vec<RecordDef>>,
))
    ensures
        r.0@ == infer_array_spec(
            path@,
            view_json_seq(values@),
            options.emit_serialization_support,
        ).0,
        defs_view(r.1) == infer_array_spec(
            path@,
            view_json_seq(values@),
            options.emit_serialization_support,
        ).1,
    decreases values@, 1int,
{
    let ghost vs = view_json_seq(values@);
    let ghost serde = options.emit_serialization_support;
    let mut first_ty: Option<TypeExpr> = None;
    let mut first_rendered = String::new();
    let mut same = true;
    let mut found_defs: Option<Vec<RecordDef>> = None;
    let n = values.len();
    proof {
        lemma_view_json_seq_index(values@, 0);
    }
    let mut i: usize = 0;
    while i < n
        invariant
            vs == view_json_seq(values@),
            serde == options.emit_serialization_support,
            vs.len() == n,
            n == values@.len(),
            i <= n,
            same == all_same_type(infer_elems_spec(path@, vs.take(i as int), serde)),
            defs_view(found_defs) == first_defs(infer_elems_spec(path@, vs.take(i as int), serde)),
            i > 0 ==> (first_ty matches Some(t) && t@ == infer_elems_spec(
                path@,
                vs.take(i as int),
                serde,
            )[0].0 && first_rendered@ == render_type_spec(t@)),
            i == 0 ==> first_ty is None,
        decreases n - i,
    {
        proof {
            lemma_view_json_seq_index(values@, i as int);
        }
        let (t, d) = generate_type_from_value(options, path, &values[i]);
        let rendered = t.render();
        proof {
            let rs = infer_elems_spec(path@, vs.take(i as int), serde);
            let x = infer_spec(path@, vs[i as int], serde);
            assert(vs.take(i as int + 1).drop_last() =~= vs.take(i as int));
            assert(vs.take(i as int + 1).last() == vs[i as int]);
            assert(infer_elems_spec(path@, vs.take(i as int + 1), serde) == rs.push(x));
            assert(rs.push(x).drop_last() =~= rs);
            assert(rs.push(x).last() == x);
            assert(first_defs(rs.push(x)) == match first_defs(rs) {
                Some(ds) => Some(ds),
                None => x.1,
            });
            lemma_all_same_type_push(rs, x);
            if i > 0 {
                assert(rs.push(x)[0] == rs[0]);
            } else {
                assert(rs.push(x)[0] == x);
            }
        }
        match &first_ty {
            None => {
                first_rendered = rendered;
                first_ty = Some(t);
            },
            Some(_) => {
                if !(first_rendered == rendered) {
                    same = false;
                }
            },
        }
        if found_defs.is_none() {
            if let Some(dv) = d {
                found_defs = Some(dv);
            }
        }
        i = i + 1;
    }
    proof {
        assert(vs.take(n as int) =~= vs);
    }
    if n > 0 && same {
        let elem_ty = match first_ty {
            Some(t) => t,
            None => TypeExpr::UntypedJson,
        };
        proof {
            let rs = infer_elems_spec(path@, vs, serde);
            assert(all_same_type(rs));
            assert(elem_ty@ == rs[0].0);
            assert(view_type(TypeExpr::Collection(Box::new(elem_ty))) == TypeSpec::Collection(
                Box::new(rs[0].0),
            ));
            assert(infer_array_spec(path@, vs, serde).0 == TypeSpec::Collection(
                Box::new(rs[0].0),
            ));
        }
        (TypeExpr::Collection(Box::new(elem_ty)), found_defs)
    } else {
        proof {
            let rs = infer_elems_spec(path@, vs, serde);
            assert(!(vs.len() > 0 && all_same_type(rs)));
            assert(infer_array_spec(path@, vs, serde).0 == TypeSpec::Collection(
                Box::new(TypeSpec::UntypedJson),
            ));
            assert(view_type(TypeExpr::UntypedJson) == TypeSpec::UntypedJson);
            assert(view_type(TypeExpr::Collection(Box::new(TypeExpr::UntypedJson)))
                == TypeSpec::Collection(Box::new(TypeSpec::UntypedJson)));
        }
        (TypeExpr::Collection(Box::new(TypeExpr::UntypedJson)), None)
    }
}

/// The record generator over the fields of one object.
pub fn generate_struct_from_object(
    options: &Options,
    path: &str,
    fields: &Vec<(String, JsonValue)>,
) -> (r: (TypeExpr, Option<Vec<RecordDef>>))
    ensures
        r.0@ == infer_object_spec(
            path@,
            view_json_fields(fields@),
            options.emit_serialization_support,
        ).0,
        defs_view(r.1) == infer_object_spec(
            path@,
            view_json_fields(fields@),
            options.emit_serialization_support,
        ).1,
    decreases fields@, 1int,
{
    let ghost fs = view_json_fields(fields@);
    let ghost serde = options.emit_serialization_support;
    let record_name = type_case(path);
    let mut field_list: Vec<(String, TypeExpr)> = Vec::new();
    let mut nested: Vec<RecordDef> = Vec::new();
    let n = fields.len();
    proof {
        lemma_view_json_fields_index(fields@, 0);
    }
    let mut i: usize = 0;
    while i < n
        invariant
            fs == view_json_fields(fields@),
            serde == options.emit_serialization_support,
            fs.len() == n,
            n == fields@.len(),
            i <= n,
            view_field_seq(field_list@) == record_fields_spec(fs.take(i as int), serde),
            records_view(nested@) == concat_defs(infer_fields_spec(fs.take(i as int), serde)),
        decreases n - i,
    {
        proof {
            lemma_view_json_fields_index(fields@, i as int);
        }
        let key_owned = &fields[i].0;
        let field_name = snake_case(key_owned.as_str());
        let (ft, fd) = generate_type_from_value(options, key_owned.as_str(), &fields[i].1);
        proof {
            let rs = infer_fields_spec(fs.take(i as int), serde);
            let x = infer_spec(fs[i as int].0, fs[i as int].1, serde);
            assert(fs.take(i as int + 1).drop_last() =~= fs.take(i as int));
            assert(fs.take(i as int + 1).last() == fs[i as int]);
            assert(infer_fields_spec(fs.take(i as int + 1), serde) == rs.push(x));
            assert(rs.push(x).drop_last() =~= rs);
            assert(rs.push(x).last() == x);
            assert(concat_defs(rs.push(x)) == concat_defs(rs) + (match x.1 {
                Some(ds) => ds,
                None => Seq::<RecordSpec>::empty(),
            }));
        }
        let ghost old_field_list = field_list@;
        field_list.push((field_name, ft));
        proof {
            let x = infer_spec(fs[i as int].0, fs[i as int].1, serde);
            assert(record_fields_spec(fs.take(i as int + 1), serde) == record_fields_spec(
                fs.take(i as int),
                serde,
            ).push((snake_case_spec(fs[i as int].0), x.0)));
            assert(field_name@ == snake_case_spec(fs[i as int].0));
            assert(ft@ == x.0);
            assert(view_field_seq(field_list@) =~= view_field_seq(old_field_list).push(
                (field_name@, ft@),
            ));
        }
        match fd {
            Some(mut ds) => {
                let ghost old_nested = nested@;
                let ghost ds_snap = ds@;
                nested.append(&mut ds);
                proof {
                    assert(records_view(nested@) =~= records_view(old_nested) + records_view(
                        ds_snap,
                    ));
                }
            },
            None => {
                proof {
                    let rs = infer_fields_spec(fs.take(i as int), serde);
                    assert(records_view(nested@) =~= concat_defs(rs) + Seq::<RecordSpec>::empty());
                }
            },
        }
        i = i + 1;
    }
    proof {
        assert(fs.take(n as int) =~= fs);
    }
    let rec = RecordDef {
        name: record_name.clone(),
        fields: field_list,
        serde: options.emit_serialization_support,
    };
    let mut all: Vec<RecordDef> = Vec::new();
    all.push(rec);
    let ghost nested_snap = nested@;
    let ghost rec_snap = rec@;
    all.append(&mut nested);
    proof {
        let full = infer_fields_spec(fs, serde);
        let rec_s = RecordSpec {
            name: type_case_spec(path@),
            fields: record_fields_spec(fs, serde),
            serde: serde,
        };
        assert(rec_snap == rec_s);
        assert(all@ =~= seq![rec] + nested_snap);
        assert(records_view(all@) =~= seq![rec_s] + concat_defs(full));
    }
    (TypeExpr::Record(record_name), Some(all))
}

} // verus!
