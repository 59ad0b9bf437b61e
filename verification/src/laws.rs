//! Properties of the generator, stated and proved once for all inputs.

use vstd::prelude::*;

use crate::codegen::generated_text;
use crate::infer::{
    all_same_type, concat_defs, first_defs, infer_array_spec, infer_elems_spec, infer_fields_spec,
    infer_object_spec, infer_spec, lemma_infer_elems_index, lemma_infer_fields_index,
    lemma_record_fields_index, record_fields_spec, Inferred,
};
use crate::json::JsonSpec;
use crate::naming::{snake_case_spec, type_case_spec};
use crate::types::{render_type_spec, RecordSpec, TypeSpec};

verus! {

/// A value with no structure of its own: neither an array nor an object.
pub open spec fn is_primitive(v: JsonSpec) -> bool {
    ||| v matches JsonSpec::Null
    ||| v matches JsonSpec::Bool(_)
    ||| v matches JsonSpec::Number { .. }
    ||| v matches JsonSpec::Str(_)
}

/// Determinism: the generated text is a function of the root name, the
/// document and the options alone, so two generation runs on identical input
/// and identical configuration emit identical text.
pub proof fn lemma_generation_deterministic(
    name: Seq<char>,
    v: JsonSpec,
    serde: bool,
    t1: Seq<char>,
    t2: Seq<char>,
)
    requires
        generated_text(name, v, serde) == Some(t1),
        generated_text(name, v, serde) == Some(t2),
    ensures
        t1 == t2,
{
}

/// Field fidelity: the record generated for an object has exactly one field
/// per source key, in source key order — each key in snake form, typed as
/// its value infers under that key as path.
pub proof fn lemma_field_fidelity(path: Seq<char>, fs: Seq<(Seq<char>, JsonSpec)>, serde: bool)
    ensures
        ({
            let defs = infer_object_spec(path, fs, serde).1;
            &&& defs matches Some(ds)
            &&& ds.len() >= 1
            &&& ds[0].name == type_case_spec(path)
            &&& ds[0].fields.len() == fs.len()
            &&& forall|i: int|
                0 <= i < fs.len() ==> #[trigger] ds[0].fields[i] == (
                    snake_case_spec(fs[i].0),
                    infer_spec(fs[i].0, fs[i].1, serde).0,
                )
        }),
{
    lemma_record_fields_index(fs, serde, 0);
    assert forall|i: int| 0 <= i < fs.len() implies #[trigger] record_fields_spec(fs, serde)[i]
        == (snake_case_spec(fs[i].0), infer_spec(fs[i].0, fs[i].1, serde).0) by {
        lemma_record_fields_index(fs, serde, i);
    }
}

proof fn lemma_first_defs_of_first(rs: Seq<Inferred>)
    requires
        rs.len() > 0,
        rs[0].1 is Some,
    ensures
        first_defs(rs) == rs[0].1,
    decreases rs.len(),
{
    if rs.len() == 1 {
        assert(first_defs(rs.drop_last()) == None::<Seq<RecordSpec>>);
        assert(rs.last() == rs[0]);
    } else {
        lemma_first_defs_of_first(rs.drop_last());
        assert(rs.drop_last()[0] == rs[0]);
    }
}

/// Homogeneous-array unification: in a non-empty array whose elements are
/// all objects, every element infers to the one record named after the
/// array's path, so the array's type is a collection of that record, and the
/// definition set kept is exactly the first element's — the sets the other
/// elements produced are discarded.
pub proof fn lemma_homogeneous_object_array(path: Seq<char>, vs: Seq<JsonSpec>, serde: bool)
    requires
        vs.len() > 0,
        forall|i: int| 0 <= i < vs.len() ==> #[trigger] vs[i] matches JsonSpec::Object(_),
    ensures
        infer_array_spec(path, vs, serde).0 == TypeSpec::Collection(
            Box::new(TypeSpec::Record(type_case_spec(path))),
        ),
        infer_array_spec(path, vs, serde).1 == infer_spec(path, vs[0], serde).1,
        infer_array_spec(path, vs, serde).1 is Some,
{
    let rs = infer_elems_spec(path, vs, serde);
    lemma_infer_elems_index(path, vs, serde, 0);
    assert forall|i: int| 0 <= i < vs.len() implies #[trigger] rs[i] == infer_spec(
        path,
        vs[i],
        serde,
    ) by {
        lemma_infer_elems_index(path, vs, serde, i);
    }
    assert forall|i: int| 0 <= i < rs.len() implies #[trigger] render_type_spec(rs[i].0)
        == render_type_spec(rs[0].0) by {
        assert(infer_spec(path, vs[i], serde).0 == TypeSpec::Record(type_case_spec(path)));
        assert(infer_spec(path, vs[0], serde).0 == TypeSpec::Record(type_case_spec(path)));
    }
    assert(all_same_type(rs));
    assert(rs[0].1 is Some);
    lemma_first_defs_of_first(rs);
    assert(rs[0].0 == TypeSpec::Record(type_case_spec(path)));
}

proof fn lemma_concat_defs_empty(rs: Seq<Inferred>)
    requires
        forall|i: int| 0 <= i < rs.len() ==> (#[trigger] rs[i].1) is None,
    ensures
        concat_defs(rs) == Seq::<RecordSpec>::empty(),
    decreases rs.len(),
{
    if rs.len() > 0 {
        lemma_concat_defs_empty(rs.drop_last());
        assert(rs.last().1 is None);
        assert(concat_defs(rs) =~= Seq::<RecordSpec>::empty());
    }
}

/// An object whose field values are all primitive introduces exactly one
/// record definition: its own.
pub proof fn lemma_flat_object_single_record(
    path: Seq<char>,
    fs: Seq<(Seq<char>, JsonSpec)>,
    serde: bool,
)
    requires
        forall|i: int| 0 <= i < fs.len() ==> is_primitive(#[trigger] fs[i].1),
    ensures
        ({
            let defs = infer_object_spec(path, fs, serde).1;
            &&& defs matches Some(ds)
            &&& ds.len() == 1
        }),
{
    let rs = infer_fields_spec(fs, serde);
    lemma_infer_fields_index(fs, serde, 0);
    assert forall|i: int| 0 <= i < rs.len() implies (#[trigger] rs[i].1) is None by {
        lemma_infer_fields_index(fs, serde, i);
        assert(is_primitive(fs[i].1));
        assert(infer_spec(fs[i].0, fs[i].1, serde).1 is None);
    }
    lemma_concat_defs_empty(rs);
}

/// Heterogeneous-array fallback: an array with two elements whose inferred
/// type expressions render differently is a collection of the untyped
/// passthrough type, and no record definition is propagated, whatever the
/// elements were.
pub proof fn lemma_heterogeneous_array(
    path: Seq<char>,
    vs: Seq<JsonSpec>,
    serde: bool,
    i: int,
    j: int,
)
    requires
        0 <= i < vs.len(),
        0 <= j < vs.len(),
        render_type_spec(infer_spec(path, vs[i], serde).0) != render_type_spec(
            infer_spec(path, vs[j], serde).0,
        ),
    ensures
        infer_array_spec(path, vs, serde).0 == TypeSpec::Collection(
            Box::new(TypeSpec::UntypedJson),
        ),
        infer_array_spec(path, vs, serde).1 is None,
{
    let rs = infer_elems_spec(path, vs, serde);
    lemma_infer_elems_index(path, vs, serde, 0);
    lemma_infer_elems_index(path, vs, serde, i);
    lemma_infer_elems_index(path, vs, serde, j);
    assert(!all_same_type(rs)) by {
        if all_same_type(rs) {
            assert(render_type_spec(rs[i].0) == render_type_spec(rs[0].0));
            assert(render_type_spec(rs[j].0) == render_type_spec(rs[0].0));
        }
    }
}

/// Non-object root failure: a primitive root introduces no record
/// definition, so generation emits nothing for it.
pub proof fn lemma_primitive_root_rejected(name: Seq<char>, v: JsonSpec, serde: bool)
    requires
        is_primitive(v),
    ensures
        generated_text(name, v, serde) is None,
{
    assert(infer_spec(name, v, serde).1 is None);
}

/// Numeric classification: an integral number infers to the integer type, a
/// fractional one to the floating type.
pub proof fn lemma_numeric_classification(path: Seq<char>, serde: bool)
    ensures
        infer_spec(path, JsonSpec::Number { integral: true }, serde).0 == TypeSpec::Integer,
        infer_spec(path, JsonSpec::Number { integral: false }, serde).0 == TypeSpec::Float,
{
}

} // verus!
