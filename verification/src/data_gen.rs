//! The tuple synthesizer: recursively walks a schema, invoking each field's
//! generator, and produces a [`Tuple`] whose shape mirrors the schema.
//!
//! Every List-typed field produces a sequence of exactly
//! [`LIST_ELEMENT_COUNT`] elements; the count is a fixed constant of the
//! design, not driven by any runtime parameter.

use vstd::prelude::*;

verus! {

broadcast use vstd::std_specs::vec::axiom_vec_index_decreases, vstd::std_specs::vec::axiom_vec_decreases_to_view, vstd::seq::axiom_seq_index_decreases;

use crate::data_repr::{cd_view, ColumnData, ColumnDataV, Tuple};
use crate::gen::is_default_float_draw;
use crate::schema::{ft_view, FieldType, FieldTypeV, RecordSchema, RecordSchemaV};

/// How many elements every synthesized list holds.
pub const LIST_ELEMENT_COUNT: usize = 4;

/// Whether one generated value conforms to a field type: the shapes match
/// recursively, scalar values are the ones the field's generator can
/// produce, and every list has exactly [`LIST_ELEMENT_COUNT`] elements.
pub open spec fn data_conforms_to(d: ColumnDataV, t: FieldTypeV) -> bool
    decreases t,
{
    match t {
        FieldTypeV::Integer(g) => {
            &&& d is Integer
            &&& (g is Fixed ==> d->Integer_0 == g->Fixed_0)
            &&& (g is Uniform ==> 0 <= d->Integer_0 < 100)
        },
        FieldTypeV::Float(g) => {
            &&& d is Float
            &&& (g is FixedBits ==> d->Float_0 == g->FixedBits_0)
            &&& (g is Uniform ==> is_default_float_draw(d->Float_0))
        },
        FieldTypeV::String(g) => {
            &&& d is String
            &&& (g is Fixed ==> d->String_0 == g->Fixed_0)
            &&& (g is Placeholder ==> d->String_0 == "placeholder"@)
        },
        FieldTypeV::List(inner) => {
            &&& d is List
            &&& d->List_0.len() == LIST_ELEMENT_COUNT
            &&& (forall|k: int|
                0 <= k < d->List_0.len() ==> data_conforms_to(#[trigger] d->List_0[k], *inner))
        },
        FieldTypeV::Record(r) => {
            &&& d is Record
            &&& tuple_conforms_to(d->Record_0, r)
        },
    }
}

/// Whether a tuple conforms to a schema: same field names in the same
/// order, and each value conforms to the declared field type.
pub open spec fn tuple_conforms_to(
    tv: Seq<(Seq<char>, ColumnDataV)>,
    s: RecordSchemaV,
) -> bool
    decreases s,
{
    &&& tv.len() == s.fields.len()
    &&& (forall|i: int|
        0 <= i < tv.len() ==> (#[trigger] tv[i]).0 == s.fields[i].name && data_conforms_to(
            tv[i].1,
            s.fields[i].field_type,
        ))
}

/// Synthesize one tuple conforming to `schema`.
pub fn create_data_from_schema(schema: &RecordSchema) -> (t: Tuple)
    ensures
        tuple_conforms_to(t@, schema@),
{
    let tuple = Tuple::new();
    let t = create_data_from_schema_recurse(schema, tuple);
    proof {
        assert(t@.skip(0) =~= t@);
    }
    t
}

fn create_data_from_schema_recurse(schema: &RecordSchema, tuple: Tuple) -> (r: Tuple)
    ensures
        r@.len() == tuple@.len() + schema@.fields.len(),
        forall|j: int| 0 <= j < tuple@.len() ==> r@[j] == tuple@[j],
        tuple_conforms_to(r@.skip(tuple@.len() as int), schema@),
    decreases schema,
{
    let mut tuple = tuple;
    let ghost orig = tuple@;
    let n = schema.num_fields();
    let mut i: usize = 0;
    while i < n
        invariant
            n == schema@.fields.len(),
            i <= n,
            tuple@.len() == orig.len() + i,
            forall|j: int| 0 <= j < orig.len() ==> tuple@[j] == orig[j],
            forall|j: int|
                0 <= j < i ==> (#[trigger] tuple@[orig.len() + j]).0 == schema@.fields[j].name
                    && data_conforms_to(tuple@[orig.len() + j].1, schema@.fields[j].field_type),
        decreases n - i,
    {
        let cs = schema.field_ref(i);
        let ft = cs.type_ref();
        proof {
            assert(decreases_to!(*schema => schema.field_list));
            assert(decreases_to!(schema.field_list => schema.field_list@));
            assert(decreases_to!(schema.field_list@ => schema.field_list@[i as int]));
            assert(decreases_to!(schema.field_list@[i as int] => schema.field_list@[i as int].field_type));
            assert(decreases_to!(*schema => *ft));
        }
        let data = create_data_from_column_type(ft);
        tuple.add_field_data(cs.get_name(), data);
        i = i + 1;
    }
    proof {
        let rest = tuple@.skip(orig.len() as int);
        assert forall|j: int| 0 <= j < rest.len() implies (#[trigger] rest[j]).0
            == schema@.fields[j].name && data_conforms_to(
            rest[j].1,
            schema@.fields[j].field_type,
        ) by {
            assert(rest[j] == tuple@[orig.len() + j]);
        }
    }
    tuple
}

#[verifier::loop_isolation(false)]
fn create_data_from_column_type(col_type: &FieldType) -> (r: ColumnData)
    ensures
        data_conforms_to(r@, col_type@),
    decreases col_type,
{
    match col_type {
        FieldType::Float(def) => ColumnData::Float(def.generate()),
        FieldType::Integer(def) => ColumnData::Integer(def.generate()),
        FieldType::String(def) => ColumnData::String(def.generate()),
        FieldType::List(v) => {
            let mut list: Vec<ColumnData> = Vec::new();
            let mut k: usize = 0;
            while k < LIST_ELEMENT_COUNT
                invariant
                    k <= LIST_ELEMENT_COUNT,
                    list@.len() == k,
                    forall|j: int|
                        0 <= j < k ==> data_conforms_to(
                            cd_view(#[trigger] list@[j]),
                            ft_view(*(*v)),
                        ),
                decreases LIST_ELEMENT_COUNT - k,
            {
                proof {
                    assert(decreases_to!(*col_type => col_type->List_0));
                }
                list.push(create_data_from_column_type(&**v));
                k = k + 1;
            }
            let r = ColumnData::List(list);
            proof {
                assert forall|j: int| 0 <= j < r@->List_0.len() implies data_conforms_to(
                    #[trigger] r@->List_0[j],
                    ft_view(*(*v)),
                ) by {
                    assert(r@->List_0[j] == cd_view(list@[j]));
                }
            }
            r
        },
        FieldType::Record(v) => {
            let sub_tuple = create_data_from_schema_recurse(v, Tuple::new());
            proof {
                assert(sub_tuple@.skip(0) =~= sub_tuple@);
            }
            ColumnData::Record(sub_tuple)
        },
    }
}

} // verus!
