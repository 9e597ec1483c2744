//! The typed schema tree: field types, named fields, and record schemas
//! carrying derived structural-capability flags.
//!
//! A [`RecordSchema`] is an ordered list of named fields together with two
//! derived booleans, `contains_record` and `contains_list`. The flags are
//! maintained incrementally at field-insertion time by a single-level
//! lookahead rule, never by a full tree walk: a Record-typed field sets
//! `contains_record` and propagates its nested schema's `contains_list`; a
//! List-typed field sets `contains_list` and sets `contains_record` only when
//! its immediate element type is a Record. In particular a list of lists of
//! records does not set `contains_record`; that asymmetry is deliberate and
//! kept.

use vstd::prelude::*;

verus! {

broadcast use vstd::std_specs::vec::axiom_vec_index_decreases, vstd::std_specs::vec::axiom_vec_decreases_to_view, vstd::seq::axiom_seq_index_decreases;

use crate::gen::{FloatGenerator, IntegerGenerator, StringGenerator, StringGeneratorV};

/// The type of one schema field: a scalar with its generator, a list of a
/// further type, or a nested record.
#[derive(Debug)]
pub enum FieldType {
    Integer(IntegerGenerator),
    Float(FloatGenerator),
    String(StringGenerator),
    List(Box<FieldType>),
    Record(RecordSchema),
}

/// A named, typed slot within a schema.
#[derive(Debug)]
pub struct FieldSchema {
    pub(crate) name: String,
    pub(crate) field_type: FieldType,
}

/// An ordered sequence of fields plus the two derived capability flags.
#[derive(Debug)]
pub struct RecordSchema {
    pub(crate) field_list: Vec<FieldSchema>,
    pub(crate) contains_record: bool,
    pub(crate) contains_list: bool,
}

/// The ghost shape of a [`FieldType`].
pub enum FieldTypeV {
    Integer(IntegerGenerator),
    Float(FloatGenerator),
    String(StringGeneratorV),
    List(Box<FieldTypeV>),
    Record(RecordSchemaV),
}

/// The ghost shape of a [`FieldSchema`].
pub struct FieldSchemaV {
    pub name: Seq<char>,
    pub field_type: FieldTypeV,
}

/// The ghost shape of a [`RecordSchema`].
pub struct RecordSchemaV {
    pub fields: Seq<FieldSchemaV>,
    pub contains_record: bool,
    pub contains_list: bool,
}

pub open spec fn ft_view(t: FieldType) -> FieldTypeV
    decreases t,
{
    match t {
        FieldType::Integer(g) => FieldTypeV::Integer(g),
        FieldType::Float(g) => FieldTypeV::Float(g),
        FieldType::String(g) => FieldTypeV::String(g@),
        FieldType::List(inner) => FieldTypeV::List(Box::new(ft_view(*inner))),
        FieldType::Record(r) => FieldTypeV::Record(rs_view(r)),
    }
}

pub closed spec fn fs_view(f: FieldSchema) -> FieldSchemaV
    decreases f,
{
    FieldSchemaV { name: f.name@, field_type: ft_view(f.field_type) }
}

pub closed spec fn fields_view(fs: Seq<FieldSchema>) -> Seq<FieldSchemaV>
    decreases fs,
{
    Seq::new(
        fs.len(),
        |i: int|
            if 0 <= i < fs.len() {
                fs_view(fs[i])
            } else {
                FieldSchemaV {
                    name: Seq::empty(),
                    field_type: FieldTypeV::Integer(IntegerGenerator::Uniform),
                }
            },
    )
}

pub closed spec fn rs_view(s: RecordSchema) -> RecordSchemaV
    decreases s,
{
    RecordSchemaV {
        fields: fields_view(s.field_list@),
        contains_record: s.contains_record,
        contains_list: s.contains_list,
    }
}

impl View for FieldType {
    type V = FieldTypeV;

    open spec fn view(&self) -> FieldTypeV {
        ft_view(*self)
    }
}

impl View for FieldSchema {
    type V = FieldSchemaV;

    open spec fn view(&self) -> FieldSchemaV {
        fs_view(*self)
    }
}

impl View for RecordSchema {
    type V = RecordSchemaV;

    open spec fn view(&self) -> RecordSchemaV {
        rs_view(*self)
    }
}

/// Whether inserting a field of type `t` sets `contains_record`: `t` is a
/// Record, or a List whose immediate element type is a Record.
pub open spec fn type_sets_record(t: FieldTypeV) -> bool {
    match t {
        FieldTypeV::Record(_) => true,
        FieldTypeV::List(inner) => match *inner {
            FieldTypeV::Record(_) => true,
            _ => false,
        },
        _ => false,
    }
}

/// Whether inserting a field of type `t` sets `contains_list`: `t` is a List,
/// or a Record whose nested schema already has its own list flag set.
pub open spec fn type_sets_list(t: FieldTypeV) -> bool {
    match t {
        FieldTypeV::List(_) => true,
        FieldTypeV::Record(r) => r.contains_list,
        _ => false,
    }
}

pub open spec fn fields_have_record(fs: Seq<FieldSchemaV>) -> bool {
    exists|i: int| 0 <= i < fs.len() && type_sets_record(#[trigger] fs[i].field_type)
}

pub open spec fn fields_have_list(fs: Seq<FieldSchemaV>) -> bool {
    exists|i: int| 0 <= i < fs.len() && type_sets_list(#[trigger] fs[i].field_type)
}

/// Well-formedness of a field type: every nested record schema carries
/// correct flags.
pub open spec fn type_wf(t: FieldTypeV) -> bool
    decreases t,
{
    match t {
        FieldTypeV::List(inner) => type_wf(*inner),
        FieldTypeV::Record(r) => schema_wf(r),
        _ => true,
    }
}

/// Well-formedness of a record schema: its two flags agree with the
/// single-level insertion rule folded over its fields, and every nested
/// schema is well-formed in turn.
pub open spec fn schema_wf(s: RecordSchemaV) -> bool
    decreases s,
{
    &&& (forall|i: int|
        0 <= i < s.fields.len() ==> type_wf(#[trigger] s.fields[i].field_type))
    &&& s.contains_record == fields_have_record(s.fields)
    &&& s.contains_list == fields_have_list(s.fields)
}

/// The insertion rule: append the field and update both flags from the new
/// field's type alone.
pub open spec fn spec_add_field(s: RecordSchemaV, f: FieldSchemaV) -> RecordSchemaV {
    RecordSchemaV {
        fields: s.fields.push(f),
        contains_record: s.contains_record || type_sets_record(f.field_type),
        contains_list: s.contains_list || type_sets_list(f.field_type),
    }
}

pub proof fn lemma_add_field_wf(s: RecordSchemaV, f: FieldSchemaV)
    requires
        schema_wf(s),
        type_wf(f.field_type),
    ensures
        schema_wf(spec_add_field(s, f)),
{
    let s2 = spec_add_field(s, f);
    assert forall|i: int| 0 <= i < s2.fields.len() implies type_wf(
        #[trigger] s2.fields[i].field_type,
    ) by {
        if i < s.fields.len() {
            assert(s2.fields[i] == s.fields[i]);
        } else {
            assert(s2.fields[i] == f);
        }
    }
    assert(s2.contains_record == fields_have_record(s2.fields)) by {
        if s.contains_record {
            let i = choose|i: int|
                0 <= i < s.fields.len() && type_sets_record(#[trigger] s.fields[i].field_type);
            assert(type_sets_record(s2.fields[i].field_type));
        }
        if type_sets_record(f.field_type) {
            assert(type_sets_record(s2.fields[s.fields.len() as int].field_type));
        }
        if fields_have_record(s2.fields) {
            let i = choose|i: int|
                0 <= i < s2.fields.len() && type_sets_record(#[trigger] s2.fields[i].field_type);
            if i < s.fields.len() {
                assert(type_sets_record(s.fields[i].field_type));
            }
        }
    }
    assert(s2.contains_list == fields_have_list(s2.fields)) by {
        if s.contains_list {
            let i = choose|i: int|
                0 <= i < s.fields.len() && type_sets_list(#[trigger] s.fields[i].field_type);
            assert(type_sets_list(s2.fields[i].field_type));
        }
        if type_sets_list(f.field_type) {
            assert(type_sets_list(s2.fields[s.fields.len() as int].field_type));
        }
        if fields_have_list(s2.fields) {
            let i = choose|i: int|
                0 <= i < s2.fields.len() && type_sets_list(#[trigger] s2.fields[i].field_type);
            if i < s.fields.len() {
                assert(type_sets_list(s.fields[i].field_type));
            }
        }
    }
}

impl Clone for FieldType {
    /// Cloning a field type clones its generators by value; the clone is an
    /// equal plain value sharing no mutable state with the original.
    fn clone(&self) -> (r: Self)
        ensures
            r@ == self@,
        decreases self,
    {
        match self {
            FieldType::Integer(g) => FieldType::Integer(*g),
            FieldType::Float(g) => FieldType::Float(*g),
            FieldType::String(g) => FieldType::String(g.clone()),
            FieldType::List(inner) => FieldType::List(Box::new((**inner).clone())),
            FieldType::Record(r0) => FieldType::Record(r0.clone()),
        }
    }
}

impl Clone for FieldSchema {
    fn clone(&self) -> (r: Self)
        ensures
            r@ == self@,
        decreases self,
    {
        FieldSchema { name: self.name.clone(), field_type: self.field_type.clone() }
    }
}

impl Clone for RecordSchema {
    fn clone(&self) -> (r: Self)
        ensures
            r@ == self@,
        decreases self,
    {
        let mut fields: Vec<FieldSchema> = Vec::new();
        let mut i: usize = 0;
        while i < self.field_list.len()
            invariant
                i <= self.field_list@.len(),
                fields@.len() == i,
                forall|j: int| 0 <= j < i ==> fields@[j]@ == self.field_list@[j]@,
            decreases self.field_list@.len() - i,
        {
            fields.push(self.field_list[i].clone());
            i = i + 1;
        }
        let r = RecordSchema {
            field_list: fields,
            contains_record: self.contains_record,
            contains_list: self.contains_list,
        };
        proof {
            assert(r@.fields =~= self@.fields);
        }
        r
    }
}

impl FieldSchema {
    pub fn new(name: &str, field_type: FieldType) -> (r: Self)
        ensures
            r@ == (FieldSchemaV { name: name@, field_type: field_type@ }),
    {
        FieldSchema { name: name.to_owned(), field_type }
    }

    pub fn get_name(&self) -> (r: &str)
        ensures
            r@ == self@.name,
    {
        self.name.as_str()
    }

    pub fn get_type(&self) -> (r: &FieldType)
        ensures
            r@ == self@.field_type,
    {
        &self.field_type
    }

    /// Identity-preserving access to the field's type, for recursion within
    /// the crate.
    pub(crate) fn type_ref(&self) -> (r: &FieldType)
        ensures
            *r == self.field_type,
            r@ == self@.field_type,
    {
        &self.field_type
    }
}

impl RecordSchema {
    /// An empty schema; both flags start false.
    pub fn new() -> (r: Self)
        ensures
            r@ == (RecordSchemaV {
                fields: Seq::<FieldSchemaV>::empty(),
                contains_record: false,
                contains_list: false,
            }),
            schema_wf(r@),
    {
        let r = RecordSchema { field_list: Vec::new(), contains_record: false, contains_list: false };
        proof {
            assert(r@.fields =~= Seq::<FieldSchemaV>::empty());
        }
        r
    }

    pub fn num_fields(&self) -> (n: usize)
        ensures
            n == self@.fields.len(),
    {
        self.field_list.len()
    }

    pub fn field_at(&self, i: usize) -> (r: &FieldSchema)
        requires
            i < self@.fields.len(),
        ensures
            r@ == self@.fields[i as int],
    {
        &self.field_list[i]
    }

    /// Identity-preserving access to the field at position `i`, for
    /// recursion within the crate.
    pub(crate) fn field_ref(&self, i: usize) -> (r: &FieldSchema)
        requires
            i < self@.fields.len(),
        ensures
            *r == self.field_list@[i as int],
            r@ == self@.fields[i as int],
            self.field_list@.len() == self@.fields.len(),
    {
        &self.field_list[i]
    }

    /// Append a field, updating both capability flags from the new field's
    /// type alone.
    pub fn add_field(&mut self, column: FieldSchema)
        ensures
            final(self)@ == spec_add_field(old(self)@, column@),
            schema_wf(old(self)@) && type_wf(column@.field_type) ==> schema_wf(final(self)@),
    {
        let ghost old_v = self@;
        let ghost col_v = column@;
        match &column.field_type {
            FieldType::Record(r) => {
                self.contains_record = true;
                // If the nested record contains a list, this schema does too.
                if r.contains_list() {
                    self.contains_list = true;
                }
            },
            FieldType::List(t) => {
                self.contains_list = true;
                // A list of records sets the record flag; deeper nesting is
                // the nested schema's own business and is not inspected.
                if let FieldType::Record(_) = &**t {
                    self.contains_record = true;
                }
            },
            _ => {},
        }
        self.field_list.push(column);
        proof {
            assert(final(self)@.fields =~= spec_add_field(old_v, col_v).fields);
            if schema_wf(old_v) && type_wf(col_v.field_type) {
                lemma_add_field_wf(old_v, col_v);
            }
        }
    }

    /// Builder-style append: consume the schema and return it with the field
    /// added.
    pub fn with_field(self, column: FieldSchema) -> (r: Self)
        ensures
            r@ == spec_add_field(self@, column@),
            schema_wf(self@) && type_wf(column@.field_type) ==> schema_wf(r@),
    {
        let mut s = self;
        s.add_field(column);
        s
    }

    /// Older name for [`RecordSchema::add_field`].
    pub fn add_column(&mut self, column: FieldSchema)
        ensures
            final(self)@ == spec_add_field(old(self)@, column@),
            schema_wf(old(self)@) && type_wf(column@.field_type) ==> schema_wf(final(self)@),
    {
        self.add_field(column);
    }

    /// Older name for [`RecordSchema::with_field`].
    pub fn with_column(self, column: FieldSchema) -> (r: Self)
        ensures
            r@ == spec_add_field(self@, column@),
            schema_wf(self@) && type_wf(column@.field_type) ==> schema_wf(r@),
    {
        self.with_field(column)
    }

    pub fn contains_record(&self) -> (b: bool)
        ensures
            b == self@.contains_record,
    {
        self.contains_record
    }

    pub fn contains_list(&self) -> (b: bool)
        ensures
            b == self@.contains_list,
    {
        self.contains_list
    }
}

/// Whether a list can be reached from some field of `s`, descending through
/// nested records.
pub open spec fn schema_reaches_list(s: RecordSchemaV) -> bool
    decreases s,
{
    exists|i: int| 0 <= i < s.fields.len() && type_reaches_list(#[trigger] s.fields[i].field_type)
}

pub open spec fn type_reaches_list(t: FieldTypeV) -> bool
    decreases t,
{
    match t {
        FieldTypeV::List(_) => true,
        FieldTypeV::Record(r) => schema_reaches_list(r),
        _ => false,
    }
}

/// The flag invariant, stated over the whole tree: on a well-formed schema,
/// `contains_record` holds exactly when some field is directly Record-typed
/// or is a List whose immediate element is a Record, and `contains_list`
/// holds exactly when a List is reachable through any chain of nested
/// Record fields.
pub proof fn lemma_flag_invariant(s: RecordSchemaV)
    requires
        schema_wf(s),
    ensures
        s.contains_record == fields_have_record(s.fields),
        s.contains_list == schema_reaches_list(s),
    decreases s,
{
    if s.contains_list {
        let i = choose|i: int|
            0 <= i < s.fields.len() && type_sets_list(#[trigger] s.fields[i].field_type);
        match s.fields[i].field_type {
            FieldTypeV::List(_) => {
                assert(type_reaches_list(s.fields[i].field_type));
            },
            FieldTypeV::Record(r) => {
                lemma_flag_invariant(r);
                assert(type_reaches_list(s.fields[i].field_type));
            },
            _ => {},
        }
    }
    if schema_reaches_list(s) {
        let i = choose|i: int|
            0 <= i < s.fields.len() && type_reaches_list(#[trigger] s.fields[i].field_type);
        match s.fields[i].field_type {
            FieldTypeV::List(_) => {
                assert(type_sets_list(s.fields[i].field_type));
            },
            FieldTypeV::Record(r) => {
                lemma_flag_invariant(r);
                assert(type_sets_list(s.fields[i].field_type));
            },
            _ => {},
        }
        assert(fields_have_list(s.fields));
    }
}

} // verus!
