//! Runtime containers for generated data.
//!
//! A [`Tuple`] is one concrete data instance conforming to a schema: an
//! ordered mapping from field name to [`ColumnData`], in insertion order.
//! Float values are carried as IEEE-754 double bit patterns (`u64`).

use vstd::prelude::*;

verus! {

broadcast use vstd::std_specs::vec::axiom_vec_index_decreases, vstd::std_specs::vec::axiom_vec_decreases_to_view, vstd::seq::axiom_seq_index_decreases;

/// One generated value, mirroring the shape of a field type.
#[derive(Debug)]
pub enum ColumnData {
    Integer(i64),
    /// An IEEE-754 double, carried as its bit pattern.
    Float(u64),
    String(String),
    Record(Tuple),
    List(Vec<ColumnData>),
}

/// An ordered sequence of named values; one record of generated data.
#[derive(Debug)]
pub struct Tuple {
    pub(crate) fields: Vec<(String, ColumnData)>,
}

/// The ghost shape of a [`ColumnData`].
pub enum ColumnDataV {
    Integer(i64),
    Float(u64),
    String(Seq<char>),
    Record(Seq<(Seq<char>, ColumnDataV)>),
    List(Seq<ColumnDataV>),
}

pub open spec fn cd_view(c: ColumnData) -> ColumnDataV
    decreases c,
{
    match c {
        ColumnData::Integer(v) => ColumnDataV::Integer(v),
        ColumnData::Float(bits) => ColumnDataV::Float(bits),
        ColumnData::String(s) => ColumnDataV::String(s@),
        ColumnData::Record(t) => ColumnDataV::Record(tuple_view(t)),
        ColumnData::List(items) => ColumnDataV::List(items_view(items@)),
    }
}

pub open spec fn items_view(items: Seq<ColumnData>) -> Seq<ColumnDataV>
    decreases items,
{
    Seq::new(
        items.len(),
        |i: int|
            if 0 <= i < items.len() {
                cd_view(items[i])
            } else {
                ColumnDataV::Integer(0)
            },
    )
}

pub open spec fn pairs_view(ps: Seq<(String, ColumnData)>) -> Seq<(Seq<char>, ColumnDataV)>
    decreases ps,
{
    Seq::new(
        ps.len(),
        |i: int|
            if 0 <= i < ps.len() {
                (ps[i].0@, cd_view(ps[i].1))
            } else {
                (Seq::<char>::empty(), ColumnDataV::Integer(0))
            },
    )
}

/// The ghost contents of a [`Tuple`]: its (name, value) pairs in order.
pub closed spec fn tuple_view(t: Tuple) -> Seq<(Seq<char>, ColumnDataV)>
    decreases t,
{
    pairs_view(t.fields@)
}

impl View for ColumnData {
    type V = ColumnDataV;

    open spec fn view(&self) -> ColumnDataV {
        cd_view(*self)
    }
}

impl View for Tuple {
    type V = Seq<(Seq<char>, ColumnDataV)>;

    open spec fn view(&self) -> Seq<(Seq<char>, ColumnDataV)> {
        tuple_view(*self)
    }
}

impl Clone for ColumnData {
    /// The clone is an equal plain value.
    #[verifier::loop_isolation(false)]
    fn clone(&self) -> (r: Self)
        ensures
            r@ == self@,
        decreases self,
    {
        match self {
            ColumnData::Integer(v) => ColumnData::Integer(*v),
            ColumnData::Float(bits) => ColumnData::Float(*bits),
            ColumnData::String(s) => ColumnData::String(s.clone()),
            ColumnData::Record(t) => {
                proof {
                    assert(decreases_to!(*self => self->Record_0));
                }
                ColumnData::Record(t.clone())
            },
            ColumnData::List(items) => {
                let mut copy: Vec<ColumnData> = Vec::new();
                let mut k: usize = 0;
                while k < items.len()
                    invariant
                        k <= items@.len(),
                        copy@.len() == k,
                        forall|j: int| 0 <= j < k ==> cd_view(copy@[j]) == cd_view(items@[j]),
                    decreases items@.len() - k,
                {
                    proof {
                        assert(decreases_to!(*self => self->List_0));
                        assert(decreases_to!(self->List_0 => self->List_0@[k as int]));
                    }
                    copy.push(items[k].clone());
                    k = k + 1;
                }
                let r = ColumnData::List(copy);
                proof {
                    assert(items_view(copy@) =~= items_view(items@));
                }
                r
            },
        }
    }
}

impl Clone for Tuple {
    /// The clone carries equal names and values in the same order.
    #[verifier::loop_isolation(false)]
    fn clone(&self) -> (r: Self)
        ensures
            r@ == self@,
        decreases self,
    {
        let mut fields: Vec<(String, ColumnData)> = Vec::new();
        let mut i: usize = 0;
        while i < self.fields.len()
            invariant
                i <= self.fields@.len(),
                fields@.len() == i,
                forall|j: int|
                    0 <= j < i ==> fields@[j].0@ == self.fields@[j].0@ && cd_view(fields@[j].1)
                        == cd_view(self.fields@[j].1),
            decreases self.fields@.len() - i,
        {
            let p = &self.fields[i];
            proof {
                assert(decreases_to!(*self => self.fields));
                assert(decreases_to!(self.fields => self.fields@[i as int]));
                assert(decreases_to!(self.fields@[i as int] => self.fields@[i as int].1));
            }
            fields.push((p.0.clone(), p.1.clone()));
            i = i + 1;
        }
        let r = Tuple { fields };
        proof {
            assert(r@ =~= self@);
        }
        r
    }
}

impl Tuple {
    /// A fresh, empty tuple.
    pub fn new() -> (r: Tuple)
        ensures
            r@ == Seq::<(Seq<char>, ColumnDataV)>::empty(),
    {
        let r = Tuple { fields: Vec::new() };
        proof {
            assert(r@ =~= Seq::<(Seq<char>, ColumnDataV)>::empty());
        }
        r
    }

    /// Append one named value; insertion order is preserved.
    pub fn add_field_data(&mut self, name: &str, data: ColumnData)
        ensures
            final(self)@ == old(self)@.push((name@, data@)),
    {
        self.fields.push((name.to_owned(), data));
        proof {
            assert(final(self)@ =~= old(self)@.push((name@, data@)));
        }
    }

    pub fn num_fields(&self) -> (n: usize)
        ensures
            n == self@.len(),
    {
        self.fields.len()
    }

    /// The name of the field at position `i`.
    pub fn name_at(&self, i: usize) -> (r: &str)
        requires
            i < self@.len(),
        ensures
            r@ == self@[i as int].0,
    {
        let p = &self.fields[i];
        p.0.as_str()
    }

    /// The value of the field at position `i`.
    pub fn data_at(&self, i: usize) -> (r: &ColumnData)
        requires
            i < self@.len(),
        ensures
            r@ == self@[i as int].1,
    {
        let p = &self.fields[i];
        &p.1
    }
}

} // verus!
