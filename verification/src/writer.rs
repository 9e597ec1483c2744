//! Output backends and the pre-flight capability check.
//!
//! A serializer declares in advance which structural shapes it can
//! represent; before any synthesis begins, the pre-flight check matches a schema's
//! derived flags against those declarations exactly once per run. Once the
//! pre-flight check passes, a correct serializer never rejects a tuple for
//! structural-shape reasons; only I/O failures remain.
//!
//! The byte-level text encodings themselves (CSV rows, JSON documents) are
//! the serializers' own business and live outside this library; the
//! serializer types here carry the sink and answer the capability queries.

use vstd::prelude::*;

verus! {

use crate::data_repr::{ColumnDataV, Tuple};
use crate::data_gen::create_data_from_schema;
use crate::schema::RecordSchema;

/// Why a write failed.
#[derive(Debug)]
pub enum WriteError {
    /// Writing to or flushing the sink failed; carries the sink's message.
    Io(String),
    /// A value reached a serializer code path that cannot represent its
    /// shape. After a passed pre-flight check this indicates a serializer bug and is
    /// fatal, never retried.
    UnsupportedShape,
}

/// A schema needs a structural shape the serializer cannot express.
#[derive(Clone, Copy, Debug, PartialEq, Eq, Structural)]
pub enum CapabilityError {
    RecordsNotSupported,
    ListsNotSupported,
}

/// The collaborator interface a serializer implements: two capability
/// queries (both default to "unsupported"), a tuple writer, and a flush.
pub trait TupleWriter {
    /// What the serializer's list-capability query answers; unsupported
    /// unless an implementation says otherwise.
    open spec fn spec_supports_list(&self) -> bool {
        false
    }

    /// What the serializer's record-capability query answers; unsupported
    /// unless an implementation says otherwise.
    open spec fn spec_supports_record(&self) -> bool {
        false
    }

    fn supports_list(&self) -> (b: bool)
        ensures
            b == self.spec_supports_list(),
    ;

    fn supports_record(&self) -> (b: bool)
        ensures
            b == self.spec_supports_record(),
    ;

    fn write_tuple(&mut self, tuple: &Tuple) -> Result<(), WriteError>;

    fn flush(&mut self) -> Result<(), WriteError>;
}

/// The pre-flight capability check: evaluated exactly once per run, before any
/// synthesis. It rejects precisely when the schema needs a shape the
/// serializer does not support, checking the record shape first.
pub fn check_capabilities(
    schema: &RecordSchema,
    supports_record: bool,
    supports_list: bool,
) -> (r: Result<(), CapabilityError>)
    ensures
        r is Err <==> (schema@.contains_record && !supports_record) || (schema@.contains_list
            && !supports_list),
        (schema@.contains_record && !supports_record) ==> r == Err::<(), CapabilityError>(
            CapabilityError::RecordsNotSupported,
        ),
        (!(schema@.contains_record && !supports_record) && schema@.contains_list
            && !supports_list) ==> r == Err::<(), CapabilityError>(
            CapabilityError::ListsNotSupported,
        ),
{
    if schema.contains_record() && !supports_record {
        return Err(CapabilityError::RecordsNotSupported);
    }
    if schema.contains_list() && !supports_list {
        return Err(CapabilityError::ListsNotSupported);
    }
    Ok(())
}

/// Why a pipeline run stopped.
#[derive(Debug)]
pub enum PipelineErrorKind {
    /// The capability check rejected the schema before any synthesis.
    Capability(CapabilityError),
    /// A write or the final flush failed.
    Write(WriteError),
}

/// A pipeline failure, with how many tuples had been written before it.
#[derive(Debug)]
pub struct PipelineError {
    pub kind: PipelineErrorKind,
    pub written: usize,
}

/// The run loop: check capabilities once, then synthesize and hand off `count` tuples in
/// order, then flush. A capability rejection aborts before any tuple is
/// synthesized or written; a write failure aborts the loop immediately.
/// On success the number of tuples written is returned.
#[verifier::loop_isolation(false)]
pub fn run_pipeline<W: TupleWriter>(schema: &RecordSchema, writer: &mut W, count: usize) -> (r:
    Result<usize, PipelineError>)
    ensures
        ((schema@.contains_record && !old(writer).spec_supports_record()) || (
        schema@.contains_list && !old(writer).spec_supports_list())) <==> (r is Err
            && r->Err_0.kind is Capability),
        (r is Err && r->Err_0.kind is Capability) ==> r->Err_0.written == 0,
        r is Ok ==> r->Ok_0 == count,
        r is Err ==> r->Err_0.written <= count,
{
    let supports_record = writer.supports_record();
    let supports_list = writer.supports_list();
    if let Err(ce) = check_capabilities(schema, supports_record, supports_list) {
        return Err(PipelineError { kind: PipelineErrorKind::Capability(ce), written: 0 });
    }
    let mut i: usize = 0;
    while i < count
        invariant
            i <= count,
        decreases count - i,
    {
        let tuple = create_data_from_schema(schema);
        if let Err(we) = writer.write_tuple(&tuple) {
            return Err(PipelineError { kind: PipelineErrorKind::Write(we), written: i });
        }
        i = i + 1;
    }
    if let Err(we) = writer.flush() {
        return Err(PipelineError { kind: PipelineErrorKind::Write(we), written: count });
    }
    Ok(count)
}

/// The decimal digit characters, by value.
pub open spec fn dec_digit_char(d: int) -> char {
    if d == 0 {
        '0'
    } else if d == 1 {
        '1'
    } else if d == 2 {
        '2'
    } else if d == 3 {
        '3'
    } else if d == 4 {
        '4'
    } else if d == 5 {
        '5'
    } else if d == 6 {
        '6'
    } else if d == 7 {
        '7'
    } else if d == 8 {
        '8'
    } else {
        '9'
    }
}

/// The decimal digit string of a non-negative number, most significant
/// digit first, without leading zeros (except for zero itself).
pub open spec fn spec_decimal_u(n: int) -> Seq<char>
    decreases n,
{
    if n < 10 {
        seq![dec_digit_char(n)]
    } else {
        spec_decimal_u(n / 10).push(dec_digit_char(n % 10))
    }
}

/// The decimal string of a signed number: a minus sign, then the digits of
/// its magnitude.
pub open spec fn spec_decimal_i64(v: int) -> Seq<char> {
    if v < 0 {
        seq!['-'] + spec_decimal_u(-v)
    } else {
        spec_decimal_u(v)
    }
}

fn digit_str(d: u64) -> (r: &'static str)
    requires
        d < 10,
    ensures
        r@ =~= seq![dec_digit_char(d as int)],
{
    proof {
        reveal_strlit("0");
        reveal_strlit("1");
        reveal_strlit("2");
        reveal_strlit("3");
        reveal_strlit("4");
        reveal_strlit("5");
        reveal_strlit("6");
        reveal_strlit("7");
        reveal_strlit("8");
        reveal_strlit("9");
    }
    match d {
        0 => "0",
        1 => "1",
        2 => "2",
        3 => "3",
        4 => "4",
        5 => "5",
        6 => "6",
        7 => "7",
        8 => "8",
        _ => "9",
    }
}

fn push_decimal(n: u64, out: &mut String)
    ensures
        final(out)@ == old(out)@ + spec_decimal_u(n as int),
    decreases n,
{
    if n >= 10 {
        push_decimal(n / 10, out);
    }
    let ghost mid = out@;
    out.append(digit_str(n % 10));
    proof {
        if n < 10 {
            assert(final(out)@ =~= old(out)@ + spec_decimal_u(n as int));
        } else {
            assert(mid == old(out)@ + spec_decimal_u(n as int / 10));
            assert(final(out)@ =~= old(out)@ + spec_decimal_u(n as int));
        }
    }
}

/// Render a signed integer as its decimal text, as a CSV cell holds it.
pub fn i64_to_decimal(v: i64) -> (s: String)
    ensures
        s@ == spec_decimal_i64(v as int),
{
    let mut out = String::new();
    if v >= 0 {
        push_decimal(v as u64, &mut out);
        proof {
            assert(out@ =~= spec_decimal_i64(v as int));
        }
    } else {
        proof {
            reveal_strlit("-");
        }
        out.append("-");
        let mag: u64 = ((-(v + 1)) as u64) + 1;
        proof {
            assert(mag as int == -(v as int));
        }
        let ghost mid = out@;
        push_decimal(mag, &mut out);
        proof {
            assert(mid =~= seq!['-']);
            assert(out@ =~= spec_decimal_i64(v as int));
        }
    }
    out
}

/// One CSV row: the given cells joined by commas, in order.
pub open spec fn spec_csv_row(cells: Seq<Seq<char>>) -> Seq<char>
    decreases cells.len(),
{
    if cells.len() == 0 {
        Seq::empty()
    } else if cells.len() == 1 {
        cells[0]
    } else {
        spec_csv_row(cells.drop_last()) + seq![','] + cells.last()
    }
}

/// Join pre-rendered cells into one CSV row.
pub fn csv_join(cells: &Vec<String>) -> (r: String)
    ensures
        r@ == spec_csv_row(cells@.map_values(|c: String| c@)),
{
    let ghost views = cells@.map_values(|c: String| c@);
    let mut out = String::new();
    let mut i: usize = 0;
    while i < cells.len()
        invariant
            i <= cells@.len(),
            views == cells@.map_values(|c: String| c@),
            out@ == spec_csv_row(views.take(i as int)),
        decreases cells@.len() - i,
    {
        if i > 0 {
            proof {
                reveal_strlit(",");
            }
            out.append(",");
        }
        out.append(cells[i].as_str());
        proof {
            let t1 = views.take(i + 1);
            assert(t1.drop_last() =~= views.take(i as int));
            assert(t1.last() == views[i as int]);
            if i == 0 {
                assert(out@ =~= spec_csv_row(t1));
            } else {
                assert(out@ =~= spec_csv_row(views.take(i as int)) + seq![','] + views[i as int]);
                assert(out@ =~= spec_csv_row(t1));
            }
        }
        i = i + 1;
    }
    proof {
        assert(views.take(cells@.len() as int) =~= views);
    }
    out
}

/// One cell of a CSV row: either text ready to emit, or a float value
/// (as its bit pattern) that the caller must render.
#[derive(Debug)]
pub enum CsvCell {
    Text(String),
    FloatBits(u64),
}

/// The ghost shape of a [`CsvCell`].
pub enum CsvCellV {
    Text(Seq<char>),
    FloatBits(u64),
}

impl View for CsvCell {
    type V = CsvCellV;

    open spec fn view(&self) -> CsvCellV {
        match self {
            CsvCell::Text(s) => CsvCellV::Text(s@),
            CsvCell::FloatBits(b) => CsvCellV::FloatBits(*b),
        }
    }
}

/// Whether one value can stand in a CSV cell: only scalars can.
pub open spec fn is_csv_scalar(d: ColumnDataV) -> bool {
    match d {
        ColumnDataV::Integer(_) => true,
        ColumnDataV::Float(_) => true,
        ColumnDataV::String(_) => true,
        ColumnDataV::Record(_) => false,
        ColumnDataV::List(_) => false,
    }
}

/// The cell a scalar value renders to: integers as decimal text, strings
/// as themselves, floats as their bit pattern for the caller to render.
pub open spec fn spec_csv_cell(d: ColumnDataV) -> CsvCellV {
    match d {
        ColumnDataV::Integer(v) => CsvCellV::Text(spec_decimal_i64(v as int)),
        ColumnDataV::Float(b) => CsvCellV::FloatBits(b),
        ColumnDataV::String(s) => CsvCellV::Text(s),
        _ => CsvCellV::Text(Seq::empty()),
    }
}

/// Turn a tuple into the cells of one CSV row, in field order. Fails with
/// [`WriteError::UnsupportedShape`] exactly when some field holds a nested
/// record or a list, which CSV cannot express.
pub fn csv_cells(tuple: &Tuple) -> (r: Result<Vec<CsvCell>, WriteError>)
    ensures
        r is Ok <==> (forall|i: int| 0 <= i < tuple@.len() ==> is_csv_scalar(#[trigger] tuple@[i].1)),
        r is Ok ==> r->Ok_0@.len() == tuple@.len() && (forall|i: int|
            0 <= i < tuple@.len() ==> (#[trigger] r->Ok_0@[i])@ == spec_csv_cell(tuple@[i].1)),
        r is Err ==> r->Err_0 is UnsupportedShape,
{
    let mut cells: Vec<CsvCell> = Vec::new();
    let n = tuple.num_fields();
    let mut i: usize = 0;
    while i < n
        invariant
            n == tuple@.len(),
            i <= n,
            cells@.len() == i,
            forall|j: int| 0 <= j < i ==> is_csv_scalar(#[trigger] tuple@[j].1),
            forall|j: int| 0 <= j < i ==> (#[trigger] cells@[j])@ == spec_csv_cell(tuple@[j].1),
        decreases n - i,
    {
        match tuple.data_at(i) {
            crate::data_repr::ColumnData::Integer(v) => {
                cells.push(CsvCell::Text(i64_to_decimal(*v)));
            },
            crate::data_repr::ColumnData::Float(bits) => {
                cells.push(CsvCell::FloatBits(*bits));
            },
            crate::data_repr::ColumnData::String(s) => {
                cells.push(CsvCell::Text(s.clone()));
            },
            _ => {
                return Err(WriteError::UnsupportedShape);
            },
        }
        i = i + 1;
    }
    Ok(cells)
}

/// Serializer that renders each tuple as one CSV row of scalar cells.
/// The row encoding itself is done outside this library, over the sink
/// held here; CSV can express neither nested records nor lists, so both
/// capability queries answer no.
pub struct TupleToCSVSerializer<T> {
    pub writer: T,
}

impl<T> TupleToCSVSerializer<T> {
    pub fn new(writer: T) -> (r: Self)
        ensures
            r.writer == writer,
    {
        TupleToCSVSerializer { writer }
    }

    pub fn supports_list(&self) -> (b: bool)
        ensures
            !b,
    {
        false
    }

    pub fn supports_record(&self) -> (b: bool)
        ensures
            !b,
    {
        false
    }
}

/// Serializer that renders each tuple as one JSON document. JSON can
/// express both nested records and lists, so both capability queries
/// answer yes. The document encoding itself is done outside this library,
/// over the sink held here.
pub struct TupleToJsonSerializer<T> {
    pub wrt: T,
    pub pretty_print: bool,
}

impl<T> TupleToJsonSerializer<T> {
    pub fn new(wrt: T, pretty_print: bool) -> (r: Self)
        ensures
            r.wrt == wrt,
            r.pretty_print == pretty_print,
    {
        TupleToJsonSerializer { wrt, pretty_print }
    }

    pub fn supports_list(&self) -> (b: bool)
        ensures
            b,
    {
        true
    }

    pub fn supports_record(&self) -> (b: bool)
        ensures
            b,
    {
        true
    }
}

} // verus!
