//! Recursive-descent parser for the schema definition language.
//!
//! Grammar (keywords case-insensitive; whitespace optional between tokens
//! except where marked `ws1`, where at least one whitespace character is
//! required):
//!
//! ```text
//! schema := ws 'table' ws1 ident ws '(' fields ')' ws ';' ws EOF
//! fields := (field ',')*
//! field  := ws ident ws1 type
//! type   := 'integer' | 'float' | 'string'
//!         | 'list'   ws '(' type   ws ')'
//!         | 'record' ws '(' fields ')'
//! ident  := (alnum | '_')+
//! ```
//!
//! The field list of a table or record is first delimited by a balanced
//! parenthesis scan — walking the input counting nesting depth — and only
//! then parsed field by field; reaching end of input before the matching
//! close parenthesis is a delimiter-imbalance error. Any failure at any
//! depth aborts the whole parse: no partial schema is ever returned.
//!
//! The meaning of the language is given by the spec-level functions
//! (`spec_parse` and its helpers); every executable function returns exactly
//! what its spec twin denotes, so parsing is deterministic by construction.

use vstd::prelude::*;

verus! {

broadcast use crate::text::lemma_skip_ws_bounds, crate::text::lemma_ident_end_bounds, crate::text::lemma_find_close_bounds;

use crate::schema::{
    ft_view, spec_add_field, schema_wf, type_wf, FieldSchema, FieldSchemaV, FieldType,
    FieldTypeV, RecordSchema, RecordSchemaV,
};
use crate::gen::{IntegerGenerator, FloatGenerator, StringGenerator, StringGeneratorV};
use crate::text::{
    ident_end, kw_float, kw_integer, kw_list, kw_record, kw_string, kw_table, skip_ws,
    spec_find_close, spec_ident_end, spec_skip_ws, take_till_delimiter_closed, token_is_kw,
    token_matches,
};
use vstd::string::StrSliceExecFns;

/// What went wrong during a parse.
#[derive(Clone, Copy, Debug, PartialEq, Eq, Structural)]
pub enum ParseErrorKind {
    /// The `table` keyword was not found.
    ExpectedKeyword,
    /// An identifier was expected.
    ExpectedIdent,
    /// Mandatory whitespace between two tokens was missing.
    ExpectedSpace,
    /// An opening parenthesis was expected.
    ExpectedOpen,
    /// A closing parenthesis was expected.
    ExpectedClose,
    /// A comma after a field was expected.
    ExpectedComma,
    /// End of input was reached before a matching closing delimiter.
    UnbalancedDelimiter,
    /// A type keyword other than the known ones was found.
    UnknownFieldType,
    /// The terminating semicolon was missing.
    ExpectedTerminator,
    /// Non-whitespace input remained after the terminator.
    TrailingInput,
}

/// A parse failure: its kind, and the offset (in characters) at which the
/// unconsumed remainder of the input begins.
#[derive(Clone, Copy, Debug, PartialEq, Eq, Structural)]
pub struct ParseError {
    pub kind: ParseErrorKind,
    pub offset: usize,
}

/// The ghost shape of a [`ParseError`], with an unbounded offset.
pub struct ParseErrV {
    pub kind: ParseErrorKind,
    pub offset: int,
}

impl View for ParseError {
    type V = ParseErrV;

    open spec fn view(&self) -> ParseErrV {
        ParseErrV { kind: self.kind, offset: self.offset as int }
    }
}

/// An empty schema value: no fields, both flags clear.
pub open spec fn empty_schema_v() -> RecordSchemaV {
    RecordSchemaV { fields: Seq::empty(), contains_record: false, contains_list: false }
}

/// The denotation of a `type` production starting at `i`: the parsed field
/// type (scalars get their default generators) and the position after it.
pub open spec fn spec_parse_type(s: Seq<char>, i: int, end: int) -> Result<
    (FieldTypeV, int),
    ParseErrV,
>
    decreases end - i, 0int,
{
    let e = spec_ident_end(s, i, end);
    if e == i {
        Err(ParseErrV { kind: ParseErrorKind::ExpectedIdent, offset: i })
    } else if token_is_kw(s, i, e, kw_string()) {
        Ok((FieldTypeV::String(StringGeneratorV::Placeholder), e))
    } else if token_is_kw(s, i, e, kw_integer()) {
        Ok((FieldTypeV::Integer(IntegerGenerator::Uniform), e))
    } else if token_is_kw(s, i, e, kw_float()) {
        Ok((FieldTypeV::Float(FloatGenerator::Uniform), e))
    } else if token_is_kw(s, i, e, kw_list()) {
        let j = spec_skip_ws(s, e, end);
        if !(j < end && s[j] == '(') {
            Err(ParseErrV { kind: ParseErrorKind::ExpectedOpen, offset: j })
        } else {
            match spec_parse_type(s, j + 1, end) {
                Err(er) => Err(er),
                Ok((inner, after)) => {
                    let k = spec_skip_ws(s, if j < after <= end { after } else { j + 1 }, end);
                    if !(k < end && s[k] == ')') {
                        Err(ParseErrV { kind: ParseErrorKind::ExpectedClose, offset: k })
                    } else {
                        Ok((FieldTypeV::List(Box::new(inner)), k + 1))
                    }
                },
            }
        }
    } else if token_is_kw(s, i, e, kw_record()) {
        let j = spec_skip_ws(s, e, end);
        if !(j < end && s[j] == '(') {
            Err(ParseErrV { kind: ParseErrorKind::ExpectedOpen, offset: j })
        } else {
            match spec_find_close(s, j + 1, end, '(', ')', 0) {
                None => Err(ParseErrV { kind: ParseErrorKind::UnbalancedDelimiter, offset: j }),
                Some(p) => if !(j + 1 <= p < end) {
                    // The scan never leaves the window; this arm is
                    // unreachable and only bounds the recursion.
                    Err(ParseErrV { kind: ParseErrorKind::UnbalancedDelimiter, offset: j })
                } else {
                    match spec_parse_fields(s, j + 1, p, empty_schema_v()) {
                        Err(er) => Err(er),
                        Ok(sub) => Ok((FieldTypeV::Record(sub), p + 1)),
                    }
                },
            }
        }
    } else {
        Err(ParseErrV { kind: ParseErrorKind::UnknownFieldType, offset: i })
    }
}

/// The denotation of a `field` production starting at `i`: a named field
/// and the position after its type.
pub open spec fn spec_parse_field(s: Seq<char>, i: int, end: int) -> Result<
    (FieldSchemaV, int),
    ParseErrV,
>
    decreases end - i, 1int,
{
    let j = spec_skip_ws(s, i, end);
    let e = spec_ident_end(s, j, end);
    if e == j {
        Err(ParseErrV { kind: ParseErrorKind::ExpectedIdent, offset: j })
    } else {
        let k = spec_skip_ws(s, e, end);
        if k == e {
            Err(ParseErrV { kind: ParseErrorKind::ExpectedSpace, offset: e })
        } else {
            match spec_parse_type(s, k, end) {
                Err(er) => Err(er),
                Ok((ft, after)) => Ok(
                    (FieldSchemaV { name: s.subrange(j, e), field_type: ft }, after),
                ),
            }
        }
    }
}

/// The denotation of the `fields` production over the window `[i, end)`,
/// folded onto the schema built so far: repeatedly a field and its
/// mandatory trailing comma, until only whitespace remains.
pub open spec fn spec_parse_fields(
    s: Seq<char>,
    i: int,
    end: int,
    acc: RecordSchemaV,
) -> Result<RecordSchemaV, ParseErrV>
    decreases end - i, 2int,
{
    let j = spec_skip_ws(s, i, end);
    if j >= end {
        Ok(acc)
    } else {
        match spec_parse_field(s, j, end) {
            Err(er) => Err(er),
            Ok((fv, after)) => {
                let next = if j < after <= end { after } else { j + 1 };
                let k = spec_skip_ws(s, next, end);
                if !(k < end && s[k] == ',') {
                    Err(ParseErrV { kind: ParseErrorKind::ExpectedComma, offset: k })
                } else {
                    spec_parse_fields(s, k + 1, end, spec_add_field(acc, fv))
                }
            },
        }
    }
}

/// The denotation of a whole schema text: the `table` keyword, the table
/// name (validated, otherwise unused), the balanced-delimited field list,
/// the terminating semicolon, and nothing but whitespace to end of input.
pub open spec fn spec_parse(s: Seq<char>) -> Result<RecordSchemaV, ParseErrV> {
    let end = s.len() as int;
    let i0 = spec_skip_ws(s, 0, end);
    let e0 = spec_ident_end(s, i0, end);
    if !token_is_kw(s, i0, e0, kw_table()) {
        Err(ParseErrV { kind: ParseErrorKind::ExpectedKeyword, offset: i0 })
    } else {
        let i1 = spec_skip_ws(s, e0, end);
        if i1 == e0 {
            Err(ParseErrV { kind: ParseErrorKind::ExpectedSpace, offset: e0 })
        } else {
            let e1 = spec_ident_end(s, i1, end);
            if e1 == i1 {
                Err(ParseErrV { kind: ParseErrorKind::ExpectedIdent, offset: i1 })
            } else {
                let i2 = spec_skip_ws(s, e1, end);
                if !(i2 < end && s[i2] == '(') {
                    Err(ParseErrV { kind: ParseErrorKind::ExpectedOpen, offset: i2 })
                } else {
                    match spec_find_close(s, i2 + 1, end, '(', ')', 0) {
                        None => Err(
                            ParseErrV { kind: ParseErrorKind::UnbalancedDelimiter, offset: i2 },
                        ),
                        Some(p) => match spec_parse_fields(s, i2 + 1, p, empty_schema_v()) {
                            Err(er) => Err(er),
                            Ok(schema) => {
                                let i3 = spec_skip_ws(s, p + 1, end);
                                if !(i3 < end && s[i3] == ';') {
                                    Err(
                                        ParseErrV {
                                            kind: ParseErrorKind::ExpectedTerminator,
                                            offset: i3,
                                        },
                                    )
                                } else {
                                    let i4 = spec_skip_ws(s, i3 + 1, end);
                                    if i4 < end {
                                        Err(
                                            ParseErrV {
                                                kind: ParseErrorKind::TrailingInput,
                                                offset: i4,
                                            },
                                        )
                                    } else {
                                        Ok(schema)
                                    }
                                }
                            },
                        },
                    }
                }
            }
        }
    }
}

/// Parse a `type` production starting at `i` within `[i, end)`.
fn field_type(s: &str, i: usize, end: usize) -> (r: Result<(FieldType, usize), ParseError>)
    requires
        i <= end <= s@.len(),
    ensures
        ({
            let sp = spec_parse_type(s@, i as int, end as int);
            match r {
                Ok((ft, pos)) => sp is Ok && ft_view(ft) == sp->Ok_0.0 && pos as int
                    == sp->Ok_0.1 && i < pos <= end && type_wf(ft_view(ft)),
                Err(e) => sp is Err && e@ == sp->Err_0,
            }
        }),
    decreases end - i, 0int,
{
    let e = ident_end(s, i, end);
    if e == i {
        return Err(ParseError { kind: ParseErrorKind::ExpectedIdent, offset: i });
    }
    if token_matches(s, i, e, "string") {
        Ok((FieldType::String(StringGenerator::Placeholder), e))
    } else if token_matches(s, i, e, "integer") {
        Ok((FieldType::Integer(IntegerGenerator::Uniform), e))
    } else if token_matches(s, i, e, "float") {
        Ok((FieldType::Float(FloatGenerator::Uniform), e))
    } else if token_matches(s, i, e, "list") {
        let j = skip_ws(s, e, end);
        if !(j < end && s.get_char(j) == '(') {
            return Err(ParseError { kind: ParseErrorKind::ExpectedOpen, offset: j });
        }
        match field_type(s, j + 1, end) {
            Err(er) => Err(er),
            Ok((inner, after)) => {
                let k = skip_ws(s, after, end);
                if !(k < end && s.get_char(k) == ')') {
                    return Err(ParseError { kind: ParseErrorKind::ExpectedClose, offset: k });
                }
                Ok((FieldType::List(Box::new(inner)), k + 1))
            },
        }
    } else if token_matches(s, i, e, "record") {
        let j = skip_ws(s, e, end);
        if !(j < end && s.get_char(j) == '(') {
            return Err(ParseError { kind: ParseErrorKind::ExpectedOpen, offset: j });
        }
        match take_till_delimiter_closed(s, j + 1, end, '(', ')') {
            None => Err(ParseError { kind: ParseErrorKind::UnbalancedDelimiter, offset: j }),
            Some(p) => match table_record(s, j + 1, p) {
                Err(er) => Err(er),
                Ok(sub) => Ok((FieldType::Record(sub), p + 1)),
            },
        }
    } else {
        Err(ParseError { kind: ParseErrorKind::UnknownFieldType, offset: i })
    }
}

/// Parse a `field` production: a name, mandatory whitespace, and a type.
fn field_def(s: &str, i: usize, end: usize) -> (r: Result<(FieldSchema, usize), ParseError>)
    requires
        i <= end <= s@.len(),
    ensures
        ({
            let sp = spec_parse_field(s@, i as int, end as int);
            match r {
                Ok((fs, pos)) => sp is Ok && fs@ == sp->Ok_0.0 && pos as int == sp->Ok_0.1 && i
                    < pos <= end && type_wf(fs@.field_type),
                Err(e) => sp is Err && e@ == sp->Err_0,
            }
        }),
    decreases end - i, 1int,
{
    let j = skip_ws(s, i, end);
    let e = ident_end(s, j, end);
    if e == j {
        return Err(ParseError { kind: ParseErrorKind::ExpectedIdent, offset: j });
    }
    let k = skip_ws(s, e, end);
    if k == e {
        return Err(ParseError { kind: ParseErrorKind::ExpectedSpace, offset: e });
    }
    match field_type(s, k, end) {
        Err(er) => Err(er),
        Ok((ft, after)) => {
            let name = s.substring_char(j, e);
            Ok((FieldSchema::new(name, ft), after))
        },
    }
}

/// Parse the `fields` production over the whole window `[i, end)` into a
/// schema, folding each field in through the flag-updating insertion rule.
fn table_record(s: &str, i: usize, end: usize) -> (r: Result<RecordSchema, ParseError>)
    requires
        i <= end <= s@.len(),
    ensures
        ({
            let sp = spec_parse_fields(s@, i as int, end as int, empty_schema_v());
            match r {
                Ok(rec) => sp is Ok && rec@ == sp->Ok_0 && schema_wf(rec@),
                Err(e) => sp is Err && e@ == sp->Err_0,
            }
        }),
    decreases end - i, 2int,
{
    let mut record = RecordSchema::new();
    let mut pos = i;
    loop
        invariant
            i <= pos <= end <= s@.len(),
            schema_wf(record@),
            spec_parse_fields(s@, i as int, end as int, empty_schema_v()) == spec_parse_fields(
                s@,
                pos as int,
                end as int,
                record@,
            ),
        decreases end - pos,
    {
        let j = skip_ws(s, pos, end);
        if j >= end {
            return Ok(record);
        }
        match field_def(s, j, end) {
            Err(er) => {
                return Err(er);
            },
            Ok((field, after)) => {
                let k = skip_ws(s, after, end);
                if !(k < end && s.get_char(k) == ',') {
                    return Err(ParseError { kind: ParseErrorKind::ExpectedComma, offset: k });
                }
                record.add_field(field);
                pos = k + 1;
            },
        }
    }
}

/// Parse a complete schema text.
///
/// The result is exactly the denotation [`spec_parse`] gives the input: a
/// fully formed, well-formed schema on success, and on failure a single
/// terminal error holding the kind of failure and the offset of the
/// unconsumed remainder. No partial schema is ever returned.
pub fn parse(input: &str) -> (r: Result<RecordSchema, ParseError>)
    ensures
        r is Ok <==> spec_parse(input@) is Ok,
        r is Ok ==> r->Ok_0@ == spec_parse(input@)->Ok_0 && schema_wf(r->Ok_0@),
        r is Err ==> r->Err_0@ == spec_parse(input@)->Err_0,
{
    let end = input.unicode_len();
    let i0 = skip_ws(input, 0, end);
    let e0 = ident_end(input, i0, end);
    if !token_matches(input, i0, e0, "table") {
        return Err(ParseError { kind: ParseErrorKind::ExpectedKeyword, offset: i0 });
    }
    let i1 = skip_ws(input, e0, end);
    if i1 == e0 {
        return Err(ParseError { kind: ParseErrorKind::ExpectedSpace, offset: e0 });
    }
    let e1 = ident_end(input, i1, end);
    if e1 == i1 {
        return Err(ParseError { kind: ParseErrorKind::ExpectedIdent, offset: i1 });
    }
    let i2 = skip_ws(input, e1, end);
    if !(i2 < end && input.get_char(i2) == '(') {
        return Err(ParseError { kind: ParseErrorKind::ExpectedOpen, offset: i2 });
    }
    match take_till_delimiter_closed(input, i2 + 1, end, '(', ')') {
        None => Err(ParseError { kind: ParseErrorKind::UnbalancedDelimiter, offset: i2 }),
        Some(p) => match table_record(input, i2 + 1, p) {
            Err(er) => Err(er),
            Ok(schema) => {
                let i3 = skip_ws(input, p + 1, end);
                if !(i3 < end && input.get_char(i3) == ';') {
                    return Err(ParseError { kind: ParseErrorKind::ExpectedTerminator, offset: i3 });
                }
                let i4 = skip_ws(input, i3 + 1, end);
                if i4 < end {
                    return Err(ParseError { kind: ParseErrorKind::TrailingInput, offset: i4 });
                }
                Ok(schema)
            },
        },
    }
}

/// Parsing is deterministic: any two results that agree with the
/// denotation of the same input are the same result. Together with the
/// contract of [`parse`], two parses of identical text always yield
/// structurally equal schemas.
pub proof fn lemma_parse_deterministic(
    s: Seq<char>,
    r1: Result<RecordSchemaV, ParseErrV>,
    r2: Result<RecordSchemaV, ParseErrV>,
)
    requires
        r1 == spec_parse(s),
        r2 == spec_parse(s),
    ensures
        r1 == r2,
{
}

} // verus!
