//! Lexical scanning primitives shared by the schema parser: character
//! classes, whitespace and identifier runs, case-insensitive keyword
//! comparison, and the balanced-delimiter scan.

use vstd::prelude::*;

verus! {

pub open spec fn is_space_char(c: char) -> bool {
    c == ' ' || c == '\t' || c == '\n' || c == '\r'
}

pub open spec fn is_ident_char(c: char) -> bool {
    ||| ('a' as u32) <= (c as u32) && (c as u32) <= ('z' as u32)
    ||| ('A' as u32) <= (c as u32) && (c as u32) <= ('Z' as u32)
    ||| ('0' as u32) <= (c as u32) && (c as u32) <= ('9' as u32)
    ||| c == '_'
}

/// Case-insensitive match of one input character against a lowercase
/// keyword character.
pub open spec fn char_eq_ci(c: char, k: char) -> bool {
    c == k || ((k as u32) >= 32 && (c as u32) == (k as u32) - 32)
}

/// The first position at or after `i` (within `[i, end)`) holding a
/// non-whitespace character; `end` if there is none.
pub open spec fn spec_skip_ws(s: Seq<char>, i: int, end: int) -> int
    decreases end - i,
{
    if 0 <= i < end && is_space_char(s[i]) {
        spec_skip_ws(s, i + 1, end)
    } else {
        i
    }
}

/// The end of the run of identifier characters starting at `i`.
pub open spec fn spec_ident_end(s: Seq<char>, i: int, end: int) -> int
    decreases end - i,
{
    if 0 <= i < end && is_ident_char(s[i]) {
        spec_ident_end(s, i + 1, end)
    } else {
        i
    }
}

/// Whether the token spanning `[i, e)` equals the lowercase keyword `kw`,
/// ignoring case.
pub open spec fn token_is_kw(s: Seq<char>, i: int, e: int, kw: Seq<char>) -> bool {
    e - i == kw.len() && (forall|j: int|
        0 <= j < kw.len() ==> char_eq_ci(s[i + j], #[trigger] kw[j]))
}

pub open spec fn kw_table() -> Seq<char> {
    "table"@
}

pub open spec fn kw_string() -> Seq<char> {
    "string"@
}

pub open spec fn kw_integer() -> Seq<char> {
    "integer"@
}

pub open spec fn kw_float() -> Seq<char> {
    "float"@
}

pub open spec fn kw_list() -> Seq<char> {
    "list"@
}

pub open spec fn kw_record() -> Seq<char> {
    "record"@
}

/// The balanced-delimiter scan: the position of the first `cc` at nesting
/// depth zero in `[i, end)`, counting `oc`/`cc` pairs; `None` when the end
/// of the window is reached first.
pub open spec fn spec_find_close(
    s: Seq<char>,
    i: int,
    end: int,
    oc: char,
    cc: char,
    depth: int,
) -> Option<int>
    decreases end - i,
{
    if !(0 <= i < end) {
        None
    } else if s[i] == cc {
        if depth == 0 {
            Some(i)
        } else {
            spec_find_close(s, i + 1, end, oc, cc, depth - 1)
        }
    } else if s[i] == oc {
        spec_find_close(s, i + 1, end, oc, cc, depth + 1)
    } else {
        spec_find_close(s, i + 1, end, oc, cc, depth)
    }
}

pub broadcast proof fn lemma_skip_ws_bounds(s: Seq<char>, i: int, end: int)
    requires
        0 <= i <= end,
    ensures
        i <= #[trigger] spec_skip_ws(s, i, end) <= end,
    decreases end - i,
{
    if 0 <= i < end && is_space_char(s[i]) {
        lemma_skip_ws_bounds(s, i + 1, end);
    }
}

pub broadcast proof fn lemma_ident_end_bounds(s: Seq<char>, i: int, end: int)
    requires
        0 <= i <= end,
    ensures
        i <= #[trigger] spec_ident_end(s, i, end) <= end,
    decreases end - i,
{
    if 0 <= i < end && is_ident_char(s[i]) {
        lemma_ident_end_bounds(s, i + 1, end);
    }
}

pub broadcast proof fn lemma_find_close_bounds(s: Seq<char>, i: int, end: int, oc: char, cc: char, depth: int)
    requires
        0 <= i <= end,
    ensures
        (#[trigger] spec_find_close(s, i, end, oc, cc, depth)) is Some ==> {
            let p = spec_find_close(s, i, end, oc, cc, depth)->Some_0;
            i <= p < end && s[p] == cc
        },
    decreases end - i,
{
    if 0 <= i < end {
        if s[i] == cc {
            if depth != 0 {
                lemma_find_close_bounds(s, i + 1, end, oc, cc, depth - 1);
            }
        } else if s[i] == oc {
            lemma_find_close_bounds(s, i + 1, end, oc, cc, depth + 1);
        } else {
            lemma_find_close_bounds(s, i + 1, end, oc, cc, depth);
        }
    }
}


fn is_space(c: char) -> (b: bool)
    ensures
        b == is_space_char(c),
{
    c == ' ' || c == '\t' || c == '\n' || c == '\r'
}

fn is_ident(c: char) -> (b: bool)
    ensures
        b == is_ident_char(c),
{
    let u = c as u32;
    (('a' as u32) <= u && u <= ('z' as u32)) || (('A' as u32) <= u && u <= ('Z' as u32)) || (('0'
        as u32) <= u && u <= ('9' as u32)) || c == '_'
}

fn ceq(c: char, k: char) -> (b: bool)
    ensures
        b == char_eq_ci(c, k),
{
    if c == k {
        true
    } else {
        let cu = c as u32;
        let ku = k as u32;
        ku >= 32 && cu == ku - 32
    }
}

/// Skip whitespace within `[i, end)`.
pub(crate) fn skip_ws(s: &str, i: usize, end: usize) -> (r: usize)
    requires
        i <= end <= s@.len(),
    ensures
        r as int == spec_skip_ws(s@, i as int, end as int),
        i <= r <= end,
{
    let mut p = i;
    while p < end && is_space(s.get_char(p))
        invariant
            i <= p <= end <= s@.len(),
            spec_skip_ws(s@, i as int, end as int) == spec_skip_ws(s@, p as int, end as int),
        decreases end - p,
    {
        p = p + 1;
    }
    p
}

/// End of the identifier-character run starting at `i`.
pub(crate) fn ident_end(s: &str, i: usize, end: usize) -> (r: usize)
    requires
        i <= end <= s@.len(),
    ensures
        r as int == spec_ident_end(s@, i as int, end as int),
        i <= r <= end,
{
    let mut p = i;
    while p < end && is_ident(s.get_char(p))
        invariant
            i <= p <= end <= s@.len(),
            spec_ident_end(s@, i as int, end as int) == spec_ident_end(s@, p as int, end as int),
        decreases end - p,
    {
        p = p + 1;
    }
    p
}

/// Whether the token `[i, e)` of `s` equals the lowercase keyword `kw`,
/// ignoring case.
pub(crate) fn token_matches(s: &str, i: usize, e: usize, kw: &str) -> (b: bool)
    requires
        i <= e <= s@.len(),
    ensures
        b == token_is_kw(s@, i as int, e as int, kw@),
{
    let n = kw.unicode_len();
    if e - i != n {
        return false;
    }
    let mut j: usize = 0;
    while j < n
        invariant
            0 <= j <= n,
            n == kw@.len(),
            e - i == n,
            i <= e <= s@.len(),
            forall|t: int| 0 <= t < j ==> char_eq_ci(s@[i + t], #[trigger] kw@[t]),
        decreases n - j,
    {
        if !ceq(s.get_char(i + j), kw.get_char(j)) {
            return false;
        }
        j = j + 1;
    }
    true
}

/// The balanced-delimiter scan of the original algorithm: walk `[i, end)`
/// counting the nesting depth of `oc`/`cc` pairs and stop at the first
/// `cc` at depth zero; `None` when the end of the window is reached first.
pub(crate) fn take_till_delimiter_closed(s: &str, i: usize, end: usize, oc: char, cc: char) -> (r:
    Option<usize>)
    requires
        i <= end <= s@.len(),
    ensures
        match r {
            Some(p) => spec_find_close(s@, i as int, end as int, oc, cc, 0) == Some(p as int) && i
                <= p < end,
            None => spec_find_close(s@, i as int, end as int, oc, cc, 0) is None,
        },
{
    let mut p = i;
    let mut depth: usize = 0;
    while p < end
        invariant
            i <= p <= end <= s@.len(),
            depth <= p - i,
            spec_find_close(s@, i as int, end as int, oc, cc, 0) == spec_find_close(
                s@,
                p as int,
                end as int,
                oc,
                cc,
                depth as int,
            ),
        decreases end - p,
    {
        let c = s.get_char(p);
        if c == cc {
            if depth == 0 {
                return Some(p);
            }
            depth = depth - 1;
        } else if c == oc {
            depth = depth + 1;
        }
        p = p + 1;
    }
    None
}

} // verus!
