//! Recovering the position from a parser's diagnostic text, which reads
//! `<prefix>:<line>,<column>: <message>` on its first line and goes on
//! with the details on the lines after it.
use vstd::prelude::*;
use vstd::string::*;
use crate::text::same_text;

verus! {

/// The label that the parser puts before its diagnostics.
pub open spec fn parse_label() -> Seq<char> {
    "query parse error:"@
}

pub open spec fn is_space(c: char) -> bool {
    c == ' ' || c == '\t' || c == '\n' || c == '\r' || c == '\x0b' || c == '\x0c'
}

pub open spec fn is_digit(c: char) -> bool {
    '0' <= c && c <= '9'
}

/// The text without a leading parse label.
pub open spec fn strip_label(s: Seq<char>) -> Seq<char> {
    if s.len() >= parse_label().len() && s.take(parse_label().len() as int) == parse_label() {
        s.skip(parse_label().len() as int)
    } else {
        s
    }
}

/// The text without leading whitespace.
pub open spec fn trim_start(s: Seq<char>) -> Seq<char>
    decreases s.len(),
{
    if s.len() > 0 && is_space(s[0]) {
        trim_start(s.skip(1))
    } else {
        s
    }
}

/// The text without trailing whitespace.
pub open spec fn trim_end(s: Seq<char>) -> Seq<char>
    decreases s.len(),
{
    if s.len() > 0 && is_space(s.last()) {
        trim_end(s.drop_last())
    } else {
        s
    }
}

/// The index of the first `c` in `s`, or -1.
pub open spec fn index_of(s: Seq<char>, c: char) -> int
    decreases s.len(),
{
    if s.len() == 0 {
        -1
    } else if index_of(s.drop_last(), c) >= 0 {
        index_of(s.drop_last(), c)
    } else if s.last() == c {
        s.len() - 1
    } else {
        -1
    }
}

/// The index of the last `c` in `s`, or -1.
pub open spec fn last_index_of(s: Seq<char>, c: char) -> int
    decreases s.len(),
{
    if s.len() == 0 {
        -1
    } else if s.last() == c {
        s.len() - 1
    } else {
        last_index_of(s.drop_last(), c)
    }
}

/// How many decimal digits `s` holds.
pub open spec fn digit_count(s: Seq<char>) -> nat
    decreases s.len(),
{
    if s.len() == 0 {
        0
    } else if is_digit(s.last()) {
        digit_count(s.drop_last()) + 1
    } else {
        digit_count(s.drop_last())
    }
}

/// The number that the decimal digits of `s`, read in order, spell.
pub open spec fn digits_value(s: Seq<char>) -> nat
    decreases s.len(),
{
    if s.len() == 0 {
        0
    } else if is_digit(s.last()) {
        digits_value(s.drop_last()) * 10 + (s.last() as nat - '0' as nat) as nat
    } else {
        digits_value(s.drop_last())
    }
}

/// The number spelled by the digits of `s`, where there are some and it
/// fits in 32 bits.
pub open spec fn number_in(s: Seq<char>) -> Option<nat> {
    if digit_count(s) == 0 || digits_value(s) > u32::MAX {
        None
    } else {
        Some(digits_value(s))
    }
}

/// The diagnostic without its label and surrounding whitespace.
pub open spec fn diagnostic_body(d: Seq<char>) -> Seq<char> {
    trim_end(trim_start(strip_label(d)))
}

/// The line, column and message that a diagnostic states: the first line
/// is split at its last colon, the digits before it give the line and
/// those after it the column, and the lines after the first are the
/// message. `None` where the text is not in that shape.
pub open spec fn located(d: Seq<char>) -> Option<(nat, nat, Seq<char>)> {
    let body = diagnostic_body(d);
    let nl = index_of(body, '\n');
    if nl < 0 {
        None
    } else {
        let first = body.take(nl);
        let colon = last_index_of(first, ':');
        if colon < 0 {
            None
        } else {
            match (number_in(first.take(colon)), number_in(first.skip(colon))) {
                (Some(l), Some(c)) => Some((l, c, body.skip(nl + 1))),
                _ => None,
            }
        }
    }
}

proof fn lemma_index_of_prefix(s: Seq<char>, j: int, c: char)
    requires
        0 <= j <= s.len(),
        index_of(s.take(j), c) >= 0,
    ensures
        index_of(s, c) == index_of(s.take(j), c),
    decreases s.len(),
{
    if j == s.len() {
        assert(s.take(j) =~= s);
    } else {
        assert(s.drop_last().take(j) =~= s.take(j));
        lemma_index_of_prefix(s.drop_last(), j, c);
    }
}

fn is_space_char(c: char) -> (r: bool)
    ensures
        r == is_space(c),
{
    c == ' ' || c == '\t' || c == '\n' || c == '\r' || c == '\x0b' || c == '\x0c'
}

/// Reads the number spelled by the digits of `d` between `from` and `to`.
pub fn read_number(d: &str, from: usize, to: usize) -> (r: Option<u32>)
    requires
        from <= to <= d@.len(),
    ensures
        r matches Some(v) ==> number_in(d@.subrange(from as int, to as int)) == Some(v as nat),
        r is None ==> number_in(d@.subrange(from as int, to as int)) is None,
{
    let ghost s = d@.subrange(from as int, to as int);
    let mut value: u32 = 0;
    let mut count: usize = 0;
    let mut too_large = false;
    let mut i: usize = from;
    while i < to
        invariant
            from <= i <= to <= d@.len(),
            s == d@.subrange(from as int, to as int),
            count as nat == digit_count(d@.subrange(from as int, i as int)),
            count <= i - from,
            !too_large ==> value as nat == digits_value(d@.subrange(from as int, i as int)),
            too_large ==> digits_value(d@.subrange(from as int, i as int)) > u32::MAX,
        decreases to - i,
    {
        let c = d.get_char(i);
        let ghost prev = d@.subrange(from as int, i as int);
        assert(d@.subrange(from as int, i + 1).drop_last() =~= prev);
        assert(d@.subrange(from as int, i + 1).last() == c);
        if '0' <= c && c <= '9' {
            count = count + 1;
            let dv = (c as u32) - ('0' as u32);
            if !too_large {
                if value > (u32::MAX - dv) / 10 {
                    too_large = true;
                } else {
                    value = value * 10 + dv;
                }
            }
            proof {
                let pv = digits_value(prev);
                assert(pv * 10 + dv as nat >= pv) by (nonlinear_arith);
            }
        }
        i = i + 1;
    }
    if count == 0 || too_large {
        None
    } else {
        Some(value)
    }
}


/// Where the text after a leading parse label starts.
fn label_end(d: &str) -> (lo: usize)
    ensures
        lo <= d@.len(),
        d@.subrange(lo as int, d@.len() as int) == strip_label(d@),
{
    let n = d.unicode_len();
    let label = "query parse error:";
    let ll = label.unicode_len();
    proof {
        reveal_strlit("query parse error:");
    }
    if n >= ll && same_text(d.substring_char(0, ll), label) {
        assert(d@.subrange(0, ll as int) =~= d@.take(ll as int));
        assert(d@.subrange(ll as int, n as int) =~= d@.skip(ll as int));
        ll
    } else {
        assert(n >= ll ==> d@.subrange(0, ll as int) =~= d@.take(ll as int));
        assert(d@.subrange(0, n as int) =~= d@);
        0
    }
}

/// Skips the whitespace that starts at `from`.
fn skip_spaces(d: &str, from: usize) -> (lo: usize)
    requires
        from <= d@.len(),
    ensures
        from <= lo <= d@.len(),
        d@.subrange(lo as int, d@.len() as int) == trim_start(d@.subrange(from as int, d@.len() as int)),
{
    let n = d.unicode_len();
    let mut lo = from;
    while lo < n && is_space_char(d.get_char(lo))
        invariant
            from <= lo <= n == d@.len(),
            trim_start(d@.subrange(from as int, n as int)) == trim_start(d@.subrange(lo as int, n as int)),
        decreases n - lo,
    {
        assert(d@.subrange(lo as int, n as int).skip(1) =~= d@.subrange(lo + 1, n as int));
        lo = lo + 1;
    }
    lo
}

/// Where the text from `lo` ends once its trailing whitespace is dropped.
fn trimmed_end(d: &str, lo: usize) -> (hi: usize)
    requires
        lo <= d@.len(),
    ensures
        lo <= hi <= d@.len(),
        d@.subrange(lo as int, hi as int) == trim_end(d@.subrange(lo as int, d@.len() as int)),
{
    let n = d.unicode_len();
    let mut hi: usize = n;
    while hi > lo && is_space_char(d.get_char(hi - 1))
        invariant
            lo <= hi <= n == d@.len(),
            trim_end(d@.subrange(lo as int, n as int)) == trim_end(d@.subrange(lo as int, hi as int)),
        decreases hi,
    {
        assert(d@.subrange(lo as int, hi as int).drop_last() =~= d@.subrange(lo as int, hi - 1));
        hi = hi - 1;
    }
    hi
}

/// The first newline between `lo` and `hi`, or `hi`.
fn find_newline(d: &str, lo: usize, hi: usize) -> (nl: usize)
    requires
        lo <= hi <= d@.len(),
    ensures
        lo <= nl <= hi,
        nl < hi ==> index_of(d@.subrange(lo as int, hi as int), '\n') == nl - lo,
        nl == hi ==> index_of(d@.subrange(lo as int, hi as int), '\n') == -1,
{
    let ghost body = d@.subrange(lo as int, hi as int);
    let mut nl: usize = lo;
    while nl < hi && d.get_char(nl) != '\n'
        invariant
            lo <= nl <= hi <= d@.len(),
            body == d@.subrange(lo as int, hi as int),
            index_of(body.take(nl - lo), '\n') == -1,
        decreases hi - nl,
    {
        assert(body.take(nl - lo + 1).drop_last() =~= body.take(nl - lo));
        nl = nl + 1;
    }
    if nl == hi {
        assert(body.take(nl - lo) =~= body);
    } else {
        assert(body.take(nl - lo + 1).drop_last() =~= body.take(nl - lo));
        proof {
            lemma_index_of_prefix(body, nl - lo + 1, '\n');
        }
    }
    nl
}

/// One past the last colon between `lo` and `to`, or `lo` where there is none.
fn after_last_colon(d: &str, lo: usize, to: usize) -> (cp: usize)
    requires
        lo <= to <= d@.len(),
    ensures
        lo <= cp <= to,
        last_index_of(d@.subrange(lo as int, to as int), ':') == cp - lo - 1,
{
    let mut cp: usize = to;
    while cp > lo && d.get_char(cp - 1) != ':'
        invariant
            lo <= cp <= to <= d@.len(),
            last_index_of(d@.subrange(lo as int, to as int), ':') == last_index_of(d@.subrange(lo as int, cp as int), ':'),
        decreases cp,
    {
        assert(d@.subrange(lo as int, cp as int).drop_last() =~= d@.subrange(lo as int, cp - 1));
        cp = cp - 1;
    }
    cp
}

/// The line, column and message that a parser's diagnostic states, or
/// `None` where the text is not in the expected shape.
pub fn locate(d: &str) -> (r: Option<(u32, u32, String)>)
    ensures
        r matches Some((l, c, m)) ==> located(d@) == Some((l as nat, c as nat, m@)),
        r is None ==> located(d@) is None,
{
    let start = label_end(d);
    let lo = skip_spaces(d, start);
    let hi = trimmed_end(d, lo);
    let ghost body = d@.subrange(lo as int, hi as int);
    assert(diagnostic_body(d@) == body);
    let nl = find_newline(d, lo, hi);
    if nl == hi {
        return None;
    }
    let ghost first = body.take(nl - lo);
    assert(first =~= d@.subrange(lo as int, nl as int));
    let cp = after_last_colon(d, lo, nl);
    if cp == lo {
        return None;
    }
    let colon = cp - 1;
    assert(first.take(colon - lo) =~= d@.subrange(lo as int, colon as int));
    assert(first.skip(colon - lo) =~= d@.subrange(colon as int, nl as int));
    assert(body.skip(nl - lo + 1) =~= d@.subrange(nl + 1, hi as int));
    let line = read_number(d, lo, colon);
    let column = read_number(d, colon, nl);
    match (line, column) {
        (Some(l), Some(c)) => {
            let m = d.substring_char(nl + 1, hi).to_owned();
            Some((l, c, m))
        },
        _ => None,
    }
}

} // verus!
