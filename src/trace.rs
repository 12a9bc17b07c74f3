//! Connection metadata from the trace endpoint's `key=value` body.

use vstd::prelude::*;
use crate::error::SpeedTestError;
use crate::text::{chars_of, find_from, find_in, lemma_find_from, span_equals};

verus! {

/// Where the test connects from and to.
#[derive(Debug, Clone, PartialEq, Eq)]
pub struct Metadata {
    pub ip: String,
    pub colo: String,
    pub country: String,
}

/// The line that starts at `i`: up to the next `\n`, without the `\r` of a
/// `\r\n` ending.
pub open spec fn line_at(s: Seq<char>, i: int) -> Seq<char> {
    let j = find_from(s, i, '\n');
    if j < s.len() && j > i && s[j - 1] == '\r' {
        s.subrange(i, j - 1)
    } else {
        s.subrange(i, j)
    }
}

/// The value of `line` when it reads `key=value`: split at the first `=`.
pub open spec fn line_field(line: Seq<char>, key: Seq<char>) -> Option<Seq<char>> {
    let e = find_from(line, 0, '=');
    if e < line.len() && line.take(e) == key {
        Some(line.skip(e + 1))
    } else {
        None
    }
}

/// The value of the last `key=...` line among the lines starting at `i` or
/// later.
pub open spec fn field_from(s: Seq<char>, i: int, key: Seq<char>) -> Option<Seq<char>>
    decreases s.len() - i,
{
    if i < 0 || i >= s.len() {
        None
    } else {
        let next = find_from(s, i, '\n') + 1;
        let later = if i < next <= s.len() {
            field_from(s, next, key)
        } else {
            None
        };
        if later is Some {
            later
        } else {
            line_field(line_at(s, i), key)
        }
    }
}

/// The value that the body gives `key`, or `N/A` when no line does.
pub open spec fn trace_field(body: Seq<char>, key: Seq<char>) -> Seq<char> {
    match field_from(body, 0, key) {
        Some(v) => v,
        None => "N/A"@,
    }
}

pub open spec fn span_view(s: Seq<char>, span: Option<(usize, usize)>) -> Option<Seq<char>> {
    match span {
        Some((a, b)) => Some(s.subrange(a as int, b as int)),
        None => None,
    }
}

pub open spec fn span_ok(span: Option<(usize, usize)>, n: nat) -> bool {
    match span {
        Some((a, b)) => a <= b <= n,
        None => true,
    }
}

pub open spec fn later_or(later: Option<Seq<char>>, current: Option<Seq<char>>) -> Option<Seq<char>> {
    if later is Some {
        later
    } else {
        current
    }
}

fn span_string(body: &str, span: Option<(usize, usize)>) -> (r: String)
    requires
        span_ok(span, body@.len()),
    ensures
        r@ == (match span_view(body@, span) {
            Some(v) => v,
            None => "N/A"@,
        }),
{
    match span {
        Some((a, b)) => body.substring_char(a, b).to_owned(),
        None => "N/A".to_owned(),
    }
}

/// Reads the trace body: one `key=value` per line, split at the first `=`.
/// `ip`, `colo` and `loc` (the country) are taken, the last line of each
/// winning; a key without a line reads `N/A`, and lines without `=` are
/// skipped.
pub fn parse_trace(body: &str) -> (r: Result<Metadata, SpeedTestError>)
    ensures
        match r {
            Ok(m) => m.ip@ == trace_field(body@, "ip"@) && m.colo@ == trace_field(body@, "colo"@)
                && m.country@ == trace_field(body@, "loc"@),
            Err(_) => false,
        },
{
    let c = chars_of(body);
    let n = c.len();
    let ghost s = body@;
    let mut ip: Option<(usize, usize)> = None;
    let mut colo: Option<(usize, usize)> = None;
    let mut country: Option<(usize, usize)> = None;
    let mut start: usize = 0;
    while start < n
        invariant
            c@ == s,
            n == s.len(),
            start <= n,
            span_ok(ip, n as nat),
            span_ok(colo, n as nat),
            span_ok(country, n as nat),
            field_from(s, 0, "ip"@) == later_or(field_from(s, start as int, "ip"@), span_view(s, ip)),
            field_from(s, 0, "colo"@) == later_or(
                field_from(s, start as int, "colo"@),
                span_view(s, colo),
            ),
            field_from(s, 0, "loc"@) == later_or(
                field_from(s, start as int, "loc"@),
                span_view(s, country),
            ),
        decreases n - start,
    {
        let j = find_in(&c, start, n, '\n');
        proof {
            lemma_find_from(s, start as int, j as int, '\n');
        }
        let line_end = if j < n && j > start && c[j - 1] == '\r' {
            j - 1
        } else {
            j
        };
        let ghost line = s.subrange(start as int, line_end as int);
        assert(line == line_at(s, start as int));
        let e = find_in(&c, start, line_end, '=');
        assert(c@.subrange(start as int, line_end as int) == line);
        let ghost this_ip = line_field(line, "ip"@);
        let ghost this_colo = line_field(line, "colo"@);
        let ghost this_loc = line_field(line, "loc"@);
        if e < line_end {
            assert(line.take(e - start) =~= s.subrange(start as int, e as int));
            assert(line.skip(e - start + 1) =~= s.subrange(e + 1, line_end as int));
            if span_equals(&c, start, e, "ip") {
                ip = Some((e + 1, line_end));
            }
            if span_equals(&c, start, e, "colo") {
                colo = Some((e + 1, line_end));
            }
            if span_equals(&c, start, e, "loc") {
                country = Some((e + 1, line_end));
            }
        }
        let next = if j < n {
            j + 1
        } else {
            n
        };
        start = next;
    }
    Ok(
        Metadata {
            ip: span_string(body, ip),
            colo: span_string(body, colo),
            country: span_string(body, country),
        },
    )
}

} // verus!
