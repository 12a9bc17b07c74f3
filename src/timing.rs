//! Header values: the server's processing time from `Server-Timing`, and the
//! `Retry-After` hint.
//!
//! Durations are read into thousandths of a millisecond (see `stats`).

use vstd::prelude::*;
use crate::text::{
    all_digits, chars_of, digits_in, digits_value, find_from, find_in, is_digit, span_equals,
};

verus! {

/// White space as Unicode defines it (the `White_Space` property).
pub open spec fn is_space(c: char) -> bool {
    let u = c as u32;
    (0x9 <= u <= 0xD) || u == 0x20 || u == 0x85 || u == 0xA0 || u == 0x1680 || (0x2000 <= u
        <= 0x200A) || u == 0x2028 || u == 0x2029 || u == 0x202F || u == 0x205F || u == 0x3000
}

fn is_space_char(c: char) -> (r: bool)
    ensures
        r == is_space(c),
{
    let u = c as u32;
    (0x9 <= u && u <= 0xD) || u == 0x20 || u == 0x85 || u == 0xA0 || u == 0x1680 || (0x2000 <= u
        && u <= 0x200A) || u == 0x2028 || u == 0x2029 || u == 0x202F || u == 0x205F || u == 0x3000
}

/// `t` without leading and trailing white space.
pub open spec fn trim_seq(t: Seq<char>) -> Seq<char>
    decreases t.len(),
{
    if t.len() > 0 && is_space(t[0]) {
        trim_seq(t.drop_first())
    } else if t.len() > 0 && is_space(t.last()) {
        trim_seq(t.drop_last())
    } else {
        t
    }
}

pub open spec fn pow10(e: nat) -> nat
    decreases e,
{
    if e == 0 {
        1
    } else {
        10 * pow10((e - 1) as nat)
    }
}

/// A non-negative decimal number `digits[.digits]` (either side may be
/// empty, not both) in thousandths; digits past the third decimal are
/// dropped.
pub open spec fn decimal_thousandths(t: Seq<char>) -> Option<nat> {
    let d = find_from(t, 0, '.');
    let whole = t.take(d);
    let frac = if d < t.len() { t.skip(d + 1) } else { Seq::<char>::empty() };
    if all_digits(whole) && all_digits(frac) && whole.len() + frac.len() > 0 {
        let kept = if frac.len() <= 3 { frac } else { frac.take(3) };
        Some(digits_value(whole) * 1000 + digits_value(kept) * pow10((3 - kept.len()) as nat))
    } else {
        None
    }
}

/// What follows `dur=` in the first `;`-separated part, from `i` on, that
/// starts with `dur=` once trimmed.
pub open spec fn dur_from(s: Seq<char>, i: int) -> Option<Seq<char>>
    decreases s.len() - i,
{
    if i < 0 || i > s.len() {
        None
    } else {
        let j = find_from(s, i, ';');
        let part = trim_seq(s.subrange(i, j));
        if part.len() >= 4 && part.take(4) == "dur="@ {
            Some(part.skip(4))
        } else if i <= j < s.len() {
            dur_from(s, j + 1)
        } else {
            None
        }
    }
}

pub open spec fn fits_u64(v: Option<nat>) -> Option<u64> {
    match v {
        Some(x) => if x <= u64::MAX {
            Some(x as u64)
        } else {
            None
        },
        None => None,
    }
}

/// The server's processing time that a `Server-Timing` header reports.
pub open spec fn server_timing_spec(header: Seq<char>) -> Option<u64> {
    match dur_from(header, 0) {
        Some(v) => fits_u64(decimal_thousandths(v)),
        None => None,
    }
}

proof fn lemma_digits_below(t: Seq<char>)
    requires
        all_digits(t),
    ensures
        digits_value(t) < pow10(t.len()),
    decreases t.len(),
{
    if t.len() > 0 {
        let u = t.drop_last();
        assert(all_digits(u)) by {
            assert forall|i: int| 0 <= i < u.len() implies is_digit(#[trigger] u[i]) by {
                assert(u[i] == t[i]);
            }
        }
        lemma_digits_below(u);
        assert(is_digit(t[t.len() - 1]));
    }
}

/// Whether `t[from..to]` is all decimal digits.
fn all_digits_in(t: &Vec<char>, from: usize, to: usize) -> (r: bool)
    requires
        from <= to <= t@.len(),
    ensures
        r == all_digits(t@.subrange(from as int, to as int)),
{
    let mut i = from;
    while i < to
        invariant
            from <= i <= to <= t@.len(),
            forall|k: int| from <= k < i ==> is_digit(#[trigger] t@[k]),
        decreases to - i,
    {
        if !('0' <= t[i] && t[i] <= '9') {
            assert(!is_digit(t@.subrange(from as int, to as int)[i - from]));
            return false;
        }
        i = i + 1;
    }
    assert forall|k: int| 0 <= k < to - from implies is_digit(
        #[trigger] t@.subrange(from as int, to as int)[k],
    ) by {
        assert(t@.subrange(from as int, to as int)[k] == t@[from + k]);
    }
    true
}

/// The decimal number `t[from..to]` in thousandths.
fn decimal_in(t: &Vec<char>, from: usize, to: usize) -> (r: Option<u64>)
    requires
        from <= to <= t@.len(),
    ensures
        r == fits_u64(decimal_thousandths(t@.subrange(from as int, to as int))),
{
    let ghost s = t@.subrange(from as int, to as int);
    let d = find_in(t, from, to, '.');
    let frac_start = if d < to {
        d + 1
    } else {
        to
    };
    proof {
        assert(s.take(d - from) =~= t@.subrange(from as int, d as int));
        if d < to {
            assert(s.skip(d - from + 1) =~= t@.subrange(frac_start as int, to as int));
        } else {
            assert(t@.subrange(frac_start as int, to as int) =~= Seq::<char>::empty());
        }
    }
    if !all_digits_in(t, from, d) || !all_digits_in(t, frac_start, to) || (d - from) + (to
        - frac_start) == 0 {
        return None;
    }
    let kept_end = if to - frac_start <= 3 {
        to
    } else {
        frac_start + 3
    };
    let ghost frac = t@.subrange(frac_start as int, to as int);
    let ghost kept = t@.subrange(frac_start as int, kept_end as int);
    proof {
        if to - frac_start > 3 {
            assert(frac.take(3) =~= kept);
        }
        assert(all_digits(kept)) by {
            assert forall|i: int| 0 <= i < kept.len() implies is_digit(#[trigger] kept[i]) by {
                assert(kept[i] == frac[i]);
            }
        }
        lemma_digits_below(kept);
        assert(pow10(0) == 1 && pow10(1) == 10 && pow10(2) == 100 && pow10(3) == 1000) by {
            reveal_with_fuel(pow10, 4);
        }
    }
    let whole = match digits_in(t, from, d) {
        Some(w) => w,
        None => {
            return None;
        },
    };
    let f = match digits_in(t, frac_start, kept_end) {
        Some(f) => f,
        None => {
            return None;
        },
    };
    let kept_len = kept_end - frac_start;
    let scale: u64 = if kept_len == 0 {
        1000
    } else if kept_len == 1 {
        100
    } else if kept_len == 2 {
        10
    } else {
        1
    };
    assert(scale == pow10((3 - kept.len()) as nat));
    assert(f * scale <= 1000) by (nonlinear_arith)
        requires
            f < pow10(kept.len()),
            kept.len() <= 3,
            pow10(0) == 1 && pow10(1) == 10 && pow10(2) == 100 && pow10(3) == 1000,
            scale == pow10((3 - kept.len()) as nat),
    ;
    let part = f * scale;
    if whole > (u64::MAX - part) / 1000 {
        return None;
    }
    Some(whole * 1000 + part)
}

/// The first `;`-separated part of the header that, once trimmed, starts
/// with `dur=`, read as a decimal number of milliseconds into thousandths.
/// `None` when no part does, or when what follows is no such number.
pub fn parse_server_timing(header: &str) -> (r: Option<u64>)
    ensures
        r == server_timing_spec(header@),
{
    let c = chars_of(header);
    let n = c.len();
    let ghost s = header@;
    let mut i: usize = 0;
    loop
        invariant
            s == header@,
            c@ == s,
            n == s.len(),
            i <= n,
            dur_from(s, 0) == dur_from(s, i as int),
        decreases n - i,
    {
        let j = find_in(&c, i, n, ';');
        proof {
            crate::text::lemma_find_from(s, i as int, j as int, ';');
        }
        let mut a = i;
        let mut b = j;
        while a < b && is_space_char(c[a])
            invariant
                i <= a <= b <= j <= n,
                s == header@,
                c@ == s,
                n == s.len(),
                trim_seq(s.subrange(i as int, j as int)) == trim_seq(s.subrange(a as int, b as int)),
                dur_from(s, 0) == dur_from(s, i as int),
                find_from(s, i as int, ';') == j,
            decreases b - a,
        {
            assert(s.subrange(a as int, b as int).drop_first() =~= s.subrange(a + 1, b as int));
            a = a + 1;
        }
        while a < b && is_space_char(c[b - 1])
            invariant
                i <= a <= b <= j <= n,
                s == header@,
                c@ == s,
                n == s.len(),
                a < b ==> !is_space(s[a as int]),
                trim_seq(s.subrange(i as int, j as int)) == trim_seq(s.subrange(a as int, b as int)),
                dur_from(s, 0) == dur_from(s, i as int),
                find_from(s, i as int, ';') == j,
            decreases b - a,
        {
            assert(s.subrange(a as int, b as int).drop_last() =~= s.subrange(a as int, b - 1));
            b = b - 1;
        }
        assert(trim_seq(s.subrange(a as int, b as int)) == s.subrange(a as int, b as int));
        let ghost part = s.subrange(a as int, b as int);
        if b - a >= 4 && span_equals(&c, a, a + 4, "dur=") {
            assert(part.take(4) =~= s.subrange(a as int, a + 4));
            assert(part.skip(4) =~= s.subrange(a + 4, b as int));
            assert(dur_from(s, i as int) == Some(part.skip(4)));
            return decimal_in(&c, a + 4, b);
        }
        proof {
            if b - a >= 4 {
                assert(part.take(4) =~= s.subrange(a as int, a + 4));
            }
        }
        if j < n {
            assert(dur_from(s, i as int) == dur_from(s, j + 1));
            i = j + 1;
        } else {
            assert(dur_from(s, i as int) == None::<Seq<char>>);
            return None;
        }
    }
}

/// A `Retry-After` value in whole seconds: decimal digits only.
pub open spec fn retry_after_spec(value: Seq<char>) -> Option<u64> {
    if value.len() > 0 && all_digits(value) {
        fits_u64(Some(digits_value(value)))
    } else {
        None
    }
}

/// Reads a `Retry-After` header given in seconds; `None` when it is not a
/// plain number of seconds that fits a `u64`.
pub fn parse_retry_after(value: &str) -> (r: Option<u64>)
    ensures
        r == retry_after_spec(value@),
{
    let c = chars_of(value);
    let n = c.len();
    assert(c@.subrange(0, n as int) =~= value@);
    if n == 0 || !all_digits_in(&c, 0, n) {
        return None;
    }
    digits_in(&c, 0, n)
}

} // verus!
