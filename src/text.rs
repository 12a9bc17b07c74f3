//! Character-level helpers shared by the header and body parsers.

use vstd::prelude::*;

verus! {

/// Index of the first `c` at or after `i` in `t`, or `t.len()` if none.
pub open spec fn find_from(t: Seq<char>, i: int, c: char) -> int
    decreases t.len() - i,
{
    if i >= t.len() {
        t.len() as int
    } else if t[i] == c {
        i
    } else {
        find_from(t, i + 1, c)
    }
}

/// `find_from` is the first occurrence: no `c` in `[i, p)` and `c` at `p`
/// (or `p` is the end).
pub proof fn lemma_find_from(t: Seq<char>, i: int, p: int, c: char)
    requires
        0 <= i <= p <= t.len(),
        forall|k: int| i <= k < p ==> #[trigger] t[k] != c,
        p < t.len() ==> t[p] == c,
    ensures
        find_from(t, i, c) == p,
    decreases p - i,
{
    if i < p {
        lemma_find_from(t, i + 1, p, c);
    }
}

pub open spec fn is_digit(ch: char) -> bool {
    '0' <= ch <= '9'
}

pub open spec fn digit_value(ch: char) -> nat {
    (ch as u32 - '0' as u32) as nat
}

pub open spec fn all_digits(t: Seq<char>) -> bool {
    forall|i: int| 0 <= i < t.len() ==> is_digit(#[trigger] t[i])
}

/// Value of a run of decimal digits.
pub open spec fn digits_value(t: Seq<char>) -> nat
    decreases t.len(),
{
    if t.len() == 0 {
        0
    } else {
        digits_value(t.drop_last()) * 10 + digit_value(t.last())
    }
}

/// A prefix of a digit run is worth no more than the whole run.
pub proof fn lemma_digits_prefix(t: Seq<char>, i: int)
    requires
        0 <= i <= t.len(),
    ensures
        digits_value(t.take(i)) <= digits_value(t),
    decreases t.len(),
{
    if i < t.len() {
        lemma_digits_prefix(t.drop_last(), i);
        assert(t.drop_last().take(i) =~= t.take(i));
    } else {
        assert(t.take(i) =~= t);
    }
}

/// The characters of `s`, in order.
pub fn chars_of(s: &str) -> (r: Vec<char>)
    ensures
        r@ == s@,
{
    let n = s.unicode_len();
    let mut r: Vec<char> = Vec::new();
    let mut i: usize = 0;
    while i < n
        invariant
            n == s@.len(),
            i <= n,
            r@ == s@.take(i as int),
        decreases n - i,
    {
        assert(s@.take(i + 1) =~= s@.take(i as int).push(s@[i as int]));
        r.push(s.get_char(i));
        i = i + 1;
    }
    assert(s@.take(n as int) =~= s@);
    r
}

/// Index of the first `ch` in `t[from..to]`, or `to` if there is none.
pub fn find_in(t: &Vec<char>, from: usize, to: usize, ch: char) -> (r: usize)
    requires
        from <= to <= t@.len(),
    ensures
        from <= r <= to,
        forall|k: int| from <= k < r ==> #[trigger] t@[k] != ch,
        r < to ==> t@[r as int] == ch,
        r - from == find_from(t@.subrange(from as int, to as int), 0, ch),
{
    let mut i = from;
    while i < to && t[i] != ch
        invariant
            from <= i <= to <= t@.len(),
            forall|k: int| from <= k < i ==> #[trigger] t@[k] != ch,
        decreases to - i,
    {
        i = i + 1;
    }
    proof {
        let sub = t@.subrange(from as int, to as int);
        assert forall|k: int| 0 <= k < i - from implies #[trigger] sub[k] != ch by {
            assert(sub[k] == t@[from + k]);
        }
        lemma_find_from(sub, 0, i - from, ch);
    }
    i
}

/// Whether `t[from..to]` holds exactly the characters of `lit`.
pub fn span_equals(t: &Vec<char>, from: usize, to: usize, lit: &str) -> (r: bool)
    requires
        from <= to <= t@.len(),
    ensures
        r == (t@.subrange(from as int, to as int) == lit@),
{
    let n = lit.unicode_len();
    if n != to - from {
        return false;
    }
    let mut i: usize = 0;
    while i < n
        invariant
            n == lit@.len(),
            n == to - from,
            from <= to <= t@.len(),
            i <= n,
            forall|k: int| 0 <= k < i ==> t@[from + k] == #[trigger] lit@[k],
        decreases n - i,
    {
        if t[from + i] != lit.get_char(i) {
            assert(t@.subrange(from as int, to as int)[i as int] != lit@[i as int]);
            return false;
        }
        i = i + 1;
    }
    assert(t@.subrange(from as int, to as int) =~= lit@);
    true
}

/// Value of the digit run `t[from..to]`, or `None` if it exceeds `u64`.
pub fn digits_in(t: &Vec<char>, from: usize, to: usize) -> (r: Option<u64>)
    requires
        from <= to <= t@.len(),
        all_digits(t@.subrange(from as int, to as int)),
    ensures
        r == (if digits_value(t@.subrange(from as int, to as int)) <= u64::MAX {
            Some(digits_value(t@.subrange(from as int, to as int)) as u64)
        } else {
            None
        }),
{
    let ghost whole = t@.subrange(from as int, to as int);
    let mut acc: u64 = 0;
    let mut i = from;
    assert(t@.subrange(from as int, from as int) =~= Seq::<char>::empty());
    while i < to
        invariant
            from <= i <= to <= t@.len(),
            whole == t@.subrange(from as int, to as int),
            all_digits(whole),
            acc == digits_value(t@.subrange(from as int, i as int)),
        decreases to - i,
    {
        let ghost prefix = t@.subrange(from as int, i + 1);
        assert(prefix.drop_last() =~= t@.subrange(from as int, i as int));
        assert(prefix.last() == t@[i as int]);
        assert(whole[i - from] == t@[i as int]);
        let d = (t[i] as u32 - '0' as u32) as u64;
        if acc > (u64::MAX - d) / 10 {
            proof {
                assert(prefix =~= whole.take(i + 1 - from));
                lemma_digits_prefix(whole, i + 1 - from);
            }
            return None;
        }
        acc = acc * 10 + d;
        i = i + 1;
    }
    Some(acc)
}

} // verus!
