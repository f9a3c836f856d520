//! Decimal numbers carried as their exact decimal text.

use vstd::prelude::*;

use crate::text::{is_digit, WireForm};

verus! {

/// Whether `s` is a non-empty run of digits holding at most one `.`, which
/// stands neither first nor last.
pub open spec fn is_unsigned_numeral(s: Seq<char>) -> bool {
    &&& s.len() > 0
    &&& is_digit(s[0])
    &&& is_digit(s.last())
    &&& forall|i: int| 0 <= i < s.len() ==> is_digit(#[trigger] s[i]) || s[i] == '.'
    &&& count_points(s) <= 1
}

/// Whether `s` is a decimal numeral: an unsigned numeral with an optional
/// leading `-`.
pub open spec fn is_numeral(s: Seq<char>) -> bool {
    is_unsigned_numeral(s) || (s.len() > 0 && s[0] == '-' && is_unsigned_numeral(s.skip(1)))
}

/// A decimal number, kept as the exact text it was given in, so that its wire
/// form carries every digit.
#[derive(Debug)]
pub struct Decimal {
    text: String,
}

impl View for Decimal {
    type V = Seq<char>;

    closed spec fn view(&self) -> Seq<char> {
        self.text@
    }
}

/// Reports whether every character of `s` from `start` on is a digit or a
/// point, and how many points there are.
fn scan_points(s: &str, start: usize) -> (r: (bool, usize))
    requires
        start <= s@.len(),
    ensures
        r.0 == (forall|i: int| start <= i < s@.len() ==> is_digit(#[trigger] s@[i]) || s@[i] == '.'),
        r.0 ==> r.1 as int == count_points(s@.skip(start as int)),
{
    let n = s.unicode_len();
    let mut i: usize = start;
    let mut points: usize = 0;
    while i < n
        invariant
            n == s@.len(),
            start <= i <= n,
            points <= i - start,
            forall|k: int| start <= k < i ==> is_digit(#[trigger] s@[k]) || s@[k] == '.',
            points as int == count_points(s@.subrange(start as int, i as int)),
        decreases n - i,
    {
        let c = s.get_char(i);
        if !('0' <= c && c <= '9') && c != '.' {
            return (false, 0);
        }
        assert(s@.subrange(start as int, i + 1).drop_last() == s@.subrange(start as int, i as int));
        if c == '.' {
            points += 1;
        }
        i += 1;
    }
    assert(s@.subrange(start as int, n as int) == s@.skip(start as int));
    (true, points)
}

/// The number of `.` in `s`.
pub open spec fn count_points(s: Seq<char>) -> nat
    decreases s.len(),
{
    if s.len() == 0 {
        0
    } else {
        count_points(s.drop_last()) + if s.last() == '.' { 1nat } else { 0nat }
    }
}

impl Decimal {
    /// Reads a decimal numeral; `None` where `s` is not one.
    pub fn parse(s: &str) -> (r: Option<Decimal>)
        ensures
            r is Some <==> is_numeral(s@),
            r matches Some(d) ==> d@ == s@,
    {
        let n = s.unicode_len();
        if n == 0 {
            return None;
        }
        let start: usize = if s.get_char(0) == '-' { 1 } else { 0 };
        if start >= n {
            return None;
        }
        let (ok, points) = scan_points(s, start);
        let first = s.get_char(start);
        let last = s.get_char(n - 1);
        let ghost t = s@.skip(start as int);
        assert(t.len() > 0 && t[0] == s@[start as int] && t.last() == s@[n - 1]);
        assert(forall|i: int| 0 <= i < t.len() ==> t[i] == s@[i + start]);
        if ok && points <= 1 && '0' <= first && first <= '9' && '0' <= last && last <= '9' {
            assert(is_unsigned_numeral(t));
            if start == 0 {
                assert(t == s@);
            }
            Some(Decimal { text: String::from_str(s) })
        } else {
            assert(!is_unsigned_numeral(t)) by {
                if ok {
                    assert(forall|i: int| 0 <= i < t.len() ==> is_digit(#[trigger] t[i]) || t[i] == '.') by {
                        assert forall|i: int| 0 <= i < t.len() implies is_digit(#[trigger] t[i]) || t[i] == '.' by {
                            assert(t[i] == s@[i + start]);
                        }
                    }
                } else {
                    assert(exists|i: int| start <= i < s@.len() && !(is_digit(#[trigger] s@[i]) || s@[i] == '.'));
                    let i = choose|i: int| start <= i < s@.len() && !(is_digit(#[trigger] s@[i]) || s@[i] == '.');
                    assert(t[i - start] == s@[i]);
                }
            }
            if start == 0 {
                assert(t == s@);
                assert(s@[0] != '-');
            } else {
                assert(!is_digit(s@[0]));
            }
            None
        }
    }

    /// The text of this decimal.
    pub fn as_str(&self) -> (r: &str)
        ensures
            r@ == self@,
    {
        self.text.as_str()
    }
}

impl Clone for Decimal {
    fn clone(&self) -> (r: Decimal)
        ensures
            r@ == self@,
    {
        Decimal { text: self.text.clone() }
    }
}

impl WireForm for Decimal {
    open spec fn wire_spec(&self) -> Seq<char> {
        self@
    }

    fn wire(&self) -> (r: String) {
        self.text.clone()
    }
}

} // verus!
