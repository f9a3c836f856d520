//! Textual building blocks of the wire format: decimal digits, string
//! comparison, and `;`-joined lists.

use vstd::prelude::*;

verus! {

/// The character of a decimal digit.
pub open spec fn digit_char(d: nat) -> char {
    ((d + 48) as u8) as char
}

/// Whether `c` is one of `0` to `9`.
pub open spec fn is_digit(c: char) -> bool {
    '0' <= c && c <= '9'
}

/// The value of a decimal digit character.
pub open spec fn digit_value(c: char) -> nat {
    (c as u32 - 48) as nat
}

/// Whether `s` is a non-empty run of decimal digits.
pub open spec fn all_digits(s: Seq<char>) -> bool {
    s.len() > 0 && forall|i: int| 0 <= i < s.len() ==> is_digit(#[trigger] s[i])
}

/// The value of a run of decimal digits.
pub open spec fn digits_value(s: Seq<char>) -> nat
    decreases s.len(),
{
    if s.len() == 0 {
        0
    } else {
        digits_value(s.drop_last()) * 10 + digit_value(s.last())
    }
}

/// Reads a run of decimal digits whose value is at most `max`.
pub fn parse_digits(s: &str, max: u64) -> (r: Option<u64>)
    ensures
        r is Some <==> all_digits(s@) && digits_value(s@) <= max,
        r matches Some(v) ==> v == digits_value(s@),
{
    let n = s.unicode_len();
    if n == 0 {
        return None;
    }
    let cap: u128 = max as u128 + 1;
    let mut acc: u128 = 0;
    let mut i: usize = 0;
    while i < n
        invariant
            n == s@.len(),
            i <= n,
            cap == max + 1,
            forall|k: int| 0 <= k < i ==> is_digit(#[trigger] s@[k]),
            acc == if digits_value(s@.take(i as int)) < cap { digits_value(s@.take(i as int)) } else { cap as nat },
        decreases n - i,
    {
        let c = s.get_char(i);
        if !('0' <= c && c <= '9') {
            assert(!is_digit(s@[i as int]));
            return None;
        }
        let d = (c as u32 - 48) as u128;
        assert(s@.take(i + 1).drop_last() == s@.take(i as int));
        assert(s@.take(i + 1).last() == c);
        let next = acc * 10 + d;
        acc = if next < cap { next } else { cap };
        i += 1;
    }
    assert(s@.take(n as int) == s@);
    if acc < cap {
        Some(acc as u64)
    } else {
        None
    }
}

/// The shortest decimal text of a natural number.
pub open spec fn decimal_text(n: nat) -> Seq<char>
    decreases n,
{
    if n < 10 {
        seq![digit_char(n)]
    } else {
        decimal_text(n / 10).push(digit_char(n % 10))
    }
}

fn digit_str(d: u64) -> (r: &'static str)
    requires
        d < 10,
    ensures
        r@ == seq![digit_char(d as nat)],
{
    proof {
        reveal_strlit("0");
        reveal_strlit("1");
        reveal_strlit("2");
        reveal_strlit("3");
        reveal_strlit("4");
        reveal_strlit("5");
        reveal_strlit("6");
        reveal_strlit("7");
        reveal_strlit("8");
        reveal_strlit("9");
    }
    match d {
        0 => "0",
        1 => "1",
        2 => "2",
        3 => "3",
        4 => "4",
        5 => "5",
        6 => "6",
        7 => "7",
        8 => "8",
        _ => "9",
    }
}

/// Decimal text of an unsigned integer.
pub fn u64_text(n: u64) -> (r: String)
    ensures
        r@ == decimal_text(n as nat),
    decreases n,
{
    if n < 10 {
        String::from_str(digit_str(n))
    } else {
        let mut s = u64_text(n / 10);
        s.append(digit_str(n % 10));
        s
    }
}


/// Whether two strings hold the same characters.
pub fn str_eq(a: &str, b: &str) -> (r: bool)
    ensures
        r == (a@ == b@),
{
    let n = a.unicode_len();
    if n != b.unicode_len() {
        return false;
    }
    let mut i: usize = 0;
    while i < n
        invariant
            n == a@.len(),
            n == b@.len(),
            i <= n,
            a@.take(i as int) == b@.take(i as int),
        decreases n - i,
    {
        if a.get_char(i) != b.get_char(i) {
            return false;
        }
        assert(a@.take(i + 1) == a@.take(i as int).push(a@[i as int]));
        assert(b@.take(i + 1) == b@.take(i as int).push(b@[i as int]));
        i += 1;
    }
    assert(a@ == a@.take(n as int));
    assert(b@ == b@.take(n as int));
    true
}

/// A value with an exact textual form on the wire.
pub trait WireForm {
    /// The text that stands for this value on the wire.
    spec fn wire_spec(&self) -> Seq<char>;

    /// Writes the wire text of this value.
    fn wire(&self) -> (r: String)
        ensures
            r@ == self.wire_spec(),
    ;
}

/// The wire texts of `xs`, in order, separated by `;`.
pub open spec fn join_wire<T: WireForm>(xs: Seq<T>) -> Seq<char>
    decreases xs.len(),
{
    if xs.len() == 0 {
        Seq::empty()
    } else if xs.len() == 1 {
        xs[0].wire_spec()
    } else {
        join_wire(xs.drop_last()) + seq![';'] + xs.last().wire_spec()
    }
}

impl WireForm for bool {
    open spec fn wire_spec(&self) -> Seq<char> {
        if *self {
            "true"@
        } else {
            "false"@
        }
    }

    fn wire(&self) -> (r: String) {
        if *self {
            String::from_str("true")
        } else {
            String::from_str("false")
        }
    }
}

impl WireForm for usize {
    open spec fn wire_spec(&self) -> Seq<char> {
        decimal_text(*self as nat)
    }

    fn wire(&self) -> (r: String) {
        u64_text(*self as u64)
    }
}

impl WireForm for u64 {
    open spec fn wire_spec(&self) -> Seq<char> {
        decimal_text(*self as nat)
    }

    fn wire(&self) -> (r: String) {
        u64_text(*self)
    }
}

impl WireForm for String {
    open spec fn wire_spec(&self) -> Seq<char> {
        self@
    }

    fn wire(&self) -> (r: String) {
        self.clone()
    }
}

/// Joins the wire texts of `xs` with `;`.
pub fn multi<T: WireForm>(xs: &[T]) -> (r: String)
    ensures
        r@ == join_wire(xs@),
{
    let mut out = String::new();
    let mut i: usize = 0;
    while i < xs.len()
        invariant
            i <= xs@.len(),
            out@ == join_wire(xs@.take(i as int)),
        decreases xs@.len() - i,
    {
        let w = xs[i].wire();
        proof {
            reveal_strlit(";");
        }
        if i > 0 {
            out.append(";");
        }
        out.append(w.as_str());
        let ghost pre = xs@.take(i as int);
        let ghost next = xs@.take(i + 1);
        assert(next.drop_last() == pre);
        assert(next.last() == xs@[i as int]);
        assert(next[0] == xs@[0]);
        if i == 0 {
            assert(out@ == w@);
        } else {
            assert(out@ == join_wire(pre) + seq![';'] + w@);
        }
        i += 1;
    }
    assert(xs@.take(xs@.len() as int) == xs@);
    out
}

/// The number of times `c` occurs in `s`.
pub open spec fn count_char(s: Seq<char>, c: char) -> nat
    decreases s.len(),
{
    if s.len() == 0 {
        0
    } else {
        count_char(s.drop_last(), c) + if s.last() == c {
            1nat
        } else {
            0nat
        }
    }
}

proof fn lemma_count_char_concat(a: Seq<char>, b: Seq<char>, c: char)
    ensures
        count_char(a + b, c) == count_char(a, c) + count_char(b, c),
    decreases b.len(),
{
    if b.len() > 0 {
        assert((a + b).drop_last() == a + b.drop_last());
        lemma_count_char_concat(a, b.drop_last(), c);
    } else {
        assert(a + b == a);
    }
}

/// A list of `n` values, none of whose wire texts holds a `;`, is written with
/// exactly `n - 1` separators.
pub proof fn lemma_separator_count<T: WireForm>(xs: Seq<T>)
    requires
        xs.len() >= 1,
        forall|i: int| 0 <= i < xs.len() ==> count_char(#[trigger] xs[i].wire_spec(), ';') == 0,
    ensures
        count_char(join_wire(xs), ';') == xs.len() - 1,
    decreases xs.len(),
{
    if xs.len() > 1 {
        let pre = xs.drop_last();
        assert forall|i: int| 0 <= i < pre.len() implies count_char(
            #[trigger] pre[i].wire_spec(),
            ';',
        ) == 0 by {
            assert(pre[i] == xs[i]) by {
                assert(i < xs.len());
            }
        }
        lemma_separator_count(pre);
        lemma_count_char_concat(join_wire(pre), seq![';'], ';');
        lemma_count_char_concat(join_wire(pre) + seq![';'], xs.last().wire_spec(), ';');
        assert(seq![';'].drop_last() =~= Seq::<char>::empty());
        assert(count_char(Seq::<char>::empty(), ';') == 0);
        assert(seq![';'].last() == ';');
        assert(count_char(seq![';'], ';') == 1);
        assert(xs.last() == xs[xs.len() - 1]);
        assert(count_char(xs.last().wire_spec(), ';') == 0);
    } else {
        assert(count_char(xs[0].wire_spec(), ';') == 0);
    }
}

} // verus!
