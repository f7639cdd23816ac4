//! Trimming and unsigned decimal parsing of text, as the guessing game
//! reads a player's guess.
use vstd::prelude::*;
use vstd::string::*;

verus! {

/// An ASCII control character: U+0000 to U+001F, or U+007F.
pub open spec fn is_ascii_control(c: char) -> bool {
    let u = c as u32;
    u <= 0x1f || u == 0x7f
}

/// A character with the Unicode `White_Space` property.
pub open spec fn is_unicode_whitespace(c: char) -> bool {
    let u = c as u32;
    ||| 0x09 <= u <= 0x0d
    ||| u == 0x20
    ||| u == 0x85
    ||| u == 0xa0
    ||| u == 0x1680
    ||| 0x2000 <= u <= 0x200a
    ||| u == 0x2028
    ||| u == 0x2029
    ||| u == 0x202f
    ||| u == 0x205f
    ||| u == 0x3000
}

/// A character that is trimmed from both ends of a guess.
pub open spec fn is_padding(c: char) -> bool {
    is_ascii_control(c) || is_unicode_whitespace(c)
}

/// `s` without its leading padding characters.
pub open spec fn trim_start(s: Seq<char>) -> Seq<char>
    decreases s.len(),
{
    if s.len() > 0 && is_padding(s[0]) {
        trim_start(s.drop_first())
    } else {
        s
    }
}

/// `s` without its trailing padding characters.
pub open spec fn trim_end(s: Seq<char>) -> Seq<char>
    decreases s.len(),
{
    if s.len() > 0 && is_padding(s.last()) {
        trim_end(s.drop_last())
    } else {
        s
    }
}

/// `s` without its leading and trailing padding characters.
pub open spec fn trim_padding(s: Seq<char>) -> Seq<char> {
    trim_end(trim_start(s))
}

/// An ASCII decimal digit.
pub open spec fn is_digit(c: char) -> bool {
    '0' <= c <= '9'
}

/// The value of a decimal digit character.
pub open spec fn digit_value(c: char) -> nat {
    ((c as u32) - ('0' as u32)) as nat
}

/// Every character of `s` is a decimal digit.
pub open spec fn all_digits(s: Seq<char>) -> bool {
    forall|i: int| 0 <= i < s.len() ==> #[trigger] is_digit(s[i])
}

/// The number that the decimal digits `s` denote (most significant first).
pub open spec fn digits_value(s: Seq<char>) -> nat
    decreases s.len(),
{
    if s.len() == 0 {
        0
    } else {
        digits_value(s.drop_last()) * 10 + digit_value(s.last())
    }
}

/// The digits of `s` after an optional leading `+`.
pub open spec fn unsigned_digits(s: Seq<char>) -> Seq<char> {
    if s.len() > 0 && s[0] == '+' {
        s.drop_first()
    } else {
        s
    }
}

/// What parsing `s` as a `u32` gives: an optional `+`, then one or more
/// decimal digits whose value fits in 32 bits; anything else is refused.
pub open spec fn parse_u32(s: Seq<char>) -> Option<u32> {
    let d = unsigned_digits(s);
    if d.len() == 0 || !all_digits(d) || digits_value(d) > u32::MAX {
        None
    } else {
        Some(digits_value(d) as u32)
    }
}

/// Whether `c` is trimmed from a guess.
pub fn is_padding_char(c: char) -> (b: bool)
    ensures
        b == is_padding(c),
{
    let u = c as u32;
    u <= 0x20 || u == 0x7f || u == 0x85 || u == 0xa0 || u == 0x1680
        || (0x2000 <= u && u <= 0x200a) || u == 0x2028 || u == 0x2029 || u == 0x202f
        || u == 0x205f || u == 0x3000
}

proof fn lemma_trim_start_at(s: Seq<char>, a: int)
    requires
        0 <= a <= s.len(),
        forall|k: int| 0 <= k < a ==> #[trigger] is_padding(s[k]),
        a == s.len() || !is_padding(s[a]),
    ensures
        trim_start(s) == s.subrange(a, s.len() as int),
    decreases a,
{
    if a == 0 {
        assert(s.subrange(0, s.len() as int) =~= s);
    } else {
        let t = s.drop_first();
        assert forall|k: int| 0 <= k < a - 1 implies #[trigger] is_padding(t[k]) by {
            assert(t[k] == s[k + 1]);
        }
        lemma_trim_start_at(t, a - 1);
        assert(t.subrange(a - 1, t.len() as int) =~= s.subrange(a, s.len() as int));
    }
}

proof fn lemma_trim_end_at(s: Seq<char>, b: int)
    requires
        0 <= b <= s.len(),
        forall|k: int| b <= k < s.len() ==> #[trigger] is_padding(s[k]),
        b == 0 || !is_padding(s[b - 1]),
    ensures
        trim_end(s) == s.subrange(0, b),
    decreases s.len() - b,
{
    if b == s.len() {
        assert(s.subrange(0, b) =~= s);
    } else {
        let t = s.drop_last();
        assert forall|k: int| b <= k < t.len() implies #[trigger] is_padding(t[k]) by {
            assert(t[k] == s[k]);
        }
        lemma_trim_end_at(t, b);
        assert(t.subrange(0, b) =~= s.subrange(0, b));
    }
}

proof fn lemma_digits_value_prefix(s: Seq<char>, k: int)
    requires
        0 <= k <= s.len(),
    ensures
        digits_value(s.subrange(0, k)) <= digits_value(s),
    decreases s.len(),
{
    if k == s.len() {
        assert(s.subrange(0, k) =~= s);
    } else {
        let t = s.drop_last();
        lemma_digits_value_prefix(t, k);
        assert(t.subrange(0, k) =~= s.subrange(0, k));
    }
}

/// The bounds `(a, b)` of `s` with its padding trimmed:
/// the trimmed text is the characters from `a` up to `b`.
pub fn trimmed_bounds(s: &str) -> (r: (usize, usize))
    ensures
        r.0 <= r.1 <= s@.len(),
        s@.subrange(r.0 as int, r.1 as int) == trim_padding(s@),
{
    let n = s.unicode_len();
    let mut a: usize = 0;
    while a < n && is_padding_char(s.get_char(a))
        invariant
            n == s@.len(),
            a <= n,
            forall|k: int| 0 <= k < a ==> #[trigger] is_padding(s@[k]),
        decreases n - a,
    {
        a = a + 1;
    }
    proof {
        lemma_trim_start_at(s@, a as int);
    }
    let ghost t = s@.subrange(a as int, n as int);
    let mut b: usize = n;
    while b > a && is_padding_char(s.get_char(b - 1))
        invariant
            n == s@.len(),
            a <= b <= n,
            t == s@.subrange(a as int, n as int),
            forall|k: int| b <= k < n ==> #[trigger] is_padding(s@[k]),
        decreases b - a,
    {
        b = b - 1;
    }
    proof {
        assert forall|k: int| b - a <= k < t.len() implies #[trigger] is_padding(t[k]) by {
            assert(t[k] == s@[k + a]);
        }
        if b > a {
            assert(t[b - a - 1] == s@[b - 1]);
        }
        lemma_trim_end_at(t, b - a);
        assert(t.subrange(0, b - a) =~= s@.subrange(a as int, b as int));
    }
    (a, b)
}

/// Parses the characters of `s` from `from` up to `to` as a `u32`.
pub fn parse_u32_range(s: &str, from: usize, to: usize) -> (r: Option<u32>)
    requires
        from <= to <= s@.len(),
    ensures
        r == parse_u32(s@.subrange(from as int, to as int)),
{
    let ghost w = s@.subrange(from as int, to as int);
    let mut start = from;
    if from < to && s.get_char(from) == '+' {
        start = from + 1;
    }
    let ghost d = s@.subrange(start as int, to as int);
    assert(d =~= unsigned_digits(w));
    if start == to {
        return None;
    }
    let mut i = start;
    let mut acc: u64 = 0;
    while i < to
        invariant
            start <= i <= to <= s@.len(),
            d == s@.subrange(start as int, to as int),
            w == s@.subrange(from as int, to as int),
            d == unsigned_digits(w),
            d.len() > 0,
            acc == digits_value(d.subrange(0, i - start)),
            acc <= u32::MAX,
            forall|k: int| 0 <= k < i - start ==> #[trigger] is_digit(d[k]),
        decreases to - i,
    {
        let c = s.get_char(i);
        assert(c == d[i - start]);
        if !('0' <= c && c <= '9') {
            assert(!is_digit(d[i - start]));
            assert(!all_digits(d));
            return None;
        }
        let v = (c as u32 - '0' as u32) as u64;
        let ghost prev = d.subrange(0, i - start);
        let ghost next = d.subrange(0, i + 1 - start);
        assert(next.drop_last() =~= prev);
        acc = acc * 10 + v;
        i = i + 1;
        if acc > u32::MAX as u64 {
            proof {
                lemma_digits_value_prefix(d, i - start);
            }
            return None;
        }
    }
    assert(d.subrange(0, i - start) =~= d);
    Some(acc as u32)
}

/// Decimal text reads back as the number it was written from: parsing
/// the decimal text of any `n` below 2^32 gives `n`, and trimming leaves it unchanged.
pub proof fn lemma_parse_decimal(n: u32)
    ensures
        trim_padding(crate::decimal::decimal(n as nat)) == crate::decimal::decimal(n as nat),
        parse_u32(crate::decimal::decimal(n as nat)) == Some(n),
{
    let t = crate::decimal::decimal(n as nat);
    lemma_decimal_digits(n as nat);
    assert(is_digit(t[0]));
    assert(!is_padding(t[0]));
    assert(!is_padding(t[t.len() - 1]));
    lemma_trim_start_at(t, 0);
    assert(t.subrange(0, t.len() as int) =~= t);
    lemma_trim_end_at(t, t.len() as int);
    assert(unsigned_digits(t) == t);
}

/// The decimal text of `n` is a nonempty run of digits whose value is `n`.
pub proof fn lemma_decimal_digits(n: nat)
    ensures
        crate::decimal::decimal(n).len() > 0,
        all_digits(crate::decimal::decimal(n)),
        digits_value(crate::decimal::decimal(n)) == n,
    decreases n,
{
    let t = crate::decimal::decimal(n);
    if n < 10 {
        lemma_digit_char(n);
        assert(t.drop_last() =~= Seq::<char>::empty());
        assert(digits_value(t.drop_last()) == 0);
        assert(t.last() == crate::decimal::digit_char(n));
    } else {
        lemma_decimal_digits(n / 10);
        lemma_digit_char(n % 10);
        let p = crate::decimal::decimal(n / 10);
        assert(t.drop_last() =~= p);
        assert(t.last() == crate::decimal::digit_char(n % 10));
        assert(digits_value(t) == digits_value(p) * 10 + digit_value(t.last()));
        assert(n == (n / 10) * 10 + n % 10);
        assert forall|i: int| 0 <= i < t.len() implies #[trigger] is_digit(t[i]) by {
            if i < p.len() {
                assert(t[i] == p[i]);
            }
        }
    }
}

proof fn lemma_digit_char(d: nat)
    requires
        d < 10,
    ensures
        is_digit(crate::decimal::digit_char(d)),
        digit_value(crate::decimal::digit_char(d)) == d,
{
}

/// Every character of `s` is a padding character.
pub open spec fn all_padding(s: Seq<char>) -> bool {
    forall|i: int| 0 <= i < s.len() ==> #[trigger] is_padding(s[i])
}

proof fn lemma_trim_start_skips_padding(p: Seq<char>, t: Seq<char>)
    requires
        all_padding(p),
    ensures
        trim_start(p + t) == trim_start(t),
    decreases p.len(),
{
    if p.len() == 0 {
        assert(p + t =~= t);
    } else {
        assert((p + t)[0] == p[0]);
        let q = p.drop_first();
        assert(all_padding(q)) by {
            assert forall|i: int| 0 <= i < q.len() implies #[trigger] is_padding(q[i]) by {
                assert(q[i] == p[i + 1]);
            }
        }
        assert((p + t).drop_first() =~= q + t);
        lemma_trim_start_skips_padding(q, t);
    }
}

proof fn lemma_trim_end_skips_padding(t: Seq<char>, q: Seq<char>)
    requires
        all_padding(q),
    ensures
        trim_end(t + q) == trim_end(t),
    decreases q.len(),
{
    if q.len() == 0 {
        assert(t + q =~= t);
    } else {
        assert((t + q).last() == q.last());
        let r = q.drop_last();
        assert(all_padding(r)) by {
            assert forall|i: int| 0 <= i < r.len() implies #[trigger] is_padding(r[i]) by {
                assert(r[i] == q[i]);
            }
        }
        assert((t + q).drop_last() =~= t + r);
        lemma_trim_end_skips_padding(t, r);
    }
}

proof fn lemma_trim_start_keeps_tail(s: Seq<char>, q: Seq<char>)
    requires
        !all_padding(s),
    ensures
        trim_start(s + q) == trim_start(s) + q,
    decreases s.len(),
{
    assert(s.len() > 0);
    assert((s + q)[0] == s[0]);
    if is_padding(s[0]) {
        let r = s.drop_first();
        assert(!all_padding(r)) by {
            let i = choose|i: int| 0 <= i < s.len() && !is_padding(s[i]);
            assert(i > 0);
            assert(r[i - 1] == s[i]);
        }
        assert((s + q).drop_first() =~= r + q);
        lemma_trim_start_keeps_tail(r, q);
    }
}

proof fn lemma_trim_start_of_padding(s: Seq<char>)
    requires
        all_padding(s),
    ensures
        trim_start(s) == Seq::<char>::empty(),
{
    lemma_trim_start_skips_padding(s, Seq::<char>::empty());
    assert(s + Seq::<char>::empty() =~= s);
}

/// Padding characters added at either end of a text are trimmed away:
/// the trimmed text is the same as without them.
pub proof fn lemma_trim_ignores_added_padding(p: Seq<char>, s: Seq<char>, q: Seq<char>)
    requires
        all_padding(p),
        all_padding(q),
    ensures
        trim_padding(p + s + q) == trim_padding(s),
{
    assert(p + s + q =~= p + (s + q));
    lemma_trim_start_skips_padding(p, s + q);
    if all_padding(s) {
        lemma_trim_start_skips_padding(s, q);
        lemma_trim_start_of_padding(q);
        lemma_trim_start_of_padding(s);
    } else {
        lemma_trim_start_keeps_tail(s, q);
        lemma_trim_end_skips_padding(trim_start(s), q);
    }
}

} // verus!
