//! English ordinals ("first", "second", ..., "11th", "21st", "111th") used
//! in the game's replies.
use std::borrow::Cow;
use vstd::prelude::*;
use vstd::string::*;
use crate::decimal::{decimal, push_decimal};
use crate::text::{digits_value, is_digit, lemma_decimal_digits};

verus! {

/// The ordinal words for 0 to 9.
pub open spec fn ordinal_word(n: nat) -> Seq<char> {
    if n == 0 { "zeroth"@ }
    else if n == 1 { "first"@ }
    else if n == 2 { "second"@ }
    else if n == 3 { "third"@ }
    else if n == 4 { "fourth"@ }
    else if n == 5 { "fifth"@ }
    else if n == 6 { "sixth"@ }
    else if n == 7 { "seventh"@ }
    else if n == 8 { "eighth"@ }
    else { "ninth"@ }
}

/// The English ending of the ordinal of `n`: "th" when the last two
/// digits are 11, 12 or 13; otherwise "st", "nd" or "rd" after a last
/// digit 1, 2 or 3, and "th" after any other.
pub open spec fn ordinal_suffix(n: nat) -> Seq<char> {
    if 11 <= n % 100 <= 13 { "th"@ }
    else if n % 10 == 1 { "st"@ }
    else if n % 10 == 2 { "nd"@ }
    else if n % 10 == 3 { "rd"@ }
    else { "th"@ }
}

/// The English ordinal of `n`: a word up to 9, and from 10 on the
/// decimal digits followed by the English ending.
pub open spec fn ordinal(n: nat) -> Seq<char> {
    if n <= 9 {
        ordinal_word(n)
    } else {
        decimal(n) + ordinal_suffix(n)
    }
}

/// The English ordinal of a 32-bit count.
pub open spec fn ordinal_of(n: u32) -> Seq<char> {
    ordinal(n as nat)
}

/// The ordinal text of 10 to 13 as written out: its digits and "th".
proof fn lemma_short_forms(n: nat)
    requires
        10 <= n <= 13,
    ensures
        ordinal(n) == if n == 10 { "10th"@ } else if n == 11 { "11th"@ } else if n == 12 { "12th"@ } else { "13th"@ },
{
    reveal_strlit("10th");
    reveal_strlit("11th");
    reveal_strlit("12th");
    reveal_strlit("13th");
    reveal_strlit("th");
    assert(decimal(n) == decimal(n / 10).push(crate::decimal::digit_char(n % 10)));
    assert(decimal(n / 10) == seq![crate::decimal::digit_char(1)]);
    assert(decimal(n) + "th"@ =~= ordinal(n));
}

/// The English ordinal of `n` (see [`ordinal`]). The words and the
/// short forms up to 13 are static texts; only larger numbers allocate.
pub fn nth(n: u32) -> (s: Cow<'static, str>)
    ensures
        s@ == ordinal(n as nat),
        s is Borrowed <==> n <= 13,
{
    if n <= 13 {
        let w: &'static str = if n == 0 { "zeroth" }
            else if n == 1 { "first" }
            else if n == 2 { "second" }
            else if n == 3 { "third" }
            else if n == 4 { "fourth" }
            else if n == 5 { "fifth" }
            else if n == 6 { "sixth" }
            else if n == 7 { "seventh" }
            else if n == 8 { "eighth" }
            else if n == 9 { "ninth" }
            else if n == 10 { "10th" }
            else if n == 11 { "11th" }
            else if n == 12 { "12th" }
            else { "13th" };
        proof {
            if n >= 10 {
                lemma_short_forms(n as nat);
            }
        }
        Cow::Borrowed(w)
    } else {
        let mut s = String::new();
        push_decimal(&mut s, n as u128);
        let tens = n % 100;
        let last = n % 10;
        let suffix: &str = if 11 <= tens && tens <= 13 { "th" }
            else if last == 1 { "st" }
            else if last == 2 { "nd" }
            else if last == 3 { "rd" }
            else { "th" };
        s.append(suffix);
        assert(s@ =~= ordinal(n as nat));
        Cow::Owned(s)
    }
}

/// Appends the text of `c` to `out`.
pub fn push_cow(out: &mut String, c: &Cow<'static, str>)
    ensures
        final(out)@ == old(out)@ + c@,
{
    match c {
        Cow::Borrowed(b) => out.append(b),
        Cow::Owned(o) => out.append(o.as_str()),
    }
}

proof fn lemma_suffix_len(n: nat)
    ensures
        ordinal_suffix(n).len() == 2,
{
    reveal_strlit("th");
    reveal_strlit("st");
    reveal_strlit("nd");
    reveal_strlit("rd");
}

proof fn lemma_word_not_digit(n: nat)
    requires
        n <= 9,
    ensures
        ordinal_word(n).len() > 0,
        !is_digit(ordinal_word(n)[0]),
{
    reveal_strlit("zeroth");
    reveal_strlit("first");
    reveal_strlit("second");
    reveal_strlit("third");
    reveal_strlit("fourth");
    reveal_strlit("fifth");
    reveal_strlit("sixth");
    reveal_strlit("seventh");
    reveal_strlit("eighth");
    reveal_strlit("ninth");
}

/// From 10 on, an ordinal is the decimal text of the number followed by
/// a two-letter ending: "st", "nd", "rd" or "th".
pub proof fn lemma_ordinal_is_digits_and_ending(n: nat)
    requires
        n >= 10,
    ensures
        exists|e: Seq<char>|
            (e == "st"@ || e == "nd"@ || e == "rd"@ || e == "th"@) && #[trigger] (decimal(n) + e)
                == ordinal(n),
{
    assert(decimal(n) + ordinal_suffix(n) == ordinal(n));
}

/// From 10 on, the ending depends on the last two digits alone: numbers
/// whose last two digits agree get the same ending, and numbers ending in
/// 11, 12 or 13 end in "th".
pub proof fn lemma_ending_follows_last_two_digits(m: nat, n: nat)
    requires
        m >= 10,
        n >= 10,
        m % 100 == n % 100,
    ensures
        ordinal(m).subrange(decimal(m).len() as int, ordinal(m).len() as int)
            == ordinal(n).subrange(decimal(n).len() as int, ordinal(n).len() as int),
        11 <= n % 100 <= 13 ==> ordinal(n).subrange(decimal(n).len() as int, ordinal(n).len() as int) == "th"@,
{
    assert(m % 10 == (m % 100) % 10) by (nonlinear_arith) requires m >= 0;
    assert(n % 10 == (n % 100) % 10) by (nonlinear_arith) requires n >= 0;
    assert(ordinal(m).subrange(decimal(m).len() as int, ordinal(m).len() as int) =~= ordinal_suffix(m));
    assert(ordinal(n).subrange(decimal(n).len() as int, ordinal(n).len() as int) =~= ordinal_suffix(n));
}

/// Different numbers have different ordinals.
pub proof fn lemma_ordinals_differ(m: nat, n: nat)
    requires
        m != n,
    ensures
        ordinal(m) != ordinal(n),
{
    if m <= 9 && n <= 9 {
        reveal_strlit("zeroth");
        reveal_strlit("first");
        reveal_strlit("second");
        reveal_strlit("third");
        reveal_strlit("fourth");
        reveal_strlit("fifth");
        reveal_strlit("sixth");
        reveal_strlit("seventh");
        reveal_strlit("eighth");
        reveal_strlit("ninth");
        let a = ordinal(m);
        let b = ordinal(n);
        if a == b {
            assert(a.len() == b.len());
            assert(a[0] == b[0]);
            assert(a[1] == b[1]);
            assert(a[2] == b[2]);
        }
    } else if m <= 9 || n <= 9 {
        let (w, d) = if m <= 9 { (m, n) } else { (n, m) };
        lemma_word_not_digit(w);
        lemma_decimal_digits(d);
        assert((decimal(d) + ordinal_suffix(d))[0] == decimal(d)[0]);
        assert(is_digit(decimal(d)[0]));
    } else {
        lemma_suffix_len(m);
        lemma_suffix_len(n);
        lemma_decimal_digits(m);
        lemma_decimal_digits(n);
        if ordinal(m) == ordinal(n) {
            let k = decimal(m).len() as int;
            assert(ordinal(m).len() == decimal(m).len() + ordinal_suffix(m).len());
            assert(ordinal(n).len() == decimal(n).len() + ordinal_suffix(n).len());
            assert(decimal(n).len() == k);
            assert(ordinal(m).subrange(0, k) =~= decimal(m));
            assert(ordinal(n).subrange(0, k) =~= decimal(n));
            assert(digits_value(decimal(m)) == digits_value(decimal(n)));
        }
    }
}

/// The ordinals of 0 to 9 are the English words "zeroth" to "ninth".
pub proof fn lemma_ordinal_words()
    ensures
        ordinal(0) == "zeroth"@,
        ordinal(1) == "first"@,
        ordinal(2) == "second"@,
        ordinal(3) == "third"@,
        ordinal(4) == "fourth"@,
        ordinal(5) == "fifth"@,
        ordinal(6) == "sixth"@,
        ordinal(7) == "seventh"@,
        ordinal(8) == "eighth"@,
        ordinal(9) == "ninth"@,
{
}

/// From 10 on, the ordinal of `n` is the decimal digits of `n` (a run of
/// digits whose value is `n`) followed by two letters: "st" after a last
/// digit 1, "nd" after 2, "rd" after 3, except that last two digits 11,
/// 12 and 13 take "th"; every other number takes "th".
pub proof fn lemma_ordinal_endings(n: nat)
    requires
        n >= 10,
    ensures
        ({
            let o = ordinal(n);
            let k = decimal(n).len() as int;
            &&& o.len() == k + 2
            &&& o.subrange(0, k) == decimal(n)
            &&& crate::text::all_digits(o.subrange(0, k))
            &&& digits_value(o.subrange(0, k)) == n
            &&& (n % 10 == 1 && n % 100 != 11) ==> o[k] == 's' && o[k + 1] == 't'
            &&& (n % 10 == 2 && n % 100 != 12) ==> o[k] == 'n' && o[k + 1] == 'd'
            &&& (n % 10 == 3 && n % 100 != 13) ==> o[k] == 'r' && o[k + 1] == 'd'
            &&& !((n % 10 == 1 && n % 100 != 11) || (n % 10 == 2 && n % 100 != 12) || (n % 10 == 3
                && n % 100 != 13)) ==> o[k] == 't' && o[k + 1] == 'h'
        }),
{
    reveal_strlit("th");
    reveal_strlit("st");
    reveal_strlit("nd");
    reveal_strlit("rd");
    lemma_decimal_digits(n);
    let o = ordinal(n);
    let k = decimal(n).len() as int;
    assert(o.subrange(0, k) =~= decimal(n));
    assert(o[k] == ordinal_suffix(n)[0]);
    assert(o[k + 1] == ordinal_suffix(n)[1]);
    assert(n % 10 == (n % 100) % 10) by (nonlinear_arith) requires n >= 0;
}

} // verus!
