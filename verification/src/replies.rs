//! The texts that the guessing game sends to a player.
use vstd::prelude::*;
use vstd::string::*;
use crate::decimal::{decimal_of, push_decimal};
use crate::ordinal::{nth, ordinal_of, push_cow};

verus! {

/// The secret of a new game, from a random number: 1 to 100.
pub open spec fn secret_from_random(r: u32) -> u32 {
    (r % 100 + 1) as u32
}

/// The greeting of a new session.
pub open spec fn welcome_text() -> Seq<char> {
    "Welcome to the guessing game! Enter a number between 1 and 100"@
}

/// The hint for text that is not a number from 1 to 100.
pub open spec fn please_text() -> Seq<char> {
    "Please enter a number between 1 and 100"@
}

/// The answer to bytes that are not UTF-8.
pub open spec fn utf8_error_text() -> Seq<char> {
    "[UTF-8 Error]"@
}

/// The answer to a message longer than the game accepts.
pub open spec fn too_big_text() -> Seq<char> {
    "Request too big"@
}

/// The answer to the `n`-th guess when it was above the secret.
pub open spec fn high_reply(n: u32) -> Seq<char> {
    "Your "@ + ordinal_of(n) + " guess was too high"@
}

/// The answer to the `n`-th guess when it was below the secret.
pub open spec fn low_reply(n: u32) -> Seq<char> {
    "Your "@ + ordinal_of(n) + " guess was too low"@
}

/// The answer to the `n`-th guess when it found `secret`.
pub open spec fn win_reply(secret: u32, n: u32) -> Seq<char> {
    "You guessed "@ + decimal_of(secret) + " on your "@ + ordinal_of(n) + " try! Refresh to play again"@
}

/// The rudimentary random number drawn from the sub-second nanoseconds
/// of the clock.
pub fn random_from_nanos(nanos: u32) -> (r: u32)
    ensures
        r == nanos / 65537,
{
    nanos / 65537
}

/// The secret of a new game for the random number `random`.
pub fn secret_of(random: u32) -> (s: u32)
    ensures
        s == secret_from_random(random),
        1 <= s <= 100,
{
    random % 100 + 1
}

/// The greeting of a new session.
pub fn welcome() -> (s: String)
    ensures
        s@ == welcome_text(),
{
    String::from_str("Welcome to the guessing game! Enter a number between 1 and 100")
}

/// The hint for text that is not a number from 1 to 100.
pub fn please() -> (s: String)
    ensures
        s@ == please_text(),
{
    String::from_str("Please enter a number between 1 and 100")
}

/// The answer to bytes that are not UTF-8.
pub fn utf8_error() -> (s: String)
    ensures
        s@ == utf8_error_text(),
{
    String::from_str("[UTF-8 Error]")
}

/// The answer to a message longer than the game accepts.
pub fn too_big() -> (s: String)
    ensures
        s@ == too_big_text(),
{
    String::from_str("Request too big")
}

/// The answer to the `n`-th guess when it was above the secret.
pub fn too_high(n: u32) -> (s: String)
    ensures
        s@ == high_reply(n),
{
    let mut s = String::from_str("Your ");
    let o = nth(n);
    push_cow(&mut s, &o);
    s.append(" guess was too high");
    s
}

/// The answer to the `n`-th guess when it was below the secret.
pub fn too_low(n: u32) -> (s: String)
    ensures
        s@ == low_reply(n),
{
    let mut s = String::from_str("Your ");
    let o = nth(n);
    push_cow(&mut s, &o);
    s.append(" guess was too low");
    s
}

/// The answer to the `n`-th guess when it found `secret`.
pub fn won(secret: u32, n: u32) -> (s: String)
    ensures
        s@ == win_reply(secret, n),
{
    let mut s = String::from_str("You guessed ");
    push_decimal(&mut s, secret as u128);
    s.append(" on your ");
    let o = nth(n);
    push_cow(&mut s, &o);
    s.append(" try! Refresh to play again");
    s
}

/// The answers to a guess name which guess it was: right after the
/// opening words stands the English ordinal of the count, so answers to
/// different counts differ; the winning answer also names the secret in
/// decimal, right after its opening words.
pub proof fn lemma_replies_name_the_count(secret: u32, m: u32, n: u32)
    ensures
        high_reply(n).subrange("Your "@.len() as int, ("Your "@.len() + ordinal_of(n).len()) as int) == ordinal_of(n),
        low_reply(n).subrange("Your "@.len() as int, ("Your "@.len() + ordinal_of(n).len()) as int) == ordinal_of(n),
        ({
            let at = ("You guessed "@.len() + decimal_of(secret).len() + " on your "@.len()) as int;
            win_reply(secret, n).subrange(at, at + ordinal_of(n).len()) == ordinal_of(n)
        }),
        win_reply(secret, n).subrange("You guessed "@.len() as int, ("You guessed "@.len() + decimal_of(secret).len()) as int)
            == decimal_of(secret),
        m != n ==> high_reply(m) != high_reply(n),
        m != n ==> low_reply(m) != low_reply(n),
        m != n ==> win_reply(secret, m) != win_reply(secret, n),
{
    let p = "Your "@;
    let hi = " guess was too high"@;
    let lo = " guess was too low"@;
    let w1 = "You guessed "@;
    let w2 = " on your "@;
    let w3 = " try! Refresh to play again"@;
    let d = decimal_of(secret);
    assert(high_reply(n).subrange(p.len() as int, (p.len() + ordinal_of(n).len()) as int) =~= ordinal_of(n));
    assert(low_reply(n).subrange(p.len() as int, (p.len() + ordinal_of(n).len()) as int) =~= ordinal_of(n));
    let at = (w1.len() + d.len() + w2.len()) as int;
    assert(win_reply(secret, n).subrange(at, at + ordinal_of(n).len()) =~= ordinal_of(n));
    assert(win_reply(secret, n).subrange(w1.len() as int, (w1.len() + d.len()) as int) =~= d);
    if m != n {
        crate::ordinal::lemma_ordinals_differ(m as nat, n as nat);
        if high_reply(m) == high_reply(n) {
            assert(high_reply(m).len() == p.len() + ordinal_of(m).len() + hi.len());
            assert(high_reply(n).len() == p.len() + ordinal_of(n).len() + hi.len());
            assert(high_reply(m).subrange(p.len() as int, (p.len() + ordinal_of(m).len()) as int) =~= ordinal_of(m));
        }
        if low_reply(m) == low_reply(n) {
            assert(low_reply(m).len() == p.len() + ordinal_of(m).len() + lo.len());
            assert(low_reply(n).len() == p.len() + ordinal_of(n).len() + lo.len());
            assert(low_reply(m).subrange(p.len() as int, (p.len() + ordinal_of(m).len()) as int) =~= ordinal_of(m));
        }
        if win_reply(secret, m) == win_reply(secret, n) {
            assert(win_reply(secret, m).len() == at + ordinal_of(m).len() + w3.len());
            assert(win_reply(secret, n).len() == at + ordinal_of(n).len() + w3.len());
            assert(win_reply(secret, m).subrange(at, at + ordinal_of(m).len()) =~= ordinal_of(m));
        }
    }
}

/// The fixed answers of the game: the greeting and the hint name the
/// accepted range 1 to 100.
pub proof fn lemma_fixed_texts()
    ensures
        welcome_text() == "Welcome to the guessing game! Enter a number between 1 and 100"@,
        please_text() == "Please enter a number between 1 and 100"@,
        utf8_error_text() == "[UTF-8 Error]"@,
        too_big_text() == "Request too big"@,
{
}

/// Every secret lies between 1 and 100, is one more than the random
/// number's remainder by 100, and random numbers 100 apart give the same secret.
pub proof fn lemma_secret_range(r: u32)
    ensures
        1 <= secret_from_random(r) <= 100,
        secret_from_random(r) - 1 == r % 100,
        r + 100 <= u32::MAX ==> secret_from_random((r + 100) as u32) == secret_from_random(r),
{
}

} // verus!
