//! The number guessing game played by each WebSocket session.
use core::cmp::Ordering;
use vstd::prelude::*;
use crate::text::{parse_u32, parse_u32_range, trim_padding, trimmed_bounds};

verus! {

/// One game: the secret number, how many guesses were counted, and
/// whether the secret was found.
pub struct GuessingGame {
    pub guesses: u32,
    pub secret: u32,
    pub done: bool,
}

/// How `guess` compares with `secret`.
pub open spec fn compare_to_secret(guess: u32, secret: u32) -> Ordering {
    if guess < secret {
        Ordering::Less
    } else if guess == secret {
        Ordering::Equal
    } else {
        Ordering::Greater
    }
}

/// The game after one guess, and the reply: the comparison and the
/// number of guesses counted. A finished game is left as it is and
/// answers `Equal` with its count.
pub open spec fn guess_outcome(g: GuessingGame, guess: u32) -> (GuessingGame, (Ordering, u32)) {
    if g.done {
        (g, (Ordering::Equal, g.guesses))
    } else {
        let n = next_count(g.guesses);
        let o = compare_to_secret(guess, g.secret);
        (GuessingGame { guesses: n, secret: g.secret, done: o == Ordering::Equal }, (o, n))
    }
}

/// The count after one more guess.
pub open spec fn next_count(n: u32) -> u32 {
    (n + 1) as u32
}

/// The guess a player's text stands for: the text without leading and
/// trailing ASCII control and white-space characters, read as a `u32`
/// that lies between 1 and 100.
pub open spec fn guess_from_text(s: Seq<char>) -> Option<u32> {
    match parse_u32(trim_padding(s)) {
        Some(n) => if 1 <= n && n <= 100 { Some(n) } else { None },
        None => None,
    }
}

impl GuessingGame {
    /// A new game for `secret`, with no guess counted.
    pub fn new(secret: u32) -> (g: Self)
        ensures
            g.guesses == 0,
            g.secret == secret,
            !g.done,
    {
        GuessingGame { guesses: 0, secret, done: false }
    }

    /// Counts a guess and compares it with the secret; returns the
    /// comparison and the number of guesses so far.
    pub fn guess(&mut self, guess: u32) -> (r: (Ordering, u32))
        requires
            old(self).done || old(self).guesses < u32::MAX,
        ensures
            (*final(self), r) == guess_outcome(*old(self), guess),
    {
        if self.done {
            (Ordering::Equal, self.guesses)
        } else {
            self.guesses = self.guesses + 1;
            let order = if guess < self.secret {
                Ordering::Less
            } else if guess == self.secret {
                Ordering::Equal
            } else {
                Ordering::Greater
            };
            if guess == self.secret {
                self.done = true;
            }
            (order, self.guesses)
        }
    }

    /// Reads a guess from a player's text; `None` where the text is not a
    /// number from 1 to 100.
    pub fn parse_guess(input: &str) -> (r: Option<u32>)
        ensures
            r == guess_from_text(input@),
    {
        let (a, b) = trimmed_bounds(input);
        match parse_u32_range(input, a, b) {
            Some(number) => {
                if 1 <= number && number <= 100 {
                    Some(number)
                } else {
                    None
                }
            },
            None => None,
        }
    }
}

/// A finished game is not changed by a guess, which is answered
/// `Equal` with the final count.
pub proof fn lemma_finished_game_is_stable(g: GuessingGame, guess: u32)
    requires
        g.done,
    ensures
        guess_outcome(g, guess) == (g, (Ordering::Equal, g.guesses)),
{
}

/// While a game is running, each guess adds one to the count, keeps the
/// secret, and the reply carries the new count.
pub proof fn lemma_guess_is_counted(g: GuessingGame, guess: u32)
    requires
        !g.done,
        g.guesses < u32::MAX,
    ensures
        guess_outcome(g, guess).0.guesses == g.guesses + 1,
        guess_outcome(g, guess).0.secret == g.secret,
        guess_outcome(g, guess).1.1 == g.guesses + 1,
{
}

/// While a game is running, a guess is answered `Equal` exactly when it
/// is the secret, and the game is finished exactly then.
pub proof fn lemma_game_ends_on_secret(g: GuessingGame, guess: u32)
    requires
        !g.done,
    ensures
        (guess_outcome(g, guess).1.0 == Ordering::Equal) <==> guess == g.secret,
        guess_outcome(g, guess).0.done <==> guess == g.secret,
        (guess_outcome(g, guess).1.0 == Ordering::Less) <==> guess < g.secret,
        (guess_outcome(g, guess).1.0 == Ordering::Greater) <==> guess > g.secret,
{
}

/// Every number from 1 to 100, written in decimal, is read back as itself.
pub proof fn lemma_decimal_guess_is_read(n: u32)
    requires
        1 <= n <= 100,
    ensures
        guess_from_text(crate::decimal::decimal(n as nat)) == Some(n),
{
    crate::text::lemma_parse_decimal(n);
}

/// Control and white-space characters added at either end of a player's
/// text do not change the guess read from it.
pub proof fn lemma_padding_does_not_change_guess(p: Seq<char>, s: Seq<char>, q: Seq<char>)
    requires
        crate::text::all_padding(p),
        crate::text::all_padding(q),
    ensures
        guess_from_text(p + s + q) == guess_from_text(s),
{
    crate::text::lemma_trim_ignores_added_padding(p, s, q);
}

/// A guess read from text is always a number from 1 to 100, and it is
/// the number that the trimmed text spells.
pub proof fn lemma_guess_in_range(s: Seq<char>)
    ensures
        guess_from_text(s) matches Some(n) ==> 1 <= n <= 100 && parse_u32(trim_padding(s)) == Some(n),
{
}

/// Numbers outside 1 to 100, written in decimal, are refused.
pub proof fn lemma_out_of_range_refused(n: u32)
    requires
        n == 0 || n > 100,
    ensures
        guess_from_text(crate::decimal::decimal_of(n)) is None,
{
    crate::text::lemma_parse_decimal(n);
}

} // verus!
