//! The WebSocket side of the guessing game: one game per session, and the
//! frames sent back for each event of a session.
use core::cmp::Ordering;
use std::collections::BTreeMap;
use vstd::prelude::*;
use vstd::string::*;
use vstd::utf8::{decode_utf8, encode_utf8, valid_utf8};
use crate::guess::{GuessingGame, guess_from_text, guess_outcome};
use crate::replies::{high_reply, low_reply, win_reply, secret_from_random, welcome_text,
    please_text, utf8_error_text, too_big_text};

verus! {

/// The largest payload, in bytes, that a guess may have.
pub const MAX_LEN: usize = 8;

/// A WebSocket frame sent to a player.
#[derive(Debug, PartialEq, Eq)]
pub enum Frame {
    /// A text frame (not a fragment).
    Text(String),
    /// The closing frame.
    Close,
}

/// What a frame holds, as plain values.
pub enum FrameView {
    Text(Seq<char>),
    Close,
}

impl View for Frame {
    type V = FrameView;

    open spec fn view(&self) -> FrameView {
        match self {
            Frame::Text(s) => FrameView::Text(s@),
            Frame::Close => FrameView::Close,
        }
    }
}

/// The frames of a reply, as plain values.
pub open spec fn frames_view(v: Seq<Frame>) -> Seq<FrameView> {
    v.map_values(|f: Frame| f@)
}

proof fn lemma_frames_push(v: Seq<Frame>, f: Frame)
    ensures
        frames_view(v.push(f)) == frames_view(v).push(f@),
{
    assert(frames_view(v.push(f)) =~= frames_view(v).push(f@));
}

/// The frames answering a guess that was read from a message: the
/// comparison `o` with the secret after `n` guesses.
pub open spec fn outcome_frames(o: Ordering, n: u32, secret: u32) -> Seq<FrameView> {
    match o {
        Ordering::Greater => seq![FrameView::Text(high_reply(n))],
        Ordering::Less => seq![FrameView::Text(low_reply(n))],
        Ordering::Equal => seq![FrameView::Text(win_reply(secret, n)), FrameView::Close],
    }
}

/// The game after a message with bytes `payload`, and the frames sent
/// back: bytes that are not UTF-8, and text that is not a number from
/// 1 to 100, leave the game as it is and are answered with a hint;
/// a number is counted as a guess and answered with its outcome.
pub open spec fn message_outcome(g: GuessingGame, payload: Seq<u8>) -> (GuessingGame, Seq<FrameView>) {
    if !valid_utf8(payload) {
        (g, seq![FrameView::Text(utf8_error_text())])
    } else {
        match guess_from_text(decode_utf8(payload)) {
            None => (g, seq![FrameView::Text(please_text())]),
            Some(x) => {
                let (g2, r) = guess_outcome(g, x);
                (g2, outcome_frames(r.0, r.1, g.secret))
            },
        }
    }
}

/// The game that a new session starts with, for a random number `r`.
pub open spec fn fresh_game(r: u32) -> GuessingGame {
    GuessingGame { guesses: 0, secret: secret_from_random(r), done: false }
}

/// Whether the game `g` can take one more guess without its count overflowing.
pub open spec fn can_count(g: GuessingGame) -> bool {
    g.done || g.guesses < u32::MAX
}

/// The games of all open sessions, keyed by session id.
pub struct GuessServer {
    sessions: BTreeMap<i32, GuessingGame>,
}

impl View for GuessServer {
    type V = Map<i32, GuessingGame>;

    closed spec fn view(&self) -> Map<i32, GuessingGame> {
        self.sessions@
    }
}

/// A reply of one text frame holding `s`.
fn single_text(s: String) -> (v: Vec<Frame>)
    ensures
        frames_view(v@) == seq![FrameView::Text(s@)],
{
    let mut v = Vec::new();
    v.push(Frame::Text(s));
    assert(frames_view(v@) =~= seq![FrameView::Text(s@)]);
    v
}

/// The text of `bytes` where they are UTF-8.
///
/// Calls `std::str::from_utf8`; claims that it succeeds exactly on valid
/// UTF-8 and that the text it gives encodes back to `bytes`.
#[verifier::external_body]
fn utf8_text(bytes: &[u8]) -> (r: Option<&str>)
    ensures
        r is Some <==> valid_utf8(bytes@),
        r matches Some(s) ==> encode_utf8(s@) == bytes@,
{
    std::str::from_utf8(bytes).ok()
}

impl GuessServer {
    /// A server with no session.
    pub fn new() -> (s: Self)
        ensures
            s@ == Map::<i32, GuessingGame>::empty(),
    {
        GuessServer { sessions: BTreeMap::new() }
    }

    /// The number of open sessions.
    pub fn session_count(&self) -> (n: usize)
        ensures
            n == self@.len(),
    {
        self.sessions.len()
    }

    /// The game of `session`, if it is open.
    pub fn game(&self, session: i32) -> (g: Option<&GuessingGame>)
        ensures
            match g {
                Some(g) => self@.contains_key(session) && *g == self@[session],
                None => !self@.contains_key(session),
            },
    {
        broadcast use vstd::std_specs::btree::group_btree_axioms;
        self.sessions.get(&session)
    }

    /// Opens `session` with a new game whose secret comes from the random
    /// number `random` (a previous game of that session is replaced), and
    /// returns the welcome frame.
    pub fn open_session(&mut self, session: i32, random: u32) -> (frames: Vec<Frame>)
        ensures
            final(self)@ == old(self)@.insert(session, fresh_game(random)),
            frames_view(frames@) == seq![FrameView::Text(welcome_text())],
    {
        broadcast use vstd::std_specs::btree::group_btree_axioms;
        let secret = crate::replies::secret_of(random);
        self.sessions.insert(session, GuessingGame::new(secret));
        single_text(crate::replies::welcome())
    }

    /// Closes `session`, dropping its game.
    pub fn close_session(&mut self, session: i32)
        ensures
            final(self)@ == old(self)@.remove(session),
    {
        broadcast use vstd::std_specs::btree::group_btree_axioms;
        self.sessions.remove(&session);
    }

    /// The frames that refuse a message of `len` bytes, where it is longer
    /// than [`MAX_LEN`]: a text saying so, then the closing frame.
    pub fn oversize_reply(len: usize) -> (r: Option<Vec<Frame>>)
        ensures
            r is Some <==> len > MAX_LEN,
            r matches Some(v) ==> frames_view(v@) == seq![FrameView::Text(too_big_text()), FrameView::Close],
    {
        if len > MAX_LEN {
            let mut v = single_text(crate::replies::too_big());
            proof { lemma_frames_push(v@, Frame::Close); }
            v.push(Frame::Close);
            assert(frames_view(v@) =~= seq![FrameView::Text(too_big_text()), FrameView::Close]);
            Some(v)
        } else {
            None
        }
    }

    /// Answers the message `payload` received on the open `session`
    /// (see [`message_outcome`]); other sessions are not touched.
    pub fn handle_message(&mut self, session: i32, payload: &[u8]) -> (frames: Vec<Frame>)
        requires
            old(self)@.contains_key(session),
            valid_utf8(payload@) && guess_from_text(decode_utf8(payload@)) is Some ==> can_count(
                old(self)@[session],
            ),
        ensures
            final(self)@ == old(self)@.insert(session, message_outcome(old(self)@[session], payload@).0),
            frames_view(frames@) == message_outcome(old(self)@[session], payload@).1,
    {
        broadcast use vstd::std_specs::btree::group_btree_axioms;
        broadcast use vstd::utf8::encode_utf8_decode_utf8;
        let ghost old_map = self.sessions@;
        let removed = self.sessions.remove(&session);
        let mut game = match removed {
            Some(g) => g,
            None => {
                assert(false);
                return Vec::new();
            },
        };
        assert(game == old_map[session]);
        let frames = match utf8_text(payload) {
            None => single_text(crate::replies::utf8_error()),
            Some(text) => {
                assert(text@ == decode_utf8(payload@));
                match GuessingGame::parse_guess(text) {
                    None => single_text(crate::replies::please()),
                    Some(x) => {
                        let secret = game.secret;
                        let (order, n) = game.guess(x);
                        match order {
                            Ordering::Greater => single_text(crate::replies::too_high(n)),
                            Ordering::Less => single_text(crate::replies::too_low(n)),
                            Ordering::Equal => {
                                let mut v = single_text(crate::replies::won(secret, n));
                                proof { lemma_frames_push(v@, Frame::Close); }
                                v.push(Frame::Close);
                                assert(frames_view(v@) =~= outcome_frames(order, n, secret));
                                v
                            },
                        }
                    },
                }
            },
        };
        self.sessions.insert(session, game);
        assert(self.sessions@ =~= old_map.insert(session, message_outcome(old_map[session], payload@).0));
        frames
    }
}

/// In a new game, the secret sent as its decimal text (UTF-8) wins at the
/// first guess: the reply names the secret and "first", then closes.
pub proof fn lemma_secret_wins_first_try(r: u32)
    ensures
        message_outcome(fresh_game(r), encode_utf8(crate::decimal::decimal_of(secret_from_random(r))))
            == (GuessingGame { guesses: 1, secret: secret_from_random(r), done: true },
                seq![FrameView::Text(win_reply(secret_from_random(r), 1)), FrameView::Close]),
{
    broadcast use vstd::utf8::encode_utf8_decode_utf8, vstd::utf8::encode_utf8_valid_utf8;
    let secret = secret_from_random(r);
    crate::guess::lemma_decimal_guess_is_read(secret);
    let payload = encode_utf8(crate::decimal::decimal_of(secret));
    assert(decode_utf8(payload) == crate::decimal::decimal_of(secret));
}

/// A reply closes the session exactly when the message is a number from
/// 1 to 100 and the game was already won or the number is the secret.
pub proof fn lemma_close_only_on_win(g: GuessingGame, payload: Seq<u8>)
    ensures
        message_outcome(g, payload).1.contains(FrameView::Close) <==> (valid_utf8(payload)
            && guess_from_text(decode_utf8(payload)) is Some && (g.done || guess_from_text(
            decode_utf8(payload))->0 == g.secret)),
{
    let out = message_outcome(g, payload).1;
    if valid_utf8(payload) && guess_from_text(decode_utf8(payload)) is Some {
        let x = guess_from_text(decode_utf8(payload))->0;
        if g.done || x == g.secret {
            assert(out[1] == FrameView::Close);
        } else {
            assert(out.len() == 1);
            assert(out[0] != FrameView::Close);
        }
    } else {
        assert(out.len() == 1);
        assert(out[0] != FrameView::Close);
    }
}

/// A message that is not UTF-8 text of a number from 1 to 100 leaves the
/// game as it was and is answered with a single text frame.
pub proof fn lemma_refused_message_keeps_game(g: GuessingGame, payload: Seq<u8>)
    requires
        !valid_utf8(payload) || guess_from_text(decode_utf8(payload)) is None,
    ensures
        message_outcome(g, payload).0 == g,
        message_outcome(g, payload).1.len() == 1,
        message_outcome(g, payload).1[0] is Text,
{
}

/// A number read from a message while the game runs is counted exactly
/// once, and the secret never changes.
pub proof fn lemma_read_guess_is_counted(g: GuessingGame, payload: Seq<u8>)
    requires
        !g.done,
        g.guesses < u32::MAX,
        valid_utf8(payload),
        guess_from_text(decode_utf8(payload)) is Some,
    ensures
        message_outcome(g, payload).0.guesses == g.guesses + 1,
        message_outcome(g, payload).0.secret == g.secret,
{
}

/// While a game runs, the answer to a number read from a message names
/// the new count of guesses in English: "Your <ordinal> guess was too
/// high" or "too low", or, for the secret, "You guessed <secret> on your
/// <ordinal> try! Refresh to play again" followed by the closing frame.
pub proof fn lemma_reply_names_new_count(g: GuessingGame, payload: Seq<u8>)
    requires
        !g.done,
        g.guesses < u32::MAX,
        valid_utf8(payload),
        guess_from_text(decode_utf8(payload)) is Some,
    ensures
        ({
            let x = guess_from_text(decode_utf8(payload))->0;
            let (g2, f) = message_outcome(g, payload);
            &&& g2.guesses == g.guesses + 1
            &&& x > g.secret ==> f == seq![FrameView::Text(
                "Your "@ + crate::ordinal::ordinal_of(g2.guesses) + " guess was too high"@)]
            &&& x < g.secret ==> f == seq![FrameView::Text(
                "Your "@ + crate::ordinal::ordinal_of(g2.guesses) + " guess was too low"@)]
            &&& x == g.secret ==> f == seq![FrameView::Text(
                "You guessed "@ + crate::decimal::decimal_of(g.secret) + " on your "@
                    + crate::ordinal::ordinal_of(g2.guesses) + " try! Refresh to play again"@),
                FrameView::Close]
        }),
{
}

/// A message may hold at most 8 bytes; a length of 8 is accepted and 9 is refused.
pub proof fn lemma_payload_limit()
    ensures
        MAX_LEN == 8,
        !(8 > MAX_LEN),
        9 > MAX_LEN,
{
}

} // verus!
