//! The HC-SR501 motion sensor: numbering the movements it reports and
//! recording when they end.
use vstd::prelude::*;
use vstd::string::*;
use crate::decimal::{decimal, push_decimal};

verus! {

/// The motion sensor's count of the movements it has reported.
pub struct HCSR501 {
    moves_count: u32,
}

/// A movement: its number, and its start and end times in microseconds
/// (an end time of 0 until the movement has been joined).
#[derive(Debug, Clone, Copy, PartialEq, Eq, Structural)]
pub struct Movement {
    pub id: u32,
    pub start_time: u128,
    pub end_time: u128,
}

impl View for HCSR501 {
    type V = u32;

    closed spec fn view(&self) -> u32 {
        self.moves_count
    }
}

/// The text of a movement: its number, and its start and end in whole seconds.
pub open spec fn movement_text(m: Movement) -> Seq<char> {
    "Movement: "@ + decimal(m.id as nat) + ", started at: "@ + decimal((m.start_time / 1000000) as nat)
        + ", finished at: "@ + decimal((m.end_time / 1000000) as nat)
}

/// The count after a new movement that starts at `start_time`, and
/// that movement: it takes the next number.
pub open spec fn move_outcome(count: u32, start_time: u128) -> (u32, Movement) {
    ((count + 1) as u32, Movement { id: (count + 1) as u32, start_time, end_time: 0 })
}

/// Movement `m` after it is joined at `end_time` with a sensor that
/// has reported `count` movements: only the last movement takes the end time.
pub open spec fn join_outcome(m: Movement, count: u32, end_time: u128) -> Movement {
    if m.id == count {
        Movement { end_time, ..m }
    } else {
        m
    }
}

impl HCSR501 {
    /// A sensor that has reported no movement.
    pub fn new() -> (s: Self)
        ensures
            s@ == 0,
    {
        HCSR501 { moves_count: 0 }
    }

    /// The number of movements reported so far.
    pub fn moves_count(&self) -> (n: u32)
        ensures
            n == self@,
    {
        self.moves_count
    }

    /// Records the movement that the sensor detected, starting at
    /// `start_time`; movements are numbered 1, 2, 3, ...
    pub fn wait_next_move(&mut self, start_time: u128) -> (m: Movement)
        requires
            old(self)@ < u32::MAX,
        ensures
            (final(self)@, m) == move_outcome(old(self)@, start_time),
    {
        self.moves_count = self.moves_count + 1;
        Movement::new(self.moves_count, start_time)
    }
}

impl Movement {
    /// A movement numbered `id` that started at `start_time` and has not ended.
    pub fn new(id: u32, start_time: u128) -> (m: Self)
        ensures
            m == (Movement { id, start_time, end_time: 0 }),
    {
        Movement { id, start_time, end_time: 0 }
    }

    /// Whether this is the last movement that `source` reported; only that
    /// one is joined.
    pub fn is_latest(&self, source: &HCSR501) -> (b: bool)
        ensures
            b == (self.id == source@),
    {
        self.id == source.moves_count
    }

    /// Records `end_time` as the end of this movement, if it is the last
    /// movement that `source` reported; otherwise nothing changes.
    pub fn join(&mut self, source: &HCSR501, end_time: u128)
        ensures
            *final(self) == join_outcome(*old(self), source@, end_time),
    {
        if self.id != source.moves_count {
            return;
        }
        self.end_time = end_time;
    }

    /// The text of this movement (see [`movement_text`]).
    pub fn to_string(&self) -> (s: String)
        ensures
            s@ == movement_text(*self),
    {
        let mut s = String::from_str("Movement: ");
        push_decimal(&mut s, self.id as u128);
        s.append(", started at: ");
        push_decimal(&mut s, self.start_time / 1000000);
        s.append(", finished at: ");
        push_decimal(&mut s, self.end_time / 1000000);
        s
    }
}

/// Movements are numbered one after another: two movements reported in
/// a row by the same sensor have consecutive numbers, and once the second
/// is reported, joining the first leaves it as it was while the second
/// takes its end time.
pub proof fn lemma_consecutive_movements(count: u32, s1: u128, s2: u128, t: u128)
    requires
        count + 2 <= u32::MAX,
    ensures
        ({
            let (c1, m1) = move_outcome(count, s1);
            let (c2, m2) = move_outcome(c1, s2);
            &&& m1.id == count + 1
            &&& m2.id == m1.id + 1
            &&& join_outcome(m1, c2, t) == m1
            &&& join_outcome(m2, c2, t).end_time == t
        }),
{
}

} // verus!
