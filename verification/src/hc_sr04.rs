//! The HC-SR04 ultrasonic sensor: the trigger pulse, the wait for the
//! echo, and the echo pulse length. The distance itself is computed in
//! floating point by the program.
use vstd::prelude::*;
use crate::blink::PinStep;

verus! {

/// How many polls may find the echo pin still low before a measurement
/// fails.
pub const ECHO_POLL_LIMIT: u32 = 100000;

/// What one poll of the echo pin decides.
#[derive(Debug, Clone, Copy, PartialEq, Eq, Structural)]
pub enum EchoPoll {
    /// The pin is still low: poll again, with this many low polls so far.
    Waiting(u32),
    /// The pin went high: the echo pulse has started.
    Started,
    /// The pin stayed low for too many polls: the measurement fails.
    TimedOut,
}

/// The decision after a poll that found the pin low (`echo_low`) or
/// high, with `tries` low polls before it.
pub open spec fn echo_poll_outcome(tries: u32, echo_low: bool) -> EchoPoll {
    if !echo_low {
        EchoPoll::Started
    } else if tries + 1 > ECHO_POLL_LIMIT {
        EchoPoll::TimedOut
    } else {
        EchoPoll::Waiting((tries + 1) as u32)
    }
}

/// Decides after one poll of the echo pin (see [`echo_poll_outcome`]).
pub fn poll_echo(tries: u32, echo_low: bool) -> (r: EchoPoll)
    requires
        tries <= ECHO_POLL_LIMIT,
    ensures
        r == echo_poll_outcome(tries, echo_low),
{
    if !echo_low {
        EchoPoll::Started
    } else {
        let n = tries + 1;
        if n > ECHO_POLL_LIMIT {
            EchoPoll::TimedOut
        } else {
            EchoPoll::Waiting(n)
        }
    }
}

/// The decision after `k` polls that all found the pin low, starting
/// from no low poll.
pub open spec fn after_low_polls(k: nat) -> EchoPoll
    decreases k,
{
    if k == 0 {
        EchoPoll::Waiting(0)
    } else {
        match after_low_polls((k - 1) as nat) {
            EchoPoll::Waiting(t) => echo_poll_outcome(t, true),
            other => other,
        }
    }
}

/// An echo pin that stays low is polled `ECHO_POLL_LIMIT` times while
/// waiting, and the next poll fails the measurement.
pub proof fn lemma_echo_times_out(k: nat)
    ensures
        k <= ECHO_POLL_LIMIT ==> after_low_polls(k) == EchoPoll::Waiting(k as u32),
        k > ECHO_POLL_LIMIT ==> after_low_polls(k) == EchoPoll::TimedOut,
    decreases k,
{
    if k > 0 {
        lemma_echo_times_out((k - 1) as nat);
    }
}

/// The steps of the trigger pulse: low for 2 µs, high for 10 µs, then low.
pub fn trigger_steps() -> (v: Vec<PinStep>)
    ensures
        v@ == seq![
            PinStep { high: false, delay: 2 },
            PinStep { high: true, delay: 10 },
            PinStep { high: false, delay: 0 },
        ],
{
    let mut v = Vec::new();
    v.push(PinStep { high: false, delay: 2 });
    v.push(PinStep { high: true, delay: 10 });
    v.push(PinStep { high: false, delay: 0 });
    assert(v@ =~= seq![
        PinStep { high: false, delay: 2 },
        PinStep { high: true, delay: 10 },
        PinStep { high: false, delay: 0 },
    ]);
    v
}

/// The length of the echo pulse in microseconds, from the times it
/// started and ended.
pub fn pulse_duration_us(start_us: u128, end_us: u128) -> (d: u128)
    requires
        start_us <= end_us,
    ensures
        d == end_us - start_us,
{
    end_us - start_us
}

} // verus!
