//! The infrared line checker: what a reading of its input pin means.
use vstd::prelude::*;

verus! {

/// A line checker; `true_if_low` says whether a low pin means "line seen".
pub struct ICLineChecker {
    pub true_if_low: bool,
}

/// What a pin level means for a checker: `true_if_low` when the pin is
/// low, its opposite when the pin is high.
pub open spec fn line_reading(true_if_low: bool, pin_is_low: bool) -> bool {
    if pin_is_low { true_if_low } else { !true_if_low }
}

impl ICLineChecker {
    /// A checker for which a low pin means "line seen".
    pub fn new() -> (c: Self)
        ensures
            c.true_if_low,
    {
        ICLineChecker { true_if_low: true }
    }

    /// What a reading of the pin means (see [`line_reading`]).
    pub fn check(&self, pin_is_low: bool) -> (b: bool)
        ensures
            b == line_reading(self.true_if_low, pin_is_low),
    {
        if pin_is_low {
            self.true_if_low
        } else {
            !self.true_if_low
        }
    }
}

/// The two pin levels always mean opposite things, and turning
/// `true_if_low` over turns every reading over.
pub proof fn lemma_readings_are_opposite(true_if_low: bool, pin_is_low: bool)
    ensures
        line_reading(true_if_low, !pin_is_low) == !line_reading(true_if_low, pin_is_low),
        line_reading(!true_if_low, pin_is_low) == !line_reading(true_if_low, pin_is_low),
{
}

} // verus!
