//! Pitch estimates in fixed point.
//!
//! Frequencies are whole millihertz and clarity is a whole number of
//! thousandths, so that every comparison the classifier makes is exact.

use vstd::prelude::*;

verus! {

/// Millihertz in one hertz.
pub const MILLIHERTZ_PER_HERTZ: u32 = 1000;

/// The clarity of a perfectly periodic signal, in thousandths.
pub const FULL_CLARITY: u16 = 1000;

/// The fundamental frequency found in one analysis window, with the
/// estimator's confidence in it.
#[derive(Clone, Copy, Debug, PartialEq, Eq, Structural)]
pub struct PitchEstimate {
    frequency: u32,
    clarity: u16,
}

impl PitchEstimate {
    /// A frequency is positive and a clarity is at most one.
    #[verifier::type_invariant]
    pub closed spec fn wf(self) -> bool {
        self.frequency > 0 && self.clarity <= FULL_CLARITY
    }

    /// The frequency in millihertz.
    pub closed spec fn spec_frequency(self) -> nat {
        self.frequency as nat
    }

    /// The clarity in thousandths.
    pub closed spec fn spec_clarity(self) -> nat {
        self.clarity as nat
    }

    /// An estimate of `frequency` millihertz with `clarity` thousandths, or
    /// `None` when the frequency is zero or the clarity is above one.
    pub fn new(frequency: u32, clarity: u16) -> (r: Option<PitchEstimate>)
        ensures
            r is Some <==> frequency > 0 && clarity <= FULL_CLARITY,
            r matches Some(e) ==> e.spec_frequency() == frequency && e.spec_clarity() == clarity
                && e.wf(),
    {
        if frequency > 0 && clarity <= FULL_CLARITY {
            Some(PitchEstimate { frequency, clarity })
        } else {
            None
        }
    }

    /// The frequency in millihertz.
    pub fn frequency(&self) -> (f: u32)
        ensures
            f == self.spec_frequency(),
            f > 0,
    {
        proof {
            use_type_invariant(self);
        }
        self.frequency
    }

    /// The clarity in thousandths.
    pub fn clarity(&self) -> (c: u16)
        ensures
            c == self.spec_clarity(),
            c <= FULL_CLARITY,
    {
        proof {
            use_type_invariant(self);
        }
        self.clarity
    }
}

} // verus!
