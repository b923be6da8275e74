//! Peak-hold level meters drained by periodic readers.

use vstd::prelude::*;

verus! {

/// Upper end of the level scale.
pub const LEVEL_MAX: u32 = 100;

/// `level` limited to the scale `0..=LEVEL_MAX`.
pub open spec fn clamp_level(level: u32) -> u32 {
    if level > LEVEL_MAX {
        LEVEL_MAX
    } else {
        level
    }
}

/// Holds the largest level recorded since the last read.
#[derive(Debug)]
pub struct LevelMeter {
    peak: u32,
}

impl LevelMeter {
    /// The peak that the next read will return.
    pub closed spec fn view(&self) -> u32 {
        self.peak
    }

    /// Every meter value lies on the scale.
    #[verifier::type_invariant]
    pub closed spec fn on_scale(&self) -> bool {
        self.peak <= LEVEL_MAX
    }

    pub fn new() -> (meter: Self)
        ensures
            meter@ == 0,
    {
        LevelMeter { peak: 0 }
    }

    /// Records a measurement; a pending higher peak is kept.
    pub fn record(&mut self, level: u32)
        ensures
            final(self)@ == (if clamp_level(level) > old(self)@ {
                clamp_level(level)
            } else {
                old(self)@
            }),
    {
        let scaled: u32 = if level > LEVEL_MAX { LEVEL_MAX } else { level };
        if scaled > self.peak {
            self.peak = scaled;
        }
    }

    /// Returns the pending peak and resets the meter.
    pub fn take(&mut self) -> (peak: u32)
        ensures
            peak == old(self)@,
            peak <= LEVEL_MAX,
            final(self)@ == 0,
    {
        proof {
            use_type_invariant(&*self);
        }
        let peak: u32 = self.peak;
        self.peak = 0;
        peak
    }

    /// The pending peak, left in place.
    pub fn peek(&self) -> (peak: u32)
        ensures
            peak == self@,
            peak <= LEVEL_MAX,
    {
        proof {
            use_type_invariant(self);
        }
        self.peak
    }
}

} // verus!
