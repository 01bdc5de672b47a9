//! The watch on the device's reset input: a reset is a low pulse of at
//! least one microsecond.

use vstd::prelude::*;

verus! {

/// The shortest low pulse that resets the device, in microseconds.
pub const MINIMUM_RESET_PULSE_US: u64 = 1;

/// The reset input and what is known of its current pulse. Times are
/// microseconds on a clock that does not go back.
pub struct ResetPin<T> {
    pin: T,
    low_since: Option<u64>,
}

/// Whether a pulse that began at `low_since` and ended at `now` resets the
/// device.
pub open spec fn resets(low_since: Option<u64>, now: u64) -> bool {
    low_since matches Some(since) && now - since >= MINIMUM_RESET_PULSE_US
}

impl<T> ResetPin<T> {
    /// The input itself.
    pub closed spec fn pin(self) -> T {
        self.pin
    }

    /// When the input went low, while it is low.
    pub closed spec fn low_since(self) -> Option<u64> {
        self.low_since
    }

    pub fn into_pin(self) -> (pin: T)
        ensures
            pin == self.pin(),
    {
        self.pin
    }

    pub fn new(pin: T) -> (reset: Self)
        ensures
            reset.pin() == pin,
            reset.low_since() is None,
    {
        Self { pin, low_since: None }
    }

    /// The input, to wait on.
    pub fn pin_mut(&mut self) -> (pin: &mut T)
        ensures
            *pin == old(self).pin(),
            final(self).pin() == *final(pin),
            final(self).low_since() == old(self).low_since(),
    {
        &mut self.pin
    }

    /// Whether the input is known to be low, so that its rise is what to
    /// wait for next; otherwise its fall is.
    pub fn is_low(&self) -> (low: bool)
        ensures
            low == self.low_since() is Some,
    {
        self.low_since.is_some()
    }

    /// The input went low at `now`. A pulse that has already begun goes on.
    pub fn went_low(&mut self, now: u64)
        ensures
            final(self).pin() == old(self).pin(),
            final(self).low_since() == (if old(self).low_since() is Some {
                old(self).low_since()
            } else {
                Some(now)
            }),
    {
        if self.low_since.is_none() {
            self.low_since = Some(now);
        }
    }

    /// The input went high at `now`, which ends the pulse. Returns whether
    /// the pulse resets the device: whether it lasted at least
    /// [`MINIMUM_RESET_PULSE_US`].
    pub fn went_high(&mut self, now: u64) -> (reset: bool)
        ensures
            reset == resets(old(self).low_since(), now),
            final(self).pin() == old(self).pin(),
            final(self).low_since() is None,
    {
        let reset = match self.low_since {
            Some(since) => now >= since && now - since >= MINIMUM_RESET_PULSE_US,
            None => false,
        };
        self.low_since = None;
        reset
    }
}

} // verus!
