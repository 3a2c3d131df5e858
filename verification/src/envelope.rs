//! Envelope generator: a 4-bit volume that decays on divider expiry and
//! optionally loops back to 15.

use vstd::prelude::*;

verus! {

/// Per-channel volume generator.
///
/// When `enabled` is false the unit outputs the constant volume `rate`
/// instead of the decaying `counter`.
#[derive(Clone, Copy, Debug, PartialEq)]
pub struct Envelope {
    pub rate: u8,
    pub enabled: bool,
    pub loop_flag: bool,
    pub counter: u8,
    pub division_period: u8,
}

/// Well-formed envelope: the rate is a 4-bit value, the decay counter is a
/// 4-bit value, and the divider is pending (it is reloaded with `rate + 1`
/// whenever it expires, so it never rests at zero).
pub open spec fn env_wf(e: Envelope) -> bool {
    &&& e.rate <= 15
    &&& e.counter <= 15
    &&& 1 <= e.division_period <= 16
}

/// One divider step: decrement the divider; on expiry reload it with
/// `rate + 1` and decay the counter, looping back to 15 when the counter
/// already reached 0 and the loop flag is set.
pub open spec fn env_tick_spec(e: Envelope) -> Envelope {
    let d = (e.division_period - 1) as u8;
    if d != 0 {
        Envelope { division_period: d, ..e }
    } else {
        let c = if e.counter != 0 {
            (e.counter - 1) as u8
        } else if e.loop_flag {
            15u8
        } else {
            0u8
        };
        Envelope { counter: c, division_period: (e.rate + 1) as u8, ..e }
    }
}

impl Envelope {
    /// Fresh envelope: full counter, divider loaded with `rate + 1`.
    pub fn new(rate: u8, enabled: bool, loop_flag: bool) -> (r: Self)
        requires
            rate <= 15,
        ensures
            r == (Envelope {
                rate,
                enabled,
                loop_flag,
                counter: 15u8,
                division_period: (rate + 1) as u8,
            }),
            env_wf(r),
    {
        Envelope { rate, enabled, loop_flag, counter: 0x0F, division_period: rate + 1 }
    }

    /// Clocks the divider once.
    pub fn tick(&mut self)
        requires
            env_wf(*old(self)),
        ensures
            *final(self) == env_tick_spec(*old(self)),
            env_wf(*final(self)),
    {
        self.division_period = self.division_period - 1;
        if self.division_period != 0 {
            return ;
        }
        if self.counter != 0 {
            self.counter = self.counter - 1;
        } else if self.loop_flag {
            self.counter = 0x0F;
        }
        self.division_period = self.rate + 1;
    }

    /// Current 4-bit output volume (0..=15); the host scales it to a sample.
    pub fn volume(&self) -> (r: u8)
        ensures
            r == (if self.enabled {
                self.counter
            } else {
                self.rate
            }),
    {
        if self.enabled {
            self.counter
        } else {
            self.rate
        }
    }

    /// Reloads the counter with 15 and the divider with `rate + 1`.
    pub fn reset(&mut self)
        requires
            old(self).rate <= 15,
        ensures
            *final(self) == (Envelope {
                counter: 15u8,
                division_period: (old(self).rate + 1) as u8,
                ..*old(self)
            }),
            env_wf(*final(self)),
    {
        self.counter = 0x0F;
        self.division_period = self.rate + 1;
    }
}

} // verus!
