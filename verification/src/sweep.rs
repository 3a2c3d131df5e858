//! Sweep unit: periodically shifts a square channel's 11-bit period and
//! silences the channel when the period leaves the playable range.

use vstd::prelude::*;

verus! {

/// Per-square-channel frequency modulator.
///
/// `direction == 0` grows the period, any other value shrinks it.
/// A `frequency` of 0 means the unit has silenced the channel.
#[derive(Clone, Copy, Debug, PartialEq)]
pub struct Sweep {
    pub org_freq: u16,
    pub frequency: u16,
    pub change_amount: u8,
    pub direction: u8,
    pub timer_count: u8,
    pub enabled: bool,
    pub counter: u8,
}

/// Well-formed sweep: 11-bit periods, 3-bit shift and timer fields, and a
/// divider counter that never passes the timer period.
pub open spec fn sweep_wf(s: Sweep) -> bool {
    &&& s.org_freq <= 0x7FF
    &&& s.frequency <= 0x7FF
    &&& s.change_amount <= 7
    &&& s.timer_count <= 7
    &&& s.counter <= s.timer_count
}

/// One frame-sequencer tick.  A disabled unit or a zero shift is inert;
/// otherwise the divider counts up to the timer period, and on expiry the
/// period is stepped by `period >> shift` in the programmed direction and
/// zeroed when it leaves `[8, $7FF)`.
pub open spec fn sweep_tick_spec(s: Sweep) -> Sweep {
    if !s.enabled || s.change_amount == 0 {
        s
    } else {
        let c = (s.counter + 1) as u8;
        if c < s.timer_count + 1 {
            Sweep { counter: c, ..s }
        } else {
            let step = s.frequency >> (s.change_amount as u16);
            let f = if s.direction == 0 {
                (s.frequency + step) as u16
            } else {
                (s.frequency - step) as u16
            };
            let f2 = if f < 8 || f >= 0x7FF {
                0u16
            } else {
                f
            };
            Sweep { counter: 0u8, frequency: f2, ..s }
        }
    }
}

/// Shifting right never grows a 16-bit value.
pub proof fn lemma_shr_le()
    by (bit_vector)
    ensures
        forall|x: u16, s: u16| #[trigger] (x >> s) <= x,
{
}

impl Sweep {
    /// Fresh unit with a quiet divider; both period slots hold `frequency`.
    pub fn new(frequency: u16, change_amount: u8, direction: u8, timer_count: u8, enabled: bool) -> (r:
        Self)
        ensures
            r == (Sweep {
                org_freq: frequency,
                frequency,
                change_amount,
                direction,
                timer_count,
                enabled,
                counter: 0u8,
            }),
    {
        Sweep { org_freq: frequency, frequency, change_amount, direction, timer_count, enabled, counter: 0 }
    }

    /// One frame-sequencer tick.
    pub fn tick(&mut self)
        requires
            sweep_wf(*old(self)),
        ensures
            *final(self) == sweep_tick_spec(*old(self)),
            sweep_wf(*final(self)),
    {
        if !self.enabled {
            return ;
        }
        if self.change_amount == 0 {
            return ;
        }
        self.counter = self.counter + 1;
        if self.counter < self.timer_count + 1 {
            return ;
        }
        self.counter = 0;
        let step: u16 = self.frequency >> (self.change_amount as u16);
        proof {
            lemma_shr_le();
        }
        if self.direction == 0 {
            self.frequency = self.frequency + step;
        } else {
            self.frequency = self.frequency - step;
        }
        if self.frequency < 8 || self.frequency >= 0x7FF {
            self.frequency = 0;
        }
    }

    /// Reloads the period from the originally programmed value and quiets
    /// the divider.
    pub fn reset(&mut self)
        ensures
            *final(self) == (Sweep { frequency: old(self).org_freq, counter: 0u8, ..*old(self) }),
    {
        self.frequency = self.org_freq;
        self.counter = 0;
    }
}

} // verus!
