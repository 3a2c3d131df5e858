//! Audio-side voice state machines.
//!
//! A voice owns the receiving end of one channel's event stream: it applies
//! every drained message to its sub-units (drain-and-apply discipline) and
//! exposes the integer state — volume level, mute state, duty, periods, the
//! noise shift register — from which the host computes float samples.

use vstd::prelude::*;
use crate::envelope::Envelope;
use crate::envelope::env_tick_spec;
use crate::envelope::env_wf;
use crate::events::NoiseEvent;
use crate::events::NoiseNote;
use crate::events::SquareEvent;
use crate::events::SquareNote;
use crate::events::TriangleEvent;
use crate::events::TriangleNote;
use crate::events::noise_event_wf;
use crate::events::square_event_wf;
use crate::length::LengthCounter;
use crate::length::lc_tick_spec;
use crate::noise::NoiseRandom;
use crate::noise::noise_next_spec;
use crate::sweep::Sweep;
use crate::sweep::sweep_tick_spec;
use crate::sweep::sweep_wf;

verus! {

/// Square voice: duty, envelope, length counter and sweep.
#[derive(Clone, Copy, Debug, PartialEq)]
pub struct SquareVoice {
    pub enabled: bool,
    pub note: SquareNote,
    pub envelope: Envelope,
    pub length_counter: LengthCounter,
    pub sweep: Sweep,
}

/// Well-formed square voice.
pub open spec fn square_voice_wf(v: SquareVoice) -> bool {
    &&& v.note.duty <= 3
    &&& env_wf(v.envelope)
    &&& sweep_wf(v.sweep)
}

/// Effect of one drained message on a square voice.
pub open spec fn square_apply_spec(v: SquareVoice, e: SquareEvent) -> SquareVoice {
    match e {
        SquareEvent::Note(n) => SquareVoice { note: n, ..v },
        SquareEvent::Enable(b) => SquareVoice { enabled: b, ..v },
        SquareEvent::Envelope(en) => SquareVoice { envelope: en, ..v },
        SquareEvent::EnvelopeTick => SquareVoice { envelope: env_tick_spec(v.envelope), ..v },
        SquareEvent::LengthCounter(l) => SquareVoice { length_counter: l, ..v },
        SquareEvent::LengthCounterTick => SquareVoice {
            length_counter: lc_tick_spec(v.length_counter),
            ..v
        },
        SquareEvent::Sweep(s) => SquareVoice { sweep: s, ..v },
        SquareEvent::SweepTick => SquareVoice { sweep: sweep_tick_spec(v.sweep), ..v },
        SquareEvent::Reset => SquareVoice {
            envelope: Envelope {
                counter: 15u8,
                division_period: (v.envelope.rate + 1) as u8,
                ..v.envelope
            },
            length_counter: LengthCounter {
                counter: v.length_counter.count,
                ..v.length_counter
            },
            sweep: Sweep { frequency: v.sweep.org_freq, counter: 0u8, ..v.sweep },
            ..v
        },
    }
}

impl SquareVoice {
    /// Idle voice: enabled, silent sub-units.
    pub fn new() -> (r: Self)
        ensures
            r == (SquareVoice {
                enabled: true,
                note: SquareNote { duty: 0u8 },
                envelope: Envelope {
                    rate: 0u8,
                    enabled: false,
                    loop_flag: false,
                    counter: 15u8,
                    division_period: 1u8,
                },
                length_counter: LengthCounter { enabled: false, count: 0u8, counter: 0u8 },
                sweep: Sweep {
                    org_freq: 0u16,
                    frequency: 0u16,
                    change_amount: 0u8,
                    direction: 0u8,
                    timer_count: 0u8,
                    enabled: false,
                    counter: 0u8,
                },
            }),
            square_voice_wf(r),
    {
        SquareVoice {
            enabled: true,
            note: SquareNote::new(),
            envelope: Envelope::new(0, false, false),
            length_counter: LengthCounter::new(false, 0),
            sweep: Sweep::new(0, 0, 0, 0, false),
        }
    }

    /// Applies one drained message.
    pub fn apply_event(&mut self, e: SquareEvent)
        requires
            square_voice_wf(*old(self)),
            square_event_wf(e),
        ensures
            *final(self) == square_apply_spec(*old(self), e),
            square_voice_wf(*final(self)),
    {
        match e {
            SquareEvent::Note(n) => {
                self.note = n;
            },
            SquareEvent::Enable(b) => {
                self.enabled = b;
            },
            SquareEvent::Envelope(en) => {
                self.envelope = en;
            },
            SquareEvent::EnvelopeTick => {
                self.envelope.tick();
            },
            SquareEvent::LengthCounter(l) => {
                self.length_counter = l;
            },
            SquareEvent::LengthCounterTick => {
                self.length_counter.tick();
            },
            SquareEvent::Sweep(s) => {
                self.sweep = s;
            },
            SquareEvent::SweepTick => {
                self.sweep.tick();
            },
            SquareEvent::Reset => {
                self.envelope.reset();
                self.length_counter.reset();
                self.sweep.reset();
            },
        }
    }

    /// The voice is silent when its length counter mutes it or the channel is
    /// disabled.
    pub fn muted(&self) -> (r: bool)
        ensures
            r == (!self.enabled || (self.length_counter.enabled && self.length_counter.counter
                == 0)),
    {
        !self.enabled || self.length_counter.mute()
    }
}

/// Triangle voice: period and length counter only.
#[derive(Clone, Copy, Debug, PartialEq)]
pub struct TriangleVoice {
    pub enabled: bool,
    pub note: TriangleNote,
    pub length_counter: LengthCounter,
}

/// Effect of one drained message on the triangle voice.
pub open spec fn triangle_apply_spec(v: TriangleVoice, e: TriangleEvent) -> TriangleVoice {
    match e {
        TriangleEvent::Note(n) => TriangleVoice { note: n, ..v },
        TriangleEvent::Enable(b) => TriangleVoice { enabled: b, ..v },
        TriangleEvent::LengthCounter(l) => TriangleVoice { length_counter: l, ..v },
        TriangleEvent::LengthCounterTick => TriangleVoice {
            length_counter: lc_tick_spec(v.length_counter),
            ..v
        },
        TriangleEvent::Reset => TriangleVoice {
            length_counter: LengthCounter {
                counter: v.length_counter.count,
                ..v.length_counter
            },
            ..v
        },
    }
}

impl TriangleVoice {
    /// Idle voice.
    pub fn new() -> (r: Self)
        ensures
            r == (TriangleVoice {
                enabled: true,
                note: TriangleNote { frequency: 0u16 },
                length_counter: LengthCounter { enabled: false, count: 0u8, counter: 0u8 },
            }),
    {
        TriangleVoice {
            enabled: true,
            note: TriangleNote::new(),
            length_counter: LengthCounter::new(false, 0),
        }
    }

    /// Applies one drained message.
    pub fn apply_event(&mut self, e: TriangleEvent)
        ensures
            *final(self) == triangle_apply_spec(*old(self), e),
    {
        match e {
            TriangleEvent::Note(n) => {
                self.note = n;
            },
            TriangleEvent::Enable(b) => {
                self.enabled = b;
            },
            TriangleEvent::LengthCounter(l) => {
                self.length_counter = l;
            },
            TriangleEvent::LengthCounterTick => {
                self.length_counter.tick();
            },
            TriangleEvent::Reset => {
                self.length_counter.reset();
            },
        }
    }

    /// The voice is silent when its length counter mutes it or the channel is
    /// disabled.
    pub fn muted(&self) -> (r: bool)
        ensures
            r == (!self.enabled || (self.length_counter.enabled && self.length_counter.counter
                == 0)),
    {
        !self.enabled || self.length_counter.mute()
    }
}

/// Noise voice: envelope, length counter, both shift registers and the last
/// drawn output bit.
#[derive(Clone, Copy, Debug, PartialEq)]
pub struct NoiseVoice {
    pub enabled: bool,
    pub value: bool,
    pub long_random: NoiseRandom,
    pub short_random: NoiseRandom,
    pub envelope: Envelope,
    pub note: NoiseNote,
    pub length_counter: LengthCounter,
}

/// Well-formed noise voice: valid envelope, valid shift-register taps.
pub open spec fn noise_voice_wf(v: NoiseVoice) -> bool {
    &&& env_wf(v.envelope)
    &&& v.long_random.bit < 16
    &&& v.short_random.bit < 16
}

/// Effect of one drained message on the noise voice.
pub open spec fn noise_apply_spec(v: NoiseVoice, e: NoiseEvent) -> NoiseVoice {
    match e {
        NoiseEvent::Note(n) => NoiseVoice { note: n, ..v },
        NoiseEvent::Enable(b) => NoiseVoice { enabled: b, ..v },
        NoiseEvent::Envelope(en) => NoiseVoice { envelope: en, ..v },
        NoiseEvent::EnvelopeTick => NoiseVoice { envelope: env_tick_spec(v.envelope), ..v },
        NoiseEvent::LengthCounter(l) => NoiseVoice { length_counter: l, ..v },
        NoiseEvent::LengthCounterTick => NoiseVoice {
            length_counter: lc_tick_spec(v.length_counter),
            ..v
        },
        NoiseEvent::Reset => NoiseVoice {
            envelope: Envelope {
                counter: 15u8,
                division_period: (v.envelope.rate + 1) as u8,
                ..v.envelope
            },
            length_counter: LengthCounter {
                counter: v.length_counter.count,
                ..v.length_counter
            },
            ..v
        },
    }
}

impl NoiseVoice {
    /// Idle voice with freshly seeded shift registers.
    pub fn new() -> (r: Self)
        ensures
            r == (NoiseVoice {
                enabled: true,
                value: false,
                long_random: NoiseRandom { bit: 1u8, value: 1u16 },
                short_random: NoiseRandom { bit: 6u8, value: 1u16 },
                envelope: Envelope {
                    rate: 0u8,
                    enabled: false,
                    loop_flag: false,
                    counter: 15u8,
                    division_period: 1u8,
                },
                note: NoiseNote { period: 0u16, is_long: true, volume: 0u8 },
                length_counter: LengthCounter { enabled: false, count: 0u8, counter: 0u8 },
            }),
            noise_voice_wf(r),
    {
        NoiseVoice {
            enabled: true,
            value: false,
            long_random: NoiseRandom::long(),
            short_random: NoiseRandom::short(),
            envelope: Envelope::new(0, false, false),
            note: NoiseNote { period: 0, is_long: true, volume: 0 },
            length_counter: LengthCounter::new(false, 0),
        }
    }

    /// Applies one drained message.
    pub fn apply_event(&mut self, e: NoiseEvent)
        requires
            noise_voice_wf(*old(self)),
            noise_event_wf(e),
        ensures
            *final(self) == noise_apply_spec(*old(self), e),
            noise_voice_wf(*final(self)),
    {
        match e {
            NoiseEvent::Note(n) => {
                self.note = n;
            },
            NoiseEvent::Enable(b) => {
                self.enabled = b;
            },
            NoiseEvent::Envelope(en) => {
                self.envelope = en;
            },
            NoiseEvent::EnvelopeTick => {
                self.envelope.tick();
            },
            NoiseEvent::LengthCounter(l) => {
                self.length_counter = l;
            },
            NoiseEvent::LengthCounterTick => {
                self.length_counter.tick();
            },
            NoiseEvent::Reset => {
                self.envelope.reset();
                self.length_counter.reset();
            },
        }
    }

    /// Advances the shift register picked by the note's feedback mode and
    /// latches its output bit; the host calls this when the sample phase
    /// wraps.
    pub fn clock_lfsr(&mut self) -> (r: bool)
        requires
            noise_voice_wf(*old(self)),
        ensures
            old(self).note.is_long ==> *final(self) == (NoiseVoice {
                long_random: noise_next_spec(old(self).long_random),
                value: noise_next_spec(old(self).long_random).value & 0x01 != 0,
                ..*old(self)
            }),
            !old(self).note.is_long ==> *final(self) == (NoiseVoice {
                short_random: noise_next_spec(old(self).short_random),
                value: noise_next_spec(old(self).short_random).value & 0x01 != 0,
                ..*old(self)
            }),
            r == final(self).value,
            noise_voice_wf(*final(self)),
    {
        let b = if self.note.is_long {
            self.long_random.next()
        } else {
            self.short_random.next()
        };
        self.value = b;
        b
    }

    /// The voice is silent when its length counter mutes it or the channel is
    /// disabled.
    pub fn muted(&self) -> (r: bool)
        ensures
            r == (!self.enabled || (self.length_counter.enabled && self.length_counter.counter
                == 0)),
    {
        !self.enabled || self.length_counter.mute()
    }
}

} // verus!
