//! Event stream between the emulated clock domain and the audio layer.
//!
//! Each channel carries a closed sum type of configuration and tick
//! messages.  The APU front-end appends them in send order; the audio side
//! drains its queue before every sample and applies them to a voice.

use vstd::prelude::*;
use crate::envelope::Envelope;
use crate::envelope::env_wf;
use crate::length::LengthCounter;
use crate::sweep::Sweep;
use crate::sweep::sweep_wf;

verus! {

/// Note parameters of a square channel: the 2-bit duty index.
#[derive(Clone, Copy, Debug, PartialEq)]
pub struct SquareNote {
    pub duty: u8,
}

impl SquareNote {
    /// Duty index 0 (12.5 %).
    pub fn new() -> (r: Self)
        ensures
            r.duty == 0,
    {
        SquareNote { duty: 0 }
    }
}

/// Note parameters of the triangle channel: the 11-bit timer period.
#[derive(Clone, Copy, Debug, PartialEq)]
pub struct TriangleNote {
    pub frequency: u16,
}

impl TriangleNote {
    /// Period 0.
    pub fn new() -> (r: Self)
        ensures
            r.frequency == 0,
    {
        TriangleNote { frequency: 0 }
    }
}

/// Note parameters of the noise channel: the timer period from the NTSC
/// table, the feedback mode, and the 4-bit volume field.
#[derive(Clone, Copy, Debug, PartialEq)]
pub struct NoiseNote {
    pub period: u16,
    pub is_long: bool,
    pub volume: u8,
}

/// Message to a square voice.
#[derive(Clone, Copy, Debug, PartialEq)]
pub enum SquareEvent {
    Note(SquareNote),
    Enable(bool),
    Envelope(Envelope),
    EnvelopeTick,
    LengthCounter(LengthCounter),
    LengthCounterTick,
    Sweep(Sweep),
    SweepTick,
    Reset,
}

/// Message to the triangle voice.
#[derive(Clone, Copy, Debug, PartialEq)]
pub enum TriangleEvent {
    Note(TriangleNote),
    Enable(bool),
    LengthCounter(LengthCounter),
    LengthCounterTick,
    Reset,
}

/// Message to the noise voice.
#[derive(Clone, Copy, Debug, PartialEq)]
pub enum NoiseEvent {
    Note(NoiseNote),
    Enable(bool),
    Envelope(Envelope),
    EnvelopeTick,
    LengthCounter(LengthCounter),
    LengthCounterTick,
    Reset,
}

/// Well-formed square message: every carried sub-unit is well formed.
pub open spec fn square_event_wf(e: SquareEvent) -> bool {
    match e {
        SquareEvent::Note(n) => n.duty <= 3,
        SquareEvent::Envelope(en) => env_wf(en),
        SquareEvent::Sweep(s) => sweep_wf(s),
        _ => true,
    }
}

impl SquareEvent {
    /// Runtime mirror of the well-formedness of this message, for callers
    /// outside the proof.
    pub fn valid(&self) -> (r: bool)
        ensures
            r == square_event_wf(*self),
    {
        match self {
            SquareEvent::Note(n) => n.duty <= 3,
            SquareEvent::Envelope(en) => en.rate <= 15 && en.counter <= 15 && 1
                <= en.division_period && en.division_period <= 16,
            SquareEvent::Sweep(s) => s.org_freq <= 0x7FF && s.frequency <= 0x7FF
                && s.change_amount <= 7 && s.timer_count <= 7 && s.counter <= s.timer_count,
            _ => true,
        }
    }
}

/// Well-formed triangle message.
pub open spec fn triangle_event_wf(e: TriangleEvent) -> bool {
    match e {
        TriangleEvent::Note(n) => n.frequency <= 0x7FF,
        _ => true,
    }
}

/// Well-formed noise message.
pub open spec fn noise_event_wf(e: NoiseEvent) -> bool {
    match e {
        NoiseEvent::Envelope(en) => env_wf(en),
        NoiseEvent::Note(n) => n.volume <= 15,
        _ => true,
    }
}

impl NoiseEvent {
    /// Runtime mirror of the well-formedness of this message, for callers
    /// outside the proof.
    pub fn valid(&self) -> (r: bool)
        ensures
            r == noise_event_wf(*self),
    {
        match self {
            NoiseEvent::Envelope(en) => en.rate <= 15 && en.counter <= 15 && 1
                <= en.division_period && en.division_period <= 16,
            NoiseEvent::Note(n) => n.volume <= 15,
            _ => true,
        }
    }
}

} // verus!
