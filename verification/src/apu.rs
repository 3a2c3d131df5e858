//! APU front-end: maps host writes at $4000-$4017 to the per-channel
//! register files, broadcasts the resulting configuration to the audio
//! layer as events, and runs the frame sequencer that dispatches envelope,
//! length and sweep ticks.

use vstd::prelude::*;
use crate::envelope::Envelope;
use crate::events::NoiseEvent;
use crate::events::NoiseNote;
use crate::events::SquareEvent;
use crate::events::SquareNote;
use crate::events::TriangleEvent;
use crate::events::TriangleNote;
use crate::length::LengthCounter;
use crate::length::length_counter_tbl;
use crate::length::spec_length_counter_tbl;
use crate::noise::noise_period_tbl;
use crate::noise::spec_noise_period_tbl;
use crate::registers::Ch1Register;
use crate::registers::Ch2Register;
use crate::registers::Ch3Register;
use crate::registers::Ch4Register;
use crate::registers::NoiseKind;
use crate::registers::SquareRegister;
use crate::registers::ch3_wf;
use crate::registers::ch3_write_spec;
use crate::registers::ch4_wf;
use crate::registers::ch4_write_spec;
use crate::registers::square_wf;
use crate::registers::square_write_spec;
use crate::sweep::Sweep;

verus! {

/// Frame-counter register ($4017): bit 7 picks the 5-step sequence, bit 6
/// inhibits the frame interrupt.
#[derive(Clone, Copy, Debug, PartialEq)]
pub struct FrameCounter {
    pub bits: u8,
}

/// Step count of the sequence selected by the frame-counter register.
pub open spec fn fc_mode(bits: u8) -> u8 {
    if bits & 0x80 != 0 {
        5u8
    } else {
        4u8
    }
}

impl FrameCounter {
    /// Power-on value: 5-step mode with the interrupt inhibited.
    pub fn new() -> (r: Self)
        ensures
            r.bits == 0xC0,
    {
        FrameCounter { bits: 0xC0 }
    }

    /// Step count of the selected sequence (4 or 5).
    pub fn mode(&self) -> (r: u8)
        ensures
            r == fc_mode(self.bits),
    {
        if (self.bits & 0x80) != 0 {
            5
        } else {
            4
        }
    }

    /// Stores a write to $4017.
    pub fn update(&mut self, data: u8)
        ensures
            final(self).bits == data,
    {
        self.bits = data;
    }
}

/// APU status register ($4015): channel enables in bits 0-4, frame IRQ in
/// bit 6, DMC IRQ in bit 7.  Bit 5 is unused and reads back as 0.
#[derive(Clone, Copy, Debug, PartialEq)]
pub struct StatusRegister {
    pub bits: u8,
}

impl StatusRegister {
    /// Power-on value: everything off.
    pub fn new() -> (r: Self)
        ensures
            r.bits == 0,
    {
        StatusRegister { bits: 0 }
    }

    /// Stores a write to $4015; the unused bit 5 is masked off.
    pub fn update(&mut self, data: u8)
        ensures
            final(self).bits == data & 0xDF,
    {
        self.bits = data & 0xDF;
    }
}

/// Mathematical state of the APU front-end: register files, frame
/// sequencer and the four outgoing event queues.
#[verifier::ext_equal]
pub ghost struct ApuView {
    pub ch1: SquareRegister,
    pub ch2: SquareRegister,
    pub ch3: Ch3Register,
    pub ch4: Ch4Register,
    pub frame: u8,
    pub status: u8,
    pub cycles: u32,
    pub step: u8,
    pub ev1: Seq<SquareEvent>,
    pub ev2: Seq<SquareEvent>,
    pub ev3: Seq<TriangleEvent>,
    pub ev4: Seq<NoiseEvent>,
}

/// Well-formed front-end: register fields in range, the cycle accumulator
/// below the divider period, and the step index inside the active
/// sequence.
pub open spec fn apu_wf(a: ApuView) -> bool {
    &&& square_wf(a.ch1)
    &&& square_wf(a.ch2)
    &&& ch3_wf(a.ch3)
    &&& ch4_wf(a.ch4)
    &&& a.cycles < 7457
    &&& a.step <= 4
    &&& fc_mode(a.frame) == 4 ==> a.step <= 3
}

/// The tuple a square channel broadcasts after one register write: note,
/// fresh envelope, fresh length counter, fresh sweep, and a reset command
/// when the fourth register was written.
pub open spec fn square_broadcast(r: SquareRegister, rst: bool) -> Seq<SquareEvent> {
    let base = seq![
        SquareEvent::Note(SquareNote { duty: r.duty }),
        SquareEvent::Envelope(
            Envelope {
                rate: r.volume,
                enabled: r.envelope_flag,
                loop_flag: !r.key_off_counter_flag,
                counter: 15u8,
                division_period: (r.volume + 1) as u8,
            },
        ),
        SquareEvent::LengthCounter(
            LengthCounter {
                enabled: r.key_off_counter_flag,
                count: spec_length_counter_tbl(r.key_off_count),
                counter: spec_length_counter_tbl(r.key_off_count),
            },
        ),
        SquareEvent::Sweep(
            Sweep {
                org_freq: r.frequency,
                frequency: r.frequency,
                change_amount: r.sweep_change_amount,
                direction: r.sweep_direction,
                timer_count: r.sweep_timer_count,
                enabled: r.sweep_enabled,
                counter: 0u8,
            },
        ),
    ];
    if rst {
        base.push(SquareEvent::Reset)
    } else {
        base
    }
}

/// The tuple the triangle channel broadcasts after one register write.
pub open spec fn triangle_broadcast(r: Ch3Register, rst: bool) -> Seq<TriangleEvent> {
    let base = seq![
        TriangleEvent::Note(TriangleNote { frequency: r.frequency }),
        TriangleEvent::LengthCounter(
            LengthCounter {
                enabled: r.key_off_counter_flag,
                count: spec_length_counter_tbl(r.key_off_count),
                counter: spec_length_counter_tbl(r.key_off_count),
            },
        ),
    ];
    if rst {
        base.push(TriangleEvent::Reset)
    } else {
        base
    }
}

/// The tuple the noise channel broadcasts after one register write.
pub open spec fn noise_broadcast(r: Ch4Register, rst: bool) -> Seq<NoiseEvent> {
    let base = seq![
        NoiseEvent::Note(
            NoiseNote {
                period: spec_noise_period_tbl(r.frequency),
                is_long: r.kind == NoiseKind::Long,
                volume: r.volume,
            },
        ),
        NoiseEvent::Envelope(
            Envelope {
                rate: r.volume,
                enabled: r.envelope_flag,
                loop_flag: !r.key_off_counter_flag,
                counter: 15u8,
                division_period: (r.volume + 1) as u8,
            },
        ),
        NoiseEvent::LengthCounter(
            LengthCounter {
                enabled: r.key_off_counter_flag,
                count: spec_length_counter_tbl(r.key_off_count),
                counter: spec_length_counter_tbl(r.key_off_count),
            },
        ),
    ];
    if rst {
        base.push(NoiseEvent::Reset)
    } else {
        base
    }
}

/// Effect of a write at $4000-$4003 on the front-end.
pub open spec fn apu_write1ch_spec(a: ApuView, addr: u16, v: u8) -> ApuView {
    let r2 = square_write_spec(a.ch1, 0x4000, addr, v);
    ApuView { ch1: r2, ev1: a.ev1 + square_broadcast(r2, addr == 0x4003), ..a }
}

/// Effect of a write at $4004-$4007 on the front-end.
pub open spec fn apu_write2ch_spec(a: ApuView, addr: u16, v: u8) -> ApuView {
    let r2 = square_write_spec(a.ch2, 0x4004, addr, v);
    ApuView { ch2: r2, ev2: a.ev2 + square_broadcast(r2, addr == 0x4007), ..a }
}

/// Effect of a write at $4008-$400B on the front-end.
pub open spec fn apu_write3ch_spec(a: ApuView, addr: u16, v: u8) -> ApuView {
    let r2 = ch3_write_spec(a.ch3, addr, v);
    ApuView { ch3: r2, ev3: a.ev3 + triangle_broadcast(r2, addr == 0x400B), ..a }
}

/// Effect of a write at $400C-$400F on the front-end.
pub open spec fn apu_write4ch_spec(a: ApuView, addr: u16, v: u8) -> ApuView {
    let r2 = ch4_write_spec(a.ch4, addr, v);
    ApuView { ch4: r2, ev4: a.ev4 + noise_broadcast(r2, addr == 0x400F), ..a }
}

/// Effect of a write to the status register $4015: store the byte (bit 5
/// masked) and broadcast the four channel enables.
pub open spec fn apu_write_status_spec(a: ApuView, v: u8) -> ApuView {
    let s2 = v & 0xDF;
    ApuView {
        status: s2,
        ev1: a.ev1.push(SquareEvent::Enable(s2 & 0x01 != 0)),
        ev2: a.ev2.push(SquareEvent::Enable(s2 & 0x02 != 0)),
        ev3: a.ev3.push(TriangleEvent::Enable(s2 & 0x04 != 0)),
        ev4: a.ev4.push(NoiseEvent::Enable(s2 & 0x08 != 0)),
        ..a
    }
}

/// Effect of a read of the status register $4015: the frame-IRQ bit is
/// cleared as a side effect (the returned byte is the status before the
/// clear).
pub open spec fn apu_read_status_post(a: ApuView) -> ApuView {
    ApuView { status: a.status & 0xBF, ..a }
}

/// Effect of a write to the frame-counter register $4017: store the byte
/// and restart the sequencer.
pub open spec fn apu_write_frame_counter_spec(a: ApuView, v: u8) -> ApuView {
    ApuView { frame: v, cycles: 0u32, step: 0u8, ..a }
}

/// Effect of a write anywhere in the APU register window $4000-$4017.
/// The DMC registers $4010-$4013, the OAM DMA port $4014 and the input
/// port $4016 are outside this core's channels and are inert here.
pub open spec fn apu_write_reg_spec(a: ApuView, addr: u16, v: u8) -> ApuView {
    if addr <= 0x4003 {
        apu_write1ch_spec(a, addr, v)
    } else if addr <= 0x4007 {
        apu_write2ch_spec(a, addr, v)
    } else if addr <= 0x400B {
        apu_write3ch_spec(a, addr, v)
    } else if addr <= 0x400F {
        apu_write4ch_spec(a, addr, v)
    } else if addr == 0x4015 {
        apu_write_status_spec(a, v)
    } else if addr == 0x4017 {
        apu_write_frame_counter_spec(a, v)
    } else {
        a
    }
}

/// One frame-sequencer advance by `d` CPU cycles.  Crossing a 7457-cycle
/// boundary clocks the active sequence: mode 4 emits length and sweep
/// ticks at steps 2 and 4, envelope ticks at every step, and raises the
/// frame IRQ at step 4; mode 5 emits length and sweep ticks at steps 1 and
/// 3, envelope ticks up to step 4, and never raises the IRQ.
pub open spec fn apu_tick_spec(a: ApuView, d: u8) -> ApuView {
    let c = (a.cycles + d) as u32;
    if c < 7457 {
        ApuView { cycles: c, ..a }
    } else {
        let c2 = (c - 7457) as u32;
        let k = (a.step + 1) as u8;
        if fc_mode(a.frame) == 4 {
            let lt = k == 2 || k == 4;
            ApuView {
                cycles: c2,
                step: if k == 4 {
                    0u8
                } else {
                    k
                },
                status: if k == 4 {
                    a.status | 0x40
                } else {
                    a.status
                },
                ev1: (if lt {
                    a.ev1 + seq![SquareEvent::LengthCounterTick, SquareEvent::SweepTick]
                } else {
                    a.ev1
                }).push(SquareEvent::EnvelopeTick),
                ev2: (if lt {
                    a.ev2 + seq![SquareEvent::LengthCounterTick, SquareEvent::SweepTick]
                } else {
                    a.ev2
                }).push(SquareEvent::EnvelopeTick),
                ev3: if lt {
                    a.ev3.push(TriangleEvent::LengthCounterTick)
                } else {
                    a.ev3
                },
                ev4: (if lt {
                    a.ev4.push(NoiseEvent::LengthCounterTick)
                } else {
                    a.ev4
                }).push(NoiseEvent::EnvelopeTick),
                ..a
            }
        } else {
            let lt = k == 1 || k == 3;
            let env = k <= 4;
            ApuView {
                cycles: c2,
                step: if k == 5 {
                    0u8
                } else {
                    k
                },
                ev1: {
                    let e = if lt {
                        a.ev1 + seq![SquareEvent::LengthCounterTick, SquareEvent::SweepTick]
                    } else {
                        a.ev1
                    };
                    if env {
                        e.push(SquareEvent::EnvelopeTick)
                    } else {
                        e
                    }
                },
                ev2: {
                    let e = if lt {
                        a.ev2 + seq![SquareEvent::LengthCounterTick, SquareEvent::SweepTick]
                    } else {
                        a.ev2
                    };
                    if env {
                        e.push(SquareEvent::EnvelopeTick)
                    } else {
                        e
                    }
                },
                ev3: if lt {
                    a.ev3.push(TriangleEvent::LengthCounterTick)
                } else {
                    a.ev3
                },
                ev4: {
                    let e = if lt {
                        a.ev4.push(NoiseEvent::LengthCounterTick)
                    } else {
                        a.ev4
                    };
                    if env {
                        e.push(NoiseEvent::EnvelopeTick)
                    } else {
                        e
                    }
                },
                ..a
            }
        }
    }
}

/// APU front-end state: the register files, the frame sequencer, and the
/// outgoing event queue of every channel.
pub struct APU {
    ch1_register: Ch1Register,
    ch2_register: Ch2Register,
    ch3_register: Ch3Register,
    ch4_register: Ch4Register,
    frame_counter: FrameCounter,
    status: StatusRegister,
    cycles: u32,
    counter: u8,
    ch1_events: Vec<SquareEvent>,
    ch2_events: Vec<SquareEvent>,
    ch3_events: Vec<TriangleEvent>,
    ch4_events: Vec<NoiseEvent>,
}

impl View for APU {
    type V = ApuView;

    closed spec fn view(&self) -> ApuView {
        ApuView {
            ch1: self.ch1_register.reg,
            ch2: self.ch2_register.reg,
            ch3: self.ch3_register,
            ch4: self.ch4_register,
            frame: self.frame_counter.bits,
            status: self.status.bits,
            cycles: self.cycles,
            step: self.counter,
            ev1: self.ch1_events@,
            ev2: self.ch2_events@,
            ev3: self.ch3_events@,
            ev4: self.ch4_events@,
        }
    }
}

/// The front-end at power-on: registers cleared, frame counter at $C0,
/// empty queues.
pub open spec fn apu_init() -> ApuView {
    ApuView {
        ch1: crate::registers::square_reg_zero(),
        ch2: crate::registers::square_reg_zero(),
        ch3: Ch3Register { length: 0u8, key_off_counter_flag: false, frequency: 0u16, key_off_count: 0u8 },
        ch4: Ch4Register {
            volume: 0u8,
            envelope_flag: false,
            key_off_counter_flag: false,
            frequency: 0u8,
            kind: NoiseKind::Long,
            key_off_count: 0u8,
        },
        frame: 0xC0u8,
        status: 0u8,
        cycles: 0u32,
        step: 0u8,
        ev1: Seq::empty(),
        ev2: Seq::empty(),
        ev3: Seq::empty(),
        ev4: Seq::empty(),
    }
}

impl APU {
    /// Fresh front-end.
    pub fn new() -> (r: Self)
        ensures
            r@ == apu_init(),
            apu_wf(r@),
    {
        let r = APU {
            ch1_register: Ch1Register::new(),
            ch2_register: Ch2Register::new(),
            ch3_register: Ch3Register::new(),
            ch4_register: Ch4Register::new(),
            frame_counter: FrameCounter::new(),
            status: StatusRegister::new(),
            cycles: 0,
            counter: 0,
            ch1_events: Vec::new(),
            ch2_events: Vec::new(),
            ch3_events: Vec::new(),
            ch4_events: Vec::new(),
        };
        proof {
            assert(r@ =~= apu_init());
        }
        r
    }

    /// Write to square channel 1 ($4000-$4003): update the register file
    /// and broadcast the new configuration.
    pub fn write1ch(&mut self, addr: u16, value: u8)
        requires
            0x4000 <= addr <= 0x4003,
            apu_wf(old(self)@),
        ensures
            final(self)@ == apu_write1ch_spec(old(self)@, addr, value),
            apu_wf(final(self)@),
    {
        self.ch1_register.write(addr, value);
        let r = self.ch1_register.reg;
        self.ch1_events.push(SquareEvent::Note(SquareNote { duty: r.duty }));
        self.ch1_events.push(
            SquareEvent::Envelope(
                Envelope::new(r.volume, r.envelope_flag, !r.key_off_counter_flag),
            ),
        );
        self.ch1_events.push(
            SquareEvent::LengthCounter(
                LengthCounter::new(r.key_off_counter_flag, length_counter_tbl(r.key_off_count)),
            ),
        );
        self.ch1_events.push(
            SquareEvent::Sweep(
                Sweep::new(
                    r.frequency,
                    r.sweep_change_amount,
                    r.sweep_direction,
                    r.sweep_timer_count,
                    r.sweep_enabled,
                ),
            ),
        );
        if addr == 0x4003 {
            self.ch1_events.push(SquareEvent::Reset);
        }
        proof {
            assert(self@.ev1 =~= apu_write1ch_spec(old(self)@, addr, value).ev1);
            assert(self@ =~= apu_write1ch_spec(old(self)@, addr, value));
        }
    }

    /// Write to square channel 2 ($4004-$4007): update the register file
    /// and broadcast the new configuration.
    pub fn write2ch(&mut self, addr: u16, value: u8)
        requires
            0x4004 <= addr <= 0x4007,
            apu_wf(old(self)@),
        ensures
            final(self)@ == apu_write2ch_spec(old(self)@, addr, value),
            apu_wf(final(self)@),
    {
        self.ch2_register.write(addr, value);
        let r = self.ch2_register.reg;
        self.ch2_events.push(SquareEvent::Note(SquareNote { duty: r.duty }));
        self.ch2_events.push(
            SquareEvent::Envelope(
                Envelope::new(r.volume, r.envelope_flag, !r.key_off_counter_flag),
            ),
        );
        self.ch2_events.push(
            SquareEvent::LengthCounter(
                LengthCounter::new(r.key_off_counter_flag, length_counter_tbl(r.key_off_count)),
            ),
        );
        self.ch2_events.push(
            SquareEvent::Sweep(
                Sweep::new(
                    r.frequency,
                    r.sweep_change_amount,
                    r.sweep_direction,
                    r.sweep_timer_count,
                    r.sweep_enabled,
                ),
            ),
        );
        if addr == 0x4007 {
            self.ch2_events.push(SquareEvent::Reset);
        }
        proof {
            assert(self@.ev2 =~= apu_write2ch_spec(old(self)@, addr, value).ev2);
            assert(self@ =~= apu_write2ch_spec(old(self)@, addr, value));
        }
    }

    /// Write to the triangle channel ($4008-$400B): update the register
    /// file and broadcast the new configuration.
    pub fn write3ch(&mut self, addr: u16, value: u8)
        requires
            0x4008 <= addr <= 0x400B,
            apu_wf(old(self)@),
        ensures
            final(self)@ == apu_write3ch_spec(old(self)@, addr, value),
            apu_wf(final(self)@),
    {
        self.ch3_register.write(addr, value);
        let r = self.ch3_register;
        self.ch3_events.push(TriangleEvent::Note(TriangleNote { frequency: r.frequency }));
        self.ch3_events.push(
            TriangleEvent::LengthCounter(
                LengthCounter::new(r.key_off_counter_flag, length_counter_tbl(r.key_off_count)),
            ),
        );
        if addr == 0x400B {
            self.ch3_events.push(TriangleEvent::Reset);
        }
        proof {
            assert(self@.ev3 =~= apu_write3ch_spec(old(self)@, addr, value).ev3);
            assert(self@ =~= apu_write3ch_spec(old(self)@, addr, value));
        }
    }

    /// Write to the noise channel ($400C-$400F): update the register file
    /// and broadcast the new configuration.
    pub fn write4ch(&mut self, addr: u16, value: u8)
        requires
            0x400C <= addr <= 0x400F,
            apu_wf(old(self)@),
        ensures
            final(self)@ == apu_write4ch_spec(old(self)@, addr, value),
            apu_wf(final(self)@),
    {
        self.ch4_register.write(addr, value);
        let r = self.ch4_register;
        let is_long = match r.kind {
            NoiseKind::Long => true,
            NoiseKind::Short => false,
        };
        self.ch4_events.push(
            NoiseEvent::Note(
                NoiseNote { period: noise_period_tbl(r.frequency), is_long, volume: r.volume },
            ),
        );
        self.ch4_events.push(
            NoiseEvent::Envelope(
                Envelope::new(r.volume, r.envelope_flag, !r.key_off_counter_flag),
            ),
        );
        self.ch4_events.push(
            NoiseEvent::LengthCounter(
                LengthCounter::new(r.key_off_counter_flag, length_counter_tbl(r.key_off_count)),
            ),
        );
        if addr == 0x400F {
            self.ch4_events.push(NoiseEvent::Reset);
        }
        proof {
            assert(self@.ev4 =~= apu_write4ch_spec(old(self)@, addr, value).ev4);
            assert(self@ =~= apu_write4ch_spec(old(self)@, addr, value));
        }
    }

    /// Read of $4015: returns the status byte; the frame-IRQ bit is
    /// cleared as a side effect of the read.
    pub fn read_status(&mut self) -> (r: u8)
        ensures
            r == old(self)@.status,
            final(self)@ == apu_read_status_post(old(self)@),
    {
        let res = self.status.bits;
        self.status.bits = self.status.bits & 0xBF;
        proof {
            assert(self@ =~= apu_read_status_post(old(self)@));
        }
        res
    }

    /// Write of $4015: stores the channel enables and broadcasts them.
    pub fn write_status(&mut self, data: u8)
        ensures
            final(self)@ == apu_write_status_spec(old(self)@, data),
    {
        self.status.update(data);
        self.ch1_events.push(SquareEvent::Enable(self.status.bits & 0x01 != 0));
        self.ch2_events.push(SquareEvent::Enable(self.status.bits & 0x02 != 0));
        self.ch3_events.push(TriangleEvent::Enable(self.status.bits & 0x04 != 0));
        self.ch4_events.push(NoiseEvent::Enable(self.status.bits & 0x08 != 0));
        proof {
            assert(self@ =~= apu_write_status_spec(old(self)@, data));
        }
    }

    /// True when the frame-IRQ status bit is set.
    pub fn irq(&self) -> (r: bool)
        ensures
            r == (self@.status & 0x40 != 0),
    {
        (self.status.bits & 0x40) != 0
    }

    /// Write of $4017: stores the frame-counter register and restarts the
    /// sequencer.
    pub fn write_frame_counter(&mut self, value: u8)
        ensures
            final(self)@ == apu_write_frame_counter_spec(old(self)@, value),
    {
        self.frame_counter.update(value);
        self.cycles = 0;
        self.counter = 0;
        proof {
            assert(self@ =~= apu_write_frame_counter_spec(old(self)@, value));
        }
    }

    /// Dispatches a write in the APU register window $4000-$4017.
    pub fn write_register(&mut self, addr: u16, value: u8)
        requires
            0x4000 <= addr <= 0x4017,
            apu_wf(old(self)@),
        ensures
            final(self)@ == apu_write_reg_spec(old(self)@, addr, value),
            apu_wf(final(self)@),
    {
        if addr <= 0x4003 {
            self.write1ch(addr, value);
        } else if addr <= 0x4007 {
            self.write2ch(addr, value);
        } else if addr <= 0x400B {
            self.write3ch(addr, value);
        } else if addr <= 0x400F {
            self.write4ch(addr, value);
        } else if addr == 0x4015 {
            self.write_status(value);
        } else if addr == 0x4017 {
            self.write_frame_counter(value);
        }
    }

    fn send_envelope_tick(&mut self)
        ensures
            final(self)@ == (ApuView {
                ev1: old(self)@.ev1.push(SquareEvent::EnvelopeTick),
                ev2: old(self)@.ev2.push(SquareEvent::EnvelopeTick),
                ev4: old(self)@.ev4.push(NoiseEvent::EnvelopeTick),
                ..old(self)@
            }),
    {
        self.ch1_events.push(SquareEvent::EnvelopeTick);
        self.ch2_events.push(SquareEvent::EnvelopeTick);
        self.ch4_events.push(NoiseEvent::EnvelopeTick);
        proof {
            assert(self@ =~= (ApuView {
                ev1: old(self)@.ev1.push(SquareEvent::EnvelopeTick),
                ev2: old(self)@.ev2.push(SquareEvent::EnvelopeTick),
                ev4: old(self)@.ev4.push(NoiseEvent::EnvelopeTick),
                ..old(self)@
            }));
        }
    }

    fn send_length_counter_tick(&mut self)
        ensures
            final(self)@ == (ApuView {
                ev1: old(self)@.ev1.push(SquareEvent::LengthCounterTick),
                ev2: old(self)@.ev2.push(SquareEvent::LengthCounterTick),
                ev3: old(self)@.ev3.push(TriangleEvent::LengthCounterTick),
                ev4: old(self)@.ev4.push(NoiseEvent::LengthCounterTick),
                ..old(self)@
            }),
    {
        self.ch1_events.push(SquareEvent::LengthCounterTick);
        self.ch2_events.push(SquareEvent::LengthCounterTick);
        self.ch3_events.push(TriangleEvent::LengthCounterTick);
        self.ch4_events.push(NoiseEvent::LengthCounterTick);
        proof {
            assert(self@ =~= (ApuView {
                ev1: old(self)@.ev1.push(SquareEvent::LengthCounterTick),
                ev2: old(self)@.ev2.push(SquareEvent::LengthCounterTick),
                ev3: old(self)@.ev3.push(TriangleEvent::LengthCounterTick),
                ev4: old(self)@.ev4.push(NoiseEvent::LengthCounterTick),
                ..old(self)@
            }));
        }
    }

    fn send_sweep_tick(&mut self)
        ensures
            final(self)@ == (ApuView {
                ev1: old(self)@.ev1.push(SquareEvent::SweepTick),
                ev2: old(self)@.ev2.push(SquareEvent::SweepTick),
                ..old(self)@
            }),
    {
        self.ch1_events.push(SquareEvent::SweepTick);
        self.ch2_events.push(SquareEvent::SweepTick);
        proof {
            assert(self@ =~= (ApuView {
                ev1: old(self)@.ev1.push(SquareEvent::SweepTick),
                ev2: old(self)@.ev2.push(SquareEvent::SweepTick),
                ..old(self)@
            }));
        }
    }

    /// Advances the frame sequencer by `cycles` CPU cycles.
    pub fn tick(&mut self, cycles: u8)
        requires
            apu_wf(old(self)@),
        ensures
            final(self)@ == apu_tick_spec(old(self)@, cycles),
            apu_wf(final(self)@),
    {
        self.cycles = self.cycles + cycles as u32;
        if self.cycles >= 7457 {
            self.cycles = self.cycles - 7457;
            self.counter = self.counter + 1;
            if self.frame_counter.mode() == 4 {
                if self.counter == 2 || self.counter == 4 {
                    self.send_length_counter_tick();
                    self.send_sweep_tick();
                }
                if self.counter == 4 {
                    self.counter = 0;
                    self.status.bits = self.status.bits | 0x40;
                }
                self.send_envelope_tick();
            } else {
                if self.counter == 1 || self.counter == 3 {
                    self.send_length_counter_tick();
                    self.send_sweep_tick();
                }
                if self.counter <= 4 {
                    self.send_envelope_tick();
                }
                if self.counter == 5 {
                    self.counter = 0;
                }
            }
            proof {
                assert(self@ =~= apu_tick_spec(old(self)@, cycles));
            }
        } else {
            proof {
                assert(self@ =~= apu_tick_spec(old(self)@, cycles));
            }
        }
    }

    /// Hands out (and clears) the pending square channel 1 events.
    pub fn take_ch1_events(&mut self) -> (r: Vec<SquareEvent>)
        ensures
            r@ == old(self)@.ev1,
            final(self)@ == (ApuView { ev1: Seq::<SquareEvent>::empty(), ..old(self)@ }),
    {
        let mut out: Vec<SquareEvent> = Vec::new();
        core::mem::swap(&mut out, &mut self.ch1_events);
        proof {
            assert(self@ =~= (ApuView { ev1: Seq::<SquareEvent>::empty(), ..old(self)@ }));
        }
        out
    }

    /// Hands out (and clears) the pending square channel 2 events.
    pub fn take_ch2_events(&mut self) -> (r: Vec<SquareEvent>)
        ensures
            r@ == old(self)@.ev2,
            final(self)@ == (ApuView { ev2: Seq::<SquareEvent>::empty(), ..old(self)@ }),
    {
        let mut out: Vec<SquareEvent> = Vec::new();
        core::mem::swap(&mut out, &mut self.ch2_events);
        proof {
            assert(self@ =~= (ApuView { ev2: Seq::<SquareEvent>::empty(), ..old(self)@ }));
        }
        out
    }

    /// Hands out (and clears) the pending triangle channel events.
    pub fn take_ch3_events(&mut self) -> (r: Vec<TriangleEvent>)
        ensures
            r@ == old(self)@.ev3,
            final(self)@ == (ApuView { ev3: Seq::<TriangleEvent>::empty(), ..old(self)@ }),
    {
        let mut out: Vec<TriangleEvent> = Vec::new();
        core::mem::swap(&mut out, &mut self.ch3_events);
        proof {
            assert(self@ =~= (ApuView { ev3: Seq::<TriangleEvent>::empty(), ..old(self)@ }));
        }
        out
    }

    /// Hands out (and clears) the pending noise channel events.
    pub fn take_ch4_events(&mut self) -> (r: Vec<NoiseEvent>)
        ensures
            r@ == old(self)@.ev4,
            final(self)@ == (ApuView { ev4: Seq::<NoiseEvent>::empty(), ..old(self)@ }),
    {
        let mut out: Vec<NoiseEvent> = Vec::new();
        core::mem::swap(&mut out, &mut self.ch4_events);
        proof {
            assert(self@ =~= (ApuView { ev4: Seq::<NoiseEvent>::empty(), ..old(self)@ }));
        }
        out
    }
}

/// Writing a frequency register twice with the same byte settles on the
/// first write's result: the untouched half of the 11-bit period survives
/// the rewrite.
proof fn lemma_freq_write_idem()
    by (bit_vector)
    ensures
        forall|f: u16, v: u8| #[trigger] (((f & 0x0700) | (v as u16)) & 0x0700) == f & 0x0700,
        forall|f: u16, v: u8|
            #[trigger] (((f & 0x00FF) | (((v as u16) & 0x07) << 8u16)) & 0x00FF) == f & 0x00FF,
{
}

proof fn lemma_append_skip<T>(s: Seq<T>, t: Seq<T>)
    ensures
        (s + t).skip(s.len() as int) == t,
{
    assert((s + t).skip(s.len() as int) =~= t);
}

proof fn lemma_skip_len<T>(s: Seq<T>)
    ensures
        s.skip(s.len() as int) == Seq::<T>::empty(),
{
    assert(s.skip(s.len() as int) =~= Seq::<T>::empty());
}

proof fn lemma_push_skip<T>(s: Seq<T>, e: T)
    ensures
        s.push(e).skip(s.len() as int) == seq![e],
{
    assert(s.push(e).skip(s.len() as int) =~= seq![e]);
}

/// Writing the same byte to the same APU register twice broadcasts the
/// same tuple of events both times, on every channel queue.
pub proof fn lemma_apu_write_idempotent(a: ApuView, addr: u16, v: u8)
    requires
        0x4000 <= addr <= 0x4017,
    ensures
        ({
            let a1 = apu_write_reg_spec(a, addr, v);
            let a2 = apu_write_reg_spec(a1, addr, v);
            &&& a2.ev1.skip(a1.ev1.len() as int) == a1.ev1.skip(a.ev1.len() as int)
            &&& a2.ev2.skip(a1.ev2.len() as int) == a1.ev2.skip(a.ev2.len() as int)
            &&& a2.ev3.skip(a1.ev3.len() as int) == a1.ev3.skip(a.ev3.len() as int)
            &&& a2.ev4.skip(a1.ev4.len() as int) == a1.ev4.skip(a.ev4.len() as int)
        }),
{
    lemma_freq_write_idem();
    let a1 = apu_write_reg_spec(a, addr, v);
    let a2 = apu_write_reg_spec(a1, addr, v);
    if addr <= 0x4003 {
        let r1 = square_write_spec(a.ch1, 0x4000, addr, v);
        assert(square_write_spec(r1, 0x4000, addr, v) == r1);
        lemma_append_skip(a.ev1, square_broadcast(r1, addr == 0x4003));
        lemma_append_skip(a1.ev1, square_broadcast(r1, addr == 0x4003));
        lemma_skip_len(a.ev2);
        lemma_skip_len(a.ev3);
        lemma_skip_len(a.ev4);
    } else if addr <= 0x4007 {
        let r1 = square_write_spec(a.ch2, 0x4004, addr, v);
        assert(square_write_spec(r1, 0x4004, addr, v) == r1);
        lemma_append_skip(a.ev2, square_broadcast(r1, addr == 0x4007));
        lemma_append_skip(a1.ev2, square_broadcast(r1, addr == 0x4007));
        lemma_skip_len(a.ev1);
        lemma_skip_len(a.ev3);
        lemma_skip_len(a.ev4);
    } else if addr <= 0x400B {
        let r1 = ch3_write_spec(a.ch3, addr, v);
        assert(ch3_write_spec(r1, addr, v) == r1);
        lemma_append_skip(a.ev3, triangle_broadcast(r1, addr == 0x400B));
        lemma_append_skip(a1.ev3, triangle_broadcast(r1, addr == 0x400B));
        lemma_skip_len(a.ev1);
        lemma_skip_len(a.ev2);
        lemma_skip_len(a.ev4);
    } else if addr <= 0x400F {
        let r1 = ch4_write_spec(a.ch4, addr, v);
        assert(ch4_write_spec(r1, addr, v) == r1);
        lemma_append_skip(a.ev4, noise_broadcast(r1, addr == 0x400F));
        lemma_append_skip(a1.ev4, noise_broadcast(r1, addr == 0x400F));
        lemma_skip_len(a.ev1);
        lemma_skip_len(a.ev2);
        lemma_skip_len(a.ev3);
    } else if addr == 0x4015 {
        lemma_push_skip(a.ev1, SquareEvent::Enable((v & 0xDF) & 0x01 != 0));
        lemma_push_skip(a1.ev1, SquareEvent::Enable((v & 0xDF) & 0x01 != 0));
        lemma_push_skip(a.ev2, SquareEvent::Enable((v & 0xDF) & 0x02 != 0));
        lemma_push_skip(a1.ev2, SquareEvent::Enable((v & 0xDF) & 0x02 != 0));
        lemma_push_skip(a.ev3, TriangleEvent::Enable((v & 0xDF) & 0x04 != 0));
        lemma_push_skip(a1.ev3, TriangleEvent::Enable((v & 0xDF) & 0x04 != 0));
        lemma_push_skip(a.ev4, NoiseEvent::Enable((v & 0xDF) & 0x08 != 0));
        lemma_push_skip(a1.ev4, NoiseEvent::Enable((v & 0xDF) & 0x08 != 0));
    } else {
        lemma_skip_len(a.ev1);
        lemma_skip_len(a.ev2);
        lemma_skip_len(a.ev3);
        lemma_skip_len(a.ev4);
        lemma_skip_len(a1.ev1);
        lemma_skip_len(a1.ev2);
        lemma_skip_len(a1.ev3);
        lemma_skip_len(a1.ev4);
    }
}

/// Status read-back: a write of `s` to $4015 reads back as `s` with the
/// unused bit 5 masked off, and the read clears the frame-IRQ bit 6, so a
/// second read returns the same byte with bit 6 cleared.
pub proof fn lemma_status_read_back(a: ApuView, s: u8)
    ensures
        ({
            let a1 = apu_write_status_spec(a, s);
            let a2 = apu_read_status_post(a1);
            &&& a1.status == s & 0xDF
            &&& a2.status == (s & 0xDF) & 0xBF
        }),
{
}

} // verus!
