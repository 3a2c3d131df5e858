//! APU tests: register decode, broadcast tuples, status and frame
//! sequencer behaviour, the per-channel sub-units and the noise LFSR.

use nes_core::apu::APU;
use nes_core::apu::FrameCounter;
use nes_core::apu::StatusRegister;
use nes_core::cpu::RP2A03;
use nes_core::envelope::Envelope;
use nes_core::events::NoiseEvent;
use nes_core::events::SquareEvent;
use nes_core::events::TriangleEvent;
use nes_core::length::LengthCounter;
use nes_core::length::length_counter_tbl;
use nes_core::noise::NoiseRandom;
use nes_core::noise::noise_period_tbl;
use nes_core::registers::Ch1Register;
use nes_core::registers::Ch4Register;
use nes_core::registers::NoiseKind;
use nes_core::sweep::Sweep;
use nes_core::voices::NoiseVoice;
use nes_core::voices::SquareVoice;
use nes_core::voices::TriangleVoice;

#[test]
fn status_write_reads_back_with_bit5_masked() {
    // every write pattern reads back with bit 5 off; the read clears bit 6
    for s in [0x00u8, 0x1F, 0x20, 0x5A, 0xFF] {
        let mut apu = APU::new();
        apu.write_status(s);
        let first = apu.read_status();
        assert_eq!(first, s & 0xDF);
        let second = apu.read_status();
        assert_eq!(second, (s & 0xDF) & 0xBF);
    }
}

#[test]
fn status_read_through_bus() {
    let mut cpu = RP2A03::new();
    cpu.nes_mem.mem_write(0x4015, 0xFF).unwrap();
    assert_eq!(cpu.nes_mem.mem_read(0x4015).unwrap(), 0xDF);
    assert_eq!(cpu.nes_mem.mem_read(0x4015).unwrap(), 0x9F);
}

#[test]
fn frame_irq_set_in_mode_4_and_cleared_by_read() {
    let mut apu = APU::new();
    apu.write_frame_counter(0x00);
    assert_eq!(FrameCounter::new().mode(), 5);
    let mut fc = FrameCounter::new();
    fc.update(0x00);
    assert_eq!(fc.mode(), 4);

    for _ in 0..4 * 7457 {
        apu.tick(1);
    }
    assert!(apu.irq());
    let first = apu.read_status();
    assert_ne!(first & 0x40, 0, "frame IRQ visible in bit 6");
    let second = apu.read_status();
    assert_eq!(second, first & 0xBF, "second read sees bit 6 cleared");
    assert!(!apu.irq());
}

#[test]
fn mode_5_never_raises_frame_irq() {
    let mut apu = APU::new();
    apu.write_frame_counter(0x80);
    for _ in 0..12 * 7457 {
        apu.tick(17);
    }
    assert!(!apu.irq());
}

#[test]
fn frame_sequencer_tick_schedule_mode_4() {
    let mut apu = APU::new();
    apu.write_frame_counter(0x00);
    // first boundary: envelope tick only
    for _ in 0..7457 {
        apu.tick(1);
    }
    let ev = apu.take_ch1_events();
    assert_eq!(ev, vec![SquareEvent::EnvelopeTick]);
    // second boundary: length + sweep, then envelope
    for _ in 0..7457 {
        apu.tick(1);
    }
    let ev = apu.take_ch1_events();
    assert_eq!(
        ev,
        vec![
            SquareEvent::LengthCounterTick,
            SquareEvent::SweepTick,
            SquareEvent::EnvelopeTick,
        ]
    );
    // the triangle gets no envelope ticks
    let ev3 = apu.take_ch3_events();
    assert_eq!(
        ev3,
        vec![TriangleEvent::LengthCounterTick]
    );
}

#[test]
fn channel_write_broadcasts_note_envelope_length_sweep() {
    let mut apu = APU::new();
    apu.write1ch(0x4000, 0b1101_0111);
    let ev = apu.take_ch1_events();
    assert_eq!(ev.len(), 4);
    assert_eq!(ev[0], SquareEvent::Note(nes_core::events::SquareNote { duty: 0b11 }));
    match ev[1] {
        SquareEvent::Envelope(e) => {
            assert_eq!(e.rate, 0x07);
            assert!(!e.enabled, "bit 4 set disables the envelope");
            assert!(!e.loop_flag, "bit 5 clear keeps the length counter on");
            assert_eq!(e.counter, 15);
            assert_eq!(e.division_period, 8);
        }
        _ => panic!("expected an envelope event"),
    }
    match ev[2] {
        SquareEvent::LengthCounter(l) => {
            assert!(l.enabled);
            assert_eq!(l.count, length_counter_tbl(0));
        }
        _ => panic!("expected a length counter event"),
    }
    match ev[3] {
        SquareEvent::Sweep(_) => {}
        _ => panic!("expected a sweep event"),
    }

    // the fourth register additionally emits a reset
    apu.write1ch(0x4003, 0x08);
    let ev = apu.take_ch1_events();
    assert_eq!(ev.len(), 5);
    assert_eq!(ev[4], SquareEvent::Reset);
}

#[test]
fn same_byte_twice_broadcasts_identical_tuples() {
    // every channel, with and without the reset-carrying fourth register
    let mut apu = APU::new();
    for addr in 0x4000u16..=0x4017 {
        apu.write_register(addr, 0xA7);
        let t1c1 = apu.take_ch1_events();
        let t1c2 = apu.take_ch2_events();
        let t1c3 = apu.take_ch3_events();
        let t1c4 = apu.take_ch4_events();
        apu.write_register(addr, 0xA7);
        assert_eq!(apu.take_ch1_events(), t1c1, "square 1 tuple at {addr:#06x}");
        assert_eq!(apu.take_ch2_events(), t1c2, "square 2 tuple at {addr:#06x}");
        assert_eq!(apu.take_ch3_events(), t1c3, "triangle tuple at {addr:#06x}");
        assert_eq!(apu.take_ch4_events(), t1c4, "noise tuple at {addr:#06x}");
    }
    // the status register broadcasts the same enables twice, too
    apu.write_status(0x0F);
    let e1 = apu.take_ch1_events();
    apu.write_status(0x0F);
    assert_eq!(apu.take_ch1_events(), e1);
}

#[test]
fn write_status_broadcasts_enables() {
    let mut apu = APU::new();
    apu.write_status(0b0000_0101);
    assert_eq!(apu.take_ch1_events(), vec![SquareEvent::Enable(true)]);
    assert_eq!(apu.take_ch2_events(), vec![SquareEvent::Enable(false)]);
    assert_eq!(apu.take_ch3_events(), vec![TriangleEvent::Enable(true)]);
    assert_eq!(apu.take_ch4_events(), vec![NoiseEvent::Enable(false)]);
}

#[test]
fn square_register_decode() {
    let mut r = Ch1Register::new();
    r.write(0x4000, 0xFF);
    assert_eq!(r.reg.volume, 0x0F);
    assert!(!r.reg.envelope_flag);
    assert!(!r.reg.key_off_counter_flag);
    assert_eq!(r.reg.duty, 3);
    r.write(0x4001, 0b1011_0101);
    assert!(r.reg.sweep_enabled);
    assert_eq!(r.reg.sweep_timer_count, 0b011);
    assert_eq!(r.reg.sweep_direction, 0);
    assert_eq!(r.reg.sweep_change_amount, 0b101);
    r.write(0x4002, 0xCD);
    r.write(0x4003, 0b1111_1010);
    assert_eq!(r.reg.frequency, 0x02CD);
    assert_eq!(r.reg.key_off_count, 0b11111);
}

#[test]
fn noise_register_decode() {
    let mut r = Ch4Register::new();
    r.write(0x400E, 0x8A);
    assert_eq!(r.frequency, 0x0A);
    assert_eq!(r.kind, NoiseKind::Short);
    r.write(0x400E, 0x05);
    assert_eq!(r.kind, NoiseKind::Long);
    assert_eq!(noise_period_tbl(0), 0x0002);
    assert_eq!(noise_period_tbl(10), 0x00BE);
    assert_eq!(noise_period_tbl(15), 0x07F2);
}

#[test]
fn length_counter_mutes_after_table_count() {
    // through the noise channel: enable the length counter, load index 4 (count 20)
    let mut apu = APU::new();
    apu.write4ch(0x400C, 0x00);
    apu.take_ch4_events();
    apu.write4ch(0x400F, 4 << 3);
    let mut voice = NoiseVoice::new();
    for e in apu.take_ch4_events() {
        assert!(e.valid());
        voice.apply_event(e);
    }
    let count = length_counter_tbl(4);
    assert_eq!(count, 20);
    for i in 0..count {
        assert!(!voice.length_counter.mute(), "still audible before tick {i}");
        voice.apply_event(NoiseEvent::LengthCounterTick);
    }
    assert!(voice.length_counter.mute(), "muted after the table count");
    voice.apply_event(NoiseEvent::LengthCounterTick);
    assert!(voice.length_counter.mute(), "stays muted");
}

#[test]
fn length_counter_table_values() {
    let expect: [u8; 32] = [
        5, 127, 10, 1, 20, 2, 40, 3, 80, 4, 30, 5, 7, 6, 13, 7, 6, 8, 12, 9, 24, 10, 48, 11, 96,
        12, 36, 13, 8, 14, 16, 15,
    ];
    for (i, &v) in expect.iter().enumerate() {
        assert_eq!(length_counter_tbl(i as u8), v);
    }
}

#[test]
fn lfsr_long_mode_period() {
    let mut r = NoiseRandom::long();
    let mut steps: u32 = 0;
    loop {
        r.next();
        steps += 1;
        if r.value == 1 {
            break;
        }
        assert!(steps < 40000, "period overshot");
    }
    assert_eq!(steps, 32767);
}

#[test]
fn lfsr_short_mode_period() {
    let mut r = NoiseRandom::short();
    let mut steps: u32 = 0;
    loop {
        r.next();
        steps += 1;
        if r.value == 1 {
            break;
        }
        assert!(steps < 40000, "period overshot");
    }
    assert_eq!(steps, 93);
}

#[test]
fn lfsr_first_shifts() {
    // from the seed 1: feedback = bit0 ^ bit1 = 1, so bit 14 fills
    let mut r = NoiseRandom::long();
    let out = r.next();
    assert_eq!(r.value, 0x4000);
    assert!(!out);
}

#[test]
fn envelope_decays_and_loops() {
    let mut e = Envelope::new(0, true, true);
    // rate 0: the divider expires on every tick
    for expected in (0..15).rev() {
        e.tick();
        assert_eq!(e.counter, expected);
    }
    assert_eq!(e.volume(), 0);
    // loop flag reloads the counter to 15
    e.tick();
    assert_eq!(e.counter, 15);

    // a disabled envelope outputs the constant rate
    let c = Envelope::new(9, false, false);
    assert_eq!(c.volume(), 9);
}

#[test]
fn envelope_divider_rate() {
    let mut e = Envelope::new(3, true, false);
    // rate 3: the counter decays once per 4 ticks
    for _ in 0..4 {
        assert_eq!(e.counter, 15);
        e.tick();
    }
    assert_eq!(e.counter, 14);
    // without the loop flag the counter stays at zero
    for _ in 0..16 * 4 {
        e.tick();
    }
    assert_eq!(e.counter, 0);
}

#[test]
fn sweep_steps_period_and_silences() {
    let mut s = Sweep::new(0x0400, 1, 0, 0, true);
    s.tick();
    assert_eq!(s.frequency, 0x0600, "period grows by period >> 1");
    s.tick();
    assert_eq!(s.frequency, 0, "leaving [8, $7FF) silences the channel");

    // decrease direction
    let mut d = Sweep::new(0x0400, 2, 1, 0, true);
    d.tick();
    assert_eq!(d.frequency, 0x0300);

    // below 8 silences as well
    let mut t = Sweep::new(0x0009, 1, 1, 0, true);
    t.tick();
    assert_eq!(t.frequency, 0, "9 - 4 = 5 < 8 silences");

    // a disabled unit and a zero shift are inert
    let mut q = Sweep::new(0x0100, 0, 0, 0, true);
    q.tick();
    assert_eq!(q.frequency, 0x0100);

    // divider: timer_count 1 means every second tick acts
    let mut w = Sweep::new(0x0100, 1, 0, 1, true);
    w.tick();
    assert_eq!(w.frequency, 0x0100);
    w.tick();
    assert_eq!(w.frequency, 0x0180);
}

#[test]
fn square_voice_applies_reset() {
    let mut v = SquareVoice::new();
    v.apply_event(SquareEvent::Envelope(Envelope::new(5, true, false)));
    v.apply_event(SquareEvent::LengthCounter(LengthCounter::new(true, 3)));
    v.apply_event(SquareEvent::Sweep(Sweep::new(0x0123, 1, 0, 2, true)));
    v.apply_event(SquareEvent::EnvelopeTick);
    v.apply_event(SquareEvent::LengthCounterTick);
    assert_eq!(v.length_counter.counter, 2);
    v.apply_event(SquareEvent::Reset);
    assert_eq!(v.envelope.counter, 15);
    assert_eq!(v.length_counter.counter, 3);
    assert_eq!(v.sweep.frequency, 0x0123);
    assert!(!v.muted());
    v.apply_event(SquareEvent::Enable(false));
    assert!(v.muted());
}

#[test]
fn triangle_voice_note_and_mute() {
    let mut apu = APU::new();
    apu.write3ch(0x400A, 0x42);
    let mut v = TriangleVoice::new();
    for e in apu.take_ch3_events() {
        v.apply_event(e);
    }
    assert_eq!(v.note.frequency, 0x042);
    assert!(!v.muted());
}

#[test]
fn noise_voice_clocks_selected_lfsr() {
    let mut v = NoiseVoice::new();
    // long mode by default: after one clock the register is $4000
    v.clock_lfsr();
    assert_eq!(v.long_random.value, 0x4000);
    assert_eq!(v.short_random.value, 1);
    assert!(!v.value);
}

#[test]
fn apu_status_register_masks_bit5() {
    let mut s = StatusRegister::new();
    s.update(0xFF);
    assert_eq!(s.bits, 0xDF);
    s.update(0x20);
    assert_eq!(s.bits, 0x00);
}
