//! Memory bus of the console: resolves 16-bit addresses to internal RAM
//! (with mirroring), the PPU register window, the APU/IO register window,
//! or the cartridge windows, through one read/write interface.
//!
//! Writes into $4000-$4017 are forwarded to the APU front-end, and a read
//! of $4015 returns the APU status (clearing the frame-IRQ bit).  The
//! addresses $4018-$401F are unmapped and fail with `InvalidAddress`.

use vstd::prelude::*;
use crate::EmuError;
use crate::apu::APU;
use crate::apu::ApuView;
use crate::apu::apu_init;
use crate::apu::apu_read_status_post;
use crate::apu::apu_wf;
use crate::apu::apu_write_reg_spec;

verus! {

/// Mathematical state of the bus: the byte contents of every mapped
/// region plus the APU front-end.
#[verifier::ext_equal]
pub ghost struct MemView {
    pub wram: Seq<u8>,
    pub ppu_regs: Seq<u8>,
    pub apu_regs: Seq<u8>,
    pub chr_rom: Seq<u8>,
    pub ext_ram: Seq<u8>,
    pub prg_rom: Seq<u8>,
    pub apu: ApuView,
}

/// Well-formed bus: every region has its mapped size and the APU is well
/// formed.
pub open spec fn mem_wf(m: MemView) -> bool {
    &&& m.wram.len() == 0x0800
    &&& m.ppu_regs.len() == 8
    &&& m.apu_regs.len() == 24
    &&& m.chr_rom.len() == 0x1FE0
    &&& m.ext_ram.len() == 0x2000
    &&& m.prg_rom.len() == 0x8000
    &&& apu_wf(m.apu)
}

/// The byte a read returns, or `InvalidAddress` in the unmapped gap.
/// Internal RAM is mirrored every $0800 up to $1FFF; the PPU registers are
/// mirrored every 8 bytes up to $3FFF; $4015 returns the APU status.
pub open spec fn mem_read_result(m: MemView, addr: u16) -> Result<u8, EmuError> {
    if addr < 0x2000 {
        Ok(m.wram[(addr % 0x0800) as int])
    } else if addr < 0x4000 {
        Ok(m.ppu_regs[((addr - 0x2000) % 8) as int])
    } else if addr == 0x4015 {
        Ok(m.apu.status)
    } else if addr < 0x4018 {
        Ok(m.apu_regs[(addr - 0x4000) as int])
    } else if addr < 0x4020 {
        Err(EmuError::InvalidAddress)
    } else if addr < 0x6000 {
        Ok(m.chr_rom[(addr - 0x4020) as int])
    } else if addr < 0x8000 {
        Ok(m.ext_ram[(addr - 0x6000) as int])
    } else {
        Ok(m.prg_rom[(addr - 0x8000) as int])
    }
}

/// Bus state after a read: only a read of $4015 changes anything (it
/// clears the frame-IRQ bit in the APU status).
pub open spec fn mem_read_post(m: MemView, addr: u16) -> MemView {
    if addr == 0x4015 {
        MemView { apu: apu_read_status_post(m.apu), ..m }
    } else {
        m
    }
}

/// Whether a write succeeds: everything mapped takes the byte; the gap
/// $4018-$401F fails with `InvalidAddress`.
pub open spec fn mem_write_result(addr: u16) -> Result<(), EmuError> {
    if 0x4018 <= addr < 0x4020 {
        Err(EmuError::InvalidAddress)
    } else {
        Ok(())
    }
}

/// Bus state after a write.  A write into $4000-$4017 both stores the raw
/// byte and is forwarded to the APU front-end; a failed write changes
/// nothing.
pub open spec fn mem_write_post(m: MemView, addr: u16, v: u8) -> MemView {
    if addr < 0x2000 {
        MemView { wram: m.wram.update((addr % 0x0800) as int, v), ..m }
    } else if addr < 0x4000 {
        MemView { ppu_regs: m.ppu_regs.update(((addr - 0x2000) % 8) as int, v), ..m }
    } else if addr < 0x4018 {
        MemView {
            apu_regs: m.apu_regs.update((addr - 0x4000) as int, v),
            apu: apu_write_reg_spec(m.apu, addr, v),
            ..m
        }
    } else if addr < 0x4020 {
        m
    } else if addr < 0x6000 {
        MemView { chr_rom: m.chr_rom.update((addr - 0x4020) as int, v), ..m }
    } else if addr < 0x8000 {
        MemView { ext_ram: m.ext_ram.update((addr - 0x6000) as int, v), ..m }
    } else {
        MemView { prg_rom: m.prg_rom.update((addr - 0x8000) as int, v), ..m }
    }
}

/// The bus at power-on: all regions zeroed, fresh APU.
pub open spec fn mem_init() -> MemView {
    MemView {
        wram: Seq::new(0x0800nat, |i: int| 0u8),
        ppu_regs: Seq::new(8nat, |i: int| 0u8),
        apu_regs: Seq::new(24nat, |i: int| 0u8),
        chr_rom: Seq::new(0x1FE0nat, |i: int| 0u8),
        ext_ram: Seq::new(0x2000nat, |i: int| 0u8),
        prg_rom: Seq::new(0x8000nat, |i: int| 0u8),
        apu: apu_init(),
    }
}

/// The console memory: work RAM, PPU register window, raw APU register
/// bytes, cartridge regions, and the APU front-end the bus forwards to.
pub struct NESMemory {
    wram: Vec<u8>,
    ppu_regs: Vec<u8>,
    apu_regs: Vec<u8>,
    chr_rom: Vec<u8>,
    ext_ram: Vec<u8>,
    prg_rom: Vec<u8>,
    pub apu: APU,
}

impl View for NESMemory {
    type V = MemView;

    closed spec fn view(&self) -> MemView {
        MemView {
            wram: self.wram@,
            ppu_regs: self.ppu_regs@,
            apu_regs: self.apu_regs@,
            chr_rom: self.chr_rom@,
            ext_ram: self.ext_ram@,
            prg_rom: self.prg_rom@,
            apu: self.apu@,
        }
    }
}

impl NESMemory {
    /// Zeroed memory with a fresh APU front-end.
    pub fn new() -> (r: Self)
        ensures
            r@ == mem_init(),
            mem_wf(r@),
    {
        let r = NESMemory {
            wram: vec![0u8; 0x0800],
            ppu_regs: vec![0u8; 8],
            apu_regs: vec![0u8; 24],
            chr_rom: vec![0u8; 0x1FE0],
            ext_ram: vec![0u8; 0x2000],
            prg_rom: vec![0u8; 0x8000],
            apu: APU::new(),
        };
        proof {
            assert(r@.wram =~= mem_init().wram);
            assert(r@.ppu_regs =~= mem_init().ppu_regs);
            assert(r@.apu_regs =~= mem_init().apu_regs);
            assert(r@.chr_rom =~= mem_init().chr_rom);
            assert(r@.ext_ram =~= mem_init().ext_ram);
            assert(r@.prg_rom =~= mem_init().prg_rom);
            assert(r@ =~= mem_init());
        }
        r
    }

    /// Reads one byte.  Only a read of $4015 has a side effect: it clears
    /// the frame-IRQ bit after returning the status.
    pub fn mem_read(&mut self, address: u16) -> (r: Result<u8, EmuError>)
        requires
            mem_wf(old(self)@),
        ensures
            final(self)@ == mem_read_post(old(self)@, address),
            r == mem_read_result(old(self)@, address),
            mem_wf(final(self)@),
    {
        if address < 0x2000 {
            Ok(self.wram[(address % 0x0800) as usize])
        } else if address < 0x4000 {
            Ok(self.ppu_regs[((address - 0x2000) % 8) as usize])
        } else if address == 0x4015 {
            let v = self.apu.read_status();
            proof {
                assert(self@ =~= mem_read_post(old(self)@, address));
            }
            Ok(v)
        } else if address < 0x4018 {
            Ok(self.apu_regs[(address - 0x4000) as usize])
        } else if address < 0x4020 {
            Err(EmuError::InvalidAddress)
        } else if address < 0x6000 {
            Ok(self.chr_rom[(address - 0x4020) as usize])
        } else if address < 0x8000 {
            Ok(self.ext_ram[(address - 0x6000) as usize])
        } else {
            Ok(self.prg_rom[(address - 0x8000) as usize])
        }
    }

    /// Writes one byte.  Writes into the APU window are forwarded to the
    /// front-end as well as stored; the gap $4018-$401F is rejected.
    pub fn mem_write(&mut self, address: u16, data: u8) -> (r: Result<(), EmuError>)
        requires
            mem_wf(old(self)@),
        ensures
            final(self)@ == mem_write_post(old(self)@, address, data),
            r == mem_write_result(address),
            mem_wf(final(self)@),
    {
        if address < 0x2000 {
            self.wram[(address % 0x0800) as usize] = data;
            proof {
                assert(self@ =~= mem_write_post(old(self)@, address, data));
            }
            Ok(())
        } else if address < 0x4000 {
            self.ppu_regs[((address - 0x2000) % 8) as usize] = data;
            proof {
                assert(self@ =~= mem_write_post(old(self)@, address, data));
            }
            Ok(())
        } else if address < 0x4018 {
            self.apu_regs[(address - 0x4000) as usize] = data;
            self.apu.write_register(address, data);
            proof {
                assert(self@ =~= mem_write_post(old(self)@, address, data));
            }
            Ok(())
        } else if address < 0x4020 {
            Err(EmuError::InvalidAddress)
        } else if address < 0x6000 {
            self.chr_rom[(address - 0x4020) as usize] = data;
            proof {
                assert(self@ =~= mem_write_post(old(self)@, address, data));
            }
            Ok(())
        } else if address < 0x8000 {
            self.ext_ram[(address - 0x6000) as usize] = data;
            proof {
                assert(self@ =~= mem_write_post(old(self)@, address, data));
            }
            Ok(())
        } else {
            self.prg_rom[(address - 0x8000) as usize] = data;
            proof {
                assert(self@ =~= mem_write_post(old(self)@, address, data));
            }
            Ok(())
        }
    }

    /// Copies a program image into cartridge ROM starting at $8000.
    pub fn load_prg(&mut self, data: &[u8])
        requires
            mem_wf(old(self)@),
            data@.len() <= 0x8000,
        ensures
            forall|i: int| 0 <= i < data@.len() ==> final(self)@.prg_rom[i] == data@[i],
            forall|i: int|
                data@.len() <= i < 0x8000 ==> final(self)@.prg_rom[i] == old(self)@.prg_rom[i],
            final(self)@.wram == old(self)@.wram,
            final(self)@.ppu_regs == old(self)@.ppu_regs,
            final(self)@.apu_regs == old(self)@.apu_regs,
            final(self)@.chr_rom == old(self)@.chr_rom,
            final(self)@.ext_ram == old(self)@.ext_ram,
            final(self)@.apu == old(self)@.apu,
            mem_wf(final(self)@),
    {
        let mut i: usize = 0;
        while i < data.len()
            invariant
                mem_wf(self@),
                i <= data@.len() <= 0x8000,
                forall|j: int| 0 <= j < i ==> self@.prg_rom[j] == data@[j],
                forall|j: int| i <= j < 0x8000 ==> self@.prg_rom[j] == old(self)@.prg_rom[j],
                self@.wram == old(self)@.wram,
                self@.ppu_regs == old(self)@.ppu_regs,
                self@.apu_regs == old(self)@.apu_regs,
                self@.chr_rom == old(self)@.chr_rom,
                self@.ext_ram == old(self)@.ext_ram,
                self@.apu == old(self)@.apu,
            decreases data@.len() - i,
        {
            self.prg_rom[i] = data[i];
            i = i + 1;
        }
    }
}

/// Status read-back through the bus: after `s` is written to $4015, a
/// read of $4015 returns `s` with the unused bit 5 masked off, and a
/// second read returns the same byte with the frame-IRQ bit 6 cleared.
pub proof fn lemma_status_read_back_bus(m: MemView, s: u8)
    ensures
        ({
            let m2 = mem_write_post(m, 0x4015, s);
            let m3 = mem_read_post(m2, 0x4015);
            &&& mem_read_result(m2, 0x4015) == Ok::<u8, EmuError>(s & 0xDF)
            &&& mem_read_result(m3, 0x4015) == Ok::<u8, EmuError>((s & 0xDF) & 0xBF)
        }),
{
}

/// RAM mirroring: a byte written at `x` in internal RAM reads back at
/// `x + $0800 * k` for every mirror index `k` in 1..=3, and the mirrored
/// read has no side effect.
pub proof fn lemma_ram_mirror(m: MemView, x: u16, v: u8, k: u16)
    requires
        mem_wf(m),
        x <= 0x07FF,
        1 <= k <= 3,
    ensures
        ({
            let m2 = mem_write_post(m, x, v);
            &&& mem_read_result(m2, (x + 0x0800 * k) as u16) == Ok::<u8, EmuError>(v)
            &&& mem_read_post(m2, (x + 0x0800 * k) as u16) == m2
        }),
{
    let a2 = (x + 0x0800 * k) as u16;
    assert(a2 == x + 0x0800 * k);
    assert(a2 % 0x0800 == x % 0x0800) by {
        assert(a2 == x + 0x0800 * k);
        vstd::arithmetic::div_mod::lemma_mod_multiples_vanish(k as int, x as int, 0x0800int);
    }
    assert(x % 0x0800 == x);
}

} // verus!
