//! The memory-mapped bus: console-internal RAM regions plus the cartridge,
//! with every 16-bit address dispatched to exactly one region. The dispatch
//! table, echo mirroring, the unusable window and bank-select writes are all
//! pinned down by `bus_byte` and `bus_write_v`.

use crate::cart::mapper_write_v;
use crate::cart::rom_byte;
use crate::cart::rom_wf;
use crate::cart::Rom;
use crate::cart::RomV;
use vstd::pervasive::VecAdditionalExecFns;
use vstd::prelude::*;

verus! {

/// The all-zero byte sequence of length `n`: every RAM region's state at
/// power-on.
pub open spec fn zeroes(n: nat) -> Seq<u8> {
    Seq::new(n, |i: int| 0u8)
}

/// A freshly zeroed byte store.
fn zero_block(n: usize) -> (v: Vec<u8>)
    ensures
        v@ == zeroes(n as nat),
{
    let mut v: Vec<u8> = Vec::new();
    let mut i: usize = 0;
    while i < n
        invariant
            i <= n,
            v@.len() == i,
            forall|k: int| 0 <= k < i ==> #[trigger] v@[k] == 0u8,
        decreases n - i,
    {
        v.push(0);
        i += 1;
    }
    proof {
        assert(v@ =~= zeroes(n as nat));
    }
    v
}

/// Working memory: the byte store behind addresses 0xC000 through 0xDFFF.
/// Accesses outside its window are the hardware's lenient kind: reads give
/// zero, writes vanish.
pub struct Wram {
    data: Vec<u8>,
}

impl View for Wram {
    type V = Seq<u8>;

    closed spec fn view(&self) -> Seq<u8> {
        self.data@
    }
}

impl Wram {
    pub open spec fn wf(&self) -> bool {
        self@.len() == 0x2000
    }

    pub fn new() -> (w: Wram)
        ensures
            w.wf(),
            w@ == zeroes(0x2000),
    {
        Wram { data: zero_block(0x2000) }
    }

    pub fn set_value(&mut self, addr: u16, entry: u8)
        requires
            old(self).wf(),
        ensures
            final(self).wf(),
            final(self)@ == if 0xC000 <= addr < 0xE000 {
                old(self)@.update(addr - 0xC000, entry)
            } else {
                old(self)@
            },
    {
        if addr >= 0xC000 && addr < 0xE000 {
            self.data.set((addr - 0xC000) as usize, entry);
        }
    }

    pub fn get_value(&self, addr: u16) -> (v: u8)
        requires
            self.wf(),
        ensures
            v == if 0xC000 <= addr < 0xE000 {
                self@[addr - 0xC000]
            } else {
                0u8
            },
    {
        if addr >= 0xC000 && addr < 0xE000 {
            self.data[(addr - 0xC000) as usize]
        } else {
            0
        }
    }
}

/// Video memory: the byte store behind addresses 0x8000 through 0x9FFF,
/// with the same lenient out-of-window behaviour as `Wram`.
pub struct Vram {
    data: Vec<u8>,
}

impl View for Vram {
    type V = Seq<u8>;

    closed spec fn view(&self) -> Seq<u8> {
        self.data@
    }
}

impl Vram {
    pub open spec fn wf(&self) -> bool {
        self@.len() == 0x2000
    }

    pub fn new() -> (w: Vram)
        ensures
            w.wf(),
            w@ == zeroes(0x2000),
    {
        Vram { data: zero_block(0x2000) }
    }

    pub fn set_value(&mut self, addr: u16, entry: u8)
        requires
            old(self).wf(),
        ensures
            final(self).wf(),
            final(self)@ == if 0x8000 <= addr < 0xA000 {
                old(self)@.update(addr - 0x8000, entry)
            } else {
                old(self)@
            },
    {
        if addr >= 0x8000 && addr < 0xA000 {
            self.data.set((addr - 0x8000) as usize, entry);
        }
    }

    pub fn get_value(&self, addr: u16) -> (v: u8)
        requires
            self.wf(),
        ensures
            v == if 0x8000 <= addr < 0xA000 {
                self@[addr - 0x8000]
            } else {
                0u8
            },
    {
        if addr >= 0x8000 && addr < 0xA000 {
            self.data[(addr - 0x8000) as usize]
        } else {
            0
        }
    }
}

/// Mathematical image of the bus: the cartridge view plus each internal
/// region's contents.
#[verifier::ext_equal]
pub struct BusV {
    pub rom: RomV,
    pub vram: Seq<u8>,
    pub wram: Seq<u8>,
    pub eram: Seq<u8>,
    pub oam: Seq<u8>,
    pub io: Seq<u8>,
    pub hram: Seq<u8>,
    pub ie_reg: u8,
}

/// Well-formedness of a bus view: a well-formed cartridge and every region
/// at its fixed hardware size (external RAM sized by the cartridge's bank
/// count).
pub open spec fn bus_wf(b: BusV) -> bool {
    &&& rom_wf(b.rom)
    &&& b.vram.len() == 0x2000
    &&& b.wram.len() == 0x2000
    &&& b.eram.len() == b.rom.ram_banks * 0x2000
    &&& b.oam.len() == 0xA0
    &&& b.io.len() == 0x80
    &&& b.hram.len() == 0x7F
}

/// Whether the external-RAM window is live: the cartridge has RAM banks and
/// the mapper has them enabled.
pub open spec fn ram_ready(r: RomV) -> bool {
    r.ram_banks > 0 && r.ram_on
}

/// Where in the external-RAM store an address in 0xA000..0xBFFF lands,
/// given the active RAM bank.
pub open spec fn eram_index(r: RomV, addr: u16) -> int {
    r.ram_bank * 0x2000 + (addr - 0xA000)
}

/// The authoritative read side of the dispatch table: what a bus read at
/// `addr` returns, region by region. The echo window hands back working
/// memory, the unusable window reads 0xFF, and a dead external-RAM window
/// reads 0xFF.
pub open spec fn bus_byte(b: BusV, addr: u16) -> u8 {
    if addr < 0x4000 {
        rom_byte(b.rom.bytes, addr as int)
    } else if addr < 0x8000 {
        rom_byte(b.rom.bytes, b.rom.rom_bank as int * 0x4000 + (addr - 0x4000))
    } else if addr < 0xA000 {
        b.vram[addr - 0x8000]
    } else if addr < 0xC000 {
        if ram_ready(b.rom) {
            b.eram[eram_index(b.rom, addr)]
        } else {
            0xFF
        }
    } else if addr < 0xE000 {
        b.wram[addr - 0xC000]
    } else if addr < 0xFE00 {
        b.wram[addr - 0xE000]
    } else if addr < 0xFEA0 {
        b.oam[addr - 0xFE00]
    } else if addr < 0xFF00 {
        0xFF
    } else if addr < 0xFF80 {
        b.io[addr - 0xFF00]
    } else if addr < 0xFFFF {
        b.hram[addr - 0xFF80]
    } else {
        b.ie_reg
    }
}

/// The authoritative write side of the dispatch table: the bus after a
/// write of `val` at `addr`. Writes into ROM space go to the mapper's
/// bank-select registers, the echo window really mirrors into working
/// memory, and writes into the unusable window or a dead external-RAM
/// window are discarded.
pub open spec fn bus_write_v(b: BusV, addr: u16, val: u8) -> BusV {
    if addr < 0x8000 {
        BusV { rom: mapper_write_v(b.rom, addr, val), ..b }
    } else if addr < 0xA000 {
        BusV { vram: b.vram.update(addr - 0x8000, val), ..b }
    } else if addr < 0xC000 {
        if ram_ready(b.rom) {
            BusV { eram: b.eram.update(eram_index(b.rom, addr), val), ..b }
        } else {
            b
        }
    } else if addr < 0xE000 {
        BusV { wram: b.wram.update(addr - 0xC000, val), ..b }
    } else if addr < 0xFE00 {
        BusV { wram: b.wram.update(addr - 0xE000, val), ..b }
    } else if addr < 0xFEA0 {
        BusV { oam: b.oam.update(addr - 0xFE00, val), ..b }
    } else if addr < 0xFF00 {
        b
    } else if addr < 0xFF80 {
        BusV { io: b.io.update(addr - 0xFF00, val), ..b }
    } else if addr < 0xFFFF {
        BusV { hram: b.hram.update(addr - 0xFF80, val), ..b }
    } else {
        BusV { ie_reg: val, ..b }
    }
}

/// Addresses that behave like plain RAM cells on this bus: a write lands
/// and a read at the same address gives it back. That is everything but
/// ROM space (where writes are register pokes), the unusable window, and
/// a dead external-RAM window.
pub open spec fn ram_addr(b: BusV, addr: u16) -> bool {
    ||| 0x8000 <= addr < 0xA000
    ||| (0xA000 <= addr < 0xC000 && ram_ready(b.rom))
    ||| 0xC000 <= addr < 0xFEA0
    ||| addr >= 0xFF00
}

/// Law: a write at a RAM-like address is read back at that same address.
pub proof fn lemma_ram_write_read(b: BusV, addr: u16, val: u8)
    requires
        bus_wf(b),
        ram_addr(b, addr),
    ensures
        bus_byte(bus_write_v(b, addr, val), addr) == val,
{
}

/// Law: the echo window really mirrors working memory, in both
/// directions — a write at either address is read back at the other.
pub proof fn lemma_echo_mirrors(b: BusV, addr: u16, val: u8)
    requires
        bus_wf(b),
        0xE000 <= addr < 0xFE00,
    ensures
        bus_byte(bus_write_v(b, addr, val), (addr - 0x2000) as u16) == val,
        bus_byte(bus_write_v(b, (addr - 0x2000) as u16, val), addr) == val,
{
}

/// Law: any write into the unusable window is discarded, and a read
/// there gives 0xFF no matter what the bus holds.
pub proof fn lemma_unusable_region(b: BusV, addr: u16, val: u8)
    requires
        0xFEA0 <= addr < 0xFF00,
    ensures
        bus_write_v(b, addr, val) == b,
        bus_byte(b, addr) == 0xFF,
{
}

/// The bus itself: it owns the cartridge and every internal RAM region.
pub struct MemBus {
    rom: Rom,
    wram: Wram,
    vram: Vram,
    eram: Vec<u8>,
    oam: Vec<u8>,
    io: Vec<u8>,
    hram: Vec<u8>,
    ie_reg: u8,
}

impl View for MemBus {
    type V = BusV;

    closed spec fn view(&self) -> BusV {
        BusV {
            rom: self.rom@,
            vram: self.vram@,
            wram: self.wram@,
            eram: self.eram@,
            oam: self.oam@,
            io: self.io@,
            hram: self.hram@,
            ie_reg: self.ie_reg,
        }
    }
}

impl MemBus {
    pub open spec fn wf(&self) -> bool {
        bus_wf(self@)
    }

    /// Builds the bus around a loaded cartridge, every internal region
    /// zeroed, external RAM sized from the cartridge's header.
    pub fn new(rom: Rom) -> (m: MemBus)
        requires
            rom.wf(),
        ensures
            m.wf(),
            m@.rom == rom@,
            m@.vram == zeroes(0x2000),
            m@.wram == zeroes(0x2000),
            m@.eram == zeroes((rom@.ram_banks * 0x2000) as nat),
            m@.oam == zeroes(0xA0),
            m@.io == zeroes(0x80),
            m@.hram == zeroes(0x7F),
            m@.ie_reg == 0,
    {
        let banks: u32 = rom.ram_bank_count();
        let eram: Vec<u8> = zero_block((banks as usize) * 0x2000);
        MemBus {
            rom,
            wram: Wram::new(),
            vram: Vram::new(),
            eram,
            oam: zero_block(0xA0),
            io: zero_block(0x80),
            hram: zero_block(0x7F),
            ie_reg: 0,
        }
    }

    pub fn rom(&self) -> (r: &Rom)
        ensures
            r@ == self@.rom,
    {
        &self.rom
    }

    /// The raw external-RAM store, for hosts that persist battery-backed
    /// RAM.
    pub fn external_ram(&self) -> (r: &Vec<u8>)
        ensures
            r@ == self@.eram,
    {
        &self.eram
    }

    /// One bus read, exactly as the dispatch table says.
    pub fn read(&self, addr: u16) -> (v: u8)
        requires
            self.wf(),
        ensures
            v == bus_byte(self@, addr),
    {
        if addr < 0x4000 {
            self.rom.get_value(addr)
        } else if addr < 0x8000 {
            let bank: u32 = self.rom.active_rom_bank();
            self.rom.read(addr - 0x4000, bank)
        } else if addr < 0xA000 {
            self.vram.get_value(addr)
        } else if addr < 0xC000 {
            if self.rom.ram_bank_count() > 0 && self.rom.ram_enabled() {
                let idx: usize = (self.rom.active_ram_bank() as usize) * 0x2000 + ((addr - 0xA000)
                    as usize);
                self.eram[idx]
            } else {
                0xFF
            }
        } else if addr < 0xE000 {
            self.wram.get_value(addr)
        } else if addr < 0xFE00 {
            self.wram.get_value(addr - 0x2000)
        } else if addr < 0xFEA0 {
            self.oam[(addr - 0xFE00) as usize]
        } else if addr < 0xFF00 {
            0xFF
        } else if addr < 0xFF80 {
            self.io[(addr - 0xFF00) as usize]
        } else if addr < 0xFFFF {
            self.hram[(addr - 0xFF80) as usize]
        } else {
            self.ie_reg
        }
    }

    /// One bus write, exactly as the dispatch table says.
    pub fn write(&mut self, addr: u16, val: u8)
        requires
            old(self).wf(),
        ensures
            final(self).wf(),
            final(self)@ == bus_write_v(old(self)@, addr, val),
    {
        if addr < 0x8000 {
            self.rom.mapper_write(addr, val);
        } else if addr < 0xA000 {
            self.vram.set_value(addr, val);
        } else if addr < 0xC000 {
            if self.rom.ram_bank_count() > 0 && self.rom.ram_enabled() {
                let idx: usize = (self.rom.active_ram_bank() as usize) * 0x2000 + ((addr - 0xA000)
                    as usize);
                self.eram.set(idx, val);
            }
        } else if addr < 0xE000 {
            self.wram.set_value(addr, val);
        } else if addr < 0xFE00 {
            self.wram.set_value(addr - 0x2000, val);
        } else if addr < 0xFEA0 {
            self.oam.set((addr - 0xFE00) as usize, val);
        } else if addr < 0xFF00 {
        } else if addr < 0xFF80 {
            self.io.set((addr - 0xFF00) as usize, val);
        } else if addr < 0xFFFF {
            self.hram.set((addr - 0xFF80) as usize, val);
        } else {
            self.ie_reg = val;
        }
    }
}

} // verus!
