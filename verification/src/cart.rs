//! Cartridge images: raw bytes plus the header metadata parsed out of them
//! (title, mapper family, ROM/RAM geometry) and the mapper's bank-select
//! state, which the bus mutates through control-register writes.

use vstd::prelude::*;

verus! {

/// Everything that can go wrong while turning a raw byte dump into a
/// cartridge image. `FileNotFound` is reserved for hosts that read the
/// image from disk; the in-memory loader never returns it.
#[derive(Clone, Copy, PartialEq, Eq, Debug)]
pub enum LoadError {
    FileNotFound,
    Truncated,
    UnsupportedCartridgeType(u8),
    InvalidRomSizeCode(u8),
    InvalidRamSizeCode(u8),
}

/// The closed set of known mapper families, straight from the header's
/// cartridge-type byte.
#[derive(Clone, Copy, PartialEq, Eq, Debug)]
pub enum CartType {
    ROMONLY,
    MBC1,
    MBC1RAM,
    MBC1RAMBATTERY,
    MBC2,
    MBC2BATTERY,
    ROMRAM,
    ROMRAMBATTERY,
    MMM01,
    MMM01RAM,
    MMM01RAMBATTERY,
    MBC3TIMERBATTERY,
    MBC3TIMERRAMBATTERY,
    MBC3,
    MBC3RAM,
    MBC3RAMBATTERY,
    MBC5,
    MBC5RAM,
    MBC5RAMBATTERY,
    MBC5RUMBLE,
    MBC5RUMBLERAM,
    MBC5RUMBLERAMBATTERY,
    MBC6,
    MBC7SENSORRUMBLERAMBATTERY,
    POCKETCAMERA,
    BANDAITAMA5,
    HuC3,
    HuC1RAMBATTERY,
}

/// Mathematical image of a `Rom`: the raw bytes, the parsed header fields,
/// and the live bank-select state.
#[verifier::ext_equal]
pub struct RomV {
    pub bytes: Seq<u8>,
    pub title: Seq<char>,
    pub cart_type: CartType,
    pub rom_size: u32,
    pub rom_banks: u32,
    pub ram_size: u32,
    pub ram_banks: u32,
    pub rom_bank: u32,
    pub ram_bank: u32,
    pub ram_on: bool,
}

/// The cartridge-type byte's closed lookup table.
pub open spec fn spec_cart_type(code: u8) -> Option<CartType> {
    match code {
        0x00 => Some(CartType::ROMONLY),
        0x01 => Some(CartType::MBC1),
        0x02 => Some(CartType::MBC1RAM),
        0x03 => Some(CartType::MBC1RAMBATTERY),
        0x05 => Some(CartType::MBC2),
        0x06 => Some(CartType::MBC2BATTERY),
        0x08 => Some(CartType::ROMRAM),
        0x09 => Some(CartType::ROMRAMBATTERY),
        0x0B => Some(CartType::MMM01),
        0x0C => Some(CartType::MMM01RAM),
        0x0D => Some(CartType::MMM01RAMBATTERY),
        0x0F => Some(CartType::MBC3TIMERBATTERY),
        0x10 => Some(CartType::MBC3TIMERRAMBATTERY),
        0x11 => Some(CartType::MBC3),
        0x12 => Some(CartType::MBC3RAM),
        0x13 => Some(CartType::MBC3RAMBATTERY),
        0x19 => Some(CartType::MBC5),
        0x1A => Some(CartType::MBC5RAM),
        0x1B => Some(CartType::MBC5RAMBATTERY),
        0x1C => Some(CartType::MBC5RUMBLE),
        0x1D => Some(CartType::MBC5RUMBLERAM),
        0x1E => Some(CartType::MBC5RUMBLERAMBATTERY),
        0x20 => Some(CartType::MBC6),
        0x22 => Some(CartType::MBC7SENSORRUMBLERAMBATTERY),
        0xFC => Some(CartType::POCKETCAMERA),
        0xFD => Some(CartType::BANDAITAMA5),
        0xFE => Some(CartType::HuC3),
        0xFF => Some(CartType::HuC1RAMBATTERY),
        _ => None,
    }
}

/// The ROM-size byte's closed lookup table: code to (total bytes, bank count).
pub open spec fn spec_rom_size(code: u8) -> Option<(u32, u32)> {
    match code {
        0x00 => Some((32768u32, 2u32)),
        0x01 => Some((65536u32, 4u32)),
        0x02 => Some((131072u32, 8u32)),
        0x03 => Some((262144u32, 16u32)),
        0x04 => Some((524288u32, 32u32)),
        0x05 => Some((1048576u32, 64u32)),
        0x06 => Some((2097152u32, 128u32)),
        0x07 => Some((4194304u32, 256u32)),
        0x08 => Some((8388608u32, 512u32)),
        _ => None,
    }
}

/// The RAM-size byte's closed lookup table: code to (total bytes, bank count).
/// Code 0 legitimately means a cartridge with no external RAM.
pub open spec fn spec_ram_size(code: u8) -> Option<(u32, u32)> {
    match code {
        0x00 => Some((0u32, 0u32)),
        0x02 => Some((8192u32, 1u32)),
        0x03 => Some((32768u32, 4u32)),
        0x04 => Some((131072u32, 16u32)),
        0x05 => Some((65536u32, 8u32)),
        _ => None,
    }
}

/// Whether this mapper family interprets writes into ROM address space as
/// bank-select register writes. Plain ROM cartridges (with or without a
/// fixed RAM chip) have no such registers.
pub open spec fn mapper_banked(t: CartType) -> bool {
    match t {
        CartType::ROMONLY => false,
        CartType::ROMRAM => false,
        CartType::ROMRAMBATTERY => false,
        _ => true,
    }
}

/// A bank index forced into `[0, count)`; a bank count of zero pins it to 0.
pub open spec fn clamp_bank(v: u32, count: u32) -> u32 {
    if count == 0 {
        0
    } else if v < count {
        v
    } else {
        (count - 1) as u32
    }
}

/// A byte of the raw image, with the hardware's open-bus leniency: offsets
/// beyond the image read as zero.
pub open spec fn rom_byte(bytes: Seq<u8>, i: int) -> u8 {
    if 0 <= i < bytes.len() {
        bytes[i]
    } else {
        0
    }
}

/// How the mapper reacts to a write into ROM address space (`addr < 0x8000`):
/// the low range gates external RAM, the next selects the ROM bank, the one
/// above selects the RAM bank; everything else, and every write on a
/// mapper-less cartridge, is a no-op. Selected banks are clamped into range.
pub open spec fn mapper_write_v(r: RomV, addr: u16, val: u8) -> RomV {
    if !mapper_banked(r.cart_type) {
        r
    } else if addr < 0x2000 {
        RomV { ram_on: val & 0x0F == 0x0A, ..r }
    } else if addr < 0x4000 {
        RomV { rom_bank: clamp_bank(val as u32, r.rom_banks), ..r }
    } else if addr < 0x6000 {
        RomV { ram_bank: clamp_bank(val as u32, r.ram_banks), ..r }
    } else {
        r
    }
}

/// Well-formedness of a cartridge view: the header region is present, the
/// geometry comes from the closed tables, and the live bank indices are in
/// range.
pub open spec fn rom_wf(r: RomV) -> bool {
    &&& r.bytes.len() >= 0x14A
    &&& 2 <= r.rom_banks <= 512
    &&& r.ram_banks <= 16
    &&& r.rom_bank < r.rom_banks
    &&& r.ram_bank < if r.ram_banks == 0 { 1u32 } else { r.ram_banks }
}

/// Relies on `String::push`: appends exactly the one character.
#[verifier::external_body]
fn push_char(s: &mut String, c: char)
    ensures
        final(s)@ == old(s)@.push(c),
{
    s.push(c);
}

/// A parsed cartridge image: immutable bytes and header metadata, plus the
/// mapper's mutable bank-select state.
pub struct Rom {
    data: Vec<u8>,
    title: String,
    cart_type: CartType,
    rom_size: u32,
    rom_banks: u32,
    ram_size: u32,
    ram_banks: u32,
    rom_bank: u32,
    ram_bank: u32,
    ram_on: bool,
}

impl View for Rom {
    type V = RomV;

    closed spec fn view(&self) -> RomV {
        RomV {
            bytes: self.data@,
            title: self.title@,
            cart_type: self.cart_type,
            rom_size: self.rom_size,
            rom_banks: self.rom_banks,
            ram_size: self.ram_size,
            ram_banks: self.ram_banks,
            rom_bank: self.rom_bank,
            ram_bank: self.ram_bank,
            ram_on: self.ram_on,
        }
    }
}

impl Rom {
    pub open spec fn wf(&self) -> bool {
        rom_wf(self@)
    }

    /// Parses a raw image. The header region (through the size bytes at
    /// 0x149) must be present and the three header codes must come from the
    /// closed tables; everything else about the bytes is taken as-is. The
    /// title is the run of bytes at 0x134, stopped at the first null byte or
    /// after 15 bytes, passed through unsanitized.
    pub fn new(bytes: Vec<u8>) -> (r: Result<Rom, LoadError>)
        ensures
            match r {
                Ok(rom) => {
                    &&& rom.wf()
                    &&& rom@.bytes == bytes@
                    &&& bytes@.len() >= 0x14A
                    &&& Some(rom@.cart_type) == spec_cart_type(bytes@[0x147])
                    &&& Some((rom@.rom_size, rom@.rom_banks)) == spec_rom_size(bytes@[0x148])
                    &&& Some((rom@.ram_size, rom@.ram_banks)) == spec_ram_size(bytes@[0x149])
                    &&& rom@.title.len() <= 15
                    &&& forall|k: int|
                        0 <= k < rom@.title.len() ==> #[trigger] rom@.title[k] == bytes@[0x134
                            + k] as char && bytes@[0x134 + k] != 0
                    &&& rom@.title.len() < 15 ==> bytes@[0x134 + rom@.title.len() as int] == 0
                    &&& rom@.rom_bank == 1
                    &&& rom@.ram_bank == 0
                    &&& rom@.ram_on == !mapper_banked(rom@.cart_type)
                },
                Err(LoadError::Truncated) => bytes@.len() < 0x14A,
                Err(LoadError::UnsupportedCartridgeType(c)) => bytes@.len() >= 0x14A
                    && c == bytes@[0x147] && spec_cart_type(c) is None,
                Err(LoadError::InvalidRomSizeCode(c)) => bytes@.len() >= 0x14A
                    && spec_cart_type(bytes@[0x147]) is Some && c == bytes@[0x148]
                    && spec_rom_size(c) is None,
                Err(LoadError::InvalidRamSizeCode(c)) => bytes@.len() >= 0x14A
                    && spec_cart_type(bytes@[0x147]) is Some
                    && spec_rom_size(bytes@[0x148]) is Some && c == bytes@[0x149]
                    && spec_ram_size(c) is None,
                Err(LoadError::FileNotFound) => false,
            },
    {
        if bytes.len() < 0x14A {
            return Err(LoadError::Truncated);
        }
        let cart_type: CartType = match Rom::get_cart_type(bytes[0x147]) {
            Ok(t) => t,
            Err(e) => {
                return Err(e);
            },
        };
        let sizes: (u32, u32) = match Rom::get_rom_size_banks(bytes[0x148]) {
            Ok(p) => p,
            Err(e) => {
                return Err(e);
            },
        };
        let ram_sizes: (u32, u32) = match Rom::get_ram_size_banks(bytes[0x149]) {
            Ok(p) => p,
            Err(e) => {
                return Err(e);
            },
        };
        let mut n: usize = 0;
        while n < 15 && bytes[0x134 + n] != 0
            invariant
                n <= 15,
                bytes@.len() >= 0x14A,
                forall|k: int| 0 <= k < n ==> #[trigger] bytes@[0x134 + k] != 0,
            decreases 15 - n,
        {
            n += 1;
        }
        let mut title: String = String::new();
        let mut j: usize = 0;
        while j < n
            invariant
                j <= n <= 15,
                bytes@.len() >= 0x14A,
                forall|k: int| 0 <= k < n ==> #[trigger] bytes@[0x134 + k] != 0,
                title@.len() == j,
                forall|k: int| 0 <= k < j ==> #[trigger] title@[k] == bytes@[0x134 + k] as char,
            decreases n - j,
        {
            push_char(&mut title, bytes[0x134 + j] as char);
            j += 1;
        }
        Ok(Rom {
            data: bytes,
            title,
            cart_type,
            rom_size: sizes.0,
            rom_banks: sizes.1,
            ram_size: ram_sizes.0,
            ram_banks: ram_sizes.1,
            rom_bank: 1,
            ram_bank: 0,
            ram_on: !Rom::mapper_has_banking(cart_type),
        })
    }

    /// The cartridge-type byte's lookup; an unknown code is rejected.
    pub fn get_cart_type(byte: u8) -> (r: Result<CartType, LoadError>)
        ensures
            r == match spec_cart_type(byte) {
                Some(t) => Ok::<CartType, LoadError>(t),
                None => Err::<CartType, LoadError>(LoadError::UnsupportedCartridgeType(byte)),
            },
    {
        match byte {
            0x00 => Ok(CartType::ROMONLY),
            0x01 => Ok(CartType::MBC1),
            0x02 => Ok(CartType::MBC1RAM),
            0x03 => Ok(CartType::MBC1RAMBATTERY),
            0x05 => Ok(CartType::MBC2),
            0x06 => Ok(CartType::MBC2BATTERY),
            0x08 => Ok(CartType::ROMRAM),
            0x09 => Ok(CartType::ROMRAMBATTERY),
            0x0B => Ok(CartType::MMM01),
            0x0C => Ok(CartType::MMM01RAM),
            0x0D => Ok(CartType::MMM01RAMBATTERY),
            0x0F => Ok(CartType::MBC3TIMERBATTERY),
            0x10 => Ok(CartType::MBC3TIMERRAMBATTERY),
            0x11 => Ok(CartType::MBC3),
            0x12 => Ok(CartType::MBC3RAM),
            0x13 => Ok(CartType::MBC3RAMBATTERY),
            0x19 => Ok(CartType::MBC5),
            0x1A => Ok(CartType::MBC5RAM),
            0x1B => Ok(CartType::MBC5RAMBATTERY),
            0x1C => Ok(CartType::MBC5RUMBLE),
            0x1D => Ok(CartType::MBC5RUMBLERAM),
            0x1E => Ok(CartType::MBC5RUMBLERAMBATTERY),
            0x20 => Ok(CartType::MBC6),
            0x22 => Ok(CartType::MBC7SENSORRUMBLERAMBATTERY),
            0xFC => Ok(CartType::POCKETCAMERA),
            0xFD => Ok(CartType::BANDAITAMA5),
            0xFE => Ok(CartType::HuC3),
            0xFF => Ok(CartType::HuC1RAMBATTERY),
            _ => Err(LoadError::UnsupportedCartridgeType(byte)),
        }
    }

    /// The ROM-size byte's lookup; an unknown code is rejected.
    pub fn get_rom_size_banks(byte: u8) -> (r: Result<(u32, u32), LoadError>)
        ensures
            r == match spec_rom_size(byte) {
                Some(p) => Ok::<(u32, u32), LoadError>(p),
                None => Err::<(u32, u32), LoadError>(LoadError::InvalidRomSizeCode(byte)),
            },
    {
        match byte {
            0x00 => Ok((32768, 2)),
            0x01 => Ok((65536, 4)),
            0x02 => Ok((131072, 8)),
            0x03 => Ok((262144, 16)),
            0x04 => Ok((524288, 32)),
            0x05 => Ok((1048576, 64)),
            0x06 => Ok((2097152, 128)),
            0x07 => Ok((4194304, 256)),
            0x08 => Ok((8388608, 512)),
            _ => Err(LoadError::InvalidRomSizeCode(byte)),
        }
    }

    /// The RAM-size byte's lookup; an unknown code is rejected.
    pub fn get_ram_size_banks(byte: u8) -> (r: Result<(u32, u32), LoadError>)
        ensures
            r == match spec_ram_size(byte) {
                Some(p) => Ok::<(u32, u32), LoadError>(p),
                None => Err::<(u32, u32), LoadError>(LoadError::InvalidRamSizeCode(byte)),
            },
    {
        match byte {
            0x00 => Ok((0, 0)),
            0x02 => Ok((8192, 1)),
            0x03 => Ok((32768, 4)),
            0x04 => Ok((131072, 16)),
            0x05 => Ok((65536, 8)),
            _ => Err(LoadError::InvalidRamSizeCode(byte)),
        }
    }

    /// Whether this image's mapper family has bank-select registers.
    pub fn mapper_has_banking(t: CartType) -> (r: bool)
        ensures
            r == mapper_banked(t),
    {
        match t {
            CartType::ROMONLY => false,
            CartType::ROMRAM => false,
            CartType::ROMRAMBATTERY => false,
            _ => true,
        }
    }

    pub fn rom_size(&self) -> (r: &u32)
        ensures
            *r == self@.rom_size,
    {
        &self.rom_size
    }

    pub fn rom_bank_count(&self) -> (r: u32)
        ensures
            r == self@.rom_banks,
    {
        self.rom_banks
    }

    pub fn ram_bank_count(&self) -> (r: u32)
        ensures
            r == self@.ram_banks,
    {
        self.ram_banks
    }

    pub fn cart_type(&self) -> (r: CartType)
        ensures
            r == self@.cart_type,
    {
        self.cart_type
    }

    pub fn active_rom_bank(&self) -> (r: u32)
        ensures
            r == self@.rom_bank,
    {
        self.rom_bank
    }

    pub fn active_ram_bank(&self) -> (r: u32)
        ensures
            r == self@.ram_bank,
    {
        self.ram_bank
    }

    pub fn ram_enabled(&self) -> (r: bool)
        ensures
            r == self@.ram_on,
    {
        self.ram_on
    }

    /// A byte of the flat image; offsets beyond the image read as zero.
    pub fn get_value(&self, addr: u16) -> (v: u8)
        ensures
            v == rom_byte(self@.bytes, addr as int),
    {
        if (addr as usize) < self.data.len() {
            self.data[addr as usize]
        } else {
            0
        }
    }

    /// A byte of the image through a bank window: `bank * 0x4000 + offset`,
    /// again reading zero past the end of the image.
    pub fn read(&self, offset: u16, bank: u32) -> (v: u8)
        ensures
            v == rom_byte(self@.bytes, bank as int * 0x4000 + offset as int),
    {
        let idx: u64 = (bank as u64) * 0x4000 + (offset as u64);
        if idx < self.data.len() as u64 {
            self.data[idx as usize]
        } else {
            0
        }
    }

    pub fn get_title(&self) -> (t: &String)
        ensures
            t@ == self@.title,
    {
        &self.title
    }

    /// Applies a write into ROM address space to the bank-select state.
    pub fn mapper_write(&mut self, addr: u16, val: u8)
        requires
            old(self).wf(),
            addr < 0x8000,
        ensures
            final(self).wf(),
            final(self)@ == mapper_write_v(old(self)@, addr, val),
    {
        if !Rom::mapper_has_banking(self.cart_type) {
            return ;
        }
        if addr < 0x2000 {
            self.ram_on = val & 0x0F == 0x0A;
        } else if addr < 0x4000 {
            self.rom_bank = Rom::clamped_bank(val as u32, self.rom_banks);
        } else if addr < 0x6000 {
            self.ram_bank = Rom::clamped_bank(val as u32, self.ram_banks);
        }
    }

    fn clamped_bank(v: u32, count: u32) -> (r: u32)
        ensures
            r == clamp_bank(v, count),
    {
        if count == 0 {
            0
        } else if v < count {
            v
        } else {
            count - 1
        }
    }
}

} // verus!
