//! The instruction set, as mathematics: a decoded-instruction type, the
//! two 256-entry decode tables (main and the 0xCB-prefixed extended table),
//! and the interpreter `exec_v` that maps a processor view and a decoded
//! instruction to the next view and the instruction's cycle cost in
//! M-cycles. `Cpu::step`'s contract equates the machine with `exec_v`.
//!
//! Flag layout: Zero at bit 3, Subtract at bit 2, Half-Carry at bit 1,
//! Carry at bit 0; the high nibble of F is always zero.

use crate::mem::bus_byte;
use crate::mem::bus_wf;
use crate::mem::bus_write_v;
use crate::mem::BusV;
use vstd::arithmetic::div_mod::lemma_fundamental_div_mod;
use vstd::arithmetic::div_mod::lemma_mod_multiples_vanish;
use vstd::prelude::*;

verus! {

pub open spec fn lo8(v: u16) -> u8 {
    (v % 0x100) as u8
}

pub open spec fn hi8(v: u16) -> u8 {
    (v / 0x100) as u8
}

/// The 16-bit value a register pair holds: high byte first.
pub open spec fn pair_v(h: u8, l: u8) -> u16 {
    (h * 0x100 + l) as u16
}

/// 16-bit addition wrapping modulo 65536.
pub open spec fn wadd16(a: u16, b: u16) -> u16 {
    ((a + b) % 0x10000) as u16
}

/// 16-bit subtraction wrapping modulo 65536.
pub open spec fn wsub16(a: u16, b: u16) -> u16 {
    ((a + 0x10000 - b) % 0x10000) as u16
}

/// A relative-jump displacement sign-extended to 16 bits.
pub open spec fn sext8(e: u8) -> u16 {
    if e >= 0x80 {
        (0xFF00 + e) as u16
    } else {
        e as u16
    }
}

/// Splitting a pair and joining it again is the identity.
pub proof fn lemma_pair_split(v: u16)
    ensures
        pair_v(hi8(v), lo8(v)) == v,
{
    lemma_fundamental_div_mod(v as int, 0x100);
}

/// Mathematical image of the processor: registers, control state and the
/// bus view.
#[verifier::ext_equal]
pub struct CpuView {
    pub a: u8,
    pub b: u8,
    pub c: u8,
    pub d: u8,
    pub e: u8,
    pub f: u8,
    pub h: u8,
    pub l: u8,
    pub sp: u16,
    pub pc: u16,
    pub halted: bool,
    pub ime: bool,
    pub bus: BusV,
}

/// Well-formedness: the flag register keeps its high nibble zero and the
/// bus is well-formed.
pub open spec fn cpu_wf(s: CpuView) -> bool {
    &&& s.f < 0x10
    &&& bus_wf(s.bus)
}

pub open spec fn af(s: CpuView) -> u16 {
    pair_v(s.a, s.f)
}

pub open spec fn bc(s: CpuView) -> u16 {
    pair_v(s.b, s.c)
}

pub open spec fn de(s: CpuView) -> u16 {
    pair_v(s.d, s.e)
}

pub open spec fn hl(s: CpuView) -> u16 {
    pair_v(s.h, s.l)
}

pub open spec fn flag_z(s: CpuView) -> bool {
    s.f / 8 % 2 == 1
}

pub open spec fn flag_n(s: CpuView) -> bool {
    s.f / 4 % 2 == 1
}

pub open spec fn flag_h(s: CpuView) -> bool {
    s.f / 2 % 2 == 1
}

pub open spec fn flag_c(s: CpuView) -> bool {
    s.f % 2 == 1
}

/// The four branch conditions in opcode order: not-zero, zero, no-carry,
/// carry.
pub open spec fn cond_met(s: CpuView, cc: u8) -> bool {
    if cc == 0 {
        !flag_z(s)
    } else if cc == 1 {
        flag_z(s)
    } else if cc == 2 {
        !flag_c(s)
    } else {
        flag_c(s)
    }
}

/// An F byte built from the four flags in their fixed positions.
pub open spec fn flags(z: bool, n: bool, h: bool, c: bool) -> u8 {
    ((if z {
        8int
    } else {
        0int
    }) + (if n {
        4int
    } else {
        0int
    }) + (if h {
        2int
    } else {
        0int
    }) + (if c {
        1int
    } else {
        0int
    })) as u8
}

/// An 8-bit source or destination in hardware encoding: 0..=5 are
/// B, C, D, E, H, L; 6 is the byte at (HL); 7 is A.
pub open spec fn get8(s: CpuView, i: u8) -> u8 {
    if i == 0 {
        s.b
    } else if i == 1 {
        s.c
    } else if i == 2 {
        s.d
    } else if i == 3 {
        s.e
    } else if i == 4 {
        s.h
    } else if i == 5 {
        s.l
    } else if i == 6 {
        bus_byte(s.bus, hl(s))
    } else {
        s.a
    }
}

/// Writing an 8-bit destination in hardware encoding; index 6 is a bus
/// write at (HL).
pub open spec fn put8(s: CpuView, i: u8, v: u8) -> CpuView {
    if i == 0 {
        CpuView { b: v, ..s }
    } else if i == 1 {
        CpuView { c: v, ..s }
    } else if i == 2 {
        CpuView { d: v, ..s }
    } else if i == 3 {
        CpuView { e: v, ..s }
    } else if i == 4 {
        CpuView { h: v, ..s }
    } else if i == 5 {
        CpuView { l: v, ..s }
    } else if i == 6 {
        CpuView { bus: bus_write_v(s.bus, hl(s), v), ..s }
    } else {
        CpuView { a: v, ..s }
    }
}

/// A register pair in hardware encoding: 0 BC, 1 DE, 2 HL, 3 SP.
pub open spec fn get_rr(s: CpuView, p: u8) -> u16 {
    if p == 0 {
        bc(s)
    } else if p == 1 {
        de(s)
    } else if p == 2 {
        hl(s)
    } else {
        s.sp
    }
}

/// Writing a register pair in hardware encoding.
pub open spec fn put_rr(s: CpuView, p: u8, v: u16) -> CpuView {
    if p == 0 {
        CpuView { b: hi8(v), c: lo8(v), ..s }
    } else if p == 1 {
        CpuView { d: hi8(v), e: lo8(v), ..s }
    } else if p == 2 {
        CpuView { h: hi8(v), l: lo8(v), ..s }
    } else {
        CpuView { sp: v, ..s }
    }
}

/// Law: writing any 16-bit value into BC, DE or HL and reading the pair
/// back gives that value, for every value a pair can hold.
pub proof fn lemma_register_pair_round_trip(s: CpuView, v: u16)
    ensures
        bc(put_rr(s, 0, v)) == v,
        de(put_rr(s, 1, v)) == v,
        hl(put_rr(s, 2, v)) == v,
{
    lemma_pair_split(v);
}

/// The byte after the opcode.
pub open spec fn imm8(s: CpuView) -> u8 {
    bus_byte(s.bus, wadd16(s.pc, 1))
}

/// The 16-bit immediate after the opcode, low byte first in memory.
pub open spec fn imm16(s: CpuView) -> u16 {
    pair_v(bus_byte(s.bus, wadd16(s.pc, 2)), bus_byte(s.bus, wadd16(s.pc, 1)))
}

/// The program counter advanced past an `n`-byte instruction.
pub open spec fn adv(s: CpuView, n: u16) -> CpuView {
    CpuView { pc: wadd16(s.pc, n), ..s }
}

/// A 16-bit push: SP drops by two, the high byte lands at the higher
/// address (old SP - 1), the low byte below it (old SP - 2).
pub open spec fn push16_v(s: CpuView, v: u16) -> CpuView {
    CpuView {
        sp: wsub16(s.sp, 2),
        bus: bus_write_v(bus_write_v(s.bus, wsub16(s.sp, 1), hi8(v)), wsub16(s.sp, 2), lo8(v)),
        ..s
    }
}

/// The 16-bit value a pop reads: low byte at SP, high byte at SP + 1.
pub open spec fn pop_val(s: CpuView) -> u16 {
    pair_v(bus_byte(s.bus, wadd16(s.sp, 1)), bus_byte(s.bus, s.sp))
}

/// Law: pushing a pair and popping it straight back recovers the value,
/// with SP down by two in between, whenever the two stack cells behave
/// like plain RAM (they always sit at adjacent addresses, so they never
/// alias each other, not even through the echo window).
pub proof fn lemma_push_pop_round_trip(s: CpuView, v: u16)
    requires
        cpu_wf(s),
        crate::mem::ram_addr(s.bus, wsub16(s.sp, 1)),
        crate::mem::ram_addr(s.bus, wsub16(s.sp, 2)),
    ensures
        push16_v(s, v).sp == wsub16(s.sp, 2),
        pop_val(push16_v(s, v)) == v,
{
    let a1: u16 = wsub16(s.sp, 1);
    let a2: u16 = wsub16(s.sp, 2);
    assert(wadd16(a2, 1) == a1) by {
        lemma_fundamental_div_mod(s.sp + 0xFFFE, 0x10000);
        lemma_mod_multiples_vanish(
            (s.sp + 0xFFFE) / 0x10000,
            (s.sp + 0xFFFE) % 0x10000 + 1,
            0x10000,
        );
    }
    lemma_pair_split(v);
}
/// 3 SBC, 4 AND, 5 XOR, 6 OR, 7 CP. Returns the value left in A and the
/// new flags; CP leaves A alone but sets the same flags as SUB.
pub open spec fn alu_v(op: u8, x: u8, y: u8, f: u8) -> (u8, u8) {
    let cin: int = if (op == 1 || op == 3) && f % 2 == 1 {
        1int
    } else {
        0int
    };
    if op == 0 || op == 1 {
        let r: u8 = ((x + y + cin) % 0x100) as u8;
        (r, flags(r == 0, false, x % 0x10 + y % 0x10 + cin > 0xF, x + y + cin > 0xFF))
    } else if op == 2 || op == 3 || op == 7 {
        let r: u8 = ((x - y - cin) % 0x100) as u8;
        (
            if op == 7 {
                x
            } else {
                r
            },
            flags(r == 0, true, x % 0x10 < y % 0x10 + cin, x < y + cin),
        )
    } else if op == 4 {
        let r: u8 = x & y;
        (r, flags(r == 0, false, true, false))
    } else if op == 5 {
        let r: u8 = x ^ y;
        (r, flags(r == 0, false, false, false))
    } else {
        let r: u8 = x | y;
        (r, flags(r == 0, false, false, false))
    }
}

/// Increment: Zero, Subtract and Half-Carry updated, Carry untouched.
pub open spec fn inc8_v(v: u8, f: u8) -> (u8, u8) {
    let r: u8 = ((v + 1) % 0x100) as u8;
    (r, flags(r == 0, false, v % 0x10 == 0xF, f % 2 == 1))
}

/// Decrement: Zero, Subtract and Half-Carry updated, Carry untouched.
pub open spec fn dec8_v(v: u8, f: u8) -> (u8, u8) {
    let r: u8 = ((v + 0xFF) % 0x100) as u8;
    (r, flags(r == 0, true, v % 0x10 == 0, f % 2 == 1))
}

/// The rotate/shift family in extended-table order: 0 RLC, 1 RRC, 2 RL,
/// 3 RR, 4 SLA, 5 SRA, 6 SWAP, 7 SRL. The result before truncation.
pub open spec fn rot_res(k: u8, v: u8, cin: int) -> int {
    let w: int = v as int;
    if k == 0 {
        (w * 2) % 0x100 + w / 0x80
    } else if k == 1 {
        w / 2 + (w % 2) * 0x80
    } else if k == 2 {
        (w * 2) % 0x100 + cin
    } else if k == 3 {
        w / 2 + cin * 0x80
    } else if k == 4 {
        (w * 2) % 0x100
    } else if k == 5 {
        w / 2 + (w / 0x80) * 0x80
    } else if k == 6 {
        (w % 0x10) * 0x10 + w / 0x10
    } else {
        w / 2
    }
}

/// The bit each rotate/shift feeds into the Carry flag; SWAP clears it.
pub open spec fn rot_carry(k: u8, v: u8) -> bool {
    if k == 6 {
        false
    } else if k == 1 || k == 3 || k == 5 || k == 7 {
        v % 2 == 1
    } else {
        v / 0x80 == 1
    }
}

/// One rotate or shift. The accumulator forms (RLCA and friends) force
/// Zero clear; the extended-table forms set Zero from the result.
pub open spec fn rot_v(k: u8, v: u8, f: u8, zmode: bool) -> (u8, u8) {
    let r: u8 = rot_res(k, v, f as int % 2) as u8;
    (r, flags(zmode && r == 0, false, false, rot_carry(k, v)))
}

/// Decimal adjust after an addition or subtraction.
pub open spec fn daa_v(a: u8, f: u8) -> (u8, u8) {
    let n: bool = f / 4 % 2 == 1;
    let h: bool = f / 2 % 2 == 1;
    let c: bool = f % 2 == 1;
    if !n {
        let adj: int = (if h || a % 0x10 > 9 {
            6int
        } else {
            0int
        }) + (if c || a > 0x99 {
            0x60int
        } else {
            0int
        });
        let r: u8 = ((a + adj) % 0x100) as u8;
        (r, flags(r == 0, false, false, c || a > 0x99))
    } else {
        let adj: int = (if h {
            6int
        } else {
            0int
        }) + (if c {
            0x60int
        } else {
            0int
        });
        let r: u8 = ((a - adj + 0x100) % 0x100) as u8;
        (r, flags(r == 0, true, false, c))
    }
}

/// 16-bit addition into HL: Zero untouched, Half-Carry out of bit 11,
/// Carry out of bit 15.
pub open spec fn add16_v(x: u16, y: u16, f: u8) -> (u16, u8) {
    let r: u16 = ((x + y) % 0x10000) as u16;
    (r, flags(f / 8 % 2 == 1, false, x % 0x1000 + y % 0x1000 > 0xFFF, x + y > 0xFFFF))
}

/// SP plus a signed displacement, with the flags both ADD SP,e and
/// LD HL,SP+e produce: Zero and Subtract clear, Half-Carry and Carry from
/// unsigned low-byte arithmetic.
pub open spec fn spofs_v(sp: u16, e: u8) -> (u16, u8) {
    (wadd16(sp, sext8(e)), flags(false, false, sp % 0x10 + e % 0x10 > 0xF, sp % 0x100 + e > 0xFF))
}

/// The single bit a BIT/RES/SET instruction addresses.
pub open spec fn bit_mask(y: u8) -> u8 {
    if y == 0 {
        1
    } else if y == 1 {
        2
    } else if y == 2 {
        4
    } else if y == 3 {
        8
    } else if y == 4 {
        16
    } else if y == 5 {
        32
    } else if y == 6 {
        64
    } else {
        128
    }
}

/// A decoded instruction. Operand fields use the hardware encodings that
/// `get8`/`put8` and `get_rr`/`put_rr` read: 8-bit targets 0..=7 with 6 as
/// (HL), pair index 0..=3, condition code 0..=3, ALU selector 0..=7,
/// restart slot 0..=7.
#[derive(Clone, Copy, PartialEq, Eq, Debug)]
pub enum Instr {
    Nop,
    Stop,
    Halt,
    LdRR(u8, u8),
    LdRN(u8),
    LdRrNn(u8),
    StoreSp,
    AddHlRr(u8),
    IncRr(u8),
    DecRr(u8),
    IncR(u8),
    DecR(u8),
    StoreAInd(u8),
    LoadAInd(u8),
    RotA(u8),
    Daa,
    Cpl,
    Scf,
    Ccf,
    Jr,
    JrCc(u8),
    AluR(u8, u8),
    AluN(u8),
    RetCc(u8),
    Ret,
    Reti,
    Pop(u8),
    Push(u8),
    JpCc(u8),
    Jp,
    JpHl,
    CallCc(u8),
    Call,
    Rst(u8),
    LdhW,
    LdhR,
    LdCA,
    LdAC,
    StoreA16,
    LoadA16,
    AddSpE,
    LdHlSpE,
    LdSpHl,
    Di,
    Ei,
    Prefix,
}

/// Every operand field a decoded instruction carries is in range for its
/// encoding.
pub open spec fn instr_bounded(i: Instr) -> bool {
    match i {
        Instr::LdRR(d, s) => d < 8 && s < 8,
        Instr::LdRN(d) => d < 8,
        Instr::LdRrNn(p) => p < 4,
        Instr::AddHlRr(p) => p < 4,
        Instr::IncRr(p) => p < 4,
        Instr::DecRr(p) => p < 4,
        Instr::IncR(d) => d < 8,
        Instr::DecR(d) => d < 8,
        Instr::StoreAInd(p) => p < 4,
        Instr::LoadAInd(p) => p < 4,
        Instr::RotA(k) => k < 4,
        Instr::JrCc(cc) => cc < 4,
        Instr::AluR(op, s) => op < 8 && s < 8,
        Instr::AluN(op) => op < 8,
        Instr::RetCc(cc) => cc < 4,
        Instr::Pop(p) => p < 4,
        Instr::Push(p) => p < 4,
        Instr::JpCc(cc) => cc < 4,
        Instr::CallCc(cc) => cc < 4,
        Instr::Rst(y) => y < 8,
        _ => true,
    }
}

/// The main 256-entry decode table, by opcode bit fields. `None` is an
/// opcode absent from the table: executing it is an error.
pub open spec fn decode(op: u8) -> Option<Instr> {
    let x: int = op as int / 64;
    let y: int = op as int / 8 % 8;
    let z: int = op as int % 8;
    let yy: u8 = y as u8;
    let p: u8 = (y / 2) as u8;
    if x == 1 {
        if op == 0x76 {
            Some(Instr::Halt)
        } else {
            Some(Instr::LdRR(yy, z as u8))
        }
    } else if x == 2 {
        Some(Instr::AluR(yy, z as u8))
    } else if x == 0 {
        if z == 0 {
            if y == 0 {
                Some(Instr::Nop)
            } else if y == 1 {
                Some(Instr::StoreSp)
            } else if y == 2 {
                Some(Instr::Stop)
            } else if y == 3 {
                Some(Instr::Jr)
            } else {
                Some(Instr::JrCc((y - 4) as u8))
            }
        } else if z == 1 {
            if y % 2 == 0 {
                Some(Instr::LdRrNn(p))
            } else {
                Some(Instr::AddHlRr(p))
            }
        } else if z == 2 {
            if y % 2 == 0 {
                Some(Instr::StoreAInd(p))
            } else {
                Some(Instr::LoadAInd(p))
            }
        } else if z == 3 {
            if y % 2 == 0 {
                Some(Instr::IncRr(p))
            } else {
                Some(Instr::DecRr(p))
            }
        } else if z == 4 {
            Some(Instr::IncR(yy))
        } else if z == 5 {
            Some(Instr::DecR(yy))
        } else if z == 6 {
            Some(Instr::LdRN(yy))
        } else {
            if y < 4 {
                Some(Instr::RotA(yy))
            } else if y == 4 {
                Some(Instr::Daa)
            } else if y == 5 {
                Some(Instr::Cpl)
            } else if y == 6 {
                Some(Instr::Scf)
            } else {
                Some(Instr::Ccf)
            }
        }
    } else {
        if z == 0 {
            if y < 4 {
                Some(Instr::RetCc(yy))
            } else if y == 4 {
                Some(Instr::LdhW)
            } else if y == 5 {
                Some(Instr::AddSpE)
            } else if y == 6 {
                Some(Instr::LdhR)
            } else {
                Some(Instr::LdHlSpE)
            }
        } else if z == 1 {
            if y % 2 == 0 {
                Some(Instr::Pop(p))
            } else if y == 1 {
                Some(Instr::Ret)
            } else if y == 3 {
                Some(Instr::Reti)
            } else if y == 5 {
                Some(Instr::JpHl)
            } else {
                Some(Instr::LdSpHl)
            }
        } else if z == 2 {
            if y < 4 {
                Some(Instr::JpCc(yy))
            } else if y == 4 {
                Some(Instr::LdCA)
            } else if y == 5 {
                Some(Instr::StoreA16)
            } else if y == 6 {
                Some(Instr::LdAC)
            } else {
                Some(Instr::LoadA16)
            }
        } else if z == 3 {
            if y == 0 {
                Some(Instr::Jp)
            } else if y == 1 {
                Some(Instr::Prefix)
            } else if y == 6 {
                Some(Instr::Di)
            } else if y == 7 {
                Some(Instr::Ei)
            } else {
                None
            }
        } else if z == 4 {
            if y < 4 {
                Some(Instr::CallCc(yy))
            } else {
                None
            }
        } else if z == 5 {
            if y % 2 == 0 {
                Some(Instr::Push(p))
            } else if y == 1 {
                Some(Instr::Call)
            } else {
                None
            }
        } else if z == 6 {
            Some(Instr::AluN(yy))
        } else {
            Some(Instr::Rst(yy))
        }
    }
}

/// Whatever `decode` hands out has its operand fields in range.
pub proof fn lemma_decode_bounded(op: u8)
    ensures
        decode(op) is Some ==> instr_bounded(decode(op)->Some_0),
{
}

/// One extended-table (0xCB-prefixed) instruction: rotates and shifts,
/// BIT, RES and SET, decoded from the byte after the prefix.
pub open spec fn cb_v(s: CpuView) -> (CpuView, u32) {
    let op2: u8 = imm8(s);
    let x: int = op2 as int / 64;
    let y: u8 = (op2 as int / 8 % 8) as u8;
    let z: u8 = (op2 as int % 8) as u8;
    if x == 0 {
        let t: (u8, u8) = rot_v(y, get8(s, z), s.f, true);
        (
            adv(CpuView { f: t.1, ..put8(s, z, t.0) }, 2),
            if z == 6 {
                4u32
            } else {
                2u32
            },
        )
    } else if x == 1 {
        (
            adv(CpuView { f: flags(get8(s, z) & bit_mask(y) == 0, false, true, flag_c(s)), ..s }, 2),
            if z == 6 {
                3u32
            } else {
                2u32
            },
        )
    } else if x == 2 {
        (
            adv(put8(s, z, get8(s, z) & !bit_mask(y)), 2),
            if z == 6 {
                4u32
            } else {
                2u32
            },
        )
    } else {
        (
            adv(put8(s, z, get8(s, z) | bit_mask(y)), 2),
            if z == 6 {
                4u32
            } else {
                2u32
            },
        )
    }
}

/// The interpreter: the machine after executing `i` from state `s` (PC
/// still at the opcode), and the instruction's cost in M-cycles.
/// Conditional forms cost less when the condition fails; every memory
/// access goes through the bus dispatch functions.
pub open spec fn exec_v(s: CpuView, i: Instr) -> (CpuView, u32) {
    match i {
        Instr::Nop => (adv(s, 1), 1),
        Instr::Stop => (CpuView { halted: true, ..adv(s, 2) }, 1),
        Instr::Halt => (CpuView { halted: true, ..adv(s, 1) }, 1),
        Instr::LdRR(d, src) => (
            adv(put8(s, d, get8(s, src)), 1),
            if d == 6 || src == 6 {
                2u32
            } else {
                1u32
            },
        ),
        Instr::LdRN(d) => (
            adv(put8(s, d, imm8(s)), 2),
            if d == 6 {
                3u32
            } else {
                2u32
            },
        ),
        Instr::LdRrNn(p) => (adv(put_rr(s, p, imm16(s)), 3), 3),
        Instr::StoreSp => (
            adv(
                CpuView {
                    bus: bus_write_v(
                        bus_write_v(s.bus, imm16(s), lo8(s.sp)),
                        wadd16(imm16(s), 1),
                        hi8(s.sp),
                    ),
                    ..s
                },
                3,
            ),
            5,
        ),
        Instr::AddHlRr(p) => {
            let t: (u16, u8) = add16_v(hl(s), get_rr(s, p), s.f);
            (adv(CpuView { h: hi8(t.0), l: lo8(t.0), f: t.1, ..s }, 1), 2)
        },
        Instr::IncRr(p) => (adv(put_rr(s, p, wadd16(get_rr(s, p), 1)), 1), 2),
        Instr::DecRr(p) => (adv(put_rr(s, p, wsub16(get_rr(s, p), 1)), 1), 2),
        Instr::IncR(d) => {
            let t: (u8, u8) = inc8_v(get8(s, d), s.f);
            (
                adv(CpuView { f: t.1, ..put8(s, d, t.0) }, 1),
                if d == 6 {
                    3u32
                } else {
                    1u32
                },
            )
        },
        Instr::DecR(d) => {
            let t: (u8, u8) = dec8_v(get8(s, d), s.f);
            (
                adv(CpuView { f: t.1, ..put8(s, d, t.0) }, 1),
                if d == 6 {
                    3u32
                } else {
                    1u32
                },
            )
        },
        Instr::StoreAInd(p) => {
            let addr: u16 = if p == 0 {
                bc(s)
            } else if p == 1 {
                de(s)
            } else {
                hl(s)
            };
            let s1: CpuView = CpuView { bus: bus_write_v(s.bus, addr, s.a), ..s };
            let s2: CpuView = if p == 2 {
                put_rr(s1, 2, wadd16(hl(s), 1))
            } else if p == 3 {
                put_rr(s1, 2, wsub16(hl(s), 1))
            } else {
                s1
            };
            (adv(s2, 1), 2)
        },
        Instr::LoadAInd(p) => {
            let addr: u16 = if p == 0 {
                bc(s)
            } else if p == 1 {
                de(s)
            } else {
                hl(s)
            };
            let s1: CpuView = CpuView { a: bus_byte(s.bus, addr), ..s };
            let s2: CpuView = if p == 2 {
                put_rr(s1, 2, wadd16(hl(s), 1))
            } else if p == 3 {
                put_rr(s1, 2, wsub16(hl(s), 1))
            } else {
                s1
            };
            (adv(s2, 1), 2)
        },
        Instr::RotA(k) => {
            let t: (u8, u8) = rot_v(k, s.a, s.f, false);
            (adv(CpuView { a: t.0, f: t.1, ..s }, 1), 1)
        },
        Instr::Daa => {
            let t: (u8, u8) = daa_v(s.a, s.f);
            (adv(CpuView { a: t.0, f: t.1, ..s }, 1), 1)
        },
        Instr::Cpl => (
            adv(CpuView { a: !s.a, f: flags(flag_z(s), true, true, flag_c(s)), ..s }, 1),
            1,
        ),
        Instr::Scf => (adv(CpuView { f: flags(flag_z(s), false, false, true), ..s }, 1), 1),
        Instr::Ccf => (adv(CpuView { f: flags(flag_z(s), false, false, !flag_c(s)), ..s }, 1), 1),
        Instr::Jr => (CpuView { pc: wadd16(wadd16(s.pc, 2), sext8(imm8(s))), ..s }, 3),
        Instr::JrCc(cc) => if cond_met(s, cc) {
            (CpuView { pc: wadd16(wadd16(s.pc, 2), sext8(imm8(s))), ..s }, 3)
        } else {
            (adv(s, 2), 2)
        },
        Instr::AluR(op, src) => {
            let t: (u8, u8) = alu_v(op, s.a, get8(s, src), s.f);
            (
                adv(CpuView { a: t.0, f: t.1, ..s }, 1),
                if src == 6 {
                    2u32
                } else {
                    1u32
                },
            )
        },
        Instr::AluN(op) => {
            let t: (u8, u8) = alu_v(op, s.a, imm8(s), s.f);
            (adv(CpuView { a: t.0, f: t.1, ..s }, 2), 2)
        },
        Instr::RetCc(cc) => if cond_met(s, cc) {
            (CpuView { pc: pop_val(s), sp: wadd16(s.sp, 2), ..s }, 5)
        } else {
            (adv(s, 1), 2)
        },
        Instr::Ret => (CpuView { pc: pop_val(s), sp: wadd16(s.sp, 2), ..s }, 4),
        Instr::Reti => (CpuView { pc: pop_val(s), sp: wadd16(s.sp, 2), ime: true, ..s }, 4),
        Instr::Pop(p) => {
            let v: u16 = pop_val(s);
            let s1: CpuView = if p == 0 {
                CpuView { b: hi8(v), c: lo8(v), ..s }
            } else if p == 1 {
                CpuView { d: hi8(v), e: lo8(v), ..s }
            } else if p == 2 {
                CpuView { h: hi8(v), l: lo8(v), ..s }
            } else {
                CpuView { a: hi8(v), f: (v % 0x10) as u8, ..s }
            };
            (adv(CpuView { sp: wadd16(s.sp, 2), ..s1 }, 1), 3)
        },
        Instr::Push(p) => (
            adv(
                push16_v(
                    s,
                    if p == 3 {
                        af(s)
                    } else {
                        get_rr(s, p)
                    },
                ),
                1,
            ),
            4,
        ),
        Instr::JpCc(cc) => if cond_met(s, cc) {
            (CpuView { pc: imm16(s), ..s }, 4)
        } else {
            (adv(s, 3), 3)
        },
        Instr::Jp => (CpuView { pc: imm16(s), ..s }, 4),
        Instr::JpHl => (CpuView { pc: hl(s), ..s }, 1),
        Instr::CallCc(cc) => if cond_met(s, cc) {
            (CpuView { pc: imm16(s), ..push16_v(s, wadd16(s.pc, 3)) }, 6)
        } else {
            (adv(s, 3), 3)
        },
        Instr::Call => (CpuView { pc: imm16(s), ..push16_v(s, wadd16(s.pc, 3)) }, 6),
        Instr::Rst(y) => (CpuView { pc: (y * 8) as u16, ..push16_v(s, wadd16(s.pc, 1)) }, 4),
        Instr::LdhW => (
            adv(CpuView { bus: bus_write_v(s.bus, (0xFF00 + imm8(s)) as u16, s.a), ..s }, 2),
            3,
        ),
        Instr::LdhR => (adv(CpuView { a: bus_byte(s.bus, (0xFF00 + imm8(s)) as u16), ..s }, 2), 3),
        Instr::LdCA => (
            adv(CpuView { bus: bus_write_v(s.bus, (0xFF00 + s.c) as u16, s.a), ..s }, 1),
            2,
        ),
        Instr::LdAC => (adv(CpuView { a: bus_byte(s.bus, (0xFF00 + s.c) as u16), ..s }, 1), 2),
        Instr::StoreA16 => (adv(CpuView { bus: bus_write_v(s.bus, imm16(s), s.a), ..s }, 3), 4),
        Instr::LoadA16 => (adv(CpuView { a: bus_byte(s.bus, imm16(s)), ..s }, 3), 4),
        Instr::AddSpE => {
            let t: (u16, u8) = spofs_v(s.sp, imm8(s));
            (adv(CpuView { sp: t.0, f: t.1, ..s }, 2), 4)
        },
        Instr::LdHlSpE => {
            let t: (u16, u8) = spofs_v(s.sp, imm8(s));
            (adv(CpuView { h: hi8(t.0), l: lo8(t.0), f: t.1, ..s }, 2), 3)
        },
        Instr::LdSpHl => (adv(CpuView { sp: hl(s), ..s }, 1), 2),
        Instr::Di => (adv(CpuView { ime: false, ..s }, 1), 1),
        Instr::Ei => (adv(CpuView { ime: true, ..s }, 1), 1),
        Instr::Prefix => cb_v(s),
    }
}

/// An F byte assembled in executable code.
pub fn mk_flags(z: bool, n: bool, h: bool, c: bool) -> (r: u8)
    ensures
        r == flags(z, n, h, c),
        r < 0x10,
{
    (if z {
        8u8
    } else {
        0u8
    }) + (if n {
        4u8
    } else {
        0u8
    }) + (if h {
        2u8
    } else {
        0u8
    }) + (if c {
        1u8
    } else {
        0u8
    })
}

pub fn wadd16e(a: u16, b: u16) -> (r: u16)
    ensures
        r == wadd16(a, b),
{
    (((a as u32) + (b as u32)) % 0x10000) as u16
}

pub fn wsub16e(a: u16, b: u16) -> (r: u16)
    ensures
        r == wsub16(a, b),
{
    (((a as u32) + 0x10000 - (b as u32)) % 0x10000) as u16
}

pub fn sext8e(e: u8) -> (r: u16)
    ensures
        r == sext8(e),
{
    if e >= 0x80 {
        0xFF00u16 + (e as u16)
    } else {
        e as u16
    }
}

pub fn hi8e(v: u16) -> (r: u8)
    ensures
        r == hi8(v),
{
    (v / 0x100) as u8
}

pub fn lo8e(v: u16) -> (r: u8)
    ensures
        r == lo8(v),
{
    (v % 0x100) as u8
}

pub fn pair_e(h: u8, l: u8) -> (r: u16)
    ensures
        r == pair_v(h, l),
{
    (h as u16) * 0x100 + (l as u16)
}

pub fn bit_mask_e(y: u8) -> (r: u8)
    requires
        y < 8,
    ensures
        r == bit_mask(y),
{
    if y == 0 {
        1
    } else if y == 1 {
        2
    } else if y == 2 {
        4
    } else if y == 3 {
        8
    } else if y == 4 {
        16
    } else if y == 5 {
        32
    } else if y == 6 {
        64
    } else {
        128
    }
}

/// The arithmetic/logic unit, executably.
pub fn alu_exec(op: u8, x: u8, y: u8, f: u8) -> (r: (u8, u8))
    requires
        op < 8,
        f < 0x10,
    ensures
        r == alu_v(op, x, y, f),
        r.1 < 0x10,
{
    let cin: u16 = if (op == 1 || op == 3) && f % 2 == 1 {
        1
    } else {
        0
    };
    if op == 0 || op == 1 {
        let sum: u16 = x as u16 + y as u16 + cin;
        let r8: u8 = (sum % 0x100) as u8;
        let fl: u8 = mk_flags(
            r8 == 0,
            false,
            (x % 0x10) as u16 + (y % 0x10) as u16 + cin > 0xF,
            sum > 0xFF,
        );
        (r8, fl)
    } else if op == 2 || op == 3 || op == 7 {
        let t: u16 = x as u16 + 0x200 - y as u16 - cin;
        let r8: u8 = (t % 0x100) as u8;
        proof {
            lemma_mod_multiples_vanish(2, x - y - (cin as int), 0x100);
        }
        let fl: u8 = mk_flags(
            r8 == 0,
            true,
            x % 0x10 < y % 0x10 + (cin as u8),
            (x as u16) < y as u16 + cin,
        );
        (
            if op == 7 {
                x
            } else {
                r8
            },
            fl,
        )
    } else if op == 4 {
        let r8: u8 = x & y;
        (r8, mk_flags(r8 == 0, false, true, false))
    } else if op == 5 {
        let r8: u8 = x ^ y;
        (r8, mk_flags(r8 == 0, false, false, false))
    } else {
        let r8: u8 = x | y;
        (r8, mk_flags(r8 == 0, false, false, false))
    }
}

pub fn inc8_exec(v: u8, f: u8) -> (r: (u8, u8))
    requires
        f < 0x10,
    ensures
        r == inc8_v(v, f),
        r.1 < 0x10,
{
    let r8: u8 = ((v as u16 + 1) % 0x100) as u8;
    (r8, mk_flags(r8 == 0, false, v % 0x10 == 0xF, f % 2 == 1))
}

pub fn dec8_exec(v: u8, f: u8) -> (r: (u8, u8))
    requires
        f < 0x10,
    ensures
        r == dec8_v(v, f),
        r.1 < 0x10,
{
    let r8: u8 = ((v as u16 + 0xFF) % 0x100) as u8;
    (r8, mk_flags(r8 == 0, true, v % 0x10 == 0, f % 2 == 1))
}

/// The rotated or shifted byte, executably, branch by branch.
#[verifier::rlimit(50)]
fn rot_res_exec(k: u8, v: u8, cin: u8) -> (r: u8)
    requires
        k < 8,
        cin < 2,
    ensures
        r == rot_res(k, v, cin as int),
{
    if k == 0 {
        let t: u16 = (v as u16 * 2) % 0x100 + (v / 0x80) as u16;
        assert(t <= 0xFF);
        t as u8
    } else if k == 1 {
        v / 2 + (v % 2) * 0x80
    } else if k == 2 {
        let t: u16 = (v as u16 * 2) % 0x100 + cin as u16;
        assert(t <= 0xFF);
        t as u8
    } else if k == 3 {
        v / 2 + cin * 0x80
    } else if k == 4 {
        ((v as u16 * 2) % 0x100) as u8
    } else if k == 5 {
        v / 2 + (v / 0x80) * 0x80
    } else if k == 6 {
        (v % 0x10) * 0x10 + v / 0x10
    } else {
        v / 2
    }
}

/// One rotate or shift, executably.
#[verifier::rlimit(50)]
pub fn rot_exec(k: u8, v: u8, f: u8, zmode: bool) -> (r: (u8, u8))
    requires
        k < 8,
        f < 0x10,
    ensures
        r == rot_v(k, v, f, zmode),
        r.1 < 0x10,
{
    let r8: u8 = rot_res_exec(k, v, f % 2);
    let cy: bool = if k == 6 {
        false
    } else if k == 1 || k == 3 || k == 5 || k == 7 {
        v % 2 == 1
    } else {
        v / 0x80 == 1
    };
    (r8, mk_flags(zmode && r8 == 0, false, false, cy))
}

/// Decimal adjust, executably.
pub fn daa_exec(a: u8, f: u8) -> (r: (u8, u8))
    requires
        f < 0x10,
    ensures
        r == daa_v(a, f),
        r.1 < 0x10,
{
    let n: bool = f / 4 % 2 == 1;
    let h: bool = f / 2 % 2 == 1;
    let c: bool = f % 2 == 1;
    if !n {
        let adj: u16 = (if h || a % 0x10 > 9 {
            6u16
        } else {
            0u16
        }) + (if c || a > 0x99 {
            0x60u16
        } else {
            0u16
        });
        let r8: u8 = ((a as u16 + adj) % 0x100) as u8;
        (r8, mk_flags(r8 == 0, false, false, c || a > 0x99))
    } else {
        let adj: u16 = (if h {
            6u16
        } else {
            0u16
        }) + (if c {
            0x60u16
        } else {
            0u16
        });
        let r8: u8 = ((a as u16 + 0x100 - adj) % 0x100) as u8;
        (r8, mk_flags(r8 == 0, true, false, c))
    }
}

/// 16-bit addition into HL, executably.
pub fn add16_exec(x: u16, y: u16, f: u8) -> (r: (u16, u8))
    requires
        f < 0x10,
    ensures
        r == add16_v(x, y, f),
        r.1 < 0x10,
{
    let sum: u32 = x as u32 + y as u32;
    let r16: u16 = (sum % 0x10000) as u16;
    let fl: u8 = mk_flags(
        f / 8 % 2 == 1,
        false,
        (x % 0x1000) as u32 + (y % 0x1000) as u32 > 0xFFF,
        sum > 0xFFFF,
    );
    (r16, fl)
}

/// SP plus a signed displacement, executably.
pub fn spofs_exec(sp: u16, e: u8) -> (r: (u16, u8))
    ensures
        r == spofs_v(sp, e),
        r.1 < 0x10,
{
    let t: u16 = wadd16e(sp, sext8e(e));
    let fl: u8 = mk_flags(
        false,
        false,
        sp % 0x10 + (e % 0x10) as u16 > 0xF,
        sp % 0x100 + e as u16 > 0xFF,
    );
    (t, fl)
}

/// The main decode table, executably.
pub fn decode_op(op: u8) -> (r: Option<Instr>)
    ensures
        r == decode(op),
{
    let x: u8 = op / 64;
    let y: u8 = op / 8 % 8;
    let z: u8 = op % 8;
    let p: u8 = y / 2;
    if x == 1 {
        if op == 0x76 {
            Some(Instr::Halt)
        } else {
            Some(Instr::LdRR(y, z))
        }
    } else if x == 2 {
        Some(Instr::AluR(y, z))
    } else if x == 0 {
        if z == 0 {
            if y == 0 {
                Some(Instr::Nop)
            } else if y == 1 {
                Some(Instr::StoreSp)
            } else if y == 2 {
                Some(Instr::Stop)
            } else if y == 3 {
                Some(Instr::Jr)
            } else {
                Some(Instr::JrCc(y - 4))
            }
        } else if z == 1 {
            if y % 2 == 0 {
                Some(Instr::LdRrNn(p))
            } else {
                Some(Instr::AddHlRr(p))
            }
        } else if z == 2 {
            if y % 2 == 0 {
                Some(Instr::StoreAInd(p))
            } else {
                Some(Instr::LoadAInd(p))
            }
        } else if z == 3 {
            if y % 2 == 0 {
                Some(Instr::IncRr(p))
            } else {
                Some(Instr::DecRr(p))
            }
        } else if z == 4 {
            Some(Instr::IncR(y))
        } else if z == 5 {
            Some(Instr::DecR(y))
        } else if z == 6 {
            Some(Instr::LdRN(y))
        } else {
            if y < 4 {
                Some(Instr::RotA(y))
            } else if y == 4 {
                Some(Instr::Daa)
            } else if y == 5 {
                Some(Instr::Cpl)
            } else if y == 6 {
                Some(Instr::Scf)
            } else {
                Some(Instr::Ccf)
            }
        }
    } else {
        if z == 0 {
            if y < 4 {
                Some(Instr::RetCc(y))
            } else if y == 4 {
                Some(Instr::LdhW)
            } else if y == 5 {
                Some(Instr::AddSpE)
            } else if y == 6 {
                Some(Instr::LdhR)
            } else {
                Some(Instr::LdHlSpE)
            }
        } else if z == 1 {
            if y % 2 == 0 {
                Some(Instr::Pop(p))
            } else if y == 1 {
                Some(Instr::Ret)
            } else if y == 3 {
                Some(Instr::Reti)
            } else if y == 5 {
                Some(Instr::JpHl)
            } else {
                Some(Instr::LdSpHl)
            }
        } else if z == 2 {
            if y < 4 {
                Some(Instr::JpCc(y))
            } else if y == 4 {
                Some(Instr::LdCA)
            } else if y == 5 {
                Some(Instr::StoreA16)
            } else if y == 6 {
                Some(Instr::LdAC)
            } else {
                Some(Instr::LoadA16)
            }
        } else if z == 3 {
            if y == 0 {
                Some(Instr::Jp)
            } else if y == 1 {
                Some(Instr::Prefix)
            } else if y == 6 {
                Some(Instr::Di)
            } else if y == 7 {
                Some(Instr::Ei)
            } else {
                None
            }
        } else if z == 4 {
            if y < 4 {
                Some(Instr::CallCc(y))
            } else {
                None
            }
        } else if z == 5 {
            if y % 2 == 0 {
                Some(Instr::Push(p))
            } else if y == 1 {
                Some(Instr::Call)
            } else {
                None
            }
        } else if z == 6 {
            Some(Instr::AluN(y))
        } else {
            Some(Instr::Rst(y))
        }
    }
}

/// The opcode byte the next step will fetch.
pub open spec fn fetch(s: CpuView) -> u8 {
    bus_byte(s.bus, s.pc)
}

/// Whether the next step succeeds: a halted processor idles successfully,
/// otherwise the fetched opcode must decode.
pub open spec fn step_ok(s: CpuView) -> bool {
    s.halted || decode(fetch(s)) is Some
}

/// One step of the whole machine: a halted processor stays put for one
/// idle cycle, otherwise the fetched opcode runs through `exec_v`.
pub open spec fn step_v(s: CpuView) -> (CpuView, u32) {
    if s.halted {
        (s, 1)
    } else {
        match decode(fetch(s)) {
            Some(i) => exec_v(s, i),
            None => (s, 0),
        }
    }
}

/// The machine after up to `n` steps, stopping early at the first opcode
/// absent from the table.
pub open spec fn run_v(s: CpuView, n: nat) -> CpuView
    decreases n,
{
    if n == 0 || !step_ok(s) {
        s
    } else {
        run_v(step_v(s).0, (n - 1) as nat)
    }
}

/// Whether `n` steps in a row all succeed.
pub open spec fn run_ok(s: CpuView, n: nat) -> bool
    decreases n,
{
    if n == 0 {
        true
    } else if !step_ok(s) {
        false
    } else {
        run_ok(step_v(s).0, (n - 1) as nat)
    }
}


} // verus!
