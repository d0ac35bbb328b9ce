//! The processor: the register file and the fetch-decode-execute engine.
//! `step` executes exactly one instruction against the bus; its contract
//! says the post-state and cycle count equal what the spec-level
//! interpreter `step_v` gives, so every register transfer, flag update,
//! memory access and cycle cost is pinned down by `crate::isa`.

use crate::isa::add16_exec;
use crate::isa::adv;
use crate::isa::af;
use crate::isa::alu_exec;
use crate::isa::bc;
use crate::isa::bit_mask_e;
use crate::isa::cond_met;
use crate::isa::cpu_wf;
use crate::isa::daa_exec;
use crate::isa::de;
use crate::isa::dec8_exec;
use crate::isa::decode_op;
use crate::isa::exec_v;
use crate::isa::fetch;
use crate::isa::get8;
use crate::isa::get_rr;
use crate::isa::hi8;
use crate::isa::hi8e;
use crate::isa::hl;
use crate::isa::imm16;
use crate::isa::imm8;
use crate::isa::inc8_exec;
use crate::isa::instr_bounded;
use crate::isa::lemma_decode_bounded;
use crate::isa::lo8e;
use crate::isa::mk_flags;
use crate::isa::pair_e;
use crate::isa::pop_val;
use crate::isa::push16_v;
use crate::isa::put8;
use crate::isa::put_rr;
use crate::isa::rot_exec;
use crate::isa::run_ok;
use crate::isa::run_v;
use crate::isa::sext8e;
use crate::isa::spofs_exec;
use crate::isa::step_ok;
use crate::isa::step_v;
use crate::isa::wadd16;
use crate::isa::wadd16e;
use crate::isa::wsub16e;
use crate::isa::CpuView;
use crate::isa::Instr;
use crate::mem::MemBus;
use vstd::prelude::*;

verus! {

/// The only way execution can fail: the fetched opcode is absent from the
/// instruction table. With a complete table this is unreachable and marks
/// an internal defect, not a runtime condition.
#[derive(Clone, Copy, PartialEq, Eq, Debug)]
pub enum ExecutionError {
    UnimplementedOpcode(u8),
}

/// A read-only snapshot of every register, for visualization front-ends.
#[derive(Clone, Copy, PartialEq, Eq, Debug)]
pub struct RegSnapshot {
    pub a: u8,
    pub b: u8,
    pub c: u8,
    pub d: u8,
    pub e: u8,
    pub f: u8,
    pub h: u8,
    pub l: u8,
    pub sp: u16,
    pub pc: u16,
}

/// The processor: eight 8-bit registers, SP, PC, the halt and
/// interrupt-master flags, and the bus it drives.
pub struct Cpu {
    a: u8,
    b: u8,
    c: u8,
    d: u8,
    e: u8,
    f: u8,
    h: u8,
    l: u8,
    sp: u16,
    pc: u16,
    halted: bool,
    ime: bool,
    membus: MemBus,
}

impl View for Cpu {
    type V = CpuView;

    closed spec fn view(&self) -> CpuView {
        CpuView {
            a: self.a,
            b: self.b,
            c: self.c,
            d: self.d,
            e: self.e,
            f: self.f,
            h: self.h,
            l: self.l,
            sp: self.sp,
            pc: self.pc,
            halted: self.halted,
            ime: self.ime,
            bus: self.membus@,
        }
    }
}

impl Cpu {
    pub open spec fn wf(&self) -> bool {
        cpu_wf(self@)
    }

    /// Power-on state: registers cleared, SP at the top of high memory,
    /// PC at the cartridge entry point.
    pub fn new(membus: MemBus) -> (cpu: Cpu)
        requires
            membus.wf(),
        ensures
            cpu.wf(),
            cpu@.a == 0 && cpu@.b == 0 && cpu@.c == 0 && cpu@.d == 0,
            cpu@.e == 0 && cpu@.f == 0 && cpu@.h == 0 && cpu@.l == 0,
            cpu@.sp == 0xFFFE,
            cpu@.pc == 0x0100,
            !cpu@.halted,
            !cpu@.ime,
            cpu@.bus == membus@,
    {
        Cpu {
            a: 0x00,
            b: 0x00,
            c: 0x00,
            d: 0x00,
            e: 0x00,
            f: 0x00,
            h: 0x00,
            l: 0x00,
            sp: 0xFFFE,
            pc: 0x0100,
            halted: false,
            ime: false,
            membus,
        }
    }

    pub fn get_af(&self) -> (v: u16)
        ensures
            v == af(self@),
    {
        (self.a as u16) * 0x100 + (self.f as u16)
    }

    pub fn get_bc(&self) -> (v: u16)
        ensures
            v == bc(self@),
    {
        (self.b as u16) * 0x100 + (self.c as u16)
    }

    pub fn get_de(&self) -> (v: u16)
        ensures
            v == de(self@),
    {
        (self.d as u16) * 0x100 + (self.e as u16)
    }

    pub fn get_hl(&self) -> (v: u16)
        ensures
            v == hl(self@),
    {
        (self.h as u16) * 0x100 + (self.l as u16)
    }

    /// Loads AF. The flag register only ever holds its four flag bits, so
    /// the low nibble of `value` is kept and the rest of the F byte stays
    /// zero.
    pub fn set_af(&mut self, value: u16)
        requires
            old(self).wf(),
        ensures
            final(self).wf(),
            final(self)@ == (CpuView { a: hi8(value), f: (value % 0x10) as u8, ..old(self)@ }),
    {
        self.a = (value / 0x100) as u8;
        self.f = (value % 0x10) as u8;
    }

    /// Loads BC; reading the pair back gives exactly `value`.
    pub fn set_bc(&mut self, value: u16)
        requires
            old(self).wf(),
        ensures
            final(self).wf(),
            final(self)@ == put_rr(old(self)@, 0, value),
            bc(final(self)@) == value,
    {
        proof {
            crate::isa::lemma_pair_split(value);
        }
        self.b = (value / 0x100) as u8;
        self.c = (value % 0x100) as u8;
    }

    /// Loads DE; reading the pair back gives exactly `value`.
    pub fn set_de(&mut self, value: u16)
        requires
            old(self).wf(),
        ensures
            final(self).wf(),
            final(self)@ == put_rr(old(self)@, 1, value),
            de(final(self)@) == value,
    {
        proof {
            crate::isa::lemma_pair_split(value);
        }
        self.d = (value / 0x100) as u8;
        self.e = (value % 0x100) as u8;
    }

    /// Loads HL; reading the pair back gives exactly `value`.
    pub fn set_hl(&mut self, value: u16)
        requires
            old(self).wf(),
        ensures
            final(self).wf(),
            final(self)@ == put_rr(old(self)@, 2, value),
            hl(final(self)@) == value,
    {
        proof {
            crate::isa::lemma_pair_split(value);
        }
        self.h = (value / 0x100) as u8;
        self.l = (value % 0x100) as u8;
    }

    pub fn get_sp(&self) -> (v: u16)
        ensures
            v == self@.sp,
    {
        self.sp
    }

    pub fn get_pc(&self) -> (v: u16)
        ensures
            v == self@.pc,
    {
        self.pc
    }

    pub fn is_halted(&self) -> (v: bool)
        ensures
            v == self@.halted,
    {
        self.halted
    }

    pub fn interrupts_enabled(&self) -> (v: bool)
        ensures
            v == self@.ime,
    {
        self.ime
    }

    pub fn membus(&self) -> (m: &MemBus)
        ensures
            m@ == self@.bus,
    {
        &self.membus
    }

    /// Every register at once, for read-only consumers.
    pub fn snapshot(&self) -> (s: RegSnapshot)
        ensures
            s.a == self@.a && s.b == self@.b && s.c == self@.c && s.d == self@.d,
            s.e == self@.e && s.f == self@.f && s.h == self@.h && s.l == self@.l,
            s.sp == self@.sp && s.pc == self@.pc,
    {
        RegSnapshot {
            a: self.a,
            b: self.b,
            c: self.c,
            d: self.d,
            e: self.e,
            f: self.f,
            h: self.h,
            l: self.l,
            sp: self.sp,
            pc: self.pc,
        }
    }

    /// One 8-bit operand read in hardware encoding; index 6 reads the bus
    /// at (HL).
    fn get_r8(&self, i: u8) -> (v: u8)
        requires
            i < 8,
            self.wf(),
        ensures
            v == get8(self@, i),
    {
        if i == 0 {
            self.b
        } else if i == 1 {
            self.c
        } else if i == 2 {
            self.d
        } else if i == 3 {
            self.e
        } else if i == 4 {
            self.h
        } else if i == 5 {
            self.l
        } else if i == 6 {
            let addr: u16 = self.get_hl();
            self.membus.read(addr)
        } else {
            self.a
        }
    }

    /// One 8-bit destination write in hardware encoding; index 6 writes
    /// the bus at (HL).
    fn set_r8(&mut self, i: u8, v: u8)
        requires
            i < 8,
            old(self).wf(),
        ensures
            final(self).wf(),
            final(self)@ == put8(old(self)@, i, v),
    {
        if i == 0 {
            self.b = v;
        } else if i == 1 {
            self.c = v;
        } else if i == 2 {
            self.d = v;
        } else if i == 3 {
            self.e = v;
        } else if i == 4 {
            self.h = v;
        } else if i == 5 {
            self.l = v;
        } else if i == 6 {
            let addr: u16 = self.get_hl();
            self.membus.write(addr, v);
        } else {
            self.a = v;
        }
    }

    fn get_rr16(&self, p: u8) -> (v: u16)
        requires
            p < 4,
        ensures
            v == get_rr(self@, p),
    {
        if p == 0 {
            self.get_bc()
        } else if p == 1 {
            self.get_de()
        } else if p == 2 {
            self.get_hl()
        } else {
            self.sp
        }
    }

    fn set_rr16(&mut self, p: u8, v: u16)
        requires
            p < 4,
            old(self).wf(),
        ensures
            final(self).wf(),
            final(self)@ == put_rr(old(self)@, p, v),
    {
        if p == 0 {
            self.set_bc(v);
        } else if p == 1 {
            self.set_de(v);
        } else if p == 2 {
            self.set_hl(v);
        } else {
            self.sp = v;
        }
    }

    fn read_imm8(&self) -> (v: u8)
        requires
            self.wf(),
        ensures
            v == imm8(self@),
    {
        self.membus.read(wadd16e(self.pc, 1))
    }

    fn read_imm16(&self) -> (v: u16)
        requires
            self.wf(),
        ensures
            v == imm16(self@),
    {
        let lo: u8 = self.membus.read(wadd16e(self.pc, 1));
        let hi: u8 = self.membus.read(wadd16e(self.pc, 2));
        pair_e(hi, lo)
    }

    fn adv_pc(&mut self, n: u16)
        ensures
            final(self)@ == adv(old(self)@, n),
    {
        self.pc = wadd16e(self.pc, n);
    }

    fn push16(&mut self, v: u16)
        requires
            old(self).wf(),
        ensures
            final(self).wf(),
            final(self)@ == push16_v(old(self)@, v),
    {
        let sp1: u16 = wsub16e(self.sp, 1);
        let sp2: u16 = wsub16e(self.sp, 2);
        self.membus.write(sp1, hi8e(v));
        self.membus.write(sp2, lo8e(v));
        self.sp = sp2;
    }

    fn pop16(&mut self) -> (v: u16)
        requires
            old(self).wf(),
        ensures
            final(self).wf(),
            v == pop_val(old(self)@),
            final(self)@ == (CpuView { sp: wadd16(old(self)@.sp, 2), ..old(self)@ }),
    {
        let lo: u8 = self.membus.read(self.sp);
        let hi: u8 = self.membus.read(wadd16e(self.sp, 1));
        self.sp = wadd16e(self.sp, 2);
        pair_e(hi, lo)
    }

    fn cond_check(&self, cc: u8) -> (r: bool)
        requires
            cc < 4,
        ensures
            r == cond_met(self@, cc),
    {
        if cc == 0 {
            self.f / 8 % 2 != 1
        } else if cc == 1 {
            self.f / 8 % 2 == 1
        } else if cc == 2 {
            self.f % 2 != 1
        } else {
            self.f % 2 == 1
        }
    }

    fn nop(&mut self) -> (c: u32)
        requires
            old(self).wf(),
        ensures
            final(self).wf(),
            final(self)@ == exec_v(old(self)@, Instr::Nop).0,
            c == exec_v(old(self)@, Instr::Nop).1,
    {
        self.adv_pc(1);
        1
    }

    fn stop(&mut self) -> (c: u32)
        requires
            old(self).wf(),
        ensures
            final(self).wf(),
            final(self)@ == exec_v(old(self)@, Instr::Stop).0,
            c == exec_v(old(self)@, Instr::Stop).1,
    {
        self.halted = true;
        self.adv_pc(2);
        1
    }

    fn halt(&mut self) -> (c: u32)
        requires
            old(self).wf(),
        ensures
            final(self).wf(),
            final(self)@ == exec_v(old(self)@, Instr::Halt).0,
            c == exec_v(old(self)@, Instr::Halt).1,
    {
        self.halted = true;
        self.adv_pc(1);
        1
    }

    fn load_r8r8(&mut self, dst: u8, src: u8) -> (c: u32)
        requires
            old(self).wf(),
            dst < 8,
            src < 8,
        ensures
            final(self).wf(),
            final(self)@ == exec_v(old(self)@, Instr::LdRR(dst, src)).0,
            c == exec_v(old(self)@, Instr::LdRR(dst, src)).1,
    {
        let v: u8 = self.get_r8(src);
        self.set_r8(dst, v);
        self.adv_pc(1);
        if dst == 6 || src == 6 {
            2
        } else {
            1
        }
    }

    fn load_r8n8(&mut self, dst: u8) -> (c: u32)
        requires
            old(self).wf(),
            dst < 8,
        ensures
            final(self).wf(),
            final(self)@ == exec_v(old(self)@, Instr::LdRN(dst)).0,
            c == exec_v(old(self)@, Instr::LdRN(dst)).1,
    {
        let v: u8 = self.read_imm8();
        self.set_r8(dst, v);
        self.adv_pc(2);
        if dst == 6 {
            3
        } else {
            2
        }
    }

    fn load_r16n16(&mut self, p: u8) -> (c: u32)
        requires
            old(self).wf(),
            p < 4,
        ensures
            final(self).wf(),
            final(self)@ == exec_v(old(self)@, Instr::LdRrNn(p)).0,
            c == exec_v(old(self)@, Instr::LdRrNn(p)).1,
    {
        let v: u16 = self.read_imm16();
        self.set_rr16(p, v);
        self.adv_pc(3);
        3
    }

    fn store_sp_mem(&mut self) -> (c: u32)
        requires
            old(self).wf(),
        ensures
            final(self).wf(),
            final(self)@ == exec_v(old(self)@, Instr::StoreSp).0,
            c == exec_v(old(self)@, Instr::StoreSp).1,
    {
        let a16: u16 = self.read_imm16();
        self.membus.write(a16, lo8e(self.sp));
        self.membus.write(wadd16e(a16, 1), hi8e(self.sp));
        self.adv_pc(3);
        5
    }

    fn add_hl_rr(&mut self, p: u8) -> (c: u32)
        requires
            old(self).wf(),
            p < 4,
        ensures
            final(self).wf(),
            final(self)@ == exec_v(old(self)@, Instr::AddHlRr(p)).0,
            c == exec_v(old(self)@, Instr::AddHlRr(p)).1,
    {
        let y: u16 = self.get_rr16(p);
        let t: (u16, u8) = add16_exec(self.get_hl(), y, self.f);
        self.set_hl(t.0);
        self.f = t.1;
        self.adv_pc(1);
        2
    }

    fn inc_rr(&mut self, p: u8) -> (c: u32)
        requires
            old(self).wf(),
            p < 4,
        ensures
            final(self).wf(),
            final(self)@ == exec_v(old(self)@, Instr::IncRr(p)).0,
            c == exec_v(old(self)@, Instr::IncRr(p)).1,
    {
        let v: u16 = wadd16e(self.get_rr16(p), 1);
        self.set_rr16(p, v);
        self.adv_pc(1);
        2
    }

    fn dec_rr(&mut self, p: u8) -> (c: u32)
        requires
            old(self).wf(),
            p < 4,
        ensures
            final(self).wf(),
            final(self)@ == exec_v(old(self)@, Instr::DecRr(p)).0,
            c == exec_v(old(self)@, Instr::DecRr(p)).1,
    {
        let v: u16 = wsub16e(self.get_rr16(p), 1);
        self.set_rr16(p, v);
        self.adv_pc(1);
        2
    }

    fn inc_r8(&mut self, d: u8) -> (c: u32)
        requires
            old(self).wf(),
            d < 8,
        ensures
            final(self).wf(),
            final(self)@ == exec_v(old(self)@, Instr::IncR(d)).0,
            c == exec_v(old(self)@, Instr::IncR(d)).1,
    {
        let v: u8 = self.get_r8(d);
        let t: (u8, u8) = inc8_exec(v, self.f);
        self.set_r8(d, t.0);
        self.f = t.1;
        self.adv_pc(1);
        if d == 6 {
            3
        } else {
            1
        }
    }

    fn dec_r8(&mut self, d: u8) -> (c: u32)
        requires
            old(self).wf(),
            d < 8,
        ensures
            final(self).wf(),
            final(self)@ == exec_v(old(self)@, Instr::DecR(d)).0,
            c == exec_v(old(self)@, Instr::DecR(d)).1,
    {
        let v: u8 = self.get_r8(d);
        let t: (u8, u8) = dec8_exec(v, self.f);
        self.set_r8(d, t.0);
        self.f = t.1;
        self.adv_pc(1);
        if d == 6 {
            3
        } else {
            1
        }
    }

    fn store_a_ind(&mut self, p: u8) -> (c: u32)
        requires
            old(self).wf(),
            p < 4,
        ensures
            final(self).wf(),
            final(self)@ == exec_v(old(self)@, Instr::StoreAInd(p)).0,
            c == exec_v(old(self)@, Instr::StoreAInd(p)).1,
    {
        let addr: u16 = if p == 0 {
            self.get_bc()
        } else if p == 1 {
            self.get_de()
        } else {
            self.get_hl()
        };
        self.membus.write(addr, self.a);
        if p == 2 {
            let v: u16 = wadd16e(self.get_hl(), 1);
            self.set_hl(v);
        } else if p == 3 {
            let v: u16 = wsub16e(self.get_hl(), 1);
            self.set_hl(v);
        }
        self.adv_pc(1);
        2
    }

    fn load_a_ind(&mut self, p: u8) -> (c: u32)
        requires
            old(self).wf(),
            p < 4,
        ensures
            final(self).wf(),
            final(self)@ == exec_v(old(self)@, Instr::LoadAInd(p)).0,
            c == exec_v(old(self)@, Instr::LoadAInd(p)).1,
    {
        let addr: u16 = if p == 0 {
            self.get_bc()
        } else if p == 1 {
            self.get_de()
        } else {
            self.get_hl()
        };
        self.a = self.membus.read(addr);
        if p == 2 {
            let v: u16 = wadd16e(self.get_hl(), 1);
            self.set_hl(v);
        } else if p == 3 {
            let v: u16 = wsub16e(self.get_hl(), 1);
            self.set_hl(v);
        }
        self.adv_pc(1);
        2
    }

    fn rot_a(&mut self, k: u8) -> (c: u32)
        requires
            old(self).wf(),
            k < 4,
        ensures
            final(self).wf(),
            final(self)@ == exec_v(old(self)@, Instr::RotA(k)).0,
            c == exec_v(old(self)@, Instr::RotA(k)).1,
    {
        let t: (u8, u8) = rot_exec(k, self.a, self.f, false);
        self.a = t.0;
        self.f = t.1;
        self.adv_pc(1);
        1
    }

    fn daa(&mut self) -> (c: u32)
        requires
            old(self).wf(),
        ensures
            final(self).wf(),
            final(self)@ == exec_v(old(self)@, Instr::Daa).0,
            c == exec_v(old(self)@, Instr::Daa).1,
    {
        let t: (u8, u8) = daa_exec(self.a, self.f);
        self.a = t.0;
        self.f = t.1;
        self.adv_pc(1);
        1
    }

    fn cpl(&mut self) -> (c: u32)
        requires
            old(self).wf(),
        ensures
            final(self).wf(),
            final(self)@ == exec_v(old(self)@, Instr::Cpl).0,
            c == exec_v(old(self)@, Instr::Cpl).1,
    {
        let fl: u8 = mk_flags(self.f / 8 % 2 == 1, true, true, self.f % 2 == 1);
        self.a = !self.a;
        self.f = fl;
        self.adv_pc(1);
        1
    }

    fn scf(&mut self) -> (c: u32)
        requires
            old(self).wf(),
        ensures
            final(self).wf(),
            final(self)@ == exec_v(old(self)@, Instr::Scf).0,
            c == exec_v(old(self)@, Instr::Scf).1,
    {
        let fl: u8 = mk_flags(self.f / 8 % 2 == 1, false, false, true);
        self.f = fl;
        self.adv_pc(1);
        1
    }

    fn ccf(&mut self) -> (c: u32)
        requires
            old(self).wf(),
        ensures
            final(self).wf(),
            final(self)@ == exec_v(old(self)@, Instr::Ccf).0,
            c == exec_v(old(self)@, Instr::Ccf).1,
    {
        let fl: u8 = mk_flags(self.f / 8 % 2 == 1, false, false, self.f % 2 != 1);
        self.f = fl;
        self.adv_pc(1);
        1
    }

    fn jr_rel(&mut self) -> (c: u32)
        requires
            old(self).wf(),
        ensures
            final(self).wf(),
            final(self)@ == exec_v(old(self)@, Instr::Jr).0,
            c == exec_v(old(self)@, Instr::Jr).1,
    {
        let e: u8 = self.read_imm8();
        self.pc = wadd16e(wadd16e(self.pc, 2), sext8e(e));
        3
    }

    fn jr_cc(&mut self, cc: u8) -> (c: u32)
        requires
            old(self).wf(),
            cc < 4,
        ensures
            final(self).wf(),
            final(self)@ == exec_v(old(self)@, Instr::JrCc(cc)).0,
            c == exec_v(old(self)@, Instr::JrCc(cc)).1,
    {
        if self.cond_check(cc) {
            let e: u8 = self.read_imm8();
            self.pc = wadd16e(wadd16e(self.pc, 2), sext8e(e));
            3
        } else {
            self.adv_pc(2);
            2
        }
    }

    fn alu_r8(&mut self, op: u8, src: u8) -> (c: u32)
        requires
            old(self).wf(),
            op < 8,
            src < 8,
        ensures
            final(self).wf(),
            final(self)@ == exec_v(old(self)@, Instr::AluR(op, src)).0,
            c == exec_v(old(self)@, Instr::AluR(op, src)).1,
    {
        let y: u8 = self.get_r8(src);
        let t: (u8, u8) = alu_exec(op, self.a, y, self.f);
        self.a = t.0;
        self.f = t.1;
        self.adv_pc(1);
        if src == 6 {
            2
        } else {
            1
        }
    }

    fn alu_n8(&mut self, op: u8) -> (c: u32)
        requires
            old(self).wf(),
            op < 8,
        ensures
            final(self).wf(),
            final(self)@ == exec_v(old(self)@, Instr::AluN(op)).0,
            c == exec_v(old(self)@, Instr::AluN(op)).1,
    {
        let y: u8 = self.read_imm8();
        let t: (u8, u8) = alu_exec(op, self.a, y, self.f);
        self.a = t.0;
        self.f = t.1;
        self.adv_pc(2);
        2
    }

    fn ret_cc(&mut self, cc: u8) -> (c: u32)
        requires
            old(self).wf(),
            cc < 4,
        ensures
            final(self).wf(),
            final(self)@ == exec_v(old(self)@, Instr::RetCc(cc)).0,
            c == exec_v(old(self)@, Instr::RetCc(cc)).1,
    {
        if self.cond_check(cc) {
            let v: u16 = self.pop16();
            self.pc = v;
            5
        } else {
            self.adv_pc(1);
            2
        }
    }

    fn ret(&mut self) -> (c: u32)
        requires
            old(self).wf(),
        ensures
            final(self).wf(),
            final(self)@ == exec_v(old(self)@, Instr::Ret).0,
            c == exec_v(old(self)@, Instr::Ret).1,
    {
        let v: u16 = self.pop16();
        self.pc = v;
        4
    }

    fn reti(&mut self) -> (c: u32)
        requires
            old(self).wf(),
        ensures
            final(self).wf(),
            final(self)@ == exec_v(old(self)@, Instr::Reti).0,
            c == exec_v(old(self)@, Instr::Reti).1,
    {
        let v: u16 = self.pop16();
        self.pc = v;
        self.ime = true;
        4
    }

    fn pop_rr(&mut self, p: u8) -> (c: u32)
        requires
            old(self).wf(),
            p < 4,
        ensures
            final(self).wf(),
            final(self)@ == exec_v(old(self)@, Instr::Pop(p)).0,
            c == exec_v(old(self)@, Instr::Pop(p)).1,
    {
        let v: u16 = self.pop16();
        if p == 0 {
            self.set_bc(v);
        } else if p == 1 {
            self.set_de(v);
        } else if p == 2 {
            self.set_hl(v);
        } else {
            self.a = hi8e(v);
            self.f = (v % 0x10) as u8;
        }
        self.adv_pc(1);
        3
    }

    fn push_rr(&mut self, p: u8) -> (c: u32)
        requires
            old(self).wf(),
            p < 4,
        ensures
            final(self).wf(),
            final(self)@ == exec_v(old(self)@, Instr::Push(p)).0,
            c == exec_v(old(self)@, Instr::Push(p)).1,
    {
        let v: u16 = if p == 3 {
            self.get_af()
        } else {
            self.get_rr16(p)
        };
        self.push16(v);
        self.adv_pc(1);
        4
    }

    fn jp_cc(&mut self, cc: u8) -> (c: u32)
        requires
            old(self).wf(),
            cc < 4,
        ensures
            final(self).wf(),
            final(self)@ == exec_v(old(self)@, Instr::JpCc(cc)).0,
            c == exec_v(old(self)@, Instr::JpCc(cc)).1,
    {
        if self.cond_check(cc) {
            let t: u16 = self.read_imm16();
            self.pc = t;
            4
        } else {
            self.adv_pc(3);
            3
        }
    }

    fn jp_abs(&mut self) -> (c: u32)
        requires
            old(self).wf(),
        ensures
            final(self).wf(),
            final(self)@ == exec_v(old(self)@, Instr::Jp).0,
            c == exec_v(old(self)@, Instr::Jp).1,
    {
        let t: u16 = self.read_imm16();
        self.pc = t;
        4
    }

    fn jp_hl(&mut self) -> (c: u32)
        requires
            old(self).wf(),
        ensures
            final(self).wf(),
            final(self)@ == exec_v(old(self)@, Instr::JpHl).0,
            c == exec_v(old(self)@, Instr::JpHl).1,
    {
        self.pc = self.get_hl();
        1
    }

    fn call_cc(&mut self, cc: u8) -> (c: u32)
        requires
            old(self).wf(),
            cc < 4,
        ensures
            final(self).wf(),
            final(self)@ == exec_v(old(self)@, Instr::CallCc(cc)).0,
            c == exec_v(old(self)@, Instr::CallCc(cc)).1,
    {
        if self.cond_check(cc) {
            let t: u16 = self.read_imm16();
            let ret_to: u16 = wadd16e(self.pc, 3);
            self.push16(ret_to);
            self.pc = t;
            6
        } else {
            self.adv_pc(3);
            3
        }
    }

    fn call_abs(&mut self) -> (c: u32)
        requires
            old(self).wf(),
        ensures
            final(self).wf(),
            final(self)@ == exec_v(old(self)@, Instr::Call).0,
            c == exec_v(old(self)@, Instr::Call).1,
    {
        let t: u16 = self.read_imm16();
        let ret_to: u16 = wadd16e(self.pc, 3);
        self.push16(ret_to);
        self.pc = t;
        6
    }

    fn rst(&mut self, y: u8) -> (c: u32)
        requires
            old(self).wf(),
            y < 8,
        ensures
            final(self).wf(),
            final(self)@ == exec_v(old(self)@, Instr::Rst(y)).0,
            c == exec_v(old(self)@, Instr::Rst(y)).1,
    {
        let ret_to: u16 = wadd16e(self.pc, 1);
        self.push16(ret_to);
        self.pc = (y as u16) * 8;
        4
    }

    fn ldh_write(&mut self) -> (c: u32)
        requires
            old(self).wf(),
        ensures
            final(self).wf(),
            final(self)@ == exec_v(old(self)@, Instr::LdhW).0,
            c == exec_v(old(self)@, Instr::LdhW).1,
    {
        let n: u8 = self.read_imm8();
        self.membus.write(0xFF00 + n as u16, self.a);
        self.adv_pc(2);
        3
    }

    fn ldh_read(&mut self) -> (c: u32)
        requires
            old(self).wf(),
        ensures
            final(self).wf(),
            final(self)@ == exec_v(old(self)@, Instr::LdhR).0,
            c == exec_v(old(self)@, Instr::LdhR).1,
    {
        let n: u8 = self.read_imm8();
        self.a = self.membus.read(0xFF00 + n as u16);
        self.adv_pc(2);
        3
    }

    fn ld_ca(&mut self) -> (c: u32)
        requires
            old(self).wf(),
        ensures
            final(self).wf(),
            final(self)@ == exec_v(old(self)@, Instr::LdCA).0,
            c == exec_v(old(self)@, Instr::LdCA).1,
    {
        self.membus.write(0xFF00 + self.c as u16, self.a);
        self.adv_pc(1);
        2
    }

    fn ld_ac(&mut self) -> (c: u32)
        requires
            old(self).wf(),
        ensures
            final(self).wf(),
            final(self)@ == exec_v(old(self)@, Instr::LdAC).0,
            c == exec_v(old(self)@, Instr::LdAC).1,
    {
        self.a = self.membus.read(0xFF00 + self.c as u16);
        self.adv_pc(1);
        2
    }

    fn store_a16(&mut self) -> (c: u32)
        requires
            old(self).wf(),
        ensures
            final(self).wf(),
            final(self)@ == exec_v(old(self)@, Instr::StoreA16).0,
            c == exec_v(old(self)@, Instr::StoreA16).1,
    {
        let t: u16 = self.read_imm16();
        self.membus.write(t, self.a);
        self.adv_pc(3);
        4
    }

    fn load_a16(&mut self) -> (c: u32)
        requires
            old(self).wf(),
        ensures
            final(self).wf(),
            final(self)@ == exec_v(old(self)@, Instr::LoadA16).0,
            c == exec_v(old(self)@, Instr::LoadA16).1,
    {
        let t: u16 = self.read_imm16();
        self.a = self.membus.read(t);
        self.adv_pc(3);
        4
    }

    fn add_sp_e(&mut self) -> (c: u32)
        requires
            old(self).wf(),
        ensures
            final(self).wf(),
            final(self)@ == exec_v(old(self)@, Instr::AddSpE).0,
            c == exec_v(old(self)@, Instr::AddSpE).1,
    {
        let e: u8 = self.read_imm8();
        let t: (u16, u8) = spofs_exec(self.sp, e);
        self.sp = t.0;
        self.f = t.1;
        self.adv_pc(2);
        4
    }

    fn ld_hl_sp_e(&mut self) -> (c: u32)
        requires
            old(self).wf(),
        ensures
            final(self).wf(),
            final(self)@ == exec_v(old(self)@, Instr::LdHlSpE).0,
            c == exec_v(old(self)@, Instr::LdHlSpE).1,
    {
        let e: u8 = self.read_imm8();
        let t: (u16, u8) = spofs_exec(self.sp, e);
        self.set_hl(t.0);
        self.f = t.1;
        self.adv_pc(2);
        3
    }

    fn ld_sp_hl(&mut self) -> (c: u32)
        requires
            old(self).wf(),
        ensures
            final(self).wf(),
            final(self)@ == exec_v(old(self)@, Instr::LdSpHl).0,
            c == exec_v(old(self)@, Instr::LdSpHl).1,
    {
        self.sp = self.get_hl();
        self.adv_pc(1);
        2
    }

    fn di(&mut self) -> (c: u32)
        requires
            old(self).wf(),
        ensures
            final(self).wf(),
            final(self)@ == exec_v(old(self)@, Instr::Di).0,
            c == exec_v(old(self)@, Instr::Di).1,
    {
        self.ime = false;
        self.adv_pc(1);
        1
    }

    fn ei(&mut self) -> (c: u32)
        requires
            old(self).wf(),
        ensures
            final(self).wf(),
            final(self)@ == exec_v(old(self)@, Instr::Ei).0,
            c == exec_v(old(self)@, Instr::Ei).1,
    {
        self.ime = true;
        self.adv_pc(1);
        1
    }

    /// One extended-table instruction: the byte after the 0xCB prefix
    /// selects a rotate/shift, BIT, RES or SET.
    fn cb_step(&mut self) -> (c: u32)
        requires
            old(self).wf(),
        ensures
            final(self).wf(),
            final(self)@ == exec_v(old(self)@, Instr::Prefix).0,
            c == exec_v(old(self)@, Instr::Prefix).1,
    {
        let op2: u8 = self.read_imm8();
        let x: u8 = op2 / 64;
        let y: u8 = op2 / 8 % 8;
        let z: u8 = op2 % 8;
        if x == 0 {
            let v: u8 = self.get_r8(z);
            let t: (u8, u8) = rot_exec(y, v, self.f, true);
            self.set_r8(z, t.0);
            self.f = t.1;
            self.adv_pc(2);
            if z == 6 {
                4
            } else {
                2
            }
        } else if x == 1 {
            let v: u8 = self.get_r8(z);
            let m: u8 = bit_mask_e(y);
            let fl: u8 = mk_flags(v & m == 0, false, true, self.f % 2 == 1);
            self.f = fl;
            self.adv_pc(2);
            if z == 6 {
                3
            } else {
                2
            }
        } else if x == 2 {
            let v: u8 = self.get_r8(z);
            let m: u8 = bit_mask_e(y);
            self.set_r8(z, v & !m);
            self.adv_pc(2);
            if z == 6 {
                4
            } else {
                2
            }
        } else {
            let v: u8 = self.get_r8(z);
            let m: u8 = bit_mask_e(y);
            self.set_r8(z, v | m);
            self.adv_pc(2);
            if z == 6 {
                4
            } else {
                2
            }
        }
    }

    /// Dispatch of one decoded instruction to its handler.
    fn exec_instr(&mut self, i: Instr) -> (c: u32)
        requires
            old(self).wf(),
            instr_bounded(i),
        ensures
            final(self).wf(),
            final(self)@ == exec_v(old(self)@, i).0,
            c == exec_v(old(self)@, i).1,
    {
        match i {
            Instr::Nop => self.nop(),
            Instr::Stop => self.stop(),
            Instr::Halt => self.halt(),
            Instr::LdRR(dst, src) => self.load_r8r8(dst, src),
            Instr::LdRN(dst) => self.load_r8n8(dst),
            Instr::LdRrNn(p) => self.load_r16n16(p),
            Instr::StoreSp => self.store_sp_mem(),
            Instr::AddHlRr(p) => self.add_hl_rr(p),
            Instr::IncRr(p) => self.inc_rr(p),
            Instr::DecRr(p) => self.dec_rr(p),
            Instr::IncR(d) => self.inc_r8(d),
            Instr::DecR(d) => self.dec_r8(d),
            Instr::StoreAInd(p) => self.store_a_ind(p),
            Instr::LoadAInd(p) => self.load_a_ind(p),
            Instr::RotA(k) => self.rot_a(k),
            Instr::Daa => self.daa(),
            Instr::Cpl => self.cpl(),
            Instr::Scf => self.scf(),
            Instr::Ccf => self.ccf(),
            Instr::Jr => self.jr_rel(),
            Instr::JrCc(cc) => self.jr_cc(cc),
            Instr::AluR(op, src) => self.alu_r8(op, src),
            Instr::AluN(op) => self.alu_n8(op),
            Instr::RetCc(cc) => self.ret_cc(cc),
            Instr::Ret => self.ret(),
            Instr::Reti => self.reti(),
            Instr::Pop(p) => self.pop_rr(p),
            Instr::Push(p) => self.push_rr(p),
            Instr::JpCc(cc) => self.jp_cc(cc),
            Instr::Jp => self.jp_abs(),
            Instr::JpHl => self.jp_hl(),
            Instr::CallCc(cc) => self.call_cc(cc),
            Instr::Call => self.call_abs(),
            Instr::Rst(y) => self.rst(y),
            Instr::LdhW => self.ldh_write(),
            Instr::LdhR => self.ldh_read(),
            Instr::LdCA => self.ld_ca(),
            Instr::LdAC => self.ld_ac(),
            Instr::StoreA16 => self.store_a16(),
            Instr::LoadA16 => self.load_a16(),
            Instr::AddSpE => self.add_sp_e(),
            Instr::LdHlSpE => self.ld_hl_sp_e(),
            Instr::LdSpHl => self.ld_sp_hl(),
            Instr::Di => self.di(),
            Instr::Ei => self.ei(),
            Instr::Prefix => self.cb_step(),
        }
    }

    /// Executes exactly one instruction: fetch the opcode at PC, decode it
    /// against the table, run it, and return its cost in M-cycles. A
    /// halted processor idles for one cycle. An opcode absent from the
    /// table leaves the machine untouched and reports it.
    pub fn step(&mut self) -> (r: Result<u32, ExecutionError>)
        requires
            old(self).wf(),
        ensures
            final(self).wf(),
            step_ok(old(self)@) <==> r is Ok,
            step_ok(old(self)@) ==> final(self)@ == step_v(old(self)@).0 && r == Ok::<
                u32,
                ExecutionError,
            >(step_v(old(self)@).1),
            !step_ok(old(self)@) ==> final(self)@ == old(self)@ && r == Err::<
                u32,
                ExecutionError,
            >(ExecutionError::UnimplementedOpcode(fetch(old(self)@))),
    {
        if self.halted {
            return Ok(1);
        }
        let op: u8 = self.membus.read(self.pc);
        match decode_op(op) {
            None => Err(ExecutionError::UnimplementedOpcode(op)),
            Some(i) => {
                proof {
                    lemma_decode_bounded(op);
                }
                Ok(self.exec_instr(i))
            },
        }
    }

    /// Drives `step` up to `max_steps` times, landing exactly on the
    /// state `run_v` computes. `None` means every step succeeded; `Some`
    /// reports the first opcode absent from the table, with the machine
    /// left exactly as it was when that opcode was fetched.
    pub fn run(&mut self, max_steps: u64) -> (r: Option<ExecutionError>)
        requires
            old(self).wf(),
        ensures
            final(self).wf(),
            final(self)@ == run_v(old(self)@, max_steps as nat),
            r is None <==> run_ok(old(self)@, max_steps as nat),
            match r {
                Some(e) => !step_ok(final(self)@) && e == ExecutionError::UnimplementedOpcode(
                    fetch(final(self)@),
                ),
                None => true,
            },
    {
        let mut left: u64 = max_steps;
        while left > 0
            invariant
                self.wf(),
                run_v(old(self)@, max_steps as nat) == run_v(self@, left as nat),
                run_ok(old(self)@, max_steps as nat) == run_ok(self@, left as nat),
            decreases left,
        {
            let r: Result<u32, ExecutionError> = self.step();
            match r {
                Ok(_) => {},
                Err(e) => {
                    return Some(e);
                },
            }
            left = left - 1;
        }
        None
    }
}

} // verus!
