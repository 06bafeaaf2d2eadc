use vstd::prelude::*;

use crate::memory::{MEMORY_LOCATION_INTERRUPTS_ENABLED, MEMORY_LOCATION_INTERRUPTS_FLAGGED};
use crate::mmu::Mmu;

verus! {

/// The master clock, in T-cycles per second.
pub const CPU_CLOCK_SPEED: u64 = 4_194_304;

/// The flags byte for the four flags; its low four bits are always 0.
pub open spec fn flags_byte(z: bool, n: bool, h: bool, c: bool) -> u8 {
    ((if z { 0x80int } else { 0 }) + (if n { 0x40int } else { 0 }) + (if h { 0x20int } else { 0 }) + (if c {
        0x10int
    } else {
        0
    })) as u8
}

/// The zero flag of a flags byte.
pub open spec fn flag_z(f: u8) -> bool {
    (f / 128) % 2 == 1
}

/// The subtract flag of a flags byte.
pub open spec fn flag_n(f: u8) -> bool {
    (f / 64) % 2 == 1
}

/// The half-carry flag of a flags byte.
pub open spec fn flag_h(f: u8) -> bool {
    (f / 32) % 2 == 1
}

/// The carry flag of a flags byte.
pub open spec fn flag_c(f: u8) -> bool {
    (f / 16) % 2 == 1
}

/// Builds a flags byte.
pub fn make_flags(z: bool, n: bool, h: bool, c: bool) -> (r: u8)
    ensures
        r == flags_byte(z, n, h, c),
        r % 16 == 0,
        flag_z(r) == z,
        flag_n(r) == n,
        flag_h(r) == h,
        flag_c(r) == c,
{
    (if z { 0x80u8 } else { 0 }) + (if n { 0x40u8 } else { 0 }) + (if h { 0x20u8 } else { 0 }) + (if c {
        0x10u8
    } else {
        0
    })
}

fn get_carry(f: u8) -> (r: bool)
    ensures
        r == flag_c(f),
{
    (f / 16) % 2 == 1
}

/// The result and flags of 8-bit ALU operation `op` (ADD, ADC, SUB, SBC, AND,
/// XOR, OR, CP) on A = `a` and operand `v`, with flags `f` before.
pub open spec fn alu_spec(op: u8, a: u8, v: u8, f: u8) -> (u8, u8) {
    let cin: int = if flag_c(f) { 1 } else { 0 };
    if op == 0 {
        let r = a + v;
        ((r % 256) as u8, flags_byte(r % 256 == 0, false, a % 16 + v % 16 > 15, r > 255))
    } else if op == 1 {
        let r = a + v + cin;
        ((r % 256) as u8, flags_byte(r % 256 == 0, false, a % 16 + v % 16 + cin > 15, r > 255))
    } else if op == 2 || op == 7 {
        let r = (a - v + 256) % 256;
        (if op == 2 { r as u8 } else { a }, flags_byte(r == 0, true, a % 16 < v % 16, a < v))
    } else if op == 3 {
        let r = (a - v - cin + 512) % 256;
        (r as u8, flags_byte(r == 0, true, a % 16 < v % 16 + cin, a < v + cin))
    } else if op == 4 {
        let r = a & v;
        (r, flags_byte(r == 0, false, true, false))
    } else if op == 5 {
        let r = a ^ v;
        (r, flags_byte(r == 0, false, false, false))
    } else {
        let r = a | v;
        (r, flags_byte(r == 0, false, false, false))
    }
}

/// Computes 8-bit ALU operation `op` on A = `a` and `v`.
pub fn alu(op: u8, a: u8, v: u8, f: u8) -> (r: (u8, u8))
    requires
        op < 8,
    ensures
        r == alu_spec(op, a, v, f),
        r.1 % 16 == 0,
{
    let cin: u16 = if get_carry(f) { 1 } else { 0 };
    if op == 0 {
        let r = a as u16 + v as u16;
        ((r % 256) as u8, make_flags(r % 256 == 0, false, a % 16 + v % 16 > 15, r > 255))
    } else if op == 1 {
        let r = a as u16 + v as u16 + cin;
        ((r % 256) as u8, make_flags(r % 256 == 0, false, (a % 16) as u16 + (v % 16) as u16 + cin > 15, r > 255))
    } else if op == 2 || op == 7 {
        let r = (a as u16 + 256 - v as u16) % 256;
        (if op == 2 { r as u8 } else { a }, make_flags(r == 0, true, a % 16 < v % 16, a < v))
    } else if op == 3 {
        let r = (a as u16 + 512 - v as u16 - cin) % 256;
        (r as u8, make_flags(r == 0, true, ((a % 16) as u16) < (v % 16) as u16 + cin, (a as u16) < v as u16 + cin))
    } else if op == 4 {
        let r = a & v;
        (r, make_flags(r == 0, false, true, false))
    } else if op == 5 {
        let r = a ^ v;
        (r, make_flags(r == 0, false, false, false))
    } else {
        let r = a | v;
        (r, make_flags(r == 0, false, false, false))
    }
}

/// INC of an 8-bit value: the carry flag is kept.
pub open spec fn inc_spec(v: u8, f: u8) -> (u8, u8) {
    (((v + 1) % 256) as u8, flags_byte((v + 1) % 256 == 0, false, v % 16 == 15, flag_c(f)))
}

/// DEC of an 8-bit value: the carry flag is kept.
pub open spec fn dec_spec(v: u8, f: u8) -> (u8, u8) {
    (((v + 255) % 256) as u8, flags_byte((v + 255) % 256 == 0, true, v % 16 == 0, flag_c(f)))
}

pub fn inc8(v: u8, f: u8) -> (r: (u8, u8))
    ensures
        r == inc_spec(v, f),
        r.1 % 16 == 0,
{
    let r = ((v as u16 + 1) % 256) as u8;
    (r, make_flags(r == 0, false, v % 16 == 15, get_carry(f)))
}

pub fn dec8(v: u8, f: u8) -> (r: (u8, u8))
    ensures
        r == dec_spec(v, f),
        r.1 % 16 == 0,
{
    let r = ((v as u16 + 255) % 256) as u8;
    (r, make_flags(r == 0, true, v % 16 == 0, get_carry(f)))
}

/// The result and flags of CB-prefixed shift operation `op` (RLC, RRC, RL,
/// RR, SLA, SRA, SWAP, SRL) on `v`.
pub open spec fn shift_spec(op: u8, v: u8, f: u8) -> (u8, u8) {
    let cin: int = if flag_c(f) { 1 } else { 0 };
    let (r, c): (int, bool) = if op == 0 {
        ((v * 2) % 256 + v / 128, v >= 128)
    } else if op == 1 {
        (v / 2 + (v % 2) * 128, v % 2 == 1)
    } else if op == 2 {
        ((v * 2) % 256 + cin, v >= 128)
    } else if op == 3 {
        (v / 2 + cin * 128, v % 2 == 1)
    } else if op == 4 {
        ((v * 2) % 256, v >= 128)
    } else if op == 5 {
        (v / 2 + (v / 128) * 128, v % 2 == 1)
    } else if op == 6 {
        ((v % 16) * 16 + v / 16, false)
    } else {
        ((v / 2) as int, v % 2 == 1)
    };
    (r as u8, flags_byte(r == 0, false, false, c))
}

pub fn shift_op(op: u8, v: u8, f: u8) -> (r: (u8, u8))
    requires
        op < 8,
    ensures
        r == shift_spec(op, v, f),
        r.1 % 16 == 0,
{
    let cin: u16 = if get_carry(f) { 1 } else { 0 };
    let w = v as u16;
    let (r, c): (u16, bool) = if op == 0 {
        ((w * 2) % 256 + w / 128, v >= 128)
    } else if op == 1 {
        (w / 2 + (w % 2) * 128, v % 2 == 1)
    } else if op == 2 {
        ((w * 2) % 256 + cin, v >= 128)
    } else if op == 3 {
        (w / 2 + cin * 128, v % 2 == 1)
    } else if op == 4 {
        ((w * 2) % 256, v >= 128)
    } else if op == 5 {
        (w / 2 + (w / 128) * 128, v % 2 == 1)
    } else if op == 6 {
        ((w % 16) * 16 + w / 16, false)
    } else {
        (w / 2, v % 2 == 1)
    };
    (r as u8, make_flags(r == 0, false, false, c))
}

/// DAA: adjusts A to binary coded decimal after an addition or subtraction.
pub open spec fn daa_spec(a: u8, f: u8) -> (u8, u8) {
    let n = flag_n(f);
    let h = flag_h(f);
    let c = flag_c(f);
    if !n {
        let c2 = c || a > 0x99;
        let a1: int = if c2 { a + 0x60 } else { a as int };
        let a2: int = if h || a % 16 > 9 { a1 + 0x06 } else { a1 };
        ((a2 % 256) as u8, flags_byte(a2 % 256 == 0, false, false, c2))
    } else {
        let a1: int = if c { a - 0x60 + 256 } else { a as int };
        let a2: int = if h { a1 - 0x06 + 256 } else { a1 };
        ((a2 % 256) as u8, flags_byte(a2 % 256 == 0, true, false, c))
    }
}

pub fn daa(a: u8, f: u8) -> (r: (u8, u8))
    ensures
        r == daa_spec(a, f),
        r.1 % 16 == 0,
{
    let n = (f / 64) % 2 == 1;
    let h = (f / 32) % 2 == 1;
    let c = get_carry(f);
    if !n {
        let c2 = c || a > 0x99;
        let a1: u16 = if c2 { a as u16 + 0x60 } else { a as u16 };
        let a2: u16 = if h || a % 16 > 9 { a1 + 0x06 } else { a1 };
        ((a2 % 256) as u8, make_flags(a2 % 256 == 0, false, false, c2))
    } else {
        let a1: u16 = if c { a as u16 + 256 - 0x60 } else { a as u16 };
        let a2: u16 = if h { a1 + 256 - 0x06 } else { a1 };
        ((a2 % 256) as u8, make_flags(a2 % 256 == 0, true, false, c))
    }
}

/// ADD HL,rr: Z is kept, H is the carry out of bit 11 and C out of bit 15.
pub open spec fn add_hl_spec(hl: u16, v: u16, f: u8) -> (u16, u8) {
    (((hl + v) % 65536) as u16, flags_byte(flag_z(f), false, hl % 4096 + v % 4096 > 4095, hl + v > 65535))
}

pub fn add_hl(hl: u16, v: u16, f: u8) -> (r: (u16, u8))
    ensures
        r == add_hl_spec(hl, v, f),
        r.1 % 16 == 0,
{
    let sum = hl as u32 + v as u32;
    (((sum % 65536) as u16), make_flags((f / 128) % 2 == 1, false, hl % 4096 + v % 4096 > 4095, sum > 65535))
}

/// SP plus a signed 8-bit offset, as ADD SP,r8 and LD HL,SP+r8 compute it:
/// H and C are the carries out of bits 3 and 7 of the low byte.
pub open spec fn sp_offset_spec(sp: u16, e: u8) -> (u16, u8) {
    let offset: int = if e >= 128 { e - 256 } else { e as int };
    (((sp + offset + 65536) % 65536) as u16, flags_byte(false, false, sp % 16 + e % 16 > 15, sp % 256 + e > 255))
}

pub fn sp_offset(sp: u16, e: u8) -> (r: (u16, u8))
    ensures
        r == sp_offset_spec(sp, e),
        r.1 % 16 == 0,
{
    let sum: u32 = if e >= 128 { sp as u32 + e as u32 + 65536 - 256 } else { sp as u32 + e as u32 };
    ((sum % 65536) as u16, make_flags(false, false, sp % 16 + (e % 16) as u16 > 15, sp % 256 + e as u16 > 255))
}

/// The CPU's registers.
#[derive(Clone, Copy, PartialEq, Eq, Structural, Debug)]
pub struct Registers {
    pub a: u8,
    pub f: u8,
    pub b: u8,
    pub c: u8,
    pub d: u8,
    pub e: u8,
    pub h: u8,
    pub l: u8,
    pub sp: u16,
    pub pc: u16,
}

/// The 16-bit value of a register pair.
pub open spec fn pair(high: u8, low: u8) -> u16 {
    (high * 256 + low) as u16
}


/// Register `i` in the usual operand order B, C, D, E, H, L, -, A.
pub open spec fn reg_spec(r: Registers, i: u8) -> u8 {
    if i == 0 { r.b } else if i == 1 { r.c } else if i == 2 { r.d } else if i == 3 { r.e }
    else if i == 4 { r.h } else if i == 5 { r.l } else { r.a }
}

/// The registers with register `i` (not 6) set to `v`.
pub open spec fn with_reg(r: Registers, i: u8, v: u8) -> Registers {
    if i == 0 { Registers { b: v, ..r } } else if i == 1 { Registers { c: v, ..r } }
    else if i == 2 { Registers { d: v, ..r } } else if i == 3 { Registers { e: v, ..r } }
    else if i == 4 { Registers { h: v, ..r } } else if i == 5 { Registers { l: v, ..r } }
    else { Registers { a: v, ..r } }
}

/// The PPU, timer and serial port of `a` and `b` are in the same state:
/// the CPU alone does not advance them.
pub open spec fn same_clocks(a: Mmu, b: Mmu) -> bool {
    &&& a.peripherals.ppu == b.peripherals.ppu
    &&& a.peripherals.timer == b.peripherals.timer
    &&& a.peripherals.serial == b.peripherals.serial
}

/// The interrupts both requested and enabled.
pub open spec fn pending_spec(m: Mmu) -> u8 {
    m.peripherals.mem@[MEMORY_LOCATION_INTERRUPTS_ENABLED as int] & m.peripherals.mem@[MEMORY_LOCATION_INTERRUPTS_FLAGGED as int] & 0x1f
}

/// The CPU: registers, interrupt master enable, HALT and STOP state, and
/// the memory bus it owns.
#[derive(Clone)]
pub struct Cpu {
    pub regs: Registers,
    /// The interrupt master enable.
    pub ime: bool,
    /// Set by HALT until an interrupt is pending.
    pub halted: bool,
    /// Set by STOP until a button is pressed.
    pub stopped: bool,
    /// Set by EI: IME turns on after the next instruction.
    pub ei_pending: bool,
    /// Set when HALT ran with IME off and an interrupt pending: the next
    /// opcode byte is read without moving PC.
    pub halt_bug: bool,
    /// Set by an invalid opcode: the CPU stays stopped.
    pub locked: bool,
    pub mmu: Mmu,
}

/// What one CPU step did: the T-cycles it took, and whether it hit an invalid opcode.
pub struct StepResult {
    pub cycles: u64,
    pub invalid_opcode: bool,
}

impl Cpu {
    /// The invariant of the CPU: F's low four bits are 0 and the bus is well formed.
    pub open spec fn wf(&self) -> bool {
        self.regs.f % 16 == 0 && self.mmu.wf()
    }

    /// Creates a CPU with all registers 0, attached to `mmu`.
    pub fn new(mmu: Mmu) -> (r: Cpu)
        ensures
            r.regs == (Registers { a: 0, f: 0, b: 0, c: 0, d: 0, e: 0, h: 0, l: 0, sp: 0, pc: 0 }),
            !r.ime && !r.halted && !r.stopped && !r.ei_pending && !r.halt_bug && !r.locked,
            r.mmu == mmu,
    {
        Cpu {
            regs: Registers { a: 0, f: 0, b: 0, c: 0, d: 0, e: 0, h: 0, l: 0, sp: 0, pc: 0 },
            ime: false,
            halted: false,
            stopped: false,
            ei_pending: false,
            halt_bug: false,
            locked: false,
            mmu,
        }
    }

    /// Whether the CPU executes instructions (it is not halted, stopped or locked).
    pub fn is_running(&self) -> (r: bool)
        ensures
            r == (!self.halted && !self.stopped && !self.locked),
    {
        !self.halted && !self.stopped && !self.locked
    }

    /// Get the memory bus.
    pub fn get_mmu(&self) -> (r: &Mmu)
        ensures
            *r == self.mmu,
    {
        &self.mmu
    }

    /// Get the memory bus.
    pub fn get_mmu_mut(&mut self) -> (r: &mut Mmu)
        ensures
            *r == old(self).mmu,
            *final(self) == (Cpu { mmu: *final(r), ..*old(self) }),
    {
        &mut self.mmu
    }

    /// Sets PC.
    pub fn set_instruction_pointer(&mut self, pc: u16)
        ensures
            *final(self) == (Cpu { regs: Registers { pc, ..old(self).regs }, ..*old(self) }),
    {
        self.regs.pc = pc;
    }

    /// Sets SP.
    pub fn set_stack_pointer(&mut self, sp: u16)
        ensures
            *final(self) == (Cpu { regs: Registers { sp, ..old(self).regs }, ..*old(self) }),
    {
        self.regs.sp = sp;
    }

    /// Sets register `i` (0..7 but 6, in the order B, C, D, E, H, L, -, A).
    pub fn set_r8(&mut self, i: u8, v: u8)
        requires
            i < 8,
            i != 6,
        ensures
            *final(self) == (Cpu { regs: with_reg(old(self).regs, i, v), ..*old(self) }),
    {
        if i == 0 { self.regs.b = v; } else if i == 1 { self.regs.c = v; }
        else if i == 2 { self.regs.d = v; } else if i == 3 { self.regs.e = v; }
        else if i == 4 { self.regs.h = v; } else if i == 5 { self.regs.l = v; }
        else { self.regs.a = v; }
    }

    /// Register `i` (not 6).
    pub fn get_r8(&self, i: u8) -> (r: u8)
        requires
            i < 8,
            i != 6,
        ensures
            r == reg_spec(self.regs, i),
    {
        if i == 0 { self.regs.b } else if i == 1 { self.regs.c } else if i == 2 { self.regs.d }
        else if i == 3 { self.regs.e } else if i == 4 { self.regs.h } else if i == 5 { self.regs.l }
        else { self.regs.a }
    }

    fn hl(&self) -> (r: u16)
        ensures
            r == pair(self.regs.h, self.regs.l),
    {
        self.regs.h as u16 * 256 + self.regs.l as u16
    }

    /// Operand `i`: a register, or for 6 the byte at HL.
    fn read_operand(&self, i: u8) -> (r: u8)
        requires
            self.wf(),
            i < 8,
        ensures
            i != 6 ==> r == reg_spec(self.regs, i),
            i == 6 ==> r == self.mmu.read_spec(pair(self.regs.h, self.regs.l)),
    {
        if i == 6 {
            let hl = self.hl();
            self.mmu.read_u8(hl)
        } else {
            self.get_r8(i)
        }
    }

    /// Writes operand `i`: a register, or for 6 the byte at HL.
    fn write_operand(&mut self, i: u8, v: u8)
        requires
            old(self).wf(),
            i < 8,
        ensures
            final(self).wf(),
            same_clocks(final(self).mmu, old(self).mmu),
            i != 6 ==> *final(self) == (Cpu { regs: with_reg(old(self).regs, i, v), ..*old(self) }),
            i == 6 ==> final(self).regs == old(self).regs,
            final(self).ime == old(self).ime && final(self).halted == old(self).halted
                && final(self).stopped == old(self).stopped && final(self).locked == old(self).locked,
    {
        if i == 6 {
            let hl = self.hl();
            self.mmu.write_u8(hl, v);
        } else {
            self.set_r8(i, v);
        }
    }

    /// Reads the byte at PC and moves PC on, except right after the HALT bug.
    fn fetch_u8(&mut self) -> (r: u8)
        requires
            old(self).wf(),
        ensures
            final(self).wf(),
            same_clocks(final(self).mmu, old(self).mmu),
            r == old(self).mmu.read_spec(old(self).regs.pc),
            final(self).mmu == old(self).mmu,
            !final(self).halt_bug,
            final(self).regs == (Registers {
                pc: if old(self).halt_bug { old(self).regs.pc } else { ((old(self).regs.pc + 1) % 65536) as u16 },
                ..old(self).regs
            }),
            final(self).ime == old(self).ime && final(self).halted == old(self).halted
                && final(self).stopped == old(self).stopped && final(self).locked == old(self).locked
                && final(self).ei_pending == old(self).ei_pending,
    {
        let v = self.mmu.read_u8(self.regs.pc);
        if self.halt_bug {
            self.halt_bug = false;
        } else {
            self.regs.pc = self.regs.pc.wrapping_add(1);
        }
        v
    }

    fn fetch_u16(&mut self) -> (r: u16)
        requires
            old(self).wf(),
        ensures
            final(self).wf(),
            same_clocks(final(self).mmu, old(self).mmu),
            final(self).mmu == old(self).mmu,
            final(self).regs.a == old(self).regs.a && final(self).regs.f == old(self).regs.f
                && final(self).regs.b == old(self).regs.b && final(self).regs.c == old(self).regs.c
                && final(self).regs.d == old(self).regs.d && final(self).regs.e == old(self).regs.e
                && final(self).regs.h == old(self).regs.h && final(self).regs.l == old(self).regs.l
                && final(self).regs.sp == old(self).regs.sp,
            final(self).ime == old(self).ime && final(self).halted == old(self).halted
                && final(self).stopped == old(self).stopped && final(self).locked == old(self).locked
                && final(self).ei_pending == old(self).ei_pending,
    {
        let low = self.fetch_u8();
        let high = self.fetch_u8();
        high as u16 * 256 + low as u16
    }

    /// Pushes `v` onto the stack: high byte at SP-1, low byte at SP-2.
    fn push_u16(&mut self, v: u16)
        requires
            old(self).wf(),
        ensures
            final(self).wf(),
            same_clocks(final(self).mmu, old(self).mmu),
            final(self).regs == (Registers { sp: ((old(self).regs.sp + 65534) % 65536) as u16, ..old(self).regs }),
            final(self).ime == old(self).ime && final(self).halted == old(self).halted
                && final(self).stopped == old(self).stopped && final(self).locked == old(self).locked
                && final(self).ei_pending == old(self).ei_pending && final(self).halt_bug == old(self).halt_bug,
    {
        self.regs.sp = self.regs.sp.wrapping_sub(1);
        self.mmu.write_u8(self.regs.sp, (v / 256) as u8);
        self.regs.sp = self.regs.sp.wrapping_sub(1);
        self.mmu.write_u8(self.regs.sp, (v % 256) as u8);
    }

    /// Pops a 16-bit value from the stack.
    fn pop_u16(&mut self) -> (r: u16)
        requires
            old(self).wf(),
        ensures
            final(self).wf(),
            same_clocks(final(self).mmu, old(self).mmu),
            final(self).mmu == old(self).mmu,
            final(self).regs == (Registers { sp: ((old(self).regs.sp + 2) % 65536) as u16, ..old(self).regs }),
            final(self).ime == old(self).ime && final(self).halted == old(self).halted
                && final(self).stopped == old(self).stopped && final(self).locked == old(self).locked
                && final(self).ei_pending == old(self).ei_pending && final(self).halt_bug == old(self).halt_bug,
    {
        let low = self.mmu.read_u8(self.regs.sp);
        self.regs.sp = self.regs.sp.wrapping_add(1);
        let high = self.mmu.read_u8(self.regs.sp);
        self.regs.sp = self.regs.sp.wrapping_add(1);
        high as u16 * 256 + low as u16
    }

    /// The interrupts both requested (IF) and enabled (IE).
    pub fn pending_interrupts(&self) -> (r: u8)
        requires
            self.wf(),
        ensures
            r == pending_spec(self.mmu),
            r < 32,
    {
        let enabled = self.mmu.peripherals.mem.get(MEMORY_LOCATION_INTERRUPTS_ENABLED);
        let flagged = self.mmu.peripherals.mem.get(MEMORY_LOCATION_INTERRUPTS_FLAGGED);
        let r = enabled & flagged & 0x1f;
        assert(r < 32) by (bit_vector)
            requires
                r == enabled & flagged & 0x1fu8,
        ;
        r
    }

    /// Dispatches the highest-priority pending interrupt when IME is set:
    /// clears IME and the interrupt's IF bit, pushes PC and jumps to the
    /// interrupt's vector, taking 20 cycles. Otherwise changes nothing.
    pub fn handle_interrupts(&mut self) -> (r: Option<u64>)
        requires
            old(self).wf(),
        ensures
            final(self).wf(),
            same_clocks(final(self).mmu, old(self).mmu),
            (old(self).ime && pending_spec(old(self).mmu) != 0) ==> r == Some(20u64) && dispatch_effect(*old(self), *final(self)),
            !(old(self).ime && pending_spec(old(self).mmu) != 0) ==> r.is_none() && *final(self) == *old(self),
    {
        let pending = self.pending_interrupts();
        if !self.ime || pending == 0 {
            return None;
        }
        let bit = lowest_set_bit(pending);
        self.ime = false;
        let flagged = self.mmu.peripherals.mem.get(MEMORY_LOCATION_INTERRUPTS_FLAGGED);
        let cleared = flagged & !(1u8 << bit);
        self.mmu.peripherals.mem.set(MEMORY_LOCATION_INTERRUPTS_FLAGGED, cleared);
        let pc = self.regs.pc;
        self.push_u16(pc);
        self.regs.pc = 0x40 + 8 * bit as u16;
        Some(20)
    }
}

/// What executing the instruction at PC does, as far as stated: the opcode
/// byte is fetched (twice after the HALT bug), invalid opcodes lock the CPU,
/// and NOP, HALT, LD r,r', LD r,d8, INC/DEC r, the ALU on registers, DI and EI act
/// on the registers as the instruction set defines.
pub open spec fn execute_effect(old: Cpu, new: Cpu, r: StepResult) -> bool {
    &&& 4 <= r.cycles <= 24
    &&& ({
        let op = old.mmu.read_spec(old.regs.pc);
        let next_pc = if old.halt_bug { old.regs.pc } else { pc_plus_one(old.regs.pc) };
        let fetched = Registers { pc: next_pc, ..old.regs };
        &&& r.invalid_opcode == is_invalid_opcode(op)
        &&& r.invalid_opcode ==> new.locked
        &&& op == 0x00 ==> new.regs == fetched && new.mmu == old.mmu && r.cycles == 4
        &&& op == 0x76 ==> new.regs == fetched
        &&& op == 0x76 && !old.ime && !old.ei_pending && pending_spec(old.mmu) != 0 ==> new.halt_bug && !new.halted
        &&& op == 0x76 && !(!old.ime && pending_spec(old.mmu) != 0) ==> new.halted
        &&& 0x40 <= op < 0x80 && op != 0x76 && op / 8 % 8 != 6 && op % 8 != 6 ==> new.regs
            == with_reg(fetched, op / 8 % 8, reg_spec(old.regs, op % 8))
        &&& op < 0x40 && op % 8 == 4 && op != 0x34 ==> new.regs == inc_dec_regs(fetched, op / 8, false)
        &&& op < 0x40 && op % 8 == 5 && op != 0x35 ==> new.regs == inc_dec_regs(fetched, op / 8, true)
        &&& 0x80 <= op < 0xc0 && op % 8 != 6 ==> new.regs == (Registers {
            a: alu_spec(op / 8 % 8, old.regs.a, reg_spec(old.regs, op % 8), old.regs.f).0,
            f: alu_spec(op / 8 % 8, old.regs.a, reg_spec(old.regs, op % 8), old.regs.f).1,
            ..fetched
        })
        &&& op < 0x40 && op % 8 == 6 && op != 0x36 ==> new.regs == with_reg(
            Registers { pc: pc_plus_one(next_pc), ..old.regs },
            op / 8,
            old.mmu.read_spec(next_pc),
        )
        &&& old.ei_pending && op != 0xf3 ==> new.ime
        &&& op == 0xf3 ==> !new.ime
    })
}

/// What dispatching an interrupt does: IME off, the return address pushed,
/// PC at the vector of the lowest pending interrupt; other registers kept.
pub open spec fn dispatch_effect(old: Cpu, new: Cpu) -> bool {
    &&& !new.ime
    &&& new.regs == (Registers {
        pc: (0x40 + 8 * lowest_bit(pending_spec(old.mmu))) as u16,
        sp: ((old.regs.sp + 65534) % 65536) as u16,
        ..old.regs
    })
    &&& new.halted == old.halted && new.stopped == old.stopped && new.locked == old.locked
}

/// The index of the lowest set bit of `v` among bits 0..4; 5 when none is set.
pub open spec fn lowest_bit(v: u8) -> u8 {
    if (v / 1) % 2 == 1 { 0 } else if (v / 2) % 2 == 1 { 1 } else if (v / 4) % 2 == 1 { 2 }
    else if (v / 8) % 2 == 1 { 3 } else if (v / 16) % 2 == 1 { 4 } else { 5 }
}

fn lowest_set_bit(v: u8) -> (r: u8)
    requires
        v != 0,
        v < 32,
    ensures
        r == lowest_bit(v),
        r < 5,
{
    if (v / 1) % 2 == 1 { 0 } else if (v / 2) % 2 == 1 { 1 } else if (v / 4) % 2 == 1 { 2 }
    else if (v / 8) % 2 == 1 { 3 } else { 4 }
}


/// The opcodes that the base table leaves undefined.
pub open spec fn is_invalid_opcode(op: u8) -> bool {
    op == 0xd3 || op == 0xdb || op == 0xdd || op == 0xe3 || op == 0xe4 || op == 0xeb || op == 0xec
        || op == 0xed || op == 0xf4 || op == 0xfc || op == 0xfd
}

/// PC after `pc` moves on by one byte.
pub open spec fn pc_plus_one(pc: u16) -> u16 {
    ((pc + 1) % 65536) as u16
}

/// The registers after INC or DEC of register `i` (not 6).
pub open spec fn inc_dec_regs(r: Registers, i: u8, dec: bool) -> Registers {
    let (v, f) = if dec { dec_spec(reg_spec(r, i), r.f) } else { inc_spec(reg_spec(r, i), r.f) };
    Registers { f, ..with_reg(r, i, v) }
}

impl Cpu {
    /// Register pair `p`: BC, DE, HL, SP.
    fn get_rr(&self, p: u8) -> (r: u16)
        requires
            p < 4,
    {
        if p == 0 {
            self.regs.b as u16 * 256 + self.regs.c as u16
        } else if p == 1 {
            self.regs.d as u16 * 256 + self.regs.e as u16
        } else if p == 2 {
            self.regs.h as u16 * 256 + self.regs.l as u16
        } else {
            self.regs.sp
        }
    }

    /// Sets register pair `p`: BC, DE, HL, SP.
    fn set_rr(&mut self, p: u8, v: u16)
        requires
            old(self).wf(),
            p < 4,
        ensures
            final(self).wf(),
            same_clocks(final(self).mmu, old(self).mmu),
            final(self).regs.a == old(self).regs.a,
            final(self).regs.f == old(self).regs.f,
            final(self).regs.pc == old(self).regs.pc,
            final(self).mmu == old(self).mmu,
            final(self).ime == old(self).ime && final(self).halted == old(self).halted
                && final(self).stopped == old(self).stopped && final(self).locked == old(self).locked
                && final(self).ei_pending == old(self).ei_pending && final(self).halt_bug == old(self).halt_bug,
    {
        let high = (v / 256) as u8;
        let low = (v % 256) as u8;
        if p == 0 {
            self.regs.b = high;
            self.regs.c = low;
        } else if p == 1 {
            self.regs.d = high;
            self.regs.e = low;
        } else if p == 2 {
            self.regs.h = high;
            self.regs.l = low;
        } else {
            self.regs.sp = v;
        }
    }

    /// Condition `cc`: NZ, Z, NC, C.
    fn condition(&self, cc: u8) -> (r: bool)
        requires
            cc < 4,
    {
        let f = self.regs.f;
        if cc == 0 {
            (f / 128) % 2 == 0
        } else if cc == 1 {
            (f / 128) % 2 == 1
        } else if cc == 2 {
            (f / 16) % 2 == 0
        } else {
            (f / 16) % 2 == 1
        }
    }

    /// Jumps relative to PC by the signed offset `e`.
    fn jump_relative(&mut self, e: u8)
        ensures
            *final(self) == (Cpu {
                regs: Registers {
                    pc: (if e >= 128 { (old(self).regs.pc + e + 65536 - 256) % 65536 } else { (old(self).regs.pc + e) % 65536 }) as u16,
                    ..old(self).regs
                },
                ..*old(self)
            }),
    {
        if e >= 128 {
            self.regs.pc = self.regs.pc.wrapping_sub(256 - e as u16);
        } else {
            self.regs.pc = self.regs.pc.wrapping_add(e as u16);
        }
    }

    /// Executes the control opcodes of column 0 (NOP, LD (a16),SP, STOP, JR).
    fn exec_b0_column0(&mut self, y: u8) -> (r: u64)
        requires
            old(self).wf(),
            y < 8,
        ensures
            final(self).wf(),
            same_clocks(final(self).mmu, old(self).mmu),
            4 <= r <= 20,
            final(self).ime == old(self).ime && final(self).halted == old(self).halted
                && final(self).locked == old(self).locked,
            y != 2 ==> final(self).stopped == old(self).stopped,
            y == 0 ==> *final(self) == *old(self) && r == 4,
    {
        if y == 0 {
            4
        } else if y == 1 {
            let address = self.fetch_u16();
            let sp = self.regs.sp;
            self.mmu.write_u8(address, (sp % 256) as u8);
            self.mmu.write_u8(address.wrapping_add(1), (sp / 256) as u8);
            20
        } else if y == 2 {
            let _ = self.fetch_u8();
            self.stopped = true;
            4
        } else if y == 3 {
            let e = self.fetch_u8();
            self.jump_relative(e);
            12
        } else {
            let e = self.fetch_u8();
            if self.condition(y - 4) {
                self.jump_relative(e);
                12
            } else {
                8
            }
        }
    }

    /// Executes the 16-bit loads and arithmetic of columns 1..3.
    fn exec_b0_pairs(&mut self, y: u8, z: u8) -> (r: u64)
        requires
            old(self).wf(),
            y < 8,
            1 <= z <= 3,
        ensures
            final(self).wf(),
            same_clocks(final(self).mmu, old(self).mmu),
            8 <= r <= 12,
            final(self).ime == old(self).ime && final(self).halted == old(self).halted
                && final(self).locked == old(self).locked && final(self).stopped == old(self).stopped,
    {
        let p = y / 2;
        let q = y % 2;
        if z == 1 {
            if q == 0 {
                let v = self.fetch_u16();
                self.set_rr(p, v);
                12
            } else {
                let hl = self.get_rr(2);
                let v = self.get_rr(p);
                let (sum, f) = add_hl(hl, v, self.regs.f);
                self.set_rr(2, sum);
                self.regs.f = f;
                8
            }
        } else if z == 2 {
            let address = if p == 0 { self.get_rr(0) } else if p == 1 { self.get_rr(1) } else { self.get_rr(2) };
            if q == 0 {
                let a = self.regs.a;
                self.mmu.write_u8(address, a);
            } else {
                let v = self.mmu.read_u8(address);
                self.regs.a = v;
            }
            if p == 2 {
                self.set_rr(2, address.wrapping_add(1));
            } else if p == 3 {
                self.set_rr(2, address.wrapping_sub(1));
            }
            8
        } else {
            let v = self.get_rr(p);
            if q == 0 {
                self.set_rr(p, v.wrapping_add(1));
            } else {
                self.set_rr(p, v.wrapping_sub(1));
            }
            8
        }
    }

    /// Executes INC r, DEC r and LD r,d8 (columns 4..6).
    fn exec_b0_single(&mut self, y: u8, z: u8) -> (r: u64)
        requires
            old(self).wf(),
            !old(self).halt_bug,
            y < 8,
            4 <= z <= 6,
        ensures
            final(self).wf(),
            same_clocks(final(self).mmu, old(self).mmu),
            4 <= r <= 12,
            final(self).ime == old(self).ime && final(self).halted == old(self).halted
                && final(self).locked == old(self).locked && final(self).stopped == old(self).stopped,
            z == 4 && y != 6 ==> final(self).regs == inc_dec_regs(old(self).regs, y, false) && r == 4,
            z == 5 && y != 6 ==> final(self).regs == inc_dec_regs(old(self).regs, y, true) && r == 4,
            z == 6 && y != 6 ==> final(self).regs == with_reg(
                Registers { pc: pc_plus_one(old(self).regs.pc), ..old(self).regs },
                y,
                old(self).mmu.read_spec(old(self).regs.pc),
            ) && r == 8,
    {
        if z == 4 || z == 5 {
            let v = self.read_operand(y);
            let (result, f) = if z == 4 { inc8(v, self.regs.f) } else { dec8(v, self.regs.f) };
            self.write_operand(y, result);
            self.regs.f = f;
            if y == 6 { 12 } else { 4 }
        } else {
            let v = self.fetch_u8();
            self.write_operand(y, v);
            if y == 6 { 12 } else { 8 }
        }
    }

    /// Executes the accumulator opcodes of column 7 (rotates, DAA, CPL, SCF, CCF).
    fn exec_b0_accumulator(&mut self, y: u8) -> (r: u64)
        requires
            old(self).wf(),
            y < 8,
        ensures
            final(self).wf(),
            same_clocks(final(self).mmu, old(self).mmu),
            r == 4,
            final(self).mmu == old(self).mmu,
            final(self).ime == old(self).ime && final(self).halted == old(self).halted
                && final(self).locked == old(self).locked && final(self).stopped == old(self).stopped,
    {
        let a = self.regs.a;
        let f = self.regs.f;
        if y < 4 {
            let (result, flags) = shift_op(y, a, f);
            self.regs.a = result;
            self.regs.f = make_flags(false, false, false, get_carry(flags));
        } else if y == 4 {
            let (result, flags) = daa(a, f);
            self.regs.a = result;
            self.regs.f = flags;
        } else if y == 5 {
            self.regs.a = 255 - a;
            self.regs.f = make_flags((f / 128) % 2 == 1, true, true, get_carry(f));
        } else if y == 6 {
            self.regs.f = make_flags((f / 128) % 2 == 1, false, false, true);
        } else {
            self.regs.f = make_flags((f / 128) % 2 == 1, false, false, !get_carry(f));
        }
        4
    }

    /// Executes opcodes 0x00..0x3f; returns the cycles taken.
    fn exec_block0(&mut self, op: u8) -> (r: u64)
        requires
            old(self).wf(),
            !old(self).halt_bug,
            op < 0x40,
        ensures
            final(self).wf(),
            same_clocks(final(self).mmu, old(self).mmu),
            4 <= r <= 20,
            final(self).locked == old(self).locked,
            final(self).ime == old(self).ime,
            final(self).halted == old(self).halted,
            op != 0x10 ==> final(self).stopped == old(self).stopped,
            op == 0 ==> *final(self) == *old(self) && r == 4,
            op % 8 == 4 && op != 0x34 ==> final(self).regs == inc_dec_regs(old(self).regs, op / 8, false) && r == 4,
            op % 8 == 5 && op != 0x35 ==> final(self).regs == inc_dec_regs(old(self).regs, op / 8, true) && r == 4,
            op % 8 == 6 && op != 0x36 ==> final(self).regs == with_reg(
                Registers { pc: pc_plus_one(old(self).regs.pc), ..old(self).regs },
                op / 8,
                old(self).mmu.read_spec(old(self).regs.pc),
            ) && r == 8,
    {
        let y = op / 8;
        let z = op % 8;
        if z == 0 {
            self.exec_b0_column0(y)
        } else if z <= 3 {
            self.exec_b0_pairs(y, z)
        } else if z <= 6 {
            self.exec_b0_single(y, z)
        } else {
            self.exec_b0_accumulator(y)
        }
    }

    /// Executes LD r,r' (opcodes 0x40..0x7f but HALT).
    fn exec_load(&mut self, op: u8) -> (r: u64)
        requires
            old(self).wf(),
            0x40 <= op < 0x80,
            op != 0x76,
        ensures
            final(self).wf(),
            same_clocks(final(self).mmu, old(self).mmu),
            4 <= r <= 8,
            final(self).ime == old(self).ime && final(self).halted == old(self).halted
                && final(self).locked == old(self).locked && final(self).stopped == old(self).stopped,
            op / 8 % 8 != 6 && op % 8 != 6 ==> final(self).regs == with_reg(old(self).regs, op / 8 % 8,
                reg_spec(old(self).regs, op % 8)),
    {
        let dst = (op / 8) % 8;
        let src = op % 8;
        let v = self.read_operand(src);
        self.write_operand(dst, v);
        if dst == 6 || src == 6 { 8 } else { 4 }
    }

    /// Executes the ALU operations on A (opcodes 0x80..0xbf).
    fn exec_alu(&mut self, op: u8) -> (r: u64)
        requires
            old(self).wf(),
            0x80 <= op < 0xc0,
        ensures
            final(self).wf(),
            same_clocks(final(self).mmu, old(self).mmu),
            4 <= r <= 8,
            final(self).ime == old(self).ime && final(self).halted == old(self).halted
                && final(self).locked == old(self).locked && final(self).stopped == old(self).stopped,
            final(self).mmu == old(self).mmu,
            op % 8 != 6 ==> final(self).regs == (Registers {
                a: alu_spec(op / 8 % 8, old(self).regs.a, reg_spec(old(self).regs, op % 8), old(self).regs.f).0,
                f: alu_spec(op / 8 % 8, old(self).regs.a, reg_spec(old(self).regs, op % 8), old(self).regs.f).1,
                ..old(self).regs
            }),
    {
        let v = self.read_operand(op % 8);
        let (a, f) = alu((op / 8) % 8, self.regs.a, v, self.regs.f);
        self.regs.a = a;
        self.regs.f = f;
        if op % 8 == 6 { 8 } else { 4 }
    }

    /// Executes a CB-prefixed opcode: shifts, BIT, RES and SET.
    fn exec_cb(&mut self) -> (r: u64)
        requires
            old(self).wf(),
        ensures
            final(self).wf(),
            same_clocks(final(self).mmu, old(self).mmu),
            8 <= r <= 16,
            final(self).ime == old(self).ime && final(self).halted == old(self).halted
                && final(self).locked == old(self).locked && final(self).stopped == old(self).stopped,
    {
        let op = self.fetch_u8();
        let x = op / 64;
        let y = (op / 8) % 8;
        let z = op % 8;
        let v = self.read_operand(z);
        if x == 0 {
            let (result, f) = shift_op(y, v, self.regs.f);
            self.write_operand(z, result);
            self.regs.f = f;
            if z == 6 { 16 } else { 8 }
        } else if x == 1 {
            let zero = (v >> y) & 1 == 0;
            let f = self.regs.f;
            self.regs.f = make_flags(zero, false, true, get_carry(f));
            if z == 6 { 12 } else { 8 }
        } else {
            let result = if x == 2 { v & !(1u8 << y) } else { v | (1u8 << y) };
            self.write_operand(z, result);
            if z == 6 { 16 } else { 8 }
        }
    }

    /// Executes the returns, high-page loads and SP arithmetic of column 0.
    fn exec_b3_column0(&mut self, y: u8) -> (r: u64)
        requires
            old(self).wf(),
            y < 8,
        ensures
            final(self).wf(),
            same_clocks(final(self).mmu, old(self).mmu),
            8 <= r <= 20,
            final(self).ime == old(self).ime && final(self).halted == old(self).halted
                && final(self).locked == old(self).locked && final(self).stopped == old(self).stopped,
    {
        if y < 4 {
            if self.condition(y) {
                let pc = self.pop_u16();
                self.regs.pc = pc;
                20
            } else {
                8
            }
        } else if y == 4 || y == 6 {
            let n = self.fetch_u8();
            let address = 0xff00 + n as u16;
            if y == 4 {
                let a = self.regs.a;
                self.mmu.write_u8(address, a);
            } else {
                let v = self.mmu.read_u8(address);
                self.regs.a = v;
            }
            12
        } else {
            let e = self.fetch_u8();
            let (v, f) = sp_offset(self.regs.sp, e);
            if y == 5 {
                self.regs.sp = v;
                self.regs.f = f;
                16
            } else {
                self.set_rr(2, v);
                self.regs.f = f;
                12
            }
        }
    }

    /// Executes POP, RET, RETI, JP HL and LD SP,HL (column 1).
    fn exec_b3_column1(&mut self, y: u8) -> (r: u64)
        requires
            old(self).wf(),
            y < 8,
        ensures
            final(self).wf(),
            same_clocks(final(self).mmu, old(self).mmu),
            4 <= r <= 16,
            final(self).halted == old(self).halted && final(self).locked == old(self).locked
                && final(self).stopped == old(self).stopped,
            y != 3 ==> final(self).ime == old(self).ime,
    {
        let p = y / 2;
        let q = y % 2;
        if q == 0 {
            let v = self.pop_u16();
            if p == 3 {
                self.regs.a = (v / 256) as u8;
                self.regs.f = ((v % 256) / 16 * 16) as u8;
            } else {
                self.set_rr(p, v);
            }
            12
        } else if p == 0 || p == 1 {
            let pc = self.pop_u16();
            self.regs.pc = pc;
            if p == 1 {
                self.ime = true;
            }
            16
        } else if p == 2 {
            self.regs.pc = self.get_rr(2);
            4
        } else {
            self.regs.sp = self.get_rr(2);
            8
        }
    }

    /// Executes the absolute jumps and loads of column 2.
    fn exec_b3_column2(&mut self, y: u8) -> (r: u64)
        requires
            old(self).wf(),
            y < 8,
        ensures
            final(self).wf(),
            same_clocks(final(self).mmu, old(self).mmu),
            8 <= r <= 16,
            final(self).ime == old(self).ime && final(self).halted == old(self).halted
                && final(self).locked == old(self).locked && final(self).stopped == old(self).stopped,
    {
        if y < 4 {
            let address = self.fetch_u16();
            if self.condition(y) {
                self.regs.pc = address;
                16
            } else {
                12
            }
        } else {
            let address = if y == 4 || y == 6 {
                0xff00 + self.regs.c as u16
            } else {
                self.fetch_u16()
            };
            if y == 4 || y == 5 {
                let a = self.regs.a;
                self.mmu.write_u8(address, a);
            } else {
                let v = self.mmu.read_u8(address);
                self.regs.a = v;
            }
            if y == 4 || y == 6 { 8 } else { 16 }
        }
    }

    /// Executes the calls and pushes of columns 4 and 5.
    fn exec_b3_calls(&mut self, y: u8, z: u8) -> (r: u64)
        requires
            old(self).wf(),
            y < 8,
            z == 4 || z == 5,
        ensures
            final(self).wf(),
            same_clocks(final(self).mmu, old(self).mmu),
            12 <= r <= 24,
            final(self).ime == old(self).ime && final(self).halted == old(self).halted
                && final(self).locked == old(self).locked && final(self).stopped == old(self).stopped,
    {
        let p = y / 2;
        if z == 4 && y < 4 {
            let address = self.fetch_u16();
            if self.condition(y) {
                let pc = self.regs.pc;
                self.push_u16(pc);
                self.regs.pc = address;
                24
            } else {
                12
            }
        } else if y % 2 == 0 {
            let v: u16 = if p == 3 { self.regs.a as u16 * 256 + self.regs.f as u16 } else { self.get_rr(p) };
            self.push_u16(v);
            16
        } else {
            let address = self.fetch_u16();
            let pc = self.regs.pc;
            self.push_u16(pc);
            self.regs.pc = address;
            24
        }
    }

    /// Executes opcodes 0xc0..0xff but 0xcb; returns the cycles taken and
    /// whether the opcode was invalid (which locks the CPU).
    #[verifier::rlimit(40)]
    fn exec_block3(&mut self, op: u8) -> (r: (u64, bool))
        requires
            old(self).wf(),
            0xc0 <= op,
            op != 0xcb,
        ensures
            final(self).wf(),
            same_clocks(final(self).mmu, old(self).mmu),
            4 <= r.0 <= 24,
            r.1 == is_invalid_opcode(op),
            r.1 ==> final(self).locked,
            op == 0xf3 ==> !final(self).ime,
            !r.1 ==> final(self).locked == old(self).locked,
            final(self).halted == old(self).halted,
            final(self).stopped == old(self).stopped,
    {
        if op == 0xd3 || op == 0xdb || op == 0xdd || op == 0xe3 || op == 0xe4 || op == 0xeb || op == 0xec
            || op == 0xed || op == 0xf4 || op == 0xfc || op == 0xfd {
            self.locked = true;
            return (4, true);
        }
        let y = (op / 8) % 8;
        let z = op % 8;
        if z == 0 {
            (self.exec_b3_column0(y), false)
        } else if z == 1 {
            (self.exec_b3_column1(y), false)
        } else if z == 2 {
            (self.exec_b3_column2(y), false)
        } else if z == 3 {
            if y == 0 {
                let address = self.fetch_u16();
                self.regs.pc = address;
                (16, false)
            } else if y == 6 {
                self.ime = false;
                self.ei_pending = false;
                (4, false)
            } else {
                // y == 7 (EI): the other rows of this column are the CB prefix
                // or invalid opcodes, which were dispatched above
                self.ei_pending = true;
                (4, false)
            }
        } else if z == 4 || z == 5 {
            (self.exec_b3_calls(y, z), false)
        } else if z == 6 {
            let v = self.fetch_u8();
            let (a, f) = alu(y, self.regs.a, v, self.regs.f);
            self.regs.a = a;
            self.regs.f = f;
            (8, false)
        } else {
            let pc = self.regs.pc;
            self.push_u16(pc);
            self.regs.pc = y as u16 * 8;
            (16, false)
        }
    }

    /// Executes HALT: the CPU halts until an interrupt is pending; when IME is
    /// off and one is already pending it does not halt, and the next opcode
    /// byte is read twice.
    fn exec_halt(&mut self)
        requires
            old(self).wf(),
            !old(self).halted,
        ensures
            final(self).wf(),
            same_clocks(final(self).mmu, old(self).mmu),
            final(self).regs == old(self).regs,
            final(self).mmu == old(self).mmu,
            final(self).ime == old(self).ime,
            final(self).locked == old(self).locked,
            final(self).stopped == old(self).stopped,
            !old(self).ime && pending_spec(old(self).mmu) != 0 ==> final(self).halt_bug && !final(self).halted,
            !(!old(self).ime && pending_spec(old(self).mmu) != 0) ==> final(self).halted && final(self).halt_bug == old(self).halt_bug,
    {
        let pending = self.pending_interrupts();
        if !self.ime && pending != 0 {
            self.halt_bug = true;
        } else {
            self.halted = true;
        }
    }

    /// Executes the instruction at PC; returns its cycles and whether the
    /// opcode was invalid. IME turns on after the instruction that follows EI.
    pub fn execute_next(&mut self) -> (r: StepResult)
        requires
            old(self).wf(),
            !old(self).halted,
        ensures
            final(self).wf(),
            same_clocks(final(self).mmu, old(self).mmu),
            execute_effect(*old(self), *final(self), r),
    {
        let enable_ime = self.ei_pending;
        self.ei_pending = false;
        let op = self.fetch_u8();
        let (cycles, invalid) = if op < 0x40 {
            (self.exec_block0(op), false)
        } else if op < 0x80 {
            if op == 0x76 {
                self.exec_halt();
                (4, false)
            } else {
                (self.exec_load(op), false)
            }
        } else if op < 0xc0 {
            (self.exec_alu(op), false)
        } else if op == 0xcb {
            (self.exec_cb(), false)
        } else {
            self.exec_block3(op)
        };
        if enable_ime && op != 0xf3 {
            self.ime = true;
        }
        StepResult { cycles, invalid_opcode: invalid }
    }
}

} // verus!

verus! {

/// F's low four bits are 0 in every well-formed CPU state; every operation
/// that writes F keeps the CPU well formed.
pub proof fn lemma_flags_low_bits_zero(f: u8)
    requires
        f % 16 == 0,
    ensures
        f & 0x0f == 0,
{
    assert(f % 16 == 0 ==> f & 0x0f == 0) by (bit_vector);
}


/// Within one instruction the PPU, timer and serial port stand still (every
/// CPU operation keeps `same_clocks`), so a register read twice with no write
/// to memory or to the sound registers in between reads the same value.
pub proof fn lemma_reads_within_instruction_agree(before: Mmu, after: Mmu, address: u16)
    requires
        same_clocks(after, before),
        after.peripherals.mem == before.peripherals.mem,
        after.peripherals.apu == before.peripherals.apu,
    ensures
        after.read_spec(address) == before.read_spec(address),
{
}

} // verus!
