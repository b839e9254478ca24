//! The Intel 8080 CPU core: registers, flags, 64 KiB memory, the interrupt
//! enable tri-state and the halt latch, together with the specification-level
//! model ([`CpuModel`]) that every instruction's contract is stated over.

use vstd::prelude::*;

verus! {

/// The sign flag: reflects bit 7 of the last flag-setting result.
#[derive(Clone, Copy, PartialEq, Eq, Structural, Debug)]
pub enum Sign {
    Positive,
    Negative,
}

/// The parity flag: `Even` means the low 8 bits of the last flag-setting
/// result contain an even number of 1-bits.
#[derive(Clone, Copy, PartialEq, Eq, Structural, Debug)]
pub enum Parity {
    Even,
    Odd,
}

/// One of the eight 8-bit operand slots of the 8080.  `M` is the
/// pseudo-register that dereferences the register pair HL as an address.
#[derive(Clone, Copy, PartialEq, Eq, Structural, Debug)]
pub enum Register {
    A,
    B,
    C,
    D,
    E,
    H,
    L,
    M,
}

/// The five 8080 condition flags.
#[derive(Clone, Copy, PartialEq, Eq, Structural, Debug)]
pub struct ConditionCodes {
    pub z: bool,
    pub s: Sign,
    pub p: Parity,
    pub cy: bool,
    pub ac: bool,
}

/// The interrupt-enable tri-state.  EI moves to `PreEnabled`; the start of
/// the following instruction promotes `PreEnabled` to `Enabled`, so that
/// interrupts become deliverable only after the instruction that follows EI.
#[derive(Clone, Copy, PartialEq, Eq, Structural, Debug)]
pub enum Interrupts {
    Disabled,
    PreEnabled,
    Enabled,
}

/// The CPU state.  `memory` always holds exactly 0x10000 bytes and
/// `input_ports` exactly 256 (see [`Intel8080::wf`]).
pub struct Intel8080 {
    pub a: u8,
    pub b: u8,
    pub c: u8,
    pub d: u8,
    pub e: u8,
    pub h: u8,
    pub l: u8,
    pub sp: u16,
    pub pc: u16,
    pub memory: Vec<u8>,
    pub cc: ConditionCodes,
    pub interrupts: Interrupts,
    pub halted: bool,
    pub has_output: bool,
    pub output_port: u8,
    pub input_ports: Vec<u8>,
    /// True in the arcade (production) profile: writes below 0x2000 (ROM) or
    /// at and above 0x4000 (outside Space Invaders RAM) are silently dropped.
    /// A diagnostic harness may clear it so CPU self-tests can write anywhere.
    pub rom_guard: bool,
}

/// The mathematical model of the CPU state, used by all contracts.
#[verifier::ext_equal]
pub struct CpuModel {
    pub a: u8,
    pub b: u8,
    pub c: u8,
    pub d: u8,
    pub e: u8,
    pub h: u8,
    pub l: u8,
    pub sp: u16,
    pub pc: u16,
    pub mem: Seq<u8>,
    pub cc: ConditionCodes,
    pub interrupts: Interrupts,
    pub halted: bool,
    pub has_output: bool,
    pub output_port: u8,
    pub ports: Seq<u8>,
    pub rom_guard: bool,
}

impl View for Intel8080 {
    type V = CpuModel;

    open spec fn view(&self) -> CpuModel {
        CpuModel {
            a: self.a,
            b: self.b,
            c: self.c,
            d: self.d,
            e: self.e,
            h: self.h,
            l: self.l,
            sp: self.sp,
            pc: self.pc,
            mem: self.memory@,
            cc: self.cc,
            interrupts: self.interrupts,
            halted: self.halted,
            has_output: self.has_output,
            output_port: self.output_port,
            ports: self.input_ports@,
            rom_guard: self.rom_guard,
        }
    }
}

/// Reduction of an integer into the 16-bit range, used for address and
/// register-pair arithmetic that wraps around the 8080's address space.
pub open spec fn wrap16(v: int) -> u16
    recommends
        -0x10000 <= v < 0x20000,
{
    if v < 0 {
        (v + 0x10000) as u16
    } else if v > 0xFFFF {
        (v - 0x10000) as u16
    } else {
        v as u16
    }
}

/// Reduction of an integer into the 8-bit range, for wrapping byte arithmetic.
pub open spec fn wrap8(v: int) -> u8
    recommends
        -0x100 <= v < 0x200,
{
    if v < 0 {
        (v + 0x100) as u8
    } else if v > 0xFF {
        (v - 0x100) as u8
    } else {
        v as u8
    }
}

/// The 16-bit value formed by a register pair (high byte : low byte).
pub open spec fn pair16(hi: u8, lo: u8) -> u16 {
    (hi as u16) << 8 | (lo as u16)
}

/// High byte of a 16-bit value.
pub open spec fn high8(v: u16) -> u8 {
    (v >> 8) as u8
}

/// Low byte of a 16-bit value.
pub open spec fn low8(v: u16) -> u8 {
    (v & 0xFF) as u8
}

/// True when `v` has an even number of 1-bits: the XOR of all eight bits is 0.
pub open spec fn parity_even(v: u8) -> bool {
    (v ^ (v >> 1) ^ (v >> 2) ^ (v >> 3) ^ (v >> 4) ^ (v >> 5) ^ (v >> 6) ^ (v >> 7)) & 1 == 0
}

/// The sign flag of a result byte: bit 7.
pub open spec fn sign_of(v: u8) -> Sign {
    if v & 0x80 == 0x80 {
        Sign::Negative
    } else {
        Sign::Positive
    }
}

/// The parity flag of a result byte.
pub open spec fn parity_of(v: u8) -> Parity {
    if parity_even(v) {
        Parity::Even
    } else {
        Parity::Odd
    }
}

/// Auxiliary carry of an 8-bit add or subtract: a carry into or out of bit 4,
/// computed as `(lhs ^ rhs ^ result) & 0x10 != 0`.
pub open spec fn aux_carry(lhs: u8, rhs: u8, result: u8) -> bool {
    (lhs ^ rhs ^ result) & 0x10 == 0x10
}

/// Splitting a 16-bit value into bytes and joining them again is the identity.
pub proof fn lemma_pair_split(v: u16)
    by (bit_vector)
    ensures
        pair16(high8(v), low8(v)) == v,
{
}

impl CpuModel {
    /// Both byte arrays have their full hardware size.
    pub open spec fn wf(self) -> bool {
        self.mem.len() == 0x10000 && self.ports.len() == 256
    }

    pub open spec fn bc(self) -> u16 {
        pair16(self.b, self.c)
    }

    pub open spec fn de(self) -> u16 {
        pair16(self.d, self.e)
    }

    pub open spec fn hl(self) -> u16 {
        pair16(self.h, self.l)
    }

    pub open spec fn mem_at(self, addr: u16) -> u8 {
        self.mem[addr as int]
    }

    /// In the arcade profile only [0x2000, 0x4000) (the RAM including the
    /// frame buffer) is writable; with the guard off, everything is.
    pub open spec fn write_allowed(self, addr: u16) -> bool {
        !self.rom_guard || (0x2000 <= addr && addr < 0x4000)
    }

    /// The state after a (guarded) memory write: blocked writes leave the
    /// state unchanged.
    pub open spec fn with_mem(self, addr: u16, v: u8) -> CpuModel {
        if self.write_allowed(addr) {
            CpuModel { mem: self.mem.update(addr as int, v), ..self }
        } else {
            self
        }
    }

    /// Value of an 8-bit operand slot; `M` dereferences HL.
    pub open spec fn reg_value(self, r: Register) -> u8 {
        match r {
            Register::A => self.a,
            Register::B => self.b,
            Register::C => self.c,
            Register::D => self.d,
            Register::E => self.e,
            Register::H => self.h,
            Register::L => self.l,
            Register::M => self.mem_at(self.hl()),
        }
    }

    /// The state after storing to an 8-bit operand slot; a store through `M`
    /// goes through the memory-protection guard.
    pub open spec fn with_reg(self, r: Register, v: u8) -> CpuModel {
        match r {
            Register::A => CpuModel { a: v, ..self },
            Register::B => CpuModel { b: v, ..self },
            Register::C => CpuModel { c: v, ..self },
            Register::D => CpuModel { d: v, ..self },
            Register::E => CpuModel { e: v, ..self },
            Register::H => CpuModel { h: v, ..self },
            Register::L => CpuModel { l: v, ..self },
            Register::M => self.with_mem(self.hl(), v),
        }
    }

    /// The state after an 8-bit add into A (ADD/ADC/ADI/ACI).
    pub open spec fn spec_add(self, v: u8, cin: bool) -> CpuModel {
        CpuModel { a: add_result(self.a, v, cin), cc: add_flags(self.a, v, cin), ..self }
    }

    /// The state after an 8-bit subtract from A (SUB/SBB/SUI/SBI).
    pub open spec fn spec_sub(self, v: u8, bin: bool) -> CpuModel {
        CpuModel { a: sub_result(self.a, v, bin), cc: sub_flags(self.a, v, bin), ..self }
    }

    /// The state after CMP/CPI: subtract flags, A unchanged.
    pub open spec fn spec_compare(self, v: u8) -> CpuModel {
        CpuModel { cc: sub_flags(self.a, v, false), ..self }
    }

    /// The state after a logic operation that leaves `v` in A
    /// (ANA/XRA/ORA and immediates): Z/S/P from the result, CY and AC cleared.
    pub open spec fn spec_logic(self, v: u8) -> CpuModel {
        CpuModel { a: v, cc: logic_flags(v), ..self }
    }

    /// The state after INR: wrapping increment of a slot; CY is not modified.
    pub open spec fn spec_increment(self, r: Register) -> CpuModel {
        let before = self.reg_value(r);
        let after = wrap8(before + 1);
        let stored = self.with_reg(r, after);
        CpuModel {
            cc: ConditionCodes {
                z: after == 0,
                s: sign_of(after),
                p: parity_of(after),
                cy: self.cc.cy,
                ac: aux_carry(before, 1, after),
            },
            ..stored
        }
    }

    /// The state after DCR: wrapping decrement of a slot; CY is not modified.
    pub open spec fn spec_decrement(self, r: Register) -> CpuModel {
        let before = self.reg_value(r);
        let after = wrap8(before - 1);
        let stored = self.with_reg(r, after);
        CpuModel {
            cc: ConditionCodes {
                z: after == 0,
                s: sign_of(after),
                p: parity_of(after),
                cy: self.cc.cy,
                ac: aux_carry(before, 1, after),
            },
            ..stored
        }
    }

    /// The state after a 16-bit add into HL (DAD): CY is the carry out of
    /// bit 15; no other flag changes.
    pub open spec fn spec_dad(self, rp: u16) -> CpuModel {
        let sum = self.hl() + rp;
        let r = wrap16(sum);
        CpuModel {
            h: high8(r),
            l: low8(r),
            cc: ConditionCodes { cy: sum > 0xFFFF, ..self.cc },
            ..self
        }
    }

    /// The state after pushing two bytes: high byte at SP-1, low at SP-2,
    /// then SP decremented by 2 (wrapping; writes are guarded).
    pub open spec fn spec_push(self, hi: u8, lo: u8) -> CpuModel {
        let s1 = self.with_mem(wrap16(self.sp - 1), hi);
        let s2 = s1.with_mem(wrap16(self.sp - 2), lo);
        CpuModel { sp: wrap16(self.sp - 2), ..s2 }
    }

    /// The byte a POP reads into the high half: memory at SP+1.
    pub open spec fn pop_high(self) -> u8 {
        self.mem_at(wrap16(self.sp + 1))
    }

    /// The byte a POP reads into the low half: memory at SP.
    pub open spec fn pop_low(self) -> u8 {
        self.mem_at(self.sp)
    }

    /// The state after a POP: SP incremented by 2 (wrapping).
    pub open spec fn spec_pop(self) -> CpuModel {
        CpuModel { sp: wrap16(self.sp + 2), ..self }
    }

    /// The state after a CALL decoded at the current PC (which already points
    /// past the opcode byte): push the address of the following instruction,
    /// then jump.
    pub open spec fn spec_call(self, target: u16) -> CpuModel {
        let ret = wrap16(self.pc + 2);
        let s1 = self.spec_push(high8(ret), low8(ret));
        CpuModel { pc: target, ..s1 }
    }

    /// The state after a RET: pop the return address into PC.
    pub open spec fn spec_ret(self) -> CpuModel {
        CpuModel { pc: pair16(self.pop_high(), self.pop_low()), ..self.spec_pop() }
    }

    /// The state after RST n: push PC (already past the opcode), jump to 8*n.
    pub open spec fn spec_rst(self, n: u8) -> CpuModel {
        let s1 = self.spec_push(high8(self.pc), low8(self.pc));
        CpuModel { pc: (8 * n as int) as u16, ..s1 }
    }

    /// The state after an interrupt is raised.  Only an `Enabled` CPU reacts:
    /// it pushes PC, jumps to 8*vector, disables interrupts and wakes from
    /// HLT.  In every other interrupt state the request is dropped.
    pub open spec fn spec_interrupt(self, vector: u8) -> CpuModel {
        if self.interrupts == Interrupts::Enabled {
            let s1 = self.spec_push(high8(self.pc), low8(self.pc));
            CpuModel {
                pc: (8 * vector as int) as u16,
                interrupts: Interrupts::Disabled,
                halted: false,
                ..s1
            }
        } else {
            self
        }
    }
}

/// Result byte of an 8-bit add with optional carry-in.
pub open spec fn add_result(a: u8, v: u8, cin: bool) -> u8 {
    wrap8(a + v + (if cin { 1int } else { 0int }))
}

/// Flags of an 8-bit add: Z/S/P from the result, CY the carry out of bit 7,
/// AC the carry out of bit 4.
pub open spec fn add_flags(a: u8, v: u8, cin: bool) -> ConditionCodes {
    let r = add_result(a, v, cin);
    ConditionCodes {
        z: r == 0,
        s: sign_of(r),
        p: parity_of(r),
        cy: a + v + (if cin { 1int } else { 0int }) > 0xFF,
        ac: aux_carry(a, v, r),
    }
}

/// Result byte of an 8-bit subtract with optional borrow-in.
pub open spec fn sub_result(a: u8, v: u8, bin: bool) -> u8 {
    wrap8(a - v - (if bin { 1int } else { 0int }))
}

/// Flags of an 8-bit subtract: Z/S/P from the result, CY the borrow out of
/// bit 7, AC per the add/subtract nibble-carry formula.
pub open spec fn sub_flags(a: u8, v: u8, bin: bool) -> ConditionCodes {
    let r = sub_result(a, v, bin);
    ConditionCodes {
        z: r == 0,
        s: sign_of(r),
        p: parity_of(r),
        cy: a - v - (if bin { 1int } else { 0int }) < 0,
        ac: aux_carry(a, v, r),
    }
}

/// Flags after a logic operation: Z/S/P from the result, CY and AC cleared.
pub open spec fn logic_flags(a: u8) -> ConditionCodes {
    ConditionCodes { z: a == 0, s: sign_of(a), p: parity_of(a), cy: false, ac: false }
}

/// The packed PSW flag byte: bit 0 = not Z, bit 1 = S negative,
/// bit 2 = P odd, bit 3 = CY, bit 4 = AC, bits 5-7 zero.  This layout must
/// round-trip through [`flags_from_byte`]; the arcade ROM never inspects it.
pub open spec fn flags_to_byte(cc: ConditionCodes) -> u8 {
    (if cc.z { 0u8 } else { 1u8 })
    | (if cc.s == Sign::Negative { 2u8 } else { 0u8 })
    | (if cc.p == Parity::Odd { 4u8 } else { 0u8 })
    | (if cc.cy { 8u8 } else { 0u8 })
    | (if cc.ac { 16u8 } else { 0u8 })
}

/// The flag configuration encoded by a PSW byte (inverse of [`flags_to_byte`]
/// on the bits the layout defines).
pub open spec fn flags_from_byte(b: u8) -> ConditionCodes {
    ConditionCodes {
        z: b & 1 == 0,
        s: if b & 2 == 0 { Sign::Positive } else { Sign::Negative },
        p: if b & 4 == 0 { Parity::Even } else { Parity::Odd },
        cy: b & 8 == 8,
        ac: b & 16 == 16,
    }
}

/// The initial CPU state at reset: everything zeroed, Z set, sign positive,
/// parity even, interrupts disabled, the arcade write guard on.
pub open spec fn initial_cpu() -> CpuModel {
    CpuModel {
        a: 0,
        b: 0,
        c: 0,
        d: 0,
        e: 0,
        h: 0,
        l: 0,
        sp: 0,
        pc: 0,
        mem: Seq::new(0x10000, |i: int| 0u8),
        cc: ConditionCodes { z: true, s: Sign::Positive, p: Parity::Even, cy: false, ac: false },
        interrupts: Interrupts::Disabled,
        halted: false,
        has_output: false,
        output_port: 0,
        ports: Seq::new(256, |i: int| 0u8),
        rom_guard: true,
    }
}

/// Sign flag of a byte, as executable code.
pub fn get_sign(byte: u8) -> (r: Sign)
    ensures
        r == sign_of(byte),
{
    if byte & 0x80 == 0x80 {
        Sign::Negative
    } else {
        Sign::Positive
    }
}

/// Parity flag of a byte: folds all eight bits together with XOR.
pub fn get_parity(byte: u8) -> (r: Parity)
    ensures
        r == parity_of(byte),
{
    let folded = (byte ^ (byte >> 1) ^ (byte >> 2) ^ (byte >> 3) ^ (byte >> 4) ^ (byte >> 5)
        ^ (byte >> 6) ^ (byte >> 7)) & 1;
    if folded == 0 {
        Parity::Even
    } else {
        Parity::Odd
    }
}

impl Intel8080 {
    /// Both byte arrays have their full hardware size.
    pub open spec fn wf(self) -> bool {
        self.memory@.len() == 0x10000 && self.input_ports@.len() == 256
    }

    /// A CPU at reset.
    pub fn new() -> (r: Intel8080)
        ensures
            r.wf(),
            r@ == initial_cpu(),
    {
        let mut memory: Vec<u8> = Vec::new();
        while memory.len() < 0x10000
            invariant
                memory@ =~= Seq::new(memory@.len(), |i: int| 0u8),
                memory@.len() <= 0x10000,
            decreases 0x10000 - memory@.len(),
        {
            memory.push(0);
            proof {
                assert(memory@ =~= Seq::new(memory@.len(), |i: int| 0u8));
            }
        }
        let mut input_ports: Vec<u8> = Vec::new();
        while input_ports.len() < 256
            invariant
                input_ports@ =~= Seq::new(input_ports@.len(), |i: int| 0u8),
                input_ports@.len() <= 256,
            decreases 256 - input_ports@.len(),
        {
            input_ports.push(0);
            proof {
                assert(input_ports@ =~= Seq::new(input_ports@.len(), |i: int| 0u8));
            }
        }
        let r = Intel8080 {
            a: 0,
            b: 0,
            c: 0,
            d: 0,
            e: 0,
            h: 0,
            l: 0,
            sp: 0,
            pc: 0,
            memory,
            cc: ConditionCodes {
                z: true,
                s: Sign::Positive,
                p: Parity::Even,
                cy: false,
                ac: false,
            },
            interrupts: Interrupts::Disabled,
            halted: false,
            has_output: false,
            output_port: 0,
            input_ports,
            rom_guard: true,
        };
        proof {
            assert(r@ =~= initial_cpu());
        }
        r
    }

    /// Reads a memory byte.  Reads are unrestricted.
    pub fn read_memory(&self, address: u16) -> (r: u8)
        requires
            self.wf(),
        ensures
            r == self@.mem_at(address),
    {
        self.memory[address as usize]
    }

    /// Writes a memory byte through the arcade protection guard: with the
    /// guard on, writes outside [0x2000, 0x4000) are silently dropped.
    pub fn write_memory(&mut self, address: u16, data: u8)
        requires
            old(self).wf(),
        ensures
            final(self).wf(),
            final(self)@ == old(self)@.with_mem(address, data),
    {
        if self.rom_guard && (address < 0x2000 || address >= 0x4000) {
            return ;
        }
        self.memory[address as usize] = data;
        proof {
            assert(self@ =~= old(self)@.with_mem(address, data));
        }
    }

    /// The byte the pseudo-register M designates: memory at HL.
    pub fn read_from_hl(&self) -> (r: u8)
        requires
            self.wf(),
        ensures
            r == self@.reg_value(Register::M),
    {
        let address = (self.h as u16) << 8 | (self.l as u16);
        self.read_memory(address)
    }

    /// Stores through the pseudo-register M: a guarded write at HL.
    pub fn write_to_hl(&mut self, data: u8)
        requires
            old(self).wf(),
        ensures
            final(self).wf(),
            final(self)@ == old(self)@.with_reg(Register::M, data),
    {
        let address = (self.h as u16) << 8 | (self.l as u16);
        self.write_memory(address, data);
    }

    /// Reads an 8-bit operand slot.
    pub fn read_register(&self, register: Register) -> (r: u8)
        requires
            self.wf(),
        ensures
            r == self@.reg_value(register),
    {
        match register {
            Register::A => self.a,
            Register::B => self.b,
            Register::C => self.c,
            Register::D => self.d,
            Register::E => self.e,
            Register::H => self.h,
            Register::L => self.l,
            Register::M => self.read_from_hl(),
        }
    }

    /// Stores to an 8-bit operand slot (guarded when the slot is M).
    pub fn write_register(&mut self, register: Register, value: u8)
        requires
            old(self).wf(),
        ensures
            final(self).wf(),
            final(self)@ == old(self)@.with_reg(register, value),
    {
        match register {
            Register::A => self.a = value,
            Register::B => self.b = value,
            Register::C => self.c = value,
            Register::D => self.d = value,
            Register::E => self.e = value,
            Register::H => self.h = value,
            Register::L => self.l = value,
            Register::M => self.write_to_hl(value),
        }
    }

    /// ADD: add `value` into A and set all five flags.
    pub fn add(&mut self, value: u8)
        requires
            old(self).wf(),
        ensures
            final(self).wf(),
            final(self)@ == old(self)@.spec_add(value, false),
    {
        self.add_with_carry_in(value, false);
    }

    /// ADC: add `value` plus the current carry into A and set all five flags.
    pub fn add_carry(&mut self, value: u8)
        requires
            old(self).wf(),
        ensures
            final(self).wf(),
            final(self)@ == old(self)@.spec_add(value, old(self).cc.cy),
    {
        let carry_in = self.cc.cy;
        self.add_with_carry_in(value, carry_in);
    }

    fn add_with_carry_in(&mut self, value: u8, carry_in: bool)
        requires
            old(self).wf(),
        ensures
            final(self).wf(),
            final(self)@ == old(self)@.spec_add(value, carry_in),
    {
        let cin: u16 = if carry_in {
            1
        } else {
            0
        };
        let sum: u16 = self.a as u16 + value as u16 + cin;
        let result: u8 = if sum > 0xFF {
            (sum - 0x100) as u8
        } else {
            sum as u8
        };
        self.cc.z = result == 0;
        self.cc.s = get_sign(result);
        self.cc.p = get_parity(result);
        self.cc.cy = sum > 0xFF;
        self.cc.ac = (self.a ^ value ^ result) & 0x10 == 0x10;
        self.a = result;
    }

    /// SUB: subtract `value` from A and set all five flags (CY = borrow).
    pub fn subtract(&mut self, value: u8)
        requires
            old(self).wf(),
        ensures
            final(self).wf(),
            final(self)@ == old(self)@.spec_sub(value, false),
    {
        self.subtract_with_borrow_in(value, false);
    }

    /// SBB: subtract `value` plus the current carry from A and set all flags.
    pub fn subtract_borrow(&mut self, value: u8)
        requires
            old(self).wf(),
        ensures
            final(self).wf(),
            final(self)@ == old(self)@.spec_sub(value, old(self).cc.cy),
    {
        let borrow_in = self.cc.cy;
        self.subtract_with_borrow_in(value, borrow_in);
    }

    fn subtract_with_borrow_in(&mut self, value: u8, borrow_in: bool)
        requires
            old(self).wf(),
        ensures
            final(self).wf(),
            final(self)@ == old(self)@.spec_sub(value, borrow_in),
    {
        let take: u16 = value as u16 + (if borrow_in {
            1
        } else {
            0
        });
        let lhs: u16 = self.a as u16;
        let borrow_out = lhs < take;
        let result: u8 = if lhs < take {
            (lhs + 0x100 - take) as u8
        } else {
            (lhs - take) as u8
        };
        self.cc.z = result == 0;
        self.cc.s = get_sign(result);
        self.cc.p = get_parity(result);
        self.cc.cy = borrow_out;
        self.cc.ac = (self.a ^ value ^ result) & 0x10 == 0x10;
        self.a = result;
    }

    /// CMP: set the flags of a subtract without writing A.
    pub fn compare(&mut self, value: u8)
        requires
            old(self).wf(),
        ensures
            final(self).wf(),
            final(self)@ == old(self)@.spec_compare(value),
    {
        let take: u16 = value as u16;
        let lhs: u16 = self.a as u16;
        let result: u8 = if lhs < take {
            (lhs + 0x100 - take) as u8
        } else {
            (lhs - take) as u8
        };
        self.cc.z = result == 0;
        self.cc.s = get_sign(result);
        self.cc.p = get_parity(result);
        self.cc.cy = lhs < take;
        self.cc.ac = (self.a ^ value ^ result) & 0x10 == 0x10;
    }

    /// INR: wrapping increment of an operand slot; CY keeps its value.
    pub fn increment(&mut self, register: Register)
        requires
            old(self).wf(),
        ensures
            final(self).wf(),
            final(self)@ == old(self)@.spec_increment(register),
    {
        let before = self.read_register(register);
        let after: u8 = if before == 0xFF {
            0
        } else {
            before + 1
        };
        self.write_register(register, after);
        self.cc.z = after == 0;
        self.cc.s = get_sign(after);
        self.cc.p = get_parity(after);
        self.cc.ac = (before ^ 1 ^ after) & 0x10 == 0x10;
    }

    /// DCR: wrapping decrement of an operand slot; CY keeps its value.
    pub fn decrement(&mut self, register: Register)
        requires
            old(self).wf(),
        ensures
            final(self).wf(),
            final(self)@ == old(self)@.spec_decrement(register),
    {
        let before = self.read_register(register);
        let after: u8 = if before == 0 {
            0xFF
        } else {
            before - 1
        };
        self.write_register(register, after);
        self.cc.z = after == 0;
        self.cc.s = get_sign(after);
        self.cc.p = get_parity(after);
        self.cc.ac = (before ^ 1 ^ after) & 0x10 == 0x10;
    }

    /// Clears CY and AC and sets Z/S/P from A, as every logic operation does.
    pub fn set_logic_flags(&mut self)
        requires
            old(self).wf(),
        ensures
            final(self).wf(),
            final(self)@ == (CpuModel { cc: logic_flags(old(self).a), ..old(self)@ }),
    {
        self.cc.z = self.a == 0;
        self.cc.s = get_sign(self.a);
        self.cc.p = get_parity(self.a);
        self.cc.cy = false;
        self.cc.ac = false;
    }

    /// PUSH: high byte to SP-1, low byte to SP-2, SP decremented by 2.
    pub fn push(&mut self, high: u8, low: u8)
        requires
            old(self).wf(),
        ensures
            final(self).wf(),
            final(self)@ == old(self)@.spec_push(high, low),
    {
        let addr_high = self.sp.wrapping_sub(1);
        let addr_low = self.sp.wrapping_sub(2);
        self.write_memory(addr_high, high);
        self.write_memory(addr_low, low);
        self.sp = self.sp.wrapping_sub(2);
    }

    /// POP: returns (high, low) read from SP+1 and SP; SP incremented by 2.
    pub fn pop(&mut self) -> (r: (u8, u8))
        requires
            old(self).wf(),
        ensures
            final(self).wf(),
            final(self)@ == old(self)@.spec_pop(),
            r.0 == old(self)@.pop_high(),
            r.1 == old(self)@.pop_low(),
    {
        let high = self.read_memory(self.sp.wrapping_add(1));
        let low = self.read_memory(self.sp);
        self.sp = self.sp.wrapping_add(2);
        (high, low)
    }

    /// CALL: push the address of the next instruction (PC already points past
    /// the opcode byte, so that is PC+2) and jump to `high:low`.
    pub fn call(&mut self, low: u8, high: u8)
        requires
            old(self).wf(),
        ensures
            final(self).wf(),
            final(self)@ == old(self)@.spec_call(pair16(high, low)),
    {
        let return_address = self.pc.wrapping_add(2);
        self.push((return_address >> 8) as u8, (return_address & 0xFF) as u8);
        self.pc = (high as u16) << 8 | (low as u16);
    }

    /// RET: pop the return address into PC.
    pub fn ret(&mut self)
        requires
            old(self).wf(),
        ensures
            final(self).wf(),
            final(self)@ == old(self)@.spec_ret(),
    {
        let (high, low) = self.pop();
        self.pc = (high as u16) << 8 | (low as u16);
    }

    /// DAD: 16-bit add of a register pair into HL; only CY changes.
    pub fn dad(&mut self, pair: u16)
        requires
            old(self).wf(),
        ensures
            final(self).wf(),
            final(self)@ == old(self)@.spec_dad(pair),
    {
        let hl: u32 = ((self.h as u16) << 8 | (self.l as u16)) as u32;
        let sum: u32 = hl + pair as u32;
        let result: u16 = if sum > 0xFFFF {
            (sum - 0x10000) as u16
        } else {
            sum as u16
        };
        self.h = (result >> 8) as u8;
        self.l = (result & 0xFF) as u8;
        self.cc.cy = sum > 0xFFFF;
    }

    /// Delivers interrupt `vector` to the CPU: serviced only when interrupts
    /// are fully enabled, and then also wakes a halted CPU; otherwise dropped.
    pub fn generate_interrupt(&mut self, number: u8)
        requires
            old(self).wf(),
        ensures
            final(self).wf(),
            final(self)@ == old(self)@.spec_interrupt(number),
    {
        match self.interrupts {
            Interrupts::Enabled => {
                let pc = self.pc;
                self.push((pc >> 8) as u8, (pc & 0xFF) as u8);
                self.pc = (number as u16) * 8;
                self.interrupts = Interrupts::Disabled;
                self.halted = false;
            },
            _ => (),
        }
    }

    /// Returns and clears the pending OUT, as (port, value in A).  The I/O
    /// layer must drain this after every step, before the next instruction
    /// can overwrite it.
    pub fn get_output(&mut self) -> (r: Option<(u8, u8)>)
        requires
            old(self).wf(),
        ensures
            final(self).wf(),
            final(self)@ == (CpuModel { has_output: false, ..old(self)@ }),
            r == if old(self).has_output {
                Some((old(self).output_port, old(self).a))
            } else {
                None::<(u8, u8)>
            },
    {
        if self.has_output {
            self.has_output = false;
            Some((self.output_port, self.a))
        } else {
            None
        }
    }

    /// The text of a CP/M-style console call, for a diagnostic harness that
    /// intercepts address 0x05: command C=2 is the single character in E;
    /// command C=9 is the string starting at DE+3 (the three-byte prefix is
    /// skipped) up to but not including the first '$' terminator (or the
    /// end of memory if none follows).  These two are the only commands the
    /// call defines; on any other command value the harness must fail
    /// loudly instead of calling this.
    pub fn console_message(&self) -> (r: Vec<u8>)
        requires
            self.wf(),
            self.c == 2 || self.c == 9,
        ensures
            self.c == 2 ==> r@ == seq![self.e],
            self.c == 9 ==> r@ == self@.mem.subrange(
                wrap16(self@.de() + 3) as int,
                dollar_end(self@.mem, wrap16(self@.de() + 3) as int),
            ),
    {
        if self.c == 2 {
            let mut v: Vec<u8> = Vec::new();
            v.push(self.e);
            proof {
                assert(v@ =~= seq![self.e]);
            }
            v
        } else {
            let start = ((self.d as u16) << 8 | (self.e as u16)).wrapping_add(3);
            let mut bytes: Vec<u8> = Vec::new();
            let mut addr: usize = start as usize;
            while addr < 0x10000
                invariant
                    self.wf(),
                    start as int <= addr as int <= 0x10000,
                    bytes@.len() == addr - start,
                    forall|j: int|
                        0 <= j < bytes@.len() ==> bytes@[j] == self@.mem[start as int + j],
                    forall|j: int| start <= j < addr ==> self@.mem[j] != 0x24,
                ensures
                    addr == 0x10000 || self@.mem[addr as int] == 0x24,
                decreases 0x10000 - addr,
            {
                let byte = self.memory[addr];
                if byte == 0x24 {  // '$'
                    break ;
                }
                bytes.push(byte);
                addr = addr + 1;
            }
            proof {
                lemma_dollar_end_at(self@.mem, start as int, addr as int);
                assert(bytes@ =~= self@.mem.subrange(start as int, addr as int));
            }
            bytes
        }
    }
}

/// The index of the first '$' (0x24) at or after `start`, or the end of
/// memory when none follows.
pub open spec fn dollar_end(mem: Seq<u8>, start: int) -> int
    recommends
        0 <= start <= 0x10000,
        mem.len() == 0x10000,
    decreases 0x10000 - start,
    when 0 <= start <= 0x10000
{
    if start >= 0x10000 {
        0x10000
    } else if mem[start] == 0x24 {
        start
    } else {
        dollar_end(mem, start + 1)
    }
}

/// Locates [`dollar_end`]: if no byte in [start, end) is a '$' and `end`
/// either holds one or is the end of memory, the scan stops at `end`.
proof fn lemma_dollar_end_at(mem: Seq<u8>, start: int, end: int)
    requires
        mem.len() == 0x10000,
        0 <= start <= end <= 0x10000,
        forall|j: int| start <= j < end ==> mem[j] != 0x24,
        end == 0x10000 || mem[end] == 0x24,
    ensures
        dollar_end(mem, start) == end,
    decreases end - start,
{
    if start < end {
        lemma_dollar_end_at(mem, start + 1, end);
    }
}

} // verus!
