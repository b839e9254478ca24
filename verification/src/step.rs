//! One instruction step of the 8080: the specification-level interpreter
//! ([`CpuModel::spec_step`]) and the executable decoder/executor proven
//! against it, opcode by opcode.

use vstd::prelude::*;

use crate::cpu::{
    flags_from_byte, flags_to_byte, get_parity, get_sign, high8, low8, pair16, parity_of,
    sign_of, wrap16, wrap8, ConditionCodes, CpuModel, Intel8080, Interrupts, Parity, Register,
    Sign,
};

verus! {

/// The failure report for an opcode this interpreter does not define:
/// undocumented 8080 encodings are fatal (a correct ROM never reaches one).
#[derive(Clone, Copy, PartialEq, Eq, Structural, Debug)]
pub struct StepError {
    /// The offending opcode byte.
    pub opcode: u8,
    /// The address it was fetched from.
    pub pc: u16,
}

/// True for every opcode the 8080 defines; the twelve unassigned encodings
/// are the ones a step refuses.
pub open spec fn opcode_defined(op: u8) -> bool {
    !(op == 0x08 || op == 0x10 || op == 0x18 || op == 0x20 || op == 0x28 || op == 0x30
        || op == 0x38 || op == 0xCB || op == 0xD9 || op == 0xDD || op == 0xED || op == 0xFD)
}

/// The operand slot selected by a 3-bit field of an opcode, in the 8080's
/// order B, C, D, E, H, L, M, A.
pub open spec fn register_of_code(code: u8) -> Register {
    if code == 0 {
        Register::B
    } else if code == 1 {
        Register::C
    } else if code == 2 {
        Register::D
    } else if code == 3 {
        Register::E
    } else if code == 4 {
        Register::H
    } else if code == 5 {
        Register::L
    } else if code == 6 {
        Register::M
    } else {
        Register::A
    }
}

impl CpuModel {
    /// The state at the start of every step: a pre-enabled interrupt gate is
    /// promoted to enabled (EI's one-instruction delay) and any stale pending
    /// output is cleared.
    pub open spec fn promoted(self) -> CpuModel {
        CpuModel {
            interrupts: match self.interrupts {
                Interrupts::PreEnabled => Interrupts::Enabled,
                other => other,
            },
            has_output: false,
            ..self
        }
    }

    /// The opcode byte at PC.
    pub open spec fn fetched(self) -> u8 {
        self.mem_at(self.pc)
    }

    /// First immediate operand byte (at PC+1).
    pub open spec fn imm1(self) -> u8 {
        self.mem_at(wrap16(self.pc + 1))
    }

    /// Second immediate operand byte (at PC+2).
    pub open spec fn imm2(self) -> u8 {
        self.mem_at(wrap16(self.pc + 2))
    }

    /// The 16-bit immediate address (little-endian operand bytes).
    pub open spec fn imm_addr(self) -> u16 {
        pair16(self.imm2(), self.imm1())
    }

    /// The state with PC advanced by `n` bytes (wrapping).
    pub open spec fn bump(self, n: int) -> CpuModel {
        CpuModel { pc: wrap16(self.pc + n), ..self }
    }

    /// The branch condition selected by a 3-bit field of an opcode, in the
    /// 8080's order NZ, Z, NC, C, PO, PE, P, M.
    pub open spec fn cond(self, code: u8) -> bool {
        if code == 0 {
            !self.cc.z
        } else if code == 1 {
            self.cc.z
        } else if code == 2 {
            !self.cc.cy
        } else if code == 3 {
            self.cc.cy
        } else if code == 4 {
            self.cc.p == Parity::Odd
        } else if code == 5 {
            self.cc.p == Parity::Even
        } else if code == 6 {
            self.cc.s == Sign::Positive
        } else {
            self.cc.s == Sign::Negative
        }
    }

    /// A conditional return: taken costs 11 cycles, untaken 5.
    pub open spec fn spec_ret_if(self, taken: bool) -> (CpuModel, u8) {
        if taken {
            (self.spec_ret(), 11)
        } else {
            (self, 5)
        }
    }

    /// A conditional jump: 10 cycles whether or not it is taken.
    pub open spec fn spec_jmp_if(self, taken: bool, target: u16) -> (CpuModel, u8) {
        if taken {
            (CpuModel { pc: target, ..self }, 10)
        } else {
            (self.bump(2), 10)
        }
    }

    /// A conditional call: taken costs 17 cycles, untaken 11.
    pub open spec fn spec_call_if(self, taken: bool, target: u16) -> (CpuModel, u8) {
        if taken {
            (self.spec_call(target), 17)
        } else {
            (self.bump(2), 11)
        }
    }

    /// The ALU operation selected by a 3-bit field of an opcode, in the
    /// 8080's order ADD, ADC, SUB, SBB, ANA, XRA, ORA, CMP.
    pub open spec fn spec_alu(self, cls: u8, v: u8) -> CpuModel {
        if cls == 0 {
            self.spec_add(v, false)
        } else if cls == 1 {
            self.spec_add(v, self.cc.cy)
        } else if cls == 2 {
            self.spec_sub(v, false)
        } else if cls == 3 {
            self.spec_sub(v, self.cc.cy)
        } else if cls == 4 {
            self.spec_logic(self.a & v)
        } else if cls == 5 {
            self.spec_logic(self.a ^ v)
        } else if cls == 6 {
            self.spec_logic(self.a | v)
        } else {
            self.spec_compare(v)
        }
    }

    /// DAA, decimal adjust: add 6 to a low nibble above 9 (or when AC is
    /// set), then 0x60 to a high nibble above 9 (or when CY is set); Z, S
    /// and P are recomputed from the adjusted accumulator.
    pub open spec fn spec_daa(self) -> CpuModel {
        let low_adjust = (self.a & 0x0F) > 9 || self.cc.ac;
        let a1 = if low_adjust {
            wrap8(self.a + 6)
        } else {
            self.a
        };
        let high_adjust = (a1 >> 4) > 9 || self.cc.cy;
        let a2 = if high_adjust {
            wrap8(a1 + 0x60)
        } else {
            a1
        };
        CpuModel {
            a: a2,
            cc: ConditionCodes {
                z: a2 == 0,
                s: sign_of(a2),
                p: parity_of(a2),
                cy: high_adjust,
                ac: low_adjust,
            },
            ..self
        }
    }

    /// Semantics and cycle count of the opcodes below 0x40: loads, stores,
    /// register-pair arithmetic, increments, rotates, DAA and flag tweaks.
    /// `self` is the promoted state with PC still at the opcode byte.
    #[verifier::opaque]
    pub open spec fn spec_misc(self) -> (CpuModel, u8) {
        let op = self.fetched();
        let q = self.bump(1);
        let d1 = self.imm1();
        let d2 = self.imm2();
        let addr = self.imm_addr();
        if op == 0x00 {  // NOP
            (q, 4)
        } else if op == 0x01 {  // LXI B
            (CpuModel { b: d2, c: d1, ..q.bump(2) }, 10)
        } else if op == 0x02 {  // STAX B
            (q.with_mem(q.bc(), q.a), 7)
        } else if op == 0x03 {  // INX B
            let v = wrap16(q.bc() + 1);
            (CpuModel { b: high8(v), c: low8(v), ..q }, 5)
        } else if op == 0x04 {  // INR B
            (q.spec_increment(Register::B), 5)
        } else if op == 0x05 {  // DCR B
            (q.spec_decrement(Register::B), 5)
        } else if op == 0x06 {  // MVI B
            (CpuModel { b: d1, ..q.bump(1) }, 7)
        } else if op == 0x07 {  // RLC
            (
                CpuModel {
                    a: (q.a << 1) | (q.a >> 7),
                    cc: ConditionCodes { cy: q.a & 0x80 == 0x80, ..q.cc },
                    ..q
                },
                4,
            )
        } else if op == 0x09 {  // DAD B
            (q.spec_dad(q.bc()), 10)
        } else if op == 0x0A {  // LDAX B
            (CpuModel { a: q.mem_at(q.bc()), ..q }, 7)
        } else if op == 0x0B {  // DCX B
            let v = wrap16(q.bc() - 1);
            (CpuModel { b: high8(v), c: low8(v), ..q }, 5)
        } else if op == 0x0C {  // INR C
            (q.spec_increment(Register::C), 5)
        } else if op == 0x0D {  // DCR C
            (q.spec_decrement(Register::C), 5)
        } else if op == 0x0E {  // MVI C
            (CpuModel { c: d1, ..q.bump(1) }, 7)
        } else if op == 0x0F {  // RRC
            (
                CpuModel {
                    a: (q.a >> 1) | (q.a << 7),
                    cc: ConditionCodes { cy: q.a & 0x01 == 0x01, ..q.cc },
                    ..q
                },
                4,
            )
        } else if op == 0x11 {  // LXI D
            (CpuModel { d: d2, e: d1, ..q.bump(2) }, 10)
        } else if op == 0x12 {  // STAX D
            (q.with_mem(q.de(), q.a), 7)
        } else if op == 0x13 {  // INX D
            let v = wrap16(q.de() + 1);
            (CpuModel { d: high8(v), e: low8(v), ..q }, 5)
        } else if op == 0x14 {  // INR D
            (q.spec_increment(Register::D), 5)
        } else if op == 0x15 {  // DCR D
            (q.spec_decrement(Register::D), 5)
        } else if op == 0x16 {  // MVI D
            (CpuModel { d: d1, ..q.bump(1) }, 7)
        } else if op == 0x17 {  // RAL
            (
                CpuModel {
                    a: (q.a << 1) | (if q.cc.cy { 1u8 } else { 0u8 }),
                    cc: ConditionCodes { cy: q.a & 0x80 == 0x80, ..q.cc },
                    ..q
                },
                4,
            )
        } else if op == 0x19 {  // DAD D
            (q.spec_dad(q.de()), 10)
        } else if op == 0x1A {  // LDAX D
            (CpuModel { a: q.mem_at(q.de()), ..q }, 7)
        } else if op == 0x1B {  // DCX D
            let v = wrap16(q.de() - 1);
            (CpuModel { d: high8(v), e: low8(v), ..q }, 5)
        } else if op == 0x1C {  // INR E
            (q.spec_increment(Register::E), 5)
        } else if op == 0x1D {  // DCR E
            (q.spec_decrement(Register::E), 5)
        } else if op == 0x1E {  // MVI E
            (CpuModel { e: d1, ..q.bump(1) }, 7)
        } else if op == 0x1F {  // RAR
            (
                CpuModel {
                    a: (q.a >> 1) | (if q.cc.cy { 0x80u8 } else { 0u8 }),
                    cc: ConditionCodes { cy: q.a & 0x01 == 0x01, ..q.cc },
                    ..q
                },
                4,
            )
        } else if op == 0x21 {  // LXI H
            (CpuModel { h: d2, l: d1, ..q.bump(2) }, 10)
        } else if op == 0x22 {  // SHLD
            let s1 = q.with_mem(addr, q.l);
            let s2 = s1.with_mem(wrap16(addr + 1), q.h);
            (s2.bump(2), 16)
        } else if op == 0x23 {  // INX H
            let v = wrap16(q.hl() + 1);
            (CpuModel { h: high8(v), l: low8(v), ..q }, 5)
        } else if op == 0x24 {  // INR H
            (q.spec_increment(Register::H), 5)
        } else if op == 0x25 {  // DCR H
            (q.spec_decrement(Register::H), 5)
        } else if op == 0x26 {  // MVI H
            (CpuModel { h: d1, ..q.bump(1) }, 7)
        } else if op == 0x27 {  // DAA
            (q.spec_daa(), 4)
        } else if op == 0x29 {  // DAD H
            (q.spec_dad(q.hl()), 10)
        } else if op == 0x2A {  // LHLD
            (CpuModel { l: q.mem_at(addr), h: q.mem_at(wrap16(addr + 1)), ..q.bump(2) }, 16)
        } else if op == 0x2B {  // DCX H
            let v = wrap16(q.hl() - 1);
            (CpuModel { h: high8(v), l: low8(v), ..q }, 5)
        } else if op == 0x2C {  // INR L
            (q.spec_increment(Register::L), 5)
        } else if op == 0x2D {  // DCR L
            (q.spec_decrement(Register::L), 5)
        } else if op == 0x2E {  // MVI L
            (CpuModel { l: d1, ..q.bump(1) }, 7)
        } else if op == 0x2F {  // CMA
            (CpuModel { a: !q.a, ..q }, 4)
        } else if op == 0x31 {  // LXI SP
            (CpuModel { sp: addr, ..q.bump(2) }, 10)
        } else if op == 0x32 {  // STA
            (q.with_mem(addr, q.a).bump(2), 13)
        } else if op == 0x33 {  // INX SP
            (CpuModel { sp: wrap16(q.sp + 1), ..q }, 5)
        } else if op == 0x34 {  // INR M
            (q.spec_increment(Register::M), 10)
        } else if op == 0x35 {  // DCR M
            (q.spec_decrement(Register::M), 10)
        } else if op == 0x36 {  // MVI M
            (q.with_mem(q.hl(), d1).bump(1), 10)
        } else if op == 0x37 {  // STC
            (CpuModel { cc: ConditionCodes { cy: true, ..q.cc }, ..q }, 4)
        } else if op == 0x39 {  // DAD SP
            (q.spec_dad(q.sp), 10)
        } else if op == 0x3A {  // LDA
            (CpuModel { a: q.mem_at(addr), ..q.bump(2) }, 13)
        } else if op == 0x3B {  // DCX SP
            (CpuModel { sp: wrap16(q.sp - 1), ..q }, 5)
        } else if op == 0x3C {  // INR A
            (q.spec_increment(Register::A), 5)
        } else if op == 0x3D {  // DCR A
            (q.spec_decrement(Register::A), 5)
        } else if op == 0x3E {  // MVI A
            (CpuModel { a: d1, ..q.bump(1) }, 7)
        } else if op == 0x3F {  // CMC
            (CpuModel { cc: ConditionCodes { cy: !q.cc.cy, ..q.cc }, ..q }, 4)
        } else {  // unassigned encodings; a step never reaches them
            (self, 0)
        }
    }

    /// Semantics and cycle count of the opcodes 0x40..0xBF: the 8x8 MOV
    /// block (0x76 is HLT) and the eight ALU classes against each operand
    /// slot.  `self` is the promoted state with PC still at the opcode byte.
    #[verifier::opaque]
    pub open spec fn spec_movalu(self) -> (CpuModel, u8) {
        let op = self.fetched();
        let q = self.bump(1);
        if op == 0x76 {  // HLT
            (CpuModel { halted: true, ..q }, 7)
        } else {
            let src = register_of_code(op & 0x07);
            let v = q.reg_value(src);
            if op < 0x80 {  // MOV dst, src
                let dst = register_of_code((op >> 3) & 0x07);
                let cycles: u8 = if op & 0x07 == 6 || (op >> 3) & 0x07 == 6 {
                    7
                } else {
                    5
                };
                (q.with_reg(dst, v), cycles)
            } else {  // ADD/ADC/SUB/SBB/ANA/XRA/ORA/CMP src
                let cycles: u8 = if op & 0x07 == 6 {
                    7
                } else {
                    4
                };
                (q.spec_alu((op >> 3) & 0x07, v), cycles)
            }
        }
    }

    /// Semantics and cycle count of the opcodes 0xC0..0xFF: conditional and
    /// unconditional flow control, stack operations, immediate ALU forms,
    /// I/O and the interrupt gate.  `self` is the promoted state with PC
    /// still at the opcode byte.
    #[verifier::opaque]
    pub open spec fn spec_ctrl(self) -> (CpuModel, u8) {
        let op = self.fetched();
        let q = self.bump(1);
        let d1 = self.imm1();
        let addr = self.imm_addr();
        if op == 0xC0 {  // RNZ
            q.spec_ret_if(!q.cc.z)
        } else if op == 0xC1 {  // POP B
            (CpuModel { b: q.pop_high(), c: q.pop_low(), ..q.spec_pop() }, 10)
        } else if op == 0xC2 {  // JNZ
            q.spec_jmp_if(!q.cc.z, addr)
        } else if op == 0xC3 {  // JMP
            (CpuModel { pc: addr, ..q }, 10)
        } else if op == 0xC4 {  // CNZ
            q.spec_call_if(!q.cc.z, addr)
        } else if op == 0xC5 {  // PUSH B
            (q.spec_push(q.b, q.c), 11)
        } else if op == 0xC6 {  // ADI
            (q.spec_add(d1, false).bump(1), 7)
        } else if op == 0xC7 {  // RST 0
            (q.spec_rst(0), 11)
        } else if op == 0xC8 {  // RZ
            q.spec_ret_if(q.cc.z)
        } else if op == 0xC9 {  // RET
            (q.spec_ret(), 10)
        } else if op == 0xCA {  // JZ
            q.spec_jmp_if(q.cc.z, addr)
        } else if op == 0xCC {  // CZ
            q.spec_call_if(q.cc.z, addr)
        } else if op == 0xCD {  // CALL
            (q.spec_call(addr), 17)
        } else if op == 0xCE {  // ACI
            (q.spec_add(d1, q.cc.cy).bump(1), 7)
        } else if op == 0xCF {  // RST 1
            (q.spec_rst(1), 11)
        } else if op == 0xD0 {  // RNC
            q.spec_ret_if(!q.cc.cy)
        } else if op == 0xD1 {  // POP D
            (CpuModel { d: q.pop_high(), e: q.pop_low(), ..q.spec_pop() }, 10)
        } else if op == 0xD2 {  // JNC
            q.spec_jmp_if(!q.cc.cy, addr)
        } else if op == 0xD3 {  // OUT
            (CpuModel { has_output: true, output_port: d1, ..q.bump(1) }, 10)
        } else if op == 0xD4 {  // CNC
            q.spec_call_if(!q.cc.cy, addr)
        } else if op == 0xD5 {  // PUSH D
            (q.spec_push(q.d, q.e), 11)
        } else if op == 0xD6 {  // SUI
            (q.spec_sub(d1, false).bump(1), 7)
        } else if op == 0xD7 {  // RST 2
            (q.spec_rst(2), 11)
        } else if op == 0xD8 {  // RC
            q.spec_ret_if(q.cc.cy)
        } else if op == 0xDA {  // JC
            q.spec_jmp_if(q.cc.cy, addr)
        } else if op == 0xDB {  // IN
            (CpuModel { a: self.ports[d1 as int], ..q.bump(1) }, 10)
        } else if op == 0xDC {  // CC
            q.spec_call_if(q.cc.cy, addr)
        } else if op == 0xDE {  // SBI
            (q.spec_sub(d1, q.cc.cy).bump(1), 7)
        } else if op == 0xDF {  // RST 3
            (q.spec_rst(3), 11)
        } else if op == 0xE0 {  // RPO
            q.spec_ret_if(q.cc.p == Parity::Odd)
        } else if op == 0xE1 {  // POP H
            (CpuModel { h: q.pop_high(), l: q.pop_low(), ..q.spec_pop() }, 10)
        } else if op == 0xE2 {  // JPO
            q.spec_jmp_if(q.cc.p == Parity::Odd, addr)
        } else if op == 0xE3 {  // XTHL
            let mem_low = q.mem_at(q.sp);
            let mem_high = q.mem_at(wrap16(q.sp + 1));
            let s1 = q.with_mem(q.sp, q.l);
            let s2 = s1.with_mem(wrap16(q.sp + 1), q.h);
            (CpuModel { l: mem_low, h: mem_high, ..s2 }, 18)
        } else if op == 0xE4 {  // CPO
            q.spec_call_if(q.cc.p == Parity::Odd, addr)
        } else if op == 0xE5 {  // PUSH H
            (q.spec_push(q.h, q.l), 11)
        } else if op == 0xE6 {  // ANI
            (q.spec_logic(q.a & d1).bump(1), 7)
        } else if op == 0xE7 {  // RST 4
            (q.spec_rst(4), 11)
        } else if op == 0xE8 {  // RPE
            q.spec_ret_if(q.cc.p == Parity::Even)
        } else if op == 0xE9 {  // PCHL
            (CpuModel { pc: q.hl(), ..q }, 5)
        } else if op == 0xEA {  // JPE
            q.spec_jmp_if(q.cc.p == Parity::Even, addr)
        } else if op == 0xEB {  // XCHG
            (CpuModel { h: q.d, d: q.h, l: q.e, e: q.l, ..q }, 4)
        } else if op == 0xEC {  // CPE
            q.spec_call_if(q.cc.p == Parity::Even, addr)
        } else if op == 0xEE {  // XRI
            (q.spec_logic(q.a ^ d1).bump(1), 7)
        } else if op == 0xEF {  // RST 5
            (q.spec_rst(5), 11)
        } else if op == 0xF0 {  // RP
            q.spec_ret_if(q.cc.s == Sign::Positive)
        } else if op == 0xF1 {  // POP PSW
            (CpuModel { a: q.pop_high(), cc: flags_from_byte(q.pop_low()), ..q.spec_pop() }, 10)
        } else if op == 0xF2 {  // JP
            q.spec_jmp_if(q.cc.s == Sign::Positive, addr)
        } else if op == 0xF3 {  // DI
            (CpuModel { interrupts: Interrupts::Disabled, ..q }, 4)
        } else if op == 0xF4 {  // CP
            q.spec_call_if(q.cc.s == Sign::Positive, addr)
        } else if op == 0xF5 {  // PUSH PSW
            (q.spec_push(q.a, flags_to_byte(q.cc)), 11)
        } else if op == 0xF6 {  // ORI
            (q.spec_logic(q.a | d1).bump(1), 7)
        } else if op == 0xF7 {  // RST 6
            (q.spec_rst(6), 11)
        } else if op == 0xF8 {  // RM
            q.spec_ret_if(q.cc.s == Sign::Negative)
        } else if op == 0xF9 {  // SPHL
            (CpuModel { sp: q.hl(), ..q }, 5)
        } else if op == 0xFA {  // JM
            q.spec_jmp_if(q.cc.s == Sign::Negative, addr)
        } else if op == 0xFB {  // EI
            (CpuModel { interrupts: Interrupts::PreEnabled, ..q }, 4)
        } else if op == 0xFC {  // CM
            q.spec_call_if(q.cc.s == Sign::Negative, addr)
        } else if op == 0xFE {  // CPI
            (q.spec_compare(d1).bump(1), 7)
        } else if op == 0xFF {  // RST 7
            (q.spec_rst(7), 11)
        } else {  // unassigned encodings; a step never reaches them
            (self, 0)
        }
    }

    /// The full step relation: a halted CPU does nothing and costs 0 cycles;
    /// otherwise the interrupt gate is promoted, stale output is cleared,
    /// and the fetched opcode executes.  For an unassigned opcode the state
    /// stays at the promoted state (the executable step reports the error).
    pub open spec fn spec_step(self) -> (CpuModel, u8) {
        if self.halted {
            (self, 0)
        } else {
            let p = self.promoted();
            let op = p.fetched();
            if !opcode_defined(op) {
                (p, 0)
            } else if op < 0x40 {
                p.spec_misc()
            } else if op < 0xC0 {
                p.spec_movalu()
            } else {
                p.spec_ctrl()
            }
        }
    }

    /// True when a step of this state succeeds: the CPU is halted (a free
    /// no-op) or the opcode under PC is one the 8080 defines.
    pub open spec fn step_ok(self) -> bool {
        self.halted || opcode_defined(self.fetched())
    }
}

impl Intel8080 {
    /// Executes an opcode below 0x40; PC is still at the opcode byte.
    fn step_misc(&mut self, op: u8) -> (c: u8)
        requires
            old(self).wf(),
            op == old(self)@.fetched(),
            op < 0x40,
            opcode_defined(op),
        ensures
            final(self).wf(),
            final(self)@ == old(self)@.spec_misc().0,
            c == old(self)@.spec_misc().1,
    {
        let d1 = self.read_memory(self.pc.wrapping_add(1));
        let d2 = self.read_memory(self.pc.wrapping_add(2));
        let addr = (d2 as u16) << 8 | (d1 as u16);
        if op < 0x10 {
            self.step_misc_0(op, d1, d2, addr)
        } else if op < 0x20 {
            self.step_misc_1(op, d1, d2, addr)
        } else if op < 0x30 {
            self.step_misc_2(op, d1, d2, addr)
        } else {
            self.step_misc_3(op, d1, d2, addr)
        }
    }

    /// Executes an opcode in [0x00, 0x10); PC is still at the opcode byte.
    #[verifier::rlimit(100)]
    #[verifier::spinoff_prover]
    fn step_misc_0(&mut self, op: u8, d1: u8, d2: u8, addr: u16) -> (c: u8)
        requires
            old(self).wf(),
            op == old(self)@.fetched(),
            0x00 <= op < 0x10,
            opcode_defined(op),
            d1 == old(self)@.imm1(),
            d2 == old(self)@.imm2(),
            addr == old(self)@.imm_addr(),
        ensures
            final(self).wf(),
            final(self)@ == old(self)@.spec_misc().0,
            c == old(self)@.spec_misc().1,
    {
        proof {
            reveal(CpuModel::spec_misc);
        }
        self.pc = self.pc.wrapping_add(1);
        match op {
            0x00 => 4,  // NOP
            0x01 => {  // LXI B
                self.c = d1;
                self.b = d2;
                self.pc = self.pc.wrapping_add(2);
                10
            },
            0x02 => {  // STAX B
                let address = (self.b as u16) << 8 | (self.c as u16);
                let value = self.a;
                self.write_memory(address, value);
                7
            },
            0x03 => {  // INX B
                let v = ((self.b as u16) << 8 | (self.c as u16)).wrapping_add(1);
                self.b = (v >> 8) as u8;
                self.c = (v & 0xFF) as u8;
                5
            },
            0x04 => {  // INR B
                self.increment(Register::B);
                5
            },
            0x05 => {  // DCR B
                self.decrement(Register::B);
                5
            },
            0x06 => {  // MVI B
                self.b = d1;
                self.pc = self.pc.wrapping_add(1);
                7
            },
            0x07 => {  // RLC
                self.cc.cy = self.a & 0x80 == 0x80;
                self.a = (self.a << 1) | (self.a >> 7);
                4
            },
            0x09 => {  // DAD B
                let pair = (self.b as u16) << 8 | (self.c as u16);
                self.dad(pair);
                10
            },
            0x0A => {  // LDAX B
                let address = (self.b as u16) << 8 | (self.c as u16);
                self.a = self.read_memory(address);
                7
            },
            0x0B => {  // DCX B
                let v = ((self.b as u16) << 8 | (self.c as u16)).wrapping_sub(1);
                self.b = (v >> 8) as u8;
                self.c = (v & 0xFF) as u8;
                5
            },
            0x0C => {  // INR C
                self.increment(Register::C);
                5
            },
            0x0D => {  // DCR C
                self.decrement(Register::C);
                5
            },
            0x0E => {  // MVI C
                self.c = d1;
                self.pc = self.pc.wrapping_add(1);
                7
            },
            0x0F => {  // RRC
                self.cc.cy = self.a & 0x01 == 0x01;
                self.a = (self.a >> 1) | (self.a << 7);
                4
            },
            _ => {
                proof {
                    assert(false);
                }
                4
            },
        }
    }

    /// Executes an opcode in [0x10, 0x20); PC is still at the opcode byte.
    #[verifier::rlimit(100)]
    #[verifier::spinoff_prover]
    fn step_misc_1(&mut self, op: u8, d1: u8, d2: u8, addr: u16) -> (c: u8)
        requires
            old(self).wf(),
            op == old(self)@.fetched(),
            0x10 <= op < 0x20,
            opcode_defined(op),
            d1 == old(self)@.imm1(),
            d2 == old(self)@.imm2(),
            addr == old(self)@.imm_addr(),
        ensures
            final(self).wf(),
            final(self)@ == old(self)@.spec_misc().0,
            c == old(self)@.spec_misc().1,
    {
        proof {
            reveal(CpuModel::spec_misc);
        }
        self.pc = self.pc.wrapping_add(1);
        match op {
            0x11 => {  // LXI D
                self.e = d1;
                self.d = d2;
                self.pc = self.pc.wrapping_add(2);
                10
            },
            0x12 => {  // STAX D
                let address = (self.d as u16) << 8 | (self.e as u16);
                let value = self.a;
                self.write_memory(address, value);
                7
            },
            0x13 => {  // INX D
                let v = ((self.d as u16) << 8 | (self.e as u16)).wrapping_add(1);
                self.d = (v >> 8) as u8;
                self.e = (v & 0xFF) as u8;
                5
            },
            0x14 => {  // INR D
                self.increment(Register::D);
                5
            },
            0x15 => {  // DCR D
                self.decrement(Register::D);
                5
            },
            0x16 => {  // MVI D
                self.d = d1;
                self.pc = self.pc.wrapping_add(1);
                7
            },
            0x17 => {  // RAL
                let carry = self.cc.cy;
                self.cc.cy = self.a & 0x80 == 0x80;
                self.a = (self.a << 1) | (if carry {
                    1
                } else {
                    0
                });
                4
            },
            0x19 => {  // DAD D
                let pair = (self.d as u16) << 8 | (self.e as u16);
                self.dad(pair);
                10
            },
            0x1A => {  // LDAX D
                let address = (self.d as u16) << 8 | (self.e as u16);
                self.a = self.read_memory(address);
                7
            },
            0x1B => {  // DCX D
                let v = ((self.d as u16) << 8 | (self.e as u16)).wrapping_sub(1);
                self.d = (v >> 8) as u8;
                self.e = (v & 0xFF) as u8;
                5
            },
            0x1C => {  // INR E
                self.increment(Register::E);
                5
            },
            0x1D => {  // DCR E
                self.decrement(Register::E);
                5
            },
            0x1E => {  // MVI E
                self.e = d1;
                self.pc = self.pc.wrapping_add(1);
                7
            },
            0x1F => {  // RAR
                let carry = self.cc.cy;
                self.cc.cy = self.a & 0x01 == 0x01;
                self.a = (self.a >> 1) | (if carry {
                    0x80
                } else {
                    0
                });
                4
            },
            _ => {
                proof {
                    assert(false);
                }
                4
            },
        }
    }

    /// Executes an opcode in [0x20, 0x30); PC is still at the opcode byte.
    #[verifier::rlimit(100)]
    #[verifier::spinoff_prover]
    fn step_misc_2(&mut self, op: u8, d1: u8, d2: u8, addr: u16) -> (c: u8)
        requires
            old(self).wf(),
            op == old(self)@.fetched(),
            0x20 <= op < 0x30,
            opcode_defined(op),
            d1 == old(self)@.imm1(),
            d2 == old(self)@.imm2(),
            addr == old(self)@.imm_addr(),
        ensures
            final(self).wf(),
            final(self)@ == old(self)@.spec_misc().0,
            c == old(self)@.spec_misc().1,
    {
        proof {
            reveal(CpuModel::spec_misc);
        }
        self.pc = self.pc.wrapping_add(1);
        match op {
            0x21 => {  // LXI H
                self.l = d1;
                self.h = d2;
                self.pc = self.pc.wrapping_add(2);
                10
            },
            0x22 => {  // SHLD
                let low = self.l;
                let high = self.h;
                self.write_memory(addr, low);
                self.write_memory(addr.wrapping_add(1), high);
                self.pc = self.pc.wrapping_add(2);
                16
            },
            0x23 => {  // INX H
                let v = ((self.h as u16) << 8 | (self.l as u16)).wrapping_add(1);
                self.h = (v >> 8) as u8;
                self.l = (v & 0xFF) as u8;
                5
            },
            0x24 => {  // INR H
                self.increment(Register::H);
                5
            },
            0x25 => {  // DCR H
                self.decrement(Register::H);
                5
            },
            0x26 => {  // MVI H
                self.h = d1;
                self.pc = self.pc.wrapping_add(1);
                7
            },
            0x27 => {  // DAA
                let a0 = self.a;
                let low_adjust = (a0 & 0x0F) > 9 || self.cc.ac;
                let a1 = if low_adjust {
                    a0.wrapping_add(6)
                } else {
                    a0
                };
                let high_adjust = (a1 >> 4) > 9 || self.cc.cy;
                let a2 = if high_adjust {
                    a1.wrapping_add(0x60)
                } else {
                    a1
                };
                self.a = a2;
                self.cc.z = a2 == 0;
                self.cc.s = get_sign(a2);
                self.cc.p = get_parity(a2);
                self.cc.cy = high_adjust;
                self.cc.ac = low_adjust;
                4
            },
            0x29 => {  // DAD H
                let pair = (self.h as u16) << 8 | (self.l as u16);
                self.dad(pair);
                10
            },
            0x2A => {  // LHLD
                self.l = self.read_memory(addr);
                self.h = self.read_memory(addr.wrapping_add(1));
                self.pc = self.pc.wrapping_add(2);
                16
            },
            0x2B => {  // DCX H
                let v = ((self.h as u16) << 8 | (self.l as u16)).wrapping_sub(1);
                self.h = (v >> 8) as u8;
                self.l = (v & 0xFF) as u8;
                5
            },
            0x2C => {  // INR L
                self.increment(Register::L);
                5
            },
            0x2D => {  // DCR L
                self.decrement(Register::L);
                5
            },
            0x2E => {  // MVI L
                self.l = d1;
                self.pc = self.pc.wrapping_add(1);
                7
            },
            0x2F => {  // CMA
                self.a = !self.a;
                4
            },
            _ => {
                proof {
                    assert(false);
                }
                4
            },
        }
    }

    /// Executes an opcode in [0x30, 0x40); PC is still at the opcode byte.
    #[verifier::rlimit(100)]
    #[verifier::spinoff_prover]
    fn step_misc_3(&mut self, op: u8, d1: u8, d2: u8, addr: u16) -> (c: u8)
        requires
            old(self).wf(),
            op == old(self)@.fetched(),
            0x30 <= op < 0x40,
            opcode_defined(op),
            d1 == old(self)@.imm1(),
            d2 == old(self)@.imm2(),
            addr == old(self)@.imm_addr(),
        ensures
            final(self).wf(),
            final(self)@ == old(self)@.spec_misc().0,
            c == old(self)@.spec_misc().1,
    {
        proof {
            reveal(CpuModel::spec_misc);
        }
        self.pc = self.pc.wrapping_add(1);
        match op {
            0x31 => {  // LXI SP
                self.sp = addr;
                self.pc = self.pc.wrapping_add(2);
                10
            },
            0x32 => {  // STA
                let value = self.a;
                self.write_memory(addr, value);
                self.pc = self.pc.wrapping_add(2);
                13
            },
            0x33 => {  // INX SP
                self.sp = self.sp.wrapping_add(1);
                5
            },
            0x34 => {  // INR M
                self.increment(Register::M);
                10
            },
            0x35 => {  // DCR M
                self.decrement(Register::M);
                10
            },
            0x36 => {  // MVI M
                self.write_to_hl(d1);
                self.pc = self.pc.wrapping_add(1);
                10
            },
            0x37 => {  // STC
                self.cc.cy = true;
                4
            },
            0x39 => {  // DAD SP
                let pair = self.sp;
                self.dad(pair);
                10
            },
            0x3A => {  // LDA
                self.a = self.read_memory(addr);
                self.pc = self.pc.wrapping_add(2);
                13
            },
            0x3B => {  // DCX SP
                self.sp = self.sp.wrapping_sub(1);
                5
            },
            0x3C => {  // INR A
                self.increment(Register::A);
                5
            },
            0x3D => {  // DCR A
                self.decrement(Register::A);
                5
            },
            0x3E => {  // MVI A
                self.a = d1;
                self.pc = self.pc.wrapping_add(1);
                7
            },
            0x3F => {  // CMC
                self.cc.cy = !self.cc.cy;
                4
            },
            _ => {
                proof {
                    assert(false);
                }
                4
            },
        }
    }

    /// RST n: push PC (already past the opcode byte) and jump to 8*n.
    pub fn rst(&mut self, n: u8)
        requires
            old(self).wf(),
            n < 8,
        ensures
            final(self).wf(),
            final(self)@ == old(self)@.spec_rst(n),
    {
        let pc = self.pc;
        self.push((pc >> 8) as u8, (pc & 0xFF) as u8);
        self.pc = (n as u16) * 8;
    }

    /// Executes an opcode in [0x40, 0xC0): the 8x8 MOV block (with HLT in
    /// the hole at 0x76) and the eight ALU classes; PC is still at the
    /// opcode byte.
    #[verifier::rlimit(100)]
    #[verifier::spinoff_prover]
    fn step_movalu(&mut self, op: u8) -> (c: u8)
        requires
            old(self).wf(),
            op == old(self)@.fetched(),
            0x40 <= op < 0xC0,
        ensures
            final(self).wf(),
            final(self)@ == old(self)@.spec_movalu().0,
            c == old(self)@.spec_movalu().1,
    {
        proof {
            reveal(CpuModel::spec_movalu);
        }
        self.pc = self.pc.wrapping_add(1);
        if op == 0x76 {  // HLT
            self.halted = true;
            return 7;
        }
        proof {
            assert(op & 0x07 < 8 && (op >> 3) & 0x07 < 8) by (bit_vector);
        }
        let src_code = op & 0x07;
        let src = code_register(src_code);
        let v = self.read_register(src);
        if op < 0x80 {  // MOV dst, src
            let dst_code = (op >> 3) & 0x07;
            let dst = code_register(dst_code);
            self.write_register(dst, v);
            if src_code == 6 || dst_code == 6 {
                7
            } else {
                5
            }
        } else {  // ADD/ADC/SUB/SBB/ANA/XRA/ORA/CMP src
            let cls = (op >> 3) & 0x07;
            if cls == 0 {
                self.add(v);
            } else if cls == 1 {
                self.add_carry(v);
            } else if cls == 2 {
                self.subtract(v);
            } else if cls == 3 {
                self.subtract_borrow(v);
            } else if cls == 4 {
                self.a = self.a & v;
                self.set_logic_flags();
            } else if cls == 5 {
                self.a = self.a ^ v;
                self.set_logic_flags();
            } else if cls == 6 {
                self.a = self.a | v;
                self.set_logic_flags();
            } else {
                self.compare(v);
            }
            if src_code == 6 {
                7
            } else {
                4
            }
        }
    }

    /// Executes an opcode at or above 0xC0; PC is still at the opcode byte.
    fn step_ctrl(&mut self, op: u8) -> (c: u8)
        requires
            old(self).wf(),
            op == old(self)@.fetched(),
            0xC0 <= op,
            opcode_defined(op),
        ensures
            final(self).wf(),
            final(self)@ == old(self)@.spec_ctrl().0,
            c == old(self)@.spec_ctrl().1,
    {
        let d1 = self.read_memory(self.pc.wrapping_add(1));
        let d2 = self.read_memory(self.pc.wrapping_add(2));
        let addr = (d2 as u16) << 8 | (d1 as u16);
        if op < 0xD0 {
            self.step_ctrl_0(op, d1, d2, addr)
        } else if op < 0xE0 {
            self.step_ctrl_1(op, d1, d2, addr)
        } else if op < 0xE8 {
            self.step_ctrl_2a(op, d1, d2, addr)
        } else if op < 0xF0 {
            self.step_ctrl_2b(op, d1, d2, addr)
        } else {
            self.step_ctrl_3(op, d1, d2, addr)
        }
    }

    /// Executes an opcode in [0xC0, 0xD0); PC is still at the opcode byte.
    #[verifier::rlimit(100)]
    #[verifier::spinoff_prover]
    fn step_ctrl_0(&mut self, op: u8, d1: u8, d2: u8, addr: u16) -> (c: u8)
        requires
            old(self).wf(),
            op == old(self)@.fetched(),
            0xC0 <= op < 0xD0,
            opcode_defined(op),
            d1 == old(self)@.imm1(),
            d2 == old(self)@.imm2(),
            addr == old(self)@.imm_addr(),
        ensures
            final(self).wf(),
            final(self)@ == old(self)@.spec_ctrl().0,
            c == old(self)@.spec_ctrl().1,
    {
        proof {
            reveal(CpuModel::spec_ctrl);
        }
        self.pc = self.pc.wrapping_add(1);
        match op {
            0xC0 => {  // RNZ
                if !self.cc.z {
                    self.ret();
                    11
                } else {
                    5
                }
            },
            0xC1 => {  // POP B
                let (high, low) = self.pop();
                self.b = high;
                self.c = low;
                10
            },
            0xC2 => {  // JNZ
                if !self.cc.z {
                    self.pc = addr;
                } else {
                    self.pc = self.pc.wrapping_add(2);
                }
                10
            },
            0xC3 => {  // JMP
                self.pc = addr;
                10
            },
            0xC4 => {  // CNZ
                if !self.cc.z {
                    self.call(d1, d2);
                    17
                } else {
                    self.pc = self.pc.wrapping_add(2);
                    11
                }
            },
            0xC5 => {  // PUSH B
                let high = self.b;
                let low = self.c;
                self.push(high, low);
                11
            },
            0xC6 => {  // ADI
                self.add(d1);
                self.pc = self.pc.wrapping_add(1);
                7
            },
            0xC7 => {  // RST 0
                self.rst(0);
                11
            },
            0xC8 => {  // RZ
                if self.cc.z {
                    self.ret();
                    11
                } else {
                    5
                }
            },
            0xC9 => {  // RET
                self.ret();
                10
            },
            0xCA => {  // JZ
                if self.cc.z {
                    self.pc = addr;
                } else {
                    self.pc = self.pc.wrapping_add(2);
                }
                10
            },
            0xCC => {  // CZ
                if self.cc.z {
                    self.call(d1, d2);
                    17
                } else {
                    self.pc = self.pc.wrapping_add(2);
                    11
                }
            },
            0xCD => {  // CALL
                self.call(d1, d2);
                17
            },
            0xCE => {  // ACI
                self.add_carry(d1);
                self.pc = self.pc.wrapping_add(1);
                7
            },
            0xCF => {  // RST 1
                self.rst(1);
                11
            },
            _ => {
                proof {
                    assert(false);
                }
                4
            },
        }
    }

    /// Executes an opcode in [0xD0, 0xE0); PC is still at the opcode byte.
    #[verifier::rlimit(100)]
    #[verifier::spinoff_prover]
    fn step_ctrl_1(&mut self, op: u8, d1: u8, d2: u8, addr: u16) -> (c: u8)
        requires
            old(self).wf(),
            op == old(self)@.fetched(),
            0xD0 <= op < 0xE0,
            opcode_defined(op),
            d1 == old(self)@.imm1(),
            d2 == old(self)@.imm2(),
            addr == old(self)@.imm_addr(),
        ensures
            final(self).wf(),
            final(self)@ == old(self)@.spec_ctrl().0,
            c == old(self)@.spec_ctrl().1,
    {
        proof {
            reveal(CpuModel::spec_ctrl);
        }
        self.pc = self.pc.wrapping_add(1);
        match op {
            0xD0 => {  // RNC
                if !self.cc.cy {
                    self.ret();
                    11
                } else {
                    5
                }
            },
            0xD1 => {  // POP D
                let (high, low) = self.pop();
                self.d = high;
                self.e = low;
                10
            },
            0xD2 => {  // JNC
                if !self.cc.cy {
                    self.pc = addr;
                } else {
                    self.pc = self.pc.wrapping_add(2);
                }
                10
            },
            0xD3 => {  // OUT
                self.output_port = d1;
                self.has_output = true;
                self.pc = self.pc.wrapping_add(1);
                10
            },
            0xD4 => {  // CNC
                if !self.cc.cy {
                    self.call(d1, d2);
                    17
                } else {
                    self.pc = self.pc.wrapping_add(2);
                    11
                }
            },
            0xD5 => {  // PUSH D
                let high = self.d;
                let low = self.e;
                self.push(high, low);
                11
            },
            0xD6 => {  // SUI
                self.subtract(d1);
                self.pc = self.pc.wrapping_add(1);
                7
            },
            0xD7 => {  // RST 2
                self.rst(2);
                11
            },
            0xD8 => {  // RC
                if self.cc.cy {
                    self.ret();
                    11
                } else {
                    5
                }
            },
            0xDA => {  // JC
                if self.cc.cy {
                    self.pc = addr;
                } else {
                    self.pc = self.pc.wrapping_add(2);
                }
                10
            },
            0xDB => {  // IN
                self.a = self.input_ports[d1 as usize];
                self.pc = self.pc.wrapping_add(1);
                10
            },
            0xDC => {  // CC
                if self.cc.cy {
                    self.call(d1, d2);
                    17
                } else {
                    self.pc = self.pc.wrapping_add(2);
                    11
                }
            },
            0xDE => {  // SBI
                self.subtract_borrow(d1);
                self.pc = self.pc.wrapping_add(1);
                7
            },
            0xDF => {  // RST 3
                self.rst(3);
                11
            },
            _ => {
                proof {
                    assert(false);
                }
                4
            },
        }
    }

    /// Executes an opcode in [0xE0, 0xE8); PC is still at the opcode byte.
    #[verifier::rlimit(100)]
    #[verifier::spinoff_prover]
    fn step_ctrl_2a(&mut self, op: u8, d1: u8, d2: u8, addr: u16) -> (c: u8)
        requires
            old(self).wf(),
            op == old(self)@.fetched(),
            0xE0 <= op < 0xE8,
            opcode_defined(op),
            d1 == old(self)@.imm1(),
            d2 == old(self)@.imm2(),
            addr == old(self)@.imm_addr(),
        ensures
            final(self).wf(),
            final(self)@ == old(self)@.spec_ctrl().0,
            c == old(self)@.spec_ctrl().1,
    {
        proof {
            reveal(CpuModel::spec_ctrl);
        }
        self.pc = self.pc.wrapping_add(1);
        match op {
            0xE0 => {  // RPO
                if self.cc.p == Parity::Odd {
                    self.ret();
                    11
                } else {
                    5
                }
            },
            0xE1 => {  // POP H
                let (high, low) = self.pop();
                self.h = high;
                self.l = low;
                10
            },
            0xE2 => {  // JPO
                if self.cc.p == Parity::Odd {
                    self.pc = addr;
                } else {
                    self.pc = self.pc.wrapping_add(2);
                }
                10
            },
            0xE3 => {  // XTHL
                let mem_low = self.read_memory(self.sp);
                let mem_high = self.read_memory(self.sp.wrapping_add(1));
                let low = self.l;
                let high = self.h;
                self.write_memory(self.sp, low);
                let second = self.sp.wrapping_add(1);
                self.write_memory(second, high);
                self.l = mem_low;
                self.h = mem_high;
                18
            },
            0xE4 => {  // CPO
                if self.cc.p == Parity::Odd {
                    self.call(d1, d2);
                    17
                } else {
                    self.pc = self.pc.wrapping_add(2);
                    11
                }
            },
            0xE5 => {  // PUSH H
                let high = self.h;
                let low = self.l;
                self.push(high, low);
                11
            },
            0xE6 => {  // ANI
                self.a = self.a & d1;
                self.set_logic_flags();
                self.pc = self.pc.wrapping_add(1);
                7
            },
            0xE7 => {  // RST 4
                self.rst(4);
                11
            },
            _ => {
                proof {
                    assert(false);
                }
                4
            },
        }
    }

    /// Executes an opcode in [0xE8, 0xF0); PC is still at the opcode byte.
    #[verifier::rlimit(100)]
    #[verifier::spinoff_prover]
    fn step_ctrl_2b(&mut self, op: u8, d1: u8, d2: u8, addr: u16) -> (c: u8)
        requires
            old(self).wf(),
            op == old(self)@.fetched(),
            0xE8 <= op < 0xF0,
            opcode_defined(op),
            d1 == old(self)@.imm1(),
            d2 == old(self)@.imm2(),
            addr == old(self)@.imm_addr(),
        ensures
            final(self).wf(),
            final(self)@ == old(self)@.spec_ctrl().0,
            c == old(self)@.spec_ctrl().1,
    {
        proof {
            reveal(CpuModel::spec_ctrl);
        }
        self.pc = self.pc.wrapping_add(1);
        match op {
            0xE8 => {  // RPE
                if self.cc.p == Parity::Even {
                    self.ret();
                    11
                } else {
                    5
                }
            },
            0xE9 => {  // PCHL
                self.pc = (self.h as u16) << 8 | (self.l as u16);
                5
            },
            0xEA => {  // JPE
                if self.cc.p == Parity::Even {
                    self.pc = addr;
                } else {
                    self.pc = self.pc.wrapping_add(2);
                }
                10
            },
            0xEB => {  // XCHG
                let high = self.h;
                let low = self.l;
                self.h = self.d;
                self.l = self.e;
                self.d = high;
                self.e = low;
                4
            },
            0xEC => {  // CPE
                if self.cc.p == Parity::Even {
                    self.call(d1, d2);
                    17
                } else {
                    self.pc = self.pc.wrapping_add(2);
                    11
                }
            },
            0xEE => {  // XRI
                self.a = self.a ^ d1;
                self.set_logic_flags();
                self.pc = self.pc.wrapping_add(1);
                7
            },
            0xEF => {  // RST 5
                self.rst(5);
                11
            },
            _ => {
                proof {
                    assert(false);
                }
                4
            },
        }
    }

    /// Executes an opcode in [0xF0, 0x100); PC is still at the opcode byte.
    #[verifier::rlimit(100)]
    #[verifier::spinoff_prover]
    fn step_ctrl_3(&mut self, op: u8, d1: u8, d2: u8, addr: u16) -> (c: u8)
        requires
            old(self).wf(),
            op == old(self)@.fetched(),
            0xF0 <= op,
            opcode_defined(op),
            d1 == old(self)@.imm1(),
            d2 == old(self)@.imm2(),
            addr == old(self)@.imm_addr(),
        ensures
            final(self).wf(),
            final(self)@ == old(self)@.spec_ctrl().0,
            c == old(self)@.spec_ctrl().1,
    {
        proof {
            reveal(CpuModel::spec_ctrl);
        }
        self.pc = self.pc.wrapping_add(1);
        match op {
            0xF0 => {  // RP
                if self.cc.s == Sign::Positive {
                    self.ret();
                    11
                } else {
                    5
                }
            },
            0xF1 => {  // POP PSW
                let (acc, flags) = self.pop();
                self.a = acc;
                self.cc.z = flags & 1 == 0;
                self.cc.s = if flags & 2 == 0 {
                    Sign::Positive
                } else {
                    Sign::Negative
                };
                self.cc.p = if flags & 4 == 0 {
                    Parity::Even
                } else {
                    Parity::Odd
                };
                self.cc.cy = flags & 8 == 8;
                self.cc.ac = flags & 16 == 16;
                10
            },
            0xF2 => {  // JP
                if self.cc.s == Sign::Positive {
                    self.pc = addr;
                } else {
                    self.pc = self.pc.wrapping_add(2);
                }
                10
            },
            0xF3 => {  // DI
                self.interrupts = Interrupts::Disabled;
                4
            },
            0xF4 => {  // CP
                if self.cc.s == Sign::Positive {
                    self.call(d1, d2);
                    17
                } else {
                    self.pc = self.pc.wrapping_add(2);
                    11
                }
            },
            0xF5 => {  // PUSH PSW
                let flags: u8 = (if self.cc.z {
                    0
                } else {
                    1
                }) | (if self.cc.s == Sign::Negative {
                    2
                } else {
                    0
                }) | (if self.cc.p == Parity::Odd {
                    4
                } else {
                    0
                }) | (if self.cc.cy {
                    8
                } else {
                    0
                }) | (if self.cc.ac {
                    16
                } else {
                    0
                });
                let acc = self.a;
                self.push(acc, flags);
                11
            },
            0xF6 => {  // ORI
                self.a = self.a | d1;
                self.set_logic_flags();
                self.pc = self.pc.wrapping_add(1);
                7
            },
            0xF7 => {  // RST 6
                self.rst(6);
                11
            },
            0xF8 => {  // RM
                if self.cc.s == Sign::Negative {
                    self.ret();
                    11
                } else {
                    5
                }
            },
            0xF9 => {  // SPHL
                self.sp = (self.h as u16) << 8 | (self.l as u16);
                5
            },
            0xFA => {  // JM
                if self.cc.s == Sign::Negative {
                    self.pc = addr;
                } else {
                    self.pc = self.pc.wrapping_add(2);
                }
                10
            },
            0xFB => {  // EI
                self.interrupts = Interrupts::PreEnabled;
                4
            },
            0xFC => {  // CM
                if self.cc.s == Sign::Negative {
                    self.call(d1, d2);
                    17
                } else {
                    self.pc = self.pc.wrapping_add(2);
                    11
                }
            },
            0xFE => {  // CPI
                self.compare(d1);
                self.pc = self.pc.wrapping_add(1);
                7
            },
            0xFF => {  // RST 7
                self.rst(7);
                11
            },
            _ => {
                proof {
                    assert(false);
                }
                4
            },
        }
    }

    /// Decodes and executes the instruction at PC and returns its cycle
    /// count.  A halted CPU does nothing and returns 0 cycles.  An
    /// unassigned opcode is reported as an error carrying the byte and its
    /// address; the CPU is left in the promoted pre-fetch state.
    pub fn execute_next_instruction(&mut self) -> (r: Result<u8, StepError>)
        requires
            old(self).wf(),
        ensures
            final(self).wf(),
            old(self)@.step_ok() ==> r == Ok::<u8, StepError>(old(self)@.spec_step().1)
                && final(self)@ == old(self)@.spec_step().0,
            !old(self)@.step_ok() ==> r == Err::<u8, StepError>(
                StepError { opcode: old(self)@.fetched(), pc: old(self).pc },
            ) && final(self)@ == old(self)@.promoted(),
    {
        if self.halted {
            return Ok(0);
        }
        self.interrupts = match self.interrupts {
            Interrupts::PreEnabled => Interrupts::Enabled,
            other => other,
        };
        self.has_output = false;
        let op = self.read_memory(self.pc);
        if !is_opcode_defined(op) {
            return Err(StepError { opcode: op, pc: self.pc });
        }
        let cycles = if op < 0x40 {
            self.step_misc(op)
        } else if op < 0xC0 {
            self.step_movalu(op)
        } else {
            self.step_ctrl(op)
        };
        Ok(cycles)
    }
}

/// The operand slot selected by a 3-bit opcode field, as executable code.
pub fn code_register(code: u8) -> (r: Register)
    requires
        code < 8,
    ensures
        r == register_of_code(code),
{
    if code == 0 {
        Register::B
    } else if code == 1 {
        Register::C
    } else if code == 2 {
        Register::D
    } else if code == 3 {
        Register::E
    } else if code == 4 {
        Register::H
    } else if code == 5 {
        Register::L
    } else if code == 6 {
        Register::M
    } else {
        Register::A
    }
}

/// True exactly for the opcodes the 8080 defines.
pub fn is_opcode_defined(op: u8) -> (r: bool)
    ensures
        r == opcode_defined(op),
{
    !(op == 0x08 || op == 0x10 || op == 0x18 || op == 0x20 || op == 0x28 || op == 0x30
        || op == 0x38 || op == 0xCB || op == 0xD9 || op == 0xDD || op == 0xED || op == 0xFD)
}

/// What the frame conditions of a step are: `t` (the state an instruction
/// leaves) keeps the memory size, the input-port latches and the write
/// guard of `s`, and with the guard on it also keeps every byte outside
/// the arcade RAM window [0x2000, 0x4000).
pub open spec fn step_frame_ok(s: CpuModel, t: CpuModel) -> bool {
    t.wf() && t.ports == s.ports && t.rom_guard == s.rom_guard && (s.rom_guard ==> forall|a: int|
        0 <= a < 0x10000 && !(0x2000 <= a < 0x4000) ==> t.mem[a] == s.mem[a])
}

#[verifier::rlimit(100)]
#[verifier::spinoff_prover]
proof fn lemma_misc_frame(s: CpuModel)
    requires
        s.wf(),
        s.fetched() < 0x40,
    ensures
        step_frame_ok(s, s.spec_misc().0),
        opcode_defined(s.fetched()) ==> 4 <= s.spec_misc().1 <= 18,
{
    reveal(CpuModel::spec_misc);
    let op = s.fetched();
    if op == 0x00 {
    } else if op == 0x01 {
    } else if op == 0x02 {
    } else if op == 0x03 {
    } else if op == 0x04 {
    } else if op == 0x05 {
    } else if op == 0x06 {
    } else if op == 0x07 {
    } else if op == 0x09 {
    } else if op == 0x0A {
    } else if op == 0x0B {
    } else if op == 0x0C {
    } else if op == 0x0D {
    } else if op == 0x0E {
    } else if op == 0x0F {
    } else if op == 0x11 {
    } else if op == 0x12 {
    } else if op == 0x13 {
    } else if op == 0x14 {
    } else if op == 0x15 {
    } else if op == 0x16 {
    } else if op == 0x17 {
    } else if op == 0x19 {
    } else if op == 0x1A {
    } else if op == 0x1B {
    } else if op == 0x1C {
    } else if op == 0x1D {
    } else if op == 0x1E {
    } else if op == 0x1F {
    } else if op == 0x21 {
    } else if op == 0x22 {
    } else if op == 0x23 {
    } else if op == 0x24 {
    } else if op == 0x25 {
    } else if op == 0x26 {
    } else if op == 0x27 {
    } else if op == 0x29 {
    } else if op == 0x2A {
    } else if op == 0x2B {
    } else if op == 0x2C {
    } else if op == 0x2D {
    } else if op == 0x2E {
    } else if op == 0x2F {
    } else if op == 0x31 {
    } else if op == 0x32 {
    } else if op == 0x33 {
    } else if op == 0x34 {
    } else if op == 0x35 {
    } else if op == 0x36 {
    } else if op == 0x37 {
    } else if op == 0x39 {
    } else if op == 0x3A {
    } else if op == 0x3B {
    } else if op == 0x3C {
    } else if op == 0x3D {
    } else if op == 0x3E {
    } else if op == 0x3F {
    } else {
    }
}

#[verifier::rlimit(100)]
#[verifier::spinoff_prover]
proof fn lemma_movalu_frame(s: CpuModel)
    requires
        s.wf(),
        0x40 <= s.fetched() < 0xC0,
    ensures
        step_frame_ok(s, s.spec_movalu().0),
        4 <= s.spec_movalu().1 <= 18,
{
    reveal(CpuModel::spec_movalu);
}

#[verifier::rlimit(100)]
#[verifier::spinoff_prover]
proof fn lemma_ctrl_frame(s: CpuModel)
    requires
        s.wf(),
        0xC0 <= s.fetched(),
    ensures
        step_frame_ok(s, s.spec_ctrl().0),
        opcode_defined(s.fetched()) ==> 4 <= s.spec_ctrl().1 <= 18,
{
    reveal(CpuModel::spec_ctrl);
    let op = s.fetched();
    if op == 0xC0 {
    } else if op == 0xC1 {
    } else if op == 0xC2 {
    } else if op == 0xC3 {
    } else if op == 0xC4 {
    } else if op == 0xC5 {
    } else if op == 0xC6 {
    } else if op == 0xC7 {
    } else if op == 0xC8 {
    } else if op == 0xC9 {
    } else if op == 0xCA {
    } else if op == 0xCC {
    } else if op == 0xCD {
    } else if op == 0xCE {
    } else if op == 0xCF {
    } else if op == 0xD0 {
    } else if op == 0xD1 {
    } else if op == 0xD2 {
    } else if op == 0xD3 {
    } else if op == 0xD4 {
    } else if op == 0xD5 {
    } else if op == 0xD6 {
    } else if op == 0xD7 {
    } else if op == 0xD8 {
    } else if op == 0xDA {
    } else if op == 0xDB {
    } else if op == 0xDC {
    } else if op == 0xDE {
    } else if op == 0xDF {
    } else if op == 0xE0 {
    } else if op == 0xE1 {
    } else if op == 0xE2 {
    } else if op == 0xE3 {
    } else if op == 0xE4 {
    } else if op == 0xE5 {
    } else if op == 0xE6 {
    } else if op == 0xE7 {
    } else if op == 0xE8 {
    } else if op == 0xE9 {
    } else if op == 0xEA {
    } else if op == 0xEB {
    } else if op == 0xEC {
    } else if op == 0xEE {
    } else if op == 0xEF {
    } else if op == 0xF0 {
    } else if op == 0xF1 {
    } else if op == 0xF2 {
    } else if op == 0xF3 {
    } else if op == 0xF4 {
    } else if op == 0xF5 {
    } else if op == 0xF6 {
    } else if op == 0xF7 {
    } else if op == 0xF8 {
    } else if op == 0xF9 {
    } else if op == 0xFA {
    } else if op == 0xFB {
    } else if op == 0xFC {
    } else if op == 0xFE {
    } else if op == 0xFF {
    } else {
    }
}

/// The frame of a step: whatever instruction runs, the memory array keeps
/// its size, the input-port latches and the write guard are untouched, and
/// with the guard on, ROM (below 0x2000) and everything beyond the arcade
/// RAM (0x4000 and up) keep their bytes.  A halted CPU consumes no cycles;
/// every defined instruction consumes between 4 and 18.
pub proof fn lemma_step_frame(s: CpuModel)
    requires
        s.wf(),
    ensures
        step_frame_ok(s, s.spec_step().0),
        !s.halted && opcode_defined(s.fetched()) ==> 4 <= s.spec_step().1 <= 18,
        s.halted ==> s.spec_step().1 == 0,
{
    if !s.halted {
        let p = s.promoted();
        let op = p.fetched();
        if !opcode_defined(op) {
        } else if op < 0x40 {
            lemma_misc_frame(p);
        } else if op < 0xC0 {
            lemma_movalu_frame(p);
        } else {
            lemma_ctrl_frame(p);
        }
    }
}

/// The interrupt gate after a step: EI arms the one-instruction delay, DI
/// disables at once, and every other instruction leaves the promoted state
/// (`PreEnabled` ripens into `Enabled`, the rest stay put).
#[verifier::rlimit(100)]
#[verifier::spinoff_prover]
pub proof fn lemma_step_interrupts(s: CpuModel)
    requires
        s.wf(),
        !s.halted,
        opcode_defined(s.fetched()),
    ensures
        s.spec_step().0.interrupts == (if s.fetched() == 0xFB {
            Interrupts::PreEnabled
        } else if s.fetched() == 0xF3 {
            Interrupts::Disabled
        } else {
            s.promoted().interrupts
        }),
{
    reveal(CpuModel::spec_misc);
    reveal(CpuModel::spec_movalu);
    reveal(CpuModel::spec_ctrl);
}

} // verus!
