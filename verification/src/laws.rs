//! System-wide guarantees of the core, each proved from the step relation:
//! flag coherence of the arithmetic instructions, stack round-trips, the
//! PSW byte layout, CALL/RET pairing, EI's one-instruction latency, and
//! memory protection over whole instruction sequences.

use vstd::prelude::*;

use crate::cpu::{
    flags_from_byte, flags_to_byte, high8, low8, pair16, parity_of, sign_of, wrap16,
    ConditionCodes, CpuModel, Interrupts, Parity, Sign,
};
use crate::step::{lemma_step_frame, lemma_step_interrupts, opcode_defined, step_frame_ok};

verus! {

/// The opcodes that write A as the result of an addition or subtraction:
/// the ADD/ADC/SUB/SBB register forms, their immediates ADI/ACI/SUI/SBI,
/// and INR/DCR of A.
pub open spec fn writes_a_arith(op: u8) -> bool {
    (0x80 <= op && op < 0xA0) || op == 0xC6 || op == 0xCE || op == 0xD6 || op == 0xDE || op
        == 0x3C || op == 0x3D
}

/// After every instruction that writes A as the result of an addition or
/// subtraction, the zero flag holds exactly when A is zero, the sign flag
/// is A's bit 7, and the parity flag is the parity of A.
pub proof fn lemma_arith_flags(s: CpuModel)
    requires
        s.wf(),
        !s.halted,
        writes_a_arith(s.fetched()),
    ensures
        ({
            let t = s.spec_step().0;
            &&& t.cc.z == (t.a == 0)
            &&& t.cc.s == sign_of(t.a)
            &&& t.cc.p == parity_of(t.a)
        }),
{
    reveal(CpuModel::spec_misc);
    reveal(CpuModel::spec_movalu);
    reveal(CpuModel::spec_ctrl);
    let op = s.fetched();
    if 0x80 <= op && op < 0xA0 {
        assert((op >> 3) & 0x07 < 4) by (bit_vector)
            requires
                0x80 <= op < 0xA0,
        ;
    }
}

/// Pushing two bytes and popping them back round-trips: with SP inside the
/// writable arcade RAM, the following POP reads exactly the bytes pushed,
/// and SP returns to its old value.
pub proof fn lemma_push_pop_roundtrip(s: CpuModel, high: u8, low: u8)
    requires
        s.wf(),
        0x2002 <= s.sp <= 0x4000,
    ensures
        ({
            let t = s.spec_push(high, low);
            &&& t.pop_high() == high
            &&& t.pop_low() == low
            &&& t.spec_pop().sp == s.sp
        }),
{
}

/// The PSW byte layout round-trips: decoding the byte PUSH PSW writes
/// restores every flag configuration exactly.
pub proof fn lemma_psw_roundtrip(cc: ConditionCodes)
    ensures
        flags_from_byte(flags_to_byte(cc)) == cc,
{
    let zb: u8 = if cc.z {
        0
    } else {
        1
    };
    let sb: u8 = if cc.s == Sign::Negative {
        2
    } else {
        0
    };
    let pb: u8 = if cc.p == Parity::Odd {
        4
    } else {
        0
    };
    let cb: u8 = if cc.cy {
        8
    } else {
        0
    };
    let ab: u8 = if cc.ac {
        16
    } else {
        0
    };
    assert((zb == 0 || zb == 1) && (sb == 0 || sb == 2) && (pb == 0 || pb == 4) && (cb == 0 || cb
        == 8) && (ab == 0 || ab == 16) ==> ((zb | sb | pb | cb | ab) & 1 == zb && (zb | sb | pb
        | cb | ab) & 2 == sb && (zb | sb | pb | cb | ab) & 4 == pb && (zb | sb | pb | cb | ab)
        & 8 == cb && (zb | sb | pb | cb | ab) & 16 == ab)) by (bit_vector);
}

/// A CALL and the RET that answers it restore SP exactly and continue at
/// the instruction after the CALL (PC already points past the CALL's
/// opcode byte when it is decoded, so that address is PC+2).  Nested
/// balanced pairs compose this same fact.
pub proof fn lemma_call_ret(s: CpuModel, target: u16)
    requires
        s.wf(),
        0x2002 <= s.sp <= 0x4000,
    ensures
        ({
            let t = s.spec_call(target);
            &&& t.pc == target
            &&& t.spec_ret().pc == wrap16(s.pc + 2)
            &&& t.spec_ret().sp == s.sp
        }),
{
    let ret = wrap16(s.pc + 2);
    lemma_push_pop_roundtrip(s, high8(ret), low8(ret));
    crate::cpu::lemma_pair_split(ret);
}

/// EI's one-instruction latency.  `s` is about to execute EI and `x` is
/// the state after it: interrupts are then only pre-enabled, so a request
/// raised before the following instruction is dropped; once that
/// instruction (itself neither EI nor DI) completes, interrupts are fully
/// enabled, and a request is serviced: it pushes PC, jumps to 8*vector
/// and disables interrupts again.
pub proof fn lemma_ei_latency(s: CpuModel, x: CpuModel, vector: u8)
    requires
        s.wf(),
        !s.halted,
        s.fetched() == 0xFB,
        x == s.spec_step().0,
        !x.halted,
        opcode_defined(x.fetched()),
        x.fetched() != 0xFB,
        x.fetched() != 0xF3,
    ensures
        x.interrupts == Interrupts::PreEnabled,
        x.spec_interrupt(vector) == x,
        x.spec_step().0.interrupts == Interrupts::Enabled,
        x.spec_step().0.spec_interrupt(vector).interrupts == Interrupts::Disabled,
        x.spec_step().0.spec_interrupt(vector).pc == (8 * vector as int) as u16,
{
    lemma_step_frame(s);
    lemma_step_interrupts(s);
    lemma_step_interrupts(x);
}

/// The state after `n` instruction steps.
pub open spec fn spec_run(s: CpuModel, n: nat) -> CpuModel
    decreases n,
{
    if n == 0 {
        s
    } else {
        spec_run(s, (n - 1) as nat).spec_step().0
    }
}

/// The stack round-trip as the instruction sequence states it: executing
/// `LXI B,v; PUSH B; POP D` leaves DE = v and SP unchanged, for every
/// 16-bit value v (given as its two bytes).  The program may sit anywhere
/// PC reaches without wrapping; the stack must lie in the writable arcade
/// RAM and off the program text.
#[verifier::rlimit(100)]
#[verifier::spinoff_prover]
pub proof fn lemma_lxi_push_pop(s: CpuModel, lo: u8, hi: u8)
    requires
        s.wf(),
        !s.halted,
        s.pc + 5 < 0x10000,
        s.mem[s.pc as int] == 0x01,
        s.mem[s.pc + 1] == lo,
        s.mem[s.pc + 2] == hi,
        s.mem[s.pc + 3] == 0xC5,
        s.mem[s.pc + 4] == 0xD1,
        0x2002 <= s.sp <= 0x4000,
        s.sp - 2 > s.pc + 4 || s.sp < s.pc + 1,
    ensures
        spec_run(s, 3).d == hi,
        spec_run(s, 3).e == lo,
        spec_run(s, 3).b == hi,
        spec_run(s, 3).c == lo,
        spec_run(s, 3).sp == s.sp,
        pair16(spec_run(s, 3).d, spec_run(s, 3).e) == pair16(hi, lo),
{
    reveal(CpuModel::spec_misc);
    reveal(CpuModel::spec_ctrl);
    let s1 = s.spec_step().0;
    assert(s1.b == hi && s1.c == lo && s1.pc == s.pc + 3 && s1.mem == s.mem && s1.sp == s.sp);
    let s2 = s1.spec_step().0;
    assert(s2.sp == s.sp - 2 && s2.pc == s.pc + 4);
    assert(s2.mem[s.pc + 4] == 0xD1);
    let s3 = s2.spec_step().0;
    assert(s3.d == hi && s3.e == lo && s3.sp == s.sp);
    assert(spec_run(s, 0) == s);
    assert(spec_run(s, 1) == s1);
    assert(spec_run(s, 2) == s2);
    assert(spec_run(s, 3) == s3);
}

/// The PSW round-trip as the instruction sequence states it: executing
/// `PUSH PSW; POP PSW` restores every reachable flag configuration (and
/// the accumulator) exactly.
#[verifier::rlimit(100)]
#[verifier::spinoff_prover]
pub proof fn lemma_push_pop_psw(s: CpuModel)
    requires
        s.wf(),
        !s.halted,
        s.pc + 2 < 0x10000,
        s.mem[s.pc as int] == 0xF5,
        s.mem[s.pc + 1] == 0xF1,
        0x2002 <= s.sp <= 0x4000,
        s.sp - 2 > s.pc + 1 || s.sp < s.pc + 1,
    ensures
        spec_run(s, 2).cc == s.cc,
        spec_run(s, 2).a == s.a,
        spec_run(s, 2).sp == s.sp,
{
    reveal(CpuModel::spec_ctrl);
    let s1 = s.spec_step().0;
    assert(s1.sp == s.sp - 2 && s1.pc == s.pc + 1);
    assert(s1.mem[s.pc + 1] == 0xF1);
    let s2 = s1.spec_step().0;
    assert(s2.a == s.a && s2.sp == s.sp);
    assert(s2.cc == flags_from_byte(flags_to_byte(s.cc)));
    lemma_psw_roundtrip(s.cc);
    assert(spec_run(s, 0) == s);
    assert(spec_run(s, 1) == s1);
    assert(spec_run(s, 2) == s2);
}

/// Memory protection over whole programs: in the production profile (write
/// guard on), no sequence of instructions can change ROM (below 0x2000) or
/// any byte beyond the arcade RAM (0x4000 and up).
pub proof fn lemma_run_preserves_rom(s: CpuModel, n: nat)
    requires
        s.wf(),
        s.rom_guard,
    ensures
        spec_run(s, n).wf(),
        spec_run(s, n).rom_guard,
        forall|a: int|
            0 <= a < 0x10000 && !(0x2000 <= a < 0x4000) ==> spec_run(s, n).mem[a] == s.mem[a],
    decreases n,
{
    if n > 0 {
        lemma_run_preserves_rom(s, (n - 1) as nat);
        lemma_step_frame(spec_run(s, (n - 1) as nat));
        assert(step_frame_ok(spec_run(s, (n - 1) as nat), spec_run(s, n)));
    }
}

/// The state after a run of CALLs, to the given targets in order.
pub open spec fn apply_calls(s: CpuModel, targets: Seq<u16>) -> CpuModel
    decreases targets.len(),
{
    if targets.len() == 0 {
        s
    } else {
        apply_calls(s.spec_call(targets[0]), targets.skip(1))
    }
}

/// The state after `n` RETs in a row.
pub open spec fn apply_rets(s: CpuModel, n: nat) -> CpuModel
    decreases n,
{
    if n == 0 {
        s
    } else {
        apply_rets(s.spec_ret(), (n - 1) as nat)
    }
}

/// Peeling a run of RETs from the other end: `n + 1` RETs are `n` RETs
/// followed by one more.
proof fn lemma_apply_rets_snoc(s: CpuModel, n: nat)
    ensures
        apply_rets(s, n + 1) == apply_rets(s, n).spec_ret(),
    decreases n,
{
    if n == 0 {
        assert(apply_rets(s, 1) == apply_rets(s.spec_ret(), 0));
    } else {
        lemma_apply_rets_snoc(s.spec_ret(), (n - 1) as nat);
        assert(apply_rets(s, n + 1) == apply_rets(s.spec_ret(), n));
        assert(apply_rets(s, n) == apply_rets(s.spec_ret(), (n - 1) as nat));
    }
}

/// CALL/RET nesting at any depth: a balanced run of CALLs answered by the
/// same number of RETs restores SP exactly and continues at the
/// instruction after the outermost CALL, and it touches no memory at or
/// above the starting SP (so adjacent balanced blocks compose).  All the
/// stack frames must fit inside the writable arcade RAM.
pub proof fn lemma_call_ret_nesting(s: CpuModel, targets: Seq<u16>)
    requires
        s.wf(),
        s.sp <= 0x4000,
        0x2000 + 2 * targets.len() <= s.sp,
    ensures
        ({
            let t = apply_rets(apply_calls(s, targets), targets.len());
            &&& t.wf()
            &&& t.sp == s.sp
            &&& (targets.len() > 0 ==> t.pc == wrap16(s.pc + 2))
            &&& forall|a: int| s.sp <= a < 0x10000 ==> t.mem[a] == s.mem[a]
        }),
    decreases targets.len(),
{
    if targets.len() > 0 {
        let s1 = s.spec_call(targets[0]);
        let ret = wrap16(s.pc + 2);
        assert(s1.sp == s.sp - 2);
        assert(s1.mem[s.sp - 1] == high8(ret) && s1.mem[s.sp - 2] == low8(ret));
        lemma_call_ret_nesting(s1, targets.skip(1));
        let inner = apply_rets(apply_calls(s1, targets.skip(1)), targets.skip(1).len());
        lemma_apply_rets_snoc(apply_calls(s1, targets.skip(1)), targets.skip(1).len());
        assert(apply_rets(apply_calls(s, targets), targets.len()) == inner.spec_ret());
        assert(inner.mem[s.sp - 1] == high8(ret) && inner.mem[s.sp - 2] == low8(ret));
        crate::cpu::lemma_pair_split(ret);
        assert(inner.spec_ret().pc == ret);
        assert(inner.spec_ret().sp == s.sp);
    }
}

} // verus!
