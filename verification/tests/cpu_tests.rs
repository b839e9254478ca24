//! End-to-end tests of the CPU core: reset state, flag semantics, stack
//! discipline, interrupt latency, memory protection and cycle counts.

use invaders::cpu::{get_parity, get_sign, Intel8080, Interrupts, Parity, Register, Sign};

/// Loads `program` at address 0 (bypassing the write guard, as a ROM
/// loader does) and returns a fresh CPU.
fn cpu_with_program(program: &[u8]) -> Intel8080 {
    let mut cpu = Intel8080::new();
    for (i, byte) in program.iter().enumerate() {
        cpu.memory[i] = *byte;
    }
    cpu
}

/// Steps until the CPU halts.
fn run_until_halt(cpu: &mut Intel8080) {
    while !cpu.halted {
        cpu.execute_next_instruction().unwrap();
    }
}

#[test]
fn reset_state() {
    let cpu = Intel8080::new();
    assert_eq!(cpu.a, 0);
    assert_eq!(cpu.b, 0);
    assert_eq!(cpu.sp, 0);
    assert_eq!(cpu.pc, 0);
    assert!(cpu.cc.z);
    assert_eq!(cpu.cc.s, Sign::Positive);
    assert_eq!(cpu.cc.p, Parity::Even);
    assert!(!cpu.cc.cy);
    assert!(!cpu.cc.ac);
    assert_eq!(cpu.interrupts, Interrupts::Disabled);
    assert!(!cpu.halted);
    assert_eq!(cpu.memory.len(), 0x10000);
    assert_eq!(cpu.input_ports.len(), 256);
    assert_eq!(cpu.memory[0x1234], 0);
}

#[test]
fn sign_and_parity_helpers() {
    assert_eq!(get_sign(0x00), Sign::Positive);
    assert_eq!(get_sign(0x7F), Sign::Positive);
    assert_eq!(get_sign(0x80), Sign::Negative);
    assert_eq!(get_parity(0x00), Parity::Even);
    assert_eq!(get_parity(0x01), Parity::Odd);
    assert_eq!(get_parity(0x03), Parity::Even);
    assert_eq!(get_parity(0x07), Parity::Odd);
    assert_eq!(get_parity(0xFF), Parity::Even);
}

#[test]
fn scenario_flag_basics() {
    // MVI A,0xFF; ADI 0x01; HLT
    let mut cpu = cpu_with_program(&[0x3E, 0xFF, 0xC6, 0x01, 0x76]);
    run_until_halt(&mut cpu);
    assert_eq!(cpu.a, 0x00);
    assert!(cpu.cc.z);
    assert!(cpu.cc.cy);
    assert_eq!(cpu.cc.s, Sign::Positive);
    assert_eq!(cpu.cc.p, Parity::Even);
    assert!(cpu.cc.ac);
}

#[test]
fn scenario_dad_and_hl() {
    // LXI H,0x1234; LXI B,0xFE01; DAD B; HLT
    // 0x1234 + 0xFE01 = 0x11035, so HL wraps to 0x1035 with the carry set.
    let mut cpu = cpu_with_program(&[0x21, 0x34, 0x12, 0x01, 0x01, 0xFE, 0x09, 0x76]);
    run_until_halt(&mut cpu);
    assert_eq!(cpu.h, 0x10);
    assert_eq!(cpu.l, 0x35);
    assert!(cpu.cc.cy);
}

#[test]
fn scenario_stack_and_call() {
    // LXI SP,0x2400; CALL 0x0008; HLT ... 0x0008: RET
    let mut cpu = cpu_with_program(&[0x31, 0x00, 0x24, 0xCD, 0x08, 0x00, 0x76]);
    cpu.memory[0x0008] = 0xC9;
    run_until_halt(&mut cpu);
    assert_eq!(cpu.sp, 0x2400);
    // PC sits just past the HLT at 0x0006.
    assert_eq!(cpu.pc, 0x0007);
    // The return address 0x0006 stayed on the stack below SP.
    assert_eq!(cpu.memory[0x23FE], 0x06);
    assert_eq!(cpu.memory[0x23FF], 0x00);
}

#[test]
fn scenario_ei_delay() {
    // EI; NOP; NOP with interrupts initially disabled.
    let mut cpu = cpu_with_program(&[0xFB, 0x00, 0x00]);
    // An interrupt raised before EI has no effect.
    cpu.generate_interrupt(1);
    assert_eq!(cpu.pc, 0);
    cpu.execute_next_instruction().unwrap();  // EI
    assert_eq!(cpu.pc, 1);
    // An interrupt raised between EI and the next instruction is not yet
    // serviced.
    cpu.generate_interrupt(1);
    assert_eq!(cpu.pc, 1);
    // The first NOP executes...
    cpu.execute_next_instruction().unwrap();
    assert_eq!(cpu.pc, 2);
    // ...and only after it is an interrupt serviced: PC jumps to 0x0008.
    cpu.generate_interrupt(1);
    assert_eq!(cpu.pc, 0x0008);
    assert_eq!(cpu.interrupts, Interrupts::Disabled);
}

#[test]
fn interrupt_wakes_halted_cpu() {
    // EI; NOP; HLT
    let mut cpu = cpu_with_program(&[0xFB, 0x00, 0x76]);
    run_until_halt(&mut cpu);
    assert!(cpu.halted);
    assert_eq!(cpu.execute_next_instruction().unwrap(), 0);
    cpu.generate_interrupt(2);
    assert!(!cpu.halted);
    assert_eq!(cpu.pc, 0x0010);
}

#[test]
fn undefined_opcode_reported() {
    let mut cpu = cpu_with_program(&[0x00, 0x08]);
    cpu.execute_next_instruction().unwrap();
    let err = cpu.execute_next_instruction().unwrap_err();
    assert_eq!(err.opcode, 0x08);
    assert_eq!(err.pc, 1);
    // The failed fetch does not advance PC.
    assert_eq!(cpu.pc, 1);
    let mut cpu2 = cpu_with_program(&[0xCB]);
    assert_eq!(cpu2.execute_next_instruction().unwrap_err().opcode, 0xCB);
    let mut cpu3 = cpu_with_program(&[0xFD]);
    assert_eq!(cpu3.execute_next_instruction().unwrap_err().opcode, 0xFD);
}

#[test]
fn memory_protection_guards_rom_and_high_memory() {
    // MVI A,0x55; STA 0x0005; STA 0x4001; STA 0x2000; HLT
    let mut cpu = cpu_with_program(&[
        0x3E, 0x55, 0x32, 0x05, 0x00, 0x32, 0x01, 0x40, 0x32, 0x00, 0x20, 0x76,
    ]);
    let rom_byte_before = cpu.memory[0x0005];
    run_until_halt(&mut cpu);
    assert_eq!(cpu.memory[0x0005], rom_byte_before);
    assert_eq!(cpu.memory[0x4001], 0x00);
    assert_eq!(cpu.memory[0x2000], 0x55);
}

#[test]
fn diagnostic_profile_disables_guard() {
    // With the guard off (CPU self-test profile), a store to ROM sticks.
    let mut cpu = cpu_with_program(&[0x3E, 0x55, 0x32, 0x00, 0x10, 0x76]);
    cpu.rom_guard = false;
    run_until_halt(&mut cpu);
    assert_eq!(cpu.memory[0x1000], 0x55);
}

#[test]
fn push_pop_roundtrip_through_instructions() {
    for &value in &[0x0000u16, 0xABCD, 0xFFFF, 0x0001] {
        // LXI SP,0x2400; LXI B,value; PUSH B; POP D; HLT
        let mut cpu = cpu_with_program(&[
            0x31,
            0x00,
            0x24,
            0x01,
            (value & 0xFF) as u8,
            (value >> 8) as u8,
            0xC5,
            0xD1,
            0x76,
        ]);
        run_until_halt(&mut cpu);
        let de = (cpu.d as u16) << 8 | cpu.e as u16;
        assert_eq!(de, value);
        assert_eq!(cpu.sp, 0x2400);
    }
}

#[test]
fn psw_roundtrip_through_instructions() {
    // LXI SP,0x2400; MVI A,0xFF; ADI 0x01 (Z, CY, AC set, even parity);
    // PUSH PSW; ADI 0x07 (clobbers every flag); POP PSW; HLT
    let mut cpu = cpu_with_program(&[
        0x31, 0x00, 0x24, 0x3E, 0xFF, 0xC6, 0x01, 0xF5, 0xC6, 0x07, 0xF1, 0x76,
    ]);
    run_until_halt(&mut cpu);
    assert!(cpu.cc.z);
    assert!(cpu.cc.cy);
    assert!(cpu.cc.ac);
    assert_eq!(cpu.cc.s, Sign::Positive);
    assert_eq!(cpu.cc.p, Parity::Even);
    // A second configuration: 0x90 + 0x90 = carry, negative clear, Z clear.
    let mut cpu2 = cpu_with_program(&[
        0x31, 0x00, 0x24, 0x3E, 0x90, 0xC6, 0x90, 0xF5, 0xC6, 0xE0, 0xF1, 0x76,
    ]);
    run_until_halt(&mut cpu2);
    assert!(!cpu2.cc.z);
    assert!(cpu2.cc.cy);
    assert!(!cpu2.cc.ac);
    assert_eq!(cpu2.cc.s, Sign::Positive);
    assert_eq!(cpu2.cc.p, Parity::Odd);
}

#[test]
fn nested_call_ret_balances_stack() {
    // LXI SP,0x2400; CALL 0x0010; HLT
    let mut cpu = cpu_with_program(&[0x31, 0x00, 0x24, 0xCD, 0x10, 0x00, 0x76]);
    // 0x0010: CALL 0x0020; RET      0x0020: RET
    cpu.memory[0x0010] = 0xCD;
    cpu.memory[0x0011] = 0x20;
    cpu.memory[0x0012] = 0x00;
    cpu.memory[0x0013] = 0xC9;
    cpu.memory[0x0020] = 0xC9;
    run_until_halt(&mut cpu);
    assert_eq!(cpu.sp, 0x2400);
    assert_eq!(cpu.pc, 0x0007);
}

#[test]
fn add_sets_aux_carry_and_parity() {
    // MVI A,0x0F; ADI 0x01; HLT -> A = 0x10: AC set, CY clear, parity odd.
    let mut cpu = cpu_with_program(&[0x3E, 0x0F, 0xC6, 0x01, 0x76]);
    run_until_halt(&mut cpu);
    assert_eq!(cpu.a, 0x10);
    assert!(cpu.cc.ac);
    assert!(!cpu.cc.cy);
    assert!(!cpu.cc.z);
    assert_eq!(cpu.cc.p, Parity::Odd);
}

#[test]
fn adc_uses_carry_in() {
    // MVI A,0xFF; ADI 0x01 (sets CY); MVI A,0x10; ACI 0x01 -> 0x12; HLT
    let mut cpu = cpu_with_program(&[0x3E, 0xFF, 0xC6, 0x01, 0x3E, 0x10, 0xCE, 0x01, 0x76]);
    run_until_halt(&mut cpu);
    assert_eq!(cpu.a, 0x12);
    assert!(!cpu.cc.cy);
}

#[test]
fn subtract_borrow_flags() {
    // MVI A,0x01; SUI 0x02; HLT -> A = 0xFF, borrow set, sign negative.
    let mut cpu = cpu_with_program(&[0x3E, 0x01, 0xD6, 0x02, 0x76]);
    run_until_halt(&mut cpu);
    assert_eq!(cpu.a, 0xFF);
    assert!(cpu.cc.cy);
    assert_eq!(cpu.cc.s, Sign::Negative);
    assert_eq!(cpu.cc.p, Parity::Even);
}

#[test]
fn sbb_uses_borrow_in() {
    // MVI A,0x01; SUI 0x02 (borrow); MVI A,0x10; SBI 0x01 -> 0x0E; HLT
    let mut cpu = cpu_with_program(&[0x3E, 0x01, 0xD6, 0x02, 0x3E, 0x10, 0xDE, 0x01, 0x76]);
    run_until_halt(&mut cpu);
    assert_eq!(cpu.a, 0x0E);
}

#[test]
fn compare_leaves_a_untouched() {
    // MVI A,0x42; CPI 0x42; HLT
    let mut cpu = cpu_with_program(&[0x3E, 0x42, 0xFE, 0x42, 0x76]);
    run_until_halt(&mut cpu);
    assert_eq!(cpu.a, 0x42);
    assert!(cpu.cc.z);
    assert!(!cpu.cc.cy);
}

#[test]
fn logic_clears_carries() {
    // MVI A,0xFF; ADI 0x01 (CY set); MVI A,0xF0; ANI 0x3C; HLT
    let mut cpu = cpu_with_program(&[0x3E, 0xFF, 0xC6, 0x01, 0x3E, 0xF0, 0xE6, 0x3C, 0x76]);
    run_until_halt(&mut cpu);
    assert_eq!(cpu.a, 0x30);
    assert!(!cpu.cc.cy);
    assert!(!cpu.cc.ac);
    assert_eq!(cpu.cc.p, Parity::Even);
}

#[test]
fn rotates() {
    // MVI A,0x81; RLC; HLT -> 0x03 with CY.
    let mut cpu = cpu_with_program(&[0x3E, 0x81, 0x07, 0x76]);
    run_until_halt(&mut cpu);
    assert_eq!(cpu.a, 0x03);
    assert!(cpu.cc.cy);
    // MVI A,0x01; RRC; HLT -> 0x80 with CY.
    let mut cpu2 = cpu_with_program(&[0x3E, 0x01, 0x0F, 0x76]);
    run_until_halt(&mut cpu2);
    assert_eq!(cpu2.a, 0x80);
    assert!(cpu2.cc.cy);
    // MVI A,0x80; STC; RAL; HLT -> carry rotates in: 0x01, CY from bit 7.
    let mut cpu3 = cpu_with_program(&[0x3E, 0x80, 0x37, 0x17, 0x76]);
    run_until_halt(&mut cpu3);
    assert_eq!(cpu3.a, 0x01);
    assert!(cpu3.cc.cy);
    // MVI A,0x01; STC; RAR; HLT -> 0x80, CY from bit 0.
    let mut cpu4 = cpu_with_program(&[0x3E, 0x01, 0x37, 0x1F, 0x76]);
    run_until_halt(&mut cpu4);
    assert_eq!(cpu4.a, 0x80);
    assert!(cpu4.cc.cy);
}

#[test]
fn daa_adjusts_bcd_sum() {
    // MVI A,0x9B; DAA; HLT -> 0x01 with CY and AC (the classic example).
    let mut cpu = cpu_with_program(&[0x3E, 0x9B, 0x27, 0x76]);
    run_until_halt(&mut cpu);
    assert_eq!(cpu.a, 0x01);
    assert!(cpu.cc.cy);
    assert!(cpu.cc.ac);
    assert!(!cpu.cc.z);
}

#[test]
fn increment_decrement_preserve_carry() {
    // MVI A,0xFF; ADI 0x01 (CY set); MVI B,0xFF; INR B; HLT
    let mut cpu = cpu_with_program(&[0x3E, 0xFF, 0xC6, 0x01, 0x06, 0xFF, 0x04, 0x76]);
    run_until_halt(&mut cpu);
    assert_eq!(cpu.b, 0x00);
    assert!(cpu.cc.z);
    assert!(cpu.cc.cy);  // CY untouched by INR
    // DCR through zero: MVI C,0x00; DCR C; HLT
    let mut cpu2 = cpu_with_program(&[0x0E, 0x00, 0x0D, 0x76]);
    run_until_halt(&mut cpu2);
    assert_eq!(cpu2.c, 0xFF);
    assert_eq!(cpu2.cc.s, Sign::Negative);
    assert!(!cpu2.cc.cy);
}

#[test]
fn inr_dcr_memory_operand() {
    let mut cpu = Intel8080::new();
    cpu.memory[0x2500] = 0x41;
    // LXI H,0x2500; INR M; HLT
    for (i, b) in [0x21, 0x00, 0x25, 0x34, 0x76].iter().enumerate() {
        cpu.memory[i] = *b;
    }
    run_until_halt(&mut cpu);
    assert_eq!(cpu.memory[0x2500], 0x42);
    let _ = Register::M;  // the operand slot exercised above
}

#[test]
fn register_pair_increments_carry_between_halves() {
    // LXI B,0x00FF; INX B; LXI D,0x0000; DCX D; HLT
    let mut cpu = cpu_with_program(&[0x01, 0xFF, 0x00, 0x03, 0x11, 0x00, 0x00, 0x1B, 0x76]);
    run_until_halt(&mut cpu);
    assert_eq!(cpu.b, 0x01);
    assert_eq!(cpu.c, 0x00);
    assert_eq!(cpu.d, 0xFF);
    assert_eq!(cpu.e, 0xFF);
}

#[test]
fn mov_block_and_xchg() {
    // MVI B,0x11; MOV C,B; MOV A,C; MVI H,0x22; MVI L,0x33; XCHG; HLT
    let mut cpu = cpu_with_program(&[
        0x06, 0x11, 0x48, 0x79, 0x26, 0x22, 0x2E, 0x33, 0xEB, 0x76,
    ]);
    run_until_halt(&mut cpu);
    assert_eq!(cpu.c, 0x11);
    assert_eq!(cpu.a, 0x11);
    assert_eq!(cpu.d, 0x22);
    assert_eq!(cpu.e, 0x33);
    assert_eq!(cpu.h, 0x00);
    assert_eq!(cpu.l, 0x00);
}

#[test]
fn mov_self_moves_are_defined() {
    // MVI B,0x07; MOV B,B; HLT -- 0x40 is a defined no-op move.
    let mut cpu = cpu_with_program(&[0x06, 0x07, 0x40, 0x76]);
    run_until_halt(&mut cpu);
    assert_eq!(cpu.b, 0x07);
}

#[test]
fn shld_lhld_and_xthl() {
    // LXI H,0xBEEF; SHLD 0x2600; LXI H,0x0000; LHLD 0x2600; HLT
    let mut cpu = cpu_with_program(&[
        0x21, 0xEF, 0xBE, 0x22, 0x00, 0x26, 0x21, 0x00, 0x00, 0x2A, 0x00, 0x26, 0x76,
    ]);
    run_until_halt(&mut cpu);
    assert_eq!(cpu.h, 0xBE);
    assert_eq!(cpu.l, 0xEF);
    assert_eq!(cpu.memory[0x2600], 0xEF);
    assert_eq!(cpu.memory[0x2601], 0xBE);
    // XTHL swaps HL with the top of stack.
    let mut cpu2 = Intel8080::new();
    cpu2.memory[0x2300] = 0x34;
    cpu2.memory[0x2301] = 0x12;
    // LXI SP,0x2300; LXI H,0xAABB; XTHL; HLT
    for (i, b) in [0x31, 0x00, 0x23, 0x21, 0xBB, 0xAA, 0xE3, 0x76].iter().enumerate() {
        cpu2.memory[i] = *b;
    }
    run_until_halt(&mut cpu2);
    assert_eq!(cpu2.h, 0x12);
    assert_eq!(cpu2.l, 0x34);
    assert_eq!(cpu2.memory[0x2300], 0xBB);
    assert_eq!(cpu2.memory[0x2301], 0xAA);
}

#[test]
fn conditional_jumps_and_cycle_counts() {
    let mut cpu = cpu_with_program(&[0x00]);
    assert_eq!(cpu.execute_next_instruction().unwrap(), 4);  // NOP
    // Untaken JNZ still costs 10 and advances past the address.
    let mut cpu2 = cpu_with_program(&[0x3E, 0x00, 0xC6, 0x00, 0xC2, 0x40, 0x00, 0x76]);
    cpu2.execute_next_instruction().unwrap();
    cpu2.execute_next_instruction().unwrap();  // ADI 0 -> Z set
    assert_eq!(cpu2.execute_next_instruction().unwrap(), 10);
    assert_eq!(cpu2.pc, 0x0007);
    // Taken CALL costs 17, untaken 11; taken RET 11, untaken 5.
    let mut cpu3 = cpu_with_program(&[0x31, 0x00, 0x24, 0x3E, 0x01, 0xC6, 0x00, 0xC4, 0x20, 0x00]);
    cpu3.memory[0x0020] = 0xC8;  // RZ: untaken (Z clear)
    cpu3.memory[0x0021] = 0xC0;  // RNZ: taken
    cpu3.execute_next_instruction().unwrap();  // LXI SP
    cpu3.execute_next_instruction().unwrap();  // MVI A,1
    cpu3.execute_next_instruction().unwrap();  // ADI 0 -> Z clear
    assert_eq!(cpu3.execute_next_instruction().unwrap(), 17);  // CNZ taken
    assert_eq!(cpu3.pc, 0x0020);
    assert_eq!(cpu3.execute_next_instruction().unwrap(), 5);  // RZ untaken
    assert_eq!(cpu3.execute_next_instruction().unwrap(), 11);  // RNZ taken
    assert_eq!(cpu3.pc, 0x000A);
    // CNZ untaken costs 11.
    let mut cpu4 = cpu_with_program(&[0x3E, 0x00, 0xC6, 0x00, 0xC4, 0x40, 0x00]);
    cpu4.execute_next_instruction().unwrap();
    cpu4.execute_next_instruction().unwrap();
    assert_eq!(cpu4.execute_next_instruction().unwrap(), 11);
}

#[test]
fn halted_cpu_steps_for_free() {
    let mut cpu = cpu_with_program(&[0x76]);
    assert_eq!(cpu.execute_next_instruction().unwrap(), 7);
    assert!(cpu.halted);
    let pc = cpu.pc;
    assert_eq!(cpu.execute_next_instruction().unwrap(), 0);
    assert_eq!(cpu.pc, pc);
}

#[test]
fn rst_vectors() {
    // EI; NOP; RST 3 pushes PC and jumps to 0x18.
    let mut cpu = cpu_with_program(&[0x31, 0x00, 0x24, 0xDF, 0x76]);
    cpu.execute_next_instruction().unwrap();  // LXI SP
    assert_eq!(cpu.execute_next_instruction().unwrap(), 11);  // RST 3
    assert_eq!(cpu.pc, 0x0018);
    assert_eq!(cpu.memory[0x23FE], 0x04);
    assert_eq!(cpu.memory[0x23FF], 0x00);
}

#[test]
fn out_sets_pending_output_and_in_reads_port() {
    // OUT 0x02; HLT
    let mut cpu = cpu_with_program(&[0x3E, 0x5A, 0xD3, 0x02, 0x76]);
    cpu.execute_next_instruction().unwrap();
    cpu.execute_next_instruction().unwrap();
    assert_eq!(cpu.get_output(), Some((0x02, 0x5A)));
    assert_eq!(cpu.get_output(), None);
    // IN 0x05 loads A from the port latch.
    let mut cpu2 = cpu_with_program(&[0xDB, 0x05, 0x76]);
    cpu2.input_ports[5] = 0x42;
    cpu2.execute_next_instruction().unwrap();
    assert_eq!(cpu2.a, 0x42);
}

#[test]
fn interrupt_ignored_while_disabled() {
    let mut cpu = cpu_with_program(&[0x00, 0x00]);
    cpu.generate_interrupt(2);
    assert_eq!(cpu.pc, 0);
    assert_eq!(cpu.interrupts, Interrupts::Disabled);
}

#[test]
fn pchl_and_sphl() {
    // LXI H,0x2345; SPHL; PCHL
    let mut cpu = cpu_with_program(&[0x21, 0x45, 0x23, 0xF9, 0xE9]);
    cpu.memory[0x2345] = 0x76;
    run_until_halt(&mut cpu);
    assert_eq!(cpu.sp, 0x2345);
    assert_eq!(cpu.pc, 0x2346);
}

#[test]
fn console_message_commands() {
    let mut cpu = Intel8080::new();
    cpu.c = 2;
    cpu.e = b'A';
    assert_eq!(cpu.console_message(), vec![b'A']);
    cpu.c = 9;
    cpu.d = 0x20;
    cpu.e = 0x00;
    // The message starts at DE + 3 and ends at '$'.
    cpu.memory[0x2003] = b'H';
    cpu.memory[0x2004] = b'I';
    cpu.memory[0x2005] = b'$';
    assert_eq!(cpu.console_message(), vec![b'H', b'I']);
}

#[test]
fn stax_ldax_sta_lda() {
    // LXI B,0x2700; MVI A,0x77; STAX B; MVI A,0x00; LDAX B;
    // STA 0x2701; LDA 0x2700; HLT
    let mut cpu = cpu_with_program(&[
        0x01, 0x00, 0x27, 0x3E, 0x77, 0x02, 0x3E, 0x00, 0x0A, 0x32, 0x01, 0x27, 0x3A, 0x00,
        0x27, 0x76,
    ]);
    run_until_halt(&mut cpu);
    assert_eq!(cpu.memory[0x2700], 0x77);
    assert_eq!(cpu.memory[0x2701], 0x77);
    assert_eq!(cpu.a, 0x77);
}

#[test]
fn cma_cmc_stc() {
    // MVI A,0xAA; CMA; STC; CMC; HLT
    let mut cpu = cpu_with_program(&[0x3E, 0xAA, 0x2F, 0x37, 0x3F, 0x76]);
    run_until_halt(&mut cpu);
    assert_eq!(cpu.a, 0x55);
    assert!(!cpu.cc.cy);
}
