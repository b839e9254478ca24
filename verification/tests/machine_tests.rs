//! Tests of the arcade I/O layer: shift-register hardware, key latches,
//! sound-trigger edges, the pacing tick and the frame-buffer window.

use invaders::machine::{cycles_for_nanos, Machine, PlayerKey, INTERRUPT_INTERVAL_MICROS};
use invaders::MEMORY_SIZE;

#[test]
fn machine_power_on_defaults() {
    let m = Machine::new();
    assert_eq!(m.cpu.input_ports[0], 0b1110);
    assert_eq!(m.cpu.input_ports[1], 0b1000);
    assert_eq!(m.cpu.input_ports[2], 0b1011);
    assert_eq!(m.cpu.input_ports[3], 0);
    assert_eq!(m.next_interrupt, 1);
    assert_eq!(m.shift_offset, 0);
    assert_eq!(m.cpu.memory.len(), MEMORY_SIZE);
}

#[test]
fn scenario_shift_register() {
    let mut m = Machine::new();
    m.space_invaders_out(4, 0xAA);
    m.space_invaders_out(4, 0xBB);
    m.space_invaders_out(2, 0x03);
    // ((0xBB << 8 | 0xAA) >> (8 - 3)) & 0xFF
    assert_eq!(m.cpu.input_ports[3], 0xDD);
    // An IN 3 instruction reads the same value.
    m.cpu.memory[0] = 0xDB;
    m.cpu.memory[1] = 0x03;
    m.cpu.execute_next_instruction().unwrap();
    assert_eq!(m.cpu.a, 0xDD);
}

#[test]
fn shift_register_default_offset() {
    let mut m = Machine::new();
    m.space_invaders_out(4, 0xFF);
    // shift1 = 0xFF, shift0 = 0, offset 0: window = 0xFF00 >> 8.
    assert_eq!(m.cpu.input_ports[3], 0xFF);
    m.space_invaders_out(4, 0x12);
    // shift0 takes the old shift1: window = 0x12FF >> 8.
    assert_eq!(m.cpu.input_ports[3], 0x12);
}

#[test]
fn out_to_unmapped_port_is_dropped() {
    let mut m = Machine::new();
    let before3 = m.cpu.input_ports[3];
    m.space_invaders_out(7, 0xFF);
    m.space_invaders_out(0, 0xFF);
    assert_eq!(m.cpu.input_ports[3], before3);
    assert_eq!(m.out_port3, 0);
    assert_eq!(m.out_port5, 0);
}

#[test]
fn scenario_video_layout() {
    let mut m = Machine::new();
    m.cpu.memory[0x2400] = 0x80;
    let fb = m.frame_buffer();
    assert_eq!(fb.len(), 0x1C00);
    assert_eq!(fb[0], 0x80);
    // The top-left pixel (column 0, row 0) is lit...
    assert!(m.pixel(0, 0));
    // ...and its neighbours are not.
    assert!(!m.pixel(0, 1));
    assert!(!m.pixel(1, 0));
}

#[test]
fn pixel_addressing_bottom_of_column() {
    let mut m = Machine::new();
    // Last byte of column 0, least significant bit: bottom-left pixel.
    m.cpu.memory[0x2400 + 31] = 0x01;
    assert!(m.pixel(0, 255));
    assert!(!m.pixel(0, 254));
    // First byte of column 1.
    m.cpu.memory[0x2400 + 32] = 0x80;
    assert!(m.pixel(1, 0));
}

#[test]
fn sound_triggers_fire_on_rising_edges() {
    let mut m = Machine::new();
    m.space_invaders_out(3, 0x02);
    let ev = m.sound_triggers();
    assert!(ev.shoot);
    assert!(!ev.ufo_start && !ev.ufo_stop && !ev.explosion && !ev.invader_killed);
    // The same value again produces no edge.
    m.space_invaders_out(3, 0x02);
    let ev2 = m.sound_triggers();
    assert!(!ev2.shoot);
    // UFO gating: bit 0 up starts the loop, down pauses it.
    m.space_invaders_out(3, 0x03);
    let ev3 = m.sound_triggers();
    assert!(ev3.ufo_start);
    assert!(!ev3.shoot);
    m.space_invaders_out(3, 0x00);
    let ev4 = m.sound_triggers();
    assert!(ev4.ufo_stop);
    // Port 5: the four beats and the UFO hit.
    m.space_invaders_out(5, 0x1F);
    let ev5 = m.sound_triggers();
    assert!(ev5.beat1 && ev5.beat2 && ev5.beat3 && ev5.beat4 && ev5.ufo_hit);
    m.space_invaders_out(5, 0x10);
    let ev6 = m.sound_triggers();
    assert!(!ev6.ufo_hit && !ev6.beat1);
}

#[test]
fn key_latches() {
    let mut m = Machine::new();
    m.key_down(PlayerKey::Coin);
    assert_eq!(m.cpu.input_ports[1], 0b1001);
    m.key_down(PlayerKey::P1Start);
    m.key_down(PlayerKey::P1Fire);
    m.key_down(PlayerKey::P1Left);
    m.key_down(PlayerKey::P1Right);
    assert_eq!(m.cpu.input_ports[1], 0b0111_1101);
    m.key_up(PlayerKey::Coin);
    assert_eq!(m.cpu.input_ports[1], 0b0111_1100);
    m.key_down(PlayerKey::P2Start);
    assert_eq!(m.cpu.input_ports[1] & 0x02, 0x02);
    m.key_down(PlayerKey::Tilt);
    m.key_down(PlayerKey::P2Fire);
    m.key_down(PlayerKey::P2Left);
    m.key_down(PlayerKey::P2Right);
    assert_eq!(m.cpu.input_ports[2], 0b0111_1111);
    m.key_up(PlayerKey::P2Left);
    assert_eq!(m.cpu.input_ports[2], 0b0101_1111);
}

#[test]
fn load_rom_places_bytes() {
    let mut m = Machine::new();
    m.load_rom_bytes(&[0x01, 0x02, 0x03]);
    assert_eq!(m.cpu.memory[0], 0x01);
    assert_eq!(m.cpu.memory[2], 0x03);
    m.load_rom_bytes_at(&[0xAA, 0xBB], 0x0800);
    assert_eq!(m.cpu.memory[0x0800], 0xAA);
    assert_eq!(m.cpu.memory[0x0801], 0xBB);
    // The earlier image is untouched.
    assert_eq!(m.cpu.memory[0], 0x01);
}

#[test]
fn execute_runs_program_and_collects_sounds() {
    let mut m = Machine::new();
    // MVI A,0x02; OUT 3; MVI A,0xAA; OUT 4; HLT
    m.load_rom_bytes(&[0x3E, 0x02, 0xD3, 0x03, 0x3E, 0xAA, 0xD3, 0x04, 0x76]);
    let events = m.execute(false, 100).unwrap();
    assert!(m.cpu.halted);
    assert_eq!(events.len(), 2);
    assert!(events[0].shoot);
    assert!(!events[1].shoot);
    assert_eq!(m.shift1, 0xAA);
    assert_eq!(m.out_port3, 0x02);
}

#[test]
fn execute_stops_at_cycle_budget() {
    let mut m = Machine::new();
    // An endless chain of NOPs (memory is zeroed): 4 cycles each.
    let before_pc = m.cpu.pc;
    m.execute(false, 12).unwrap();
    // Three NOPs cover the 12-cycle budget.
    assert_eq!(m.cpu.pc, before_pc + 3);
}

#[test]
fn execute_toggles_interrupt_vector() {
    let mut m = Machine::new();
    m.load_rom_bytes(&[0x76]);
    m.execute(true, 0).unwrap();
    assert_eq!(m.next_interrupt, 2);
    m.execute(true, 0).unwrap();
    assert_eq!(m.next_interrupt, 1);
    m.execute(false, 0).unwrap();
    assert_eq!(m.next_interrupt, 1);
}

#[test]
fn execute_delivers_interrupts_to_enabled_cpu() {
    let mut m = Machine::new();
    // EI; NOP; HLT -- after the halt an interrupt wakes the CPU at 0x0008,
    // where another HLT waits.
    m.load_rom_bytes(&[0xFB, 0x00, 0x76]);
    m.load_rom_bytes_at(&[0x76], 0x0008);
    m.execute(false, 100).unwrap();
    assert!(m.cpu.halted);
    m.execute(true, 100).unwrap();
    assert_eq!(m.next_interrupt, 2);
    assert!(m.cpu.halted);
    assert_eq!(m.cpu.pc, 0x0009);
}

#[test]
fn execute_reports_undefined_opcode() {
    let mut m = Machine::new();
    m.load_rom_bytes(&[0x00, 0x08]);
    let err = m.execute(false, 100).unwrap_err();
    assert_eq!(err.opcode, 0x08);
    assert_eq!(err.pc, 1);
}

#[test]
fn cycle_pacing_arithmetic() {
    assert_eq!(cycles_for_nanos(0), 0);
    assert_eq!(cycles_for_nanos(479), 1);
    assert_eq!(cycles_for_nanos(480), 1);
    assert_eq!(cycles_for_nanos(481), 2);
    assert_eq!(cycles_for_nanos(960), 2);
    // One half-frame of 8000 microseconds buys 16667 cycles.
    assert_eq!(cycles_for_nanos(INTERRUPT_INTERVAL_MICROS * 1000), 16667);
}

#[test]
fn memory_protection_survives_a_whole_tick() {
    let mut m = Machine::new();
    // A program that tries to overwrite itself and high memory:
    // MVI A,0x99; STA 0x0000; STA 0x5000; HLT
    m.load_rom_bytes(&[0x3E, 0x99, 0x32, 0x00, 0x00, 0x32, 0x00, 0x50, 0x76]);
    m.execute(false, 100).unwrap();
    assert_eq!(m.cpu.memory[0x0000], 0x3E);
    assert_eq!(m.cpu.memory[0x5000], 0x00);
}
