//! The Midway arcade fabric around the CPU: the 16-bit hardware shift
//! register behind I/O ports 2/3/4, the input-port latches driven by player
//! keys and DIP switches, edge-detected sound triggers on output ports 3
//! and 5, the per-tick pacing arithmetic, and the frame-buffer window.
//!
//! Real time stays outside: the host measures elapsed wall time and hands
//! this layer a cycle budget and an interrupt decision; sounds come back as
//! plain trigger events for the host to play.

use vstd::prelude::*;
use vstd::slice::slice_subrange;

use crate::cpu::{initial_cpu, pair16, CpuModel, Intel8080};
use crate::step::{lemma_step_frame, opcode_defined, StepError};

verus! {

/// One player or cabinet key of the arcade.
#[derive(Clone, Copy, PartialEq, Eq, Structural, Debug)]
pub enum PlayerKey {
    Coin,
    Tilt,
    P1Left,
    P1Right,
    P1Fire,
    P1Start,
    P2Left,
    P2Right,
    P2Fire,
    P2Start,
}

/// The sound triggers one OUT dispatch produced.  Every field except the
/// UFO pair is a one-shot fired on a 0-to-1 edge of its port bit; the UFO
/// loop is gated on by `ufo_start` and off by `ufo_stop`.
#[derive(Clone, Copy, PartialEq, Eq, Structural, Debug)]
pub struct SoundEvents {
    pub ufo_start: bool,
    pub ufo_stop: bool,
    pub shoot: bool,
    pub explosion: bool,
    pub invader_killed: bool,
    pub beat1: bool,
    pub beat2: bool,
    pub beat3: bool,
    pub beat4: bool,
    pub ufo_hit: bool,
}

/// The arcade machine: the CPU plus the Midway I/O state.
pub struct Machine {
    pub cpu: Intel8080,
    /// Which mid-frame interrupt vector fires next: 1 at mid-screen, 2 at
    /// the vertical blank.
    pub next_interrupt: u8,
    pub out_port3: u8,
    pub last_out_port3: u8,
    pub out_port5: u8,
    pub last_out_port5: u8,
    /// Low half of the 16-bit hardware shift register.
    pub shift0: u8,
    /// High half of the 16-bit hardware shift register.
    pub shift1: u8,
    /// Bit offset of the 8-bit read window, 0..7.
    pub shift_offset: u8,
}

/// The mathematical model of the machine state.
#[verifier::ext_equal]
pub struct MachineModel {
    pub cpu: CpuModel,
    pub next_interrupt: u8,
    pub out_port3: u8,
    pub last_out_port3: u8,
    pub out_port5: u8,
    pub last_out_port5: u8,
    pub shift0: u8,
    pub shift1: u8,
    pub shift_offset: u8,
}

impl View for Machine {
    type V = MachineModel;

    open spec fn view(&self) -> MachineModel {
        MachineModel {
            cpu: self.cpu@,
            next_interrupt: self.next_interrupt,
            out_port3: self.out_port3,
            last_out_port3: self.last_out_port3,
            out_port5: self.out_port5,
            last_out_port5: self.last_out_port5,
            shift0: self.shift0,
            shift1: self.shift1,
            shift_offset: self.shift_offset,
        }
    }
}

/// A 0-to-1 transition of the bit `mask` selects between the previously
/// latched and the current output-port value.
pub open spec fn rising_edge(last: u8, cur: u8, mask: u8) -> bool {
    cur & mask == mask && last & mask != mask
}

/// A 1-to-0 transition of the bit `mask`.
pub open spec fn falling_edge(last: u8, cur: u8, mask: u8) -> bool {
    cur & mask != mask && last & mask == mask
}

/// The sound triggers that the edges between the latched and the current
/// output ports produce: UFO loop gating on port 3 bit 0, one-shots on
/// port 3 bits 1..3 and port 5 bits 0..4.
pub open spec fn spec_sounds(m: MachineModel) -> SoundEvents {
    SoundEvents {
        ufo_start: rising_edge(m.last_out_port3, m.out_port3, 0x01),
        ufo_stop: falling_edge(m.last_out_port3, m.out_port3, 0x01),
        shoot: rising_edge(m.last_out_port3, m.out_port3, 0x02),
        explosion: rising_edge(m.last_out_port3, m.out_port3, 0x04),
        invader_killed: rising_edge(m.last_out_port3, m.out_port3, 0x08),
        beat1: rising_edge(m.last_out_port5, m.out_port5, 0x01),
        beat2: rising_edge(m.last_out_port5, m.out_port5, 0x02),
        beat3: rising_edge(m.last_out_port5, m.out_port5, 0x04),
        beat4: rising_edge(m.last_out_port5, m.out_port5, 0x08),
        ufo_hit: rising_edge(m.last_out_port5, m.out_port5, 0x10),
    }
}

/// The input-port latch a key drives (port 1 for player 1 and the cabinet,
/// port 2 for player 2 and TILT).
pub open spec fn key_port(key: PlayerKey) -> int {
    match key {
        PlayerKey::Coin => 1,
        PlayerKey::Tilt => 2,
        PlayerKey::P1Left => 1,
        PlayerKey::P1Right => 1,
        PlayerKey::P1Fire => 1,
        PlayerKey::P1Start => 1,
        PlayerKey::P2Left => 2,
        PlayerKey::P2Right => 2,
        PlayerKey::P2Fire => 2,
        PlayerKey::P2Start => 1,
    }
}

/// The bit a key drives within its input port.
pub open spec fn key_mask(key: PlayerKey) -> u8 {
    match key {
        PlayerKey::Coin => 0x01,
        PlayerKey::Tilt => 0x04,
        PlayerKey::P1Left => 0x20,
        PlayerKey::P1Right => 0x40,
        PlayerKey::P1Fire => 0x10,
        PlayerKey::P1Start => 0x04,
        PlayerKey::P2Left => 0x20,
        PlayerKey::P2Right => 0x40,
        PlayerKey::P2Fire => 0x10,
        PlayerKey::P2Start => 0x02,
    }
}

/// The machine at power-on: CPU at reset, shift register cleared, vector 1
/// to fire first, and the three input latches at their wired defaults
/// (port 2's DIP bits select the easy profile: 6 ships, bonus life at
/// 1000 points).
pub open spec fn initial_machine() -> MachineModel {
    MachineModel {
        cpu: CpuModel {
            ports: initial_cpu().ports.update(0, 0b1110u8).update(1, 0b1000u8).update(
                2,
                0b1011u8,
            ),
            ..initial_cpu()
        },
        next_interrupt: 1,
        out_port3: 0,
        last_out_port3: 0,
        out_port5: 0,
        last_out_port5: 0,
        shift0: 0,
        shift1: 0,
        shift_offset: 0,
    }
}

/// Lit state of the screen pixel at column `x`, row `y` (after the 90
/// degree counter-clockwise rotation of the monitor): the frame buffer is
/// column-major from 0x2400 on, 32 bytes per column top to bottom, 8
/// vertical pixels per byte with the least significant bit at the bottom
/// of its group (so the most significant bit of byte 0x2400 is the
/// top-left pixel).
pub open spec fn pixel_lit(mem: Seq<u8>, x: int, y: int) -> bool
    recommends
        0 <= x < 224,
        0 <= y < 256,
{
    (mem[0x2400 + x * 32 + y / 8] >> ((7 - y % 8) as u8)) & 1 == 1
}

impl MachineModel {
    /// The byte the shift-register hardware presents on input port 3: the
    /// window of the 16-bit value `shift1:shift0` starting `shift_offset`
    /// bits from the top.
    pub open spec fn shift_window(self) -> u8 {
        ((pair16(self.shift1, self.shift0) >> ((8 - self.shift_offset) as u16)) & 0xFF) as u8
    }

    /// The model with one input-port latch replaced.
    pub open spec fn with_port(self, idx: int, v: u8) -> MachineModel {
        MachineModel { cpu: CpuModel { ports: self.cpu.ports.update(idx, v), ..self.cpu }, ..self }
    }

    /// The model with input port 3 refreshed from the shift register.
    pub open spec fn with_port3_latch(self) -> MachineModel {
        self.with_port(3, self.shift_window())
    }

    /// Well-formedness: the CPU arrays have hardware size, the shift offset
    /// is 3 bits, the interrupt toggle is one of the two arcade vectors,
    /// and the port-3 latch is coherent with the shift register.
    pub open spec fn wf(self) -> bool {
        self.cpu.wf() && self.shift_offset < 8 && (self.next_interrupt == 1
            || self.next_interrupt == 2) && self.cpu.ports[3] == self.shift_window()
    }

    /// What a CPU OUT does to the I/O fabric: port 2 sets the window
    /// offset, port 4 shifts a new byte into the register (both refresh
    /// the port-3 latch), ports 3 and 5 latch sound bits, anything else is
    /// ignored.
    pub open spec fn spec_out(self, port: u8, value: u8) -> MachineModel {
        if port == 2 {
            MachineModel { shift_offset: value & 0x07, ..self }.with_port3_latch()
        } else if port == 3 {
            MachineModel { out_port3: value, ..self }
        } else if port == 4 {
            MachineModel { shift0: self.shift1, shift1: value, ..self }.with_port3_latch()
        } else if port == 5 {
            MachineModel { out_port5: value, ..self }
        } else {
            self
        }
    }

    /// The interrupt decision at the top of a tick: when one is due, the
    /// pending vector is delivered to the CPU (serviced only if interrupts
    /// are enabled) and the vector toggles between 1 and 2.
    pub open spec fn spec_fire(self, fire: bool) -> MachineModel {
        if fire {
            MachineModel {
                cpu: self.cpu.spec_interrupt(self.next_interrupt),
                next_interrupt: if self.next_interrupt == 1 {
                    2u8
                } else {
                    1u8
                },
                ..self
            }
        } else {
            self
        }
    }

    /// Draining the CPU's pending OUT after a step: the output is consumed,
    /// dispatched into the I/O fabric, and the sound edges latched; with no
    /// pending output nothing happens and no events arise.
    pub open spec fn spec_drain(self) -> (MachineModel, Seq<SoundEvents>) {
        if self.cpu.has_output {
            let cleared = MachineModel { cpu: CpuModel { has_output: false, ..self.cpu }, ..self };
            let dispatched = cleared.spec_out(self.cpu.output_port, self.cpu.a);
            let latched = MachineModel {
                last_out_port3: dispatched.out_port3,
                last_out_port5: dispatched.out_port5,
                ..dispatched
            };
            (latched, seq![spec_sounds(dispatched)])
        } else {
            (self, Seq::<SoundEvents>::empty())
        }
    }

    /// The stepping loop of one tick, as a function of the remaining cycle
    /// budget: while budget remains and the CPU is not halted, one
    /// instruction executes, any pending OUT is drained (collecting its
    /// sound events) before the next step, and the instruction's cycle
    /// count is paid from the budget.  An unassigned opcode stops the loop
    /// with its report and the CPU left in the promoted pre-fetch state.
    /// Every defined instruction costs at least 4 cycles; the clamp below
    /// only serves the termination measure.
    pub open spec fn spec_tick(self, budget: int) -> (MachineModel, Seq<SoundEvents>, Option<
        StepError,
    >)
        decreases (if budget > 0 {
            budget
        } else {
            0int
        }),
    {
        if budget <= 0 || self.cpu.halted {
            (self, Seq::<SoundEvents>::empty(), None)
        } else if !opcode_defined(self.cpu.fetched()) {
            (
                MachineModel { cpu: self.cpu.promoted(), ..self },
                Seq::<SoundEvents>::empty(),
                Some(StepError { opcode: self.cpu.fetched(), pc: self.cpu.pc }),
            )
        } else {
            let stepped = self.cpu.spec_step();
            let used: int = if stepped.1 < 1 {
                1
            } else {
                stepped.1 as int
            };
            let drained = (MachineModel { cpu: stepped.0, ..self }).spec_drain();
            let rest = drained.0.spec_tick(budget - used);
            (rest.0, drained.1 + rest.1, rest.2)
        }
    }
}

impl Machine {
    /// Well-formedness of the machine (see [`MachineModel::wf`]).
    pub open spec fn wf(self) -> bool {
        self@.wf()
    }

    /// A machine at power-on.
    pub fn new() -> (r: Machine)
        ensures
            r.wf(),
            r@ == initial_machine(),
    {
        let mut cpu = Intel8080::new();
        cpu.input_ports[0] = 0b1110;
        cpu.input_ports[1] = 0b1000;
        cpu.input_ports[2] = 0b1011;
        let r = Machine {
            cpu,
            next_interrupt: 1,
            out_port3: 0,
            last_out_port3: 0,
            out_port5: 0,
            last_out_port5: 0,
            shift0: 0,
            shift1: 0,
            shift_offset: 0,
        };
        proof {
            assert(r@ =~= initial_machine());
            assert((((0u8 as u16) << 8 | (0u8 as u16)) >> ((8 - 0u8) as u16)) & 0xFF == 0)
                by (bit_vector);
        }
        r
    }

    /// Copies a ROM image into memory at offset 0.
    pub fn load_rom_bytes(&mut self, bytes: &[u8])
        requires
            old(self).wf(),
            bytes@.len() <= 0x10000,
        ensures
            final(self).wf(),
            final(self)@ == (MachineModel {
                cpu: CpuModel { mem: final(self)@.cpu.mem, ..old(self)@.cpu },
                ..old(self)@
            }),
            final(self)@.cpu.mem.len() == 0x10000,
            forall|j: int| 0 <= j < bytes@.len() ==> final(self)@.cpu.mem[j] == bytes@[j],
            forall|j: int|
                bytes@.len() <= j < 0x10000 ==> final(self)@.cpu.mem[j] == old(self)@.cpu.mem[j],
    {
        self.load_rom_bytes_at(bytes, 0);
    }

    /// Copies a ROM image into memory starting at `offset`; the loader
    /// bypasses the write guard (it is what creates the ROM in the first
    /// place).
    pub fn load_rom_bytes_at(&mut self, bytes: &[u8], offset: u16)
        requires
            old(self).wf(),
            offset + bytes@.len() <= 0x10000,
        ensures
            final(self).wf(),
            final(self)@ == (MachineModel {
                cpu: CpuModel { mem: final(self)@.cpu.mem, ..old(self)@.cpu },
                ..old(self)@
            }),
            final(self)@.cpu.mem.len() == 0x10000,
            forall|j: int|
                0 <= j < bytes@.len() ==> final(self)@.cpu.mem[offset + j] == bytes@[j],
            forall|j: int|
                0 <= j < 0x10000 && !(offset <= j < offset + bytes@.len()) ==> final(self)@.cpu.mem[j] == old(self)@.cpu.mem[j],
    {
        let mut i: usize = 0;
        while i < bytes.len()
            invariant
                0 <= i <= bytes@.len(),
                offset + bytes@.len() <= 0x10000,
                self@ == (MachineModel {
                    cpu: CpuModel { mem: self@.cpu.mem, ..old(self)@.cpu },
                    ..old(self)@
                }),
                self@.cpu.mem.len() == 0x10000,
                forall|j: int| 0 <= j < i ==> self@.cpu.mem[offset + j] == bytes@[j],
                forall|j: int|
                    0 <= j < 0x10000 && !(offset <= j < offset + i) ==> self@.cpu.mem[j] == old(self)@.cpu.mem[j],
            decreases bytes@.len() - i,
        {
            let address: usize = offset as usize + i;
            self.cpu.memory[address] = bytes[i];
            i = i + 1;
        }
        proof {
            assert(self@.wf());
        }
    }

    /// The read-only frame-buffer window memory[0x2400..0x4000): a 1
    /// bit-per-pixel, column-major image the host must rotate 90 degrees
    /// counter-clockwise.
    pub fn frame_buffer(&self) -> (r: &[u8])
        requires
            self.wf(),
        ensures
            r@ == self@.cpu.mem.subrange(0x2400, 0x4000),
    {
        slice_subrange(self.cpu.memory.as_slice(), 0x2400, 0x4000)
    }

    /// Reads one screen pixel in rotated screen coordinates (column `x`
    /// from the left, row `y` from the top).
    pub fn pixel(&self, x: usize, y: usize) -> (r: bool)
        requires
            self.wf(),
            x < 224,
            y < 256,
        ensures
            r == pixel_lit(self@.cpu.mem, x as int, y as int),
    {
        let index: usize = 0x2400 + x * 32 + y / 8;
        let byte = self.cpu.memory[index];
        let bit: u8 = (7 - y % 8) as u8;
        (byte >> bit) & 1 == 1
    }

    /// Refreshes the input-port-3 latch from the shift register, keeping
    /// it coherent with every change to the register or its offset.
    fn update_shift_register(&mut self)
        requires
            old(self)@.cpu.wf(),
            old(self).shift_offset < 8,
        ensures
            final(self)@ == old(self)@.with_port3_latch(),
    {
        let v: u16 = (self.shift1 as u16) << 8 | (self.shift0 as u16);
        let shift: u16 = (8 - self.shift_offset) as u16;
        proof {
            assert((v >> shift) & 0xFF < 0x100) by (bit_vector);
        }
        let value: u8 = ((v >> shift) & 0xFF) as u8;
        self.cpu.input_ports[3] = value;
        proof {
            assert(self@ =~= old(self)@.with_port3_latch());
        }
    }

    /// Dispatches a CPU OUT into the I/O fabric (see
    /// [`MachineModel::spec_out`]).
    pub fn space_invaders_out(&mut self, port: u8, value: u8)
        requires
            old(self).wf(),
        ensures
            final(self).wf(),
            final(self)@ == old(self)@.spec_out(port, value),
    {
        if port == 2 {
            proof {
                assert(value & 0x07 < 8) by (bit_vector);
            }
            self.shift_offset = value & 0x07;
            self.update_shift_register();
        } else if port == 3 {
            self.out_port3 = value;
        } else if port == 4 {
            self.shift0 = self.shift1;
            self.shift1 = value;
            self.update_shift_register();
        } else if port == 5 {
            self.out_port5 = value;
        }
    }

    /// Computes the sound triggers of the latest OUT latches by edge
    /// detection against the previously latched values, then re-latches.
    pub fn sound_triggers(&mut self) -> (r: SoundEvents)
        requires
            old(self).wf(),
        ensures
            final(self).wf(),
            final(self)@ == (MachineModel {
                last_out_port3: old(self)@.out_port3,
                last_out_port5: old(self)@.out_port5,
                ..old(self)@
            }),
            r == spec_sounds(old(self)@),
    {
        let r = SoundEvents {
            ufo_start: self.out_port3 & 0x01 == 0x01 && self.last_out_port3 & 0x01 != 0x01,
            ufo_stop: self.out_port3 & 0x01 != 0x01 && self.last_out_port3 & 0x01 == 0x01,
            shoot: self.out_port3 & 0x02 == 0x02 && self.last_out_port3 & 0x02 != 0x02,
            explosion: self.out_port3 & 0x04 == 0x04 && self.last_out_port3 & 0x04 != 0x04,
            invader_killed: self.out_port3 & 0x08 == 0x08 && self.last_out_port3 & 0x08 != 0x08,
            beat1: self.out_port5 & 0x01 == 0x01 && self.last_out_port5 & 0x01 != 0x01,
            beat2: self.out_port5 & 0x02 == 0x02 && self.last_out_port5 & 0x02 != 0x02,
            beat3: self.out_port5 & 0x04 == 0x04 && self.last_out_port5 & 0x04 != 0x04,
            beat4: self.out_port5 & 0x08 == 0x08 && self.last_out_port5 & 0x08 != 0x08,
            ufo_hit: self.out_port5 & 0x10 == 0x10 && self.last_out_port5 & 0x10 != 0x10,
        };
        self.last_out_port3 = self.out_port3;
        self.last_out_port5 = self.out_port5;
        r
    }

    /// Latches a key press into its input port (sets the key's bit).
    pub fn key_down(&mut self, key: PlayerKey)
        requires
            old(self).wf(),
        ensures
            final(self).wf(),
            final(self)@ == old(self)@.with_port(
                key_port(key),
                old(self)@.cpu.ports[key_port(key)] | key_mask(key),
            ),
    {
        match key {
            PlayerKey::Coin => self.cpu.input_ports[1] = self.cpu.input_ports[1] | 0x01,
            PlayerKey::Tilt => self.cpu.input_ports[2] = self.cpu.input_ports[2] | 0x04,
            PlayerKey::P1Left => self.cpu.input_ports[1] = self.cpu.input_ports[1] | 0x20,
            PlayerKey::P1Right => self.cpu.input_ports[1] = self.cpu.input_ports[1] | 0x40,
            PlayerKey::P1Fire => self.cpu.input_ports[1] = self.cpu.input_ports[1] | 0x10,
            PlayerKey::P1Start => self.cpu.input_ports[1] = self.cpu.input_ports[1] | 0x04,
            PlayerKey::P2Left => self.cpu.input_ports[2] = self.cpu.input_ports[2] | 0x20,
            PlayerKey::P2Right => self.cpu.input_ports[2] = self.cpu.input_ports[2] | 0x40,
            PlayerKey::P2Fire => self.cpu.input_ports[2] = self.cpu.input_ports[2] | 0x10,
            PlayerKey::P2Start => self.cpu.input_ports[1] = self.cpu.input_ports[1] | 0x02,
        }
        proof {
            assert(self@ =~= old(self)@.with_port(
                key_port(key),
                old(self)@.cpu.ports[key_port(key)] | key_mask(key),
            ));
        }
    }

    /// Latches a key release into its input port (clears the key's bit).
    pub fn key_up(&mut self, key: PlayerKey)
        requires
            old(self).wf(),
        ensures
            final(self).wf(),
            final(self)@ == old(self)@.with_port(
                key_port(key),
                old(self)@.cpu.ports[key_port(key)] & !key_mask(key),
            ),
    {
        match key {
            PlayerKey::Coin => self.cpu.input_ports[1] = self.cpu.input_ports[1] & !0x01,
            PlayerKey::Tilt => self.cpu.input_ports[2] = self.cpu.input_ports[2] & !0x04,
            PlayerKey::P1Left => self.cpu.input_ports[1] = self.cpu.input_ports[1] & !0x20,
            PlayerKey::P1Right => self.cpu.input_ports[1] = self.cpu.input_ports[1] & !0x40,
            PlayerKey::P1Fire => self.cpu.input_ports[1] = self.cpu.input_ports[1] & !0x10,
            PlayerKey::P1Start => self.cpu.input_ports[1] = self.cpu.input_ports[1] & !0x04,
            PlayerKey::P2Left => self.cpu.input_ports[2] = self.cpu.input_ports[2] & !0x20,
            PlayerKey::P2Right => self.cpu.input_ports[2] = self.cpu.input_ports[2] & !0x40,
            PlayerKey::P2Fire => self.cpu.input_ports[2] = self.cpu.input_ports[2] & !0x10,
            PlayerKey::P2Start => self.cpu.input_ports[1] = self.cpu.input_ports[1] & !0x02,
        }
        proof {
            assert(self@ =~= old(self)@.with_port(
                key_port(key),
                old(self)@.cpu.ports[key_port(key)] & !key_mask(key),
            ));
        }
    }

    /// One host tick of the pacing loop.  The host measures wall time and
    /// passes the result in: `fire_interrupt` is true when a half-frame
    /// (8000 microseconds) has passed since the last interrupt, and
    /// `cycles_needed` is the elapsed time divided by the 480 ns cycle
    /// (see [`cycles_for_nanos`]).  The machine then fires the pending
    /// mid-frame interrupt vector (toggling between 1 and 2), steps the
    /// CPU until the cycle budget is spent, drains every pending OUT into
    /// the I/O fabric, and collects the sound triggers in order, exactly
    /// as [`MachineModel::spec_fire`] followed by [`MachineModel::spec_tick`]
    /// describe.  A halted CPU ends the tick early (it consumes no cycles
    /// until an interrupt wakes it); an unassigned opcode aborts the tick
    /// with its report.
    #[verifier::rlimit(100)]
    #[verifier::spinoff_prover]
    pub fn execute(&mut self, fire_interrupt: bool, cycles_needed: u32) -> (r: Result<
        Vec<SoundEvents>,
        StepError,
    >)
        requires
            old(self).wf(),
            cycles_needed <= 0x4000_0000,
        ensures
            final(self).wf(),
            ({
                let t = old(self)@.spec_fire(fire_interrupt).spec_tick(cycles_needed as int);
                &&& (r matches Ok(events) ==> t.2 is None && final(self)@ == t.0 && events@
                    == t.1)
                &&& (r matches Err(report) ==> t.2 == Some(report) && final(self)@ == t.0)
            }),
            final(self)@.cpu.rom_guard == old(self)@.cpu.rom_guard,
            old(self)@.cpu.rom_guard ==> forall|a: int|
                0 <= a < 0x10000 && !(0x2000 <= a < 0x4000) ==> final(self)@.cpu.mem[a] == old(self)@.cpu.mem[a],
            final(self)@.next_interrupt == (if fire_interrupt {
                if old(self)@.next_interrupt == 1 {
                    2u8
                } else {
                    1u8
                }
            } else {
                old(self)@.next_interrupt
            }),
    {
        if fire_interrupt {
            let vector = self.next_interrupt;
            self.cpu.generate_interrupt(vector);
            self.next_interrupt = if vector == 1 {
                2
            } else {
                1
            };
        }
        let ghost start = old(self)@.spec_fire(fire_interrupt);
        let ghost budget = cycles_needed as int;
        proof {
            assert(self@ =~= start);
        }
        let mut events: Vec<SoundEvents> = Vec::new();
        let mut cycles: u32 = 0;
        while cycles < cycles_needed
            invariant
                self.wf(),
                cycles <= cycles_needed,
                cycles_needed <= 0x4000_0000,
                budget == cycles_needed as int,
                start == old(self)@.spec_fire(fire_interrupt),
                start.spec_tick(budget).0 == self@.spec_tick(budget - cycles).0,
                start.spec_tick(budget).1 == events@ + self@.spec_tick(budget - cycles).1,
                start.spec_tick(budget).2 == self@.spec_tick(budget - cycles).2,
                self@.cpu.rom_guard == old(self)@.cpu.rom_guard,
                old(self)@.cpu.rom_guard ==> forall|a: int|
                    0 <= a < 0x10000 && !(0x2000 <= a < 0x4000) ==> self@.cpu.mem[a] == old(self)@.cpu.mem[a],
                self@.next_interrupt == start.next_interrupt,
            ensures
                cycles >= cycles_needed || self@.cpu.halted,
            decreases cycles_needed - cycles,
        {
            let ghost before = self@;
            let ghost remaining = budget - cycles;
            let step = self.step_once();
            let consumed = match step {
                Ok(c) => c,
                Err(report) => {
                    proof {
                        assert(before.spec_tick(remaining).2 == Some(report));
                        assert(self@ =~= before.spec_tick(remaining).0);
                    }
                    return Err(report);
                },
            };
            if consumed == 0 {
                // Only a halted CPU returns 0 cycles; it stays idle until
                // the next interrupt, so the tick ends here.
                proof {
                    assert(before.cpu.halted);
                    assert(self@ =~= before);
                }
                break ;
            }
            proof {
                assert(!before.cpu.halted && opcode_defined(before.cpu.fetched()));
            }
            let advance = consumed as u32;
            cycles = if advance >= cycles_needed - cycles {
                cycles_needed
            } else {
                cycles + advance
            };
            let ghost stepped_m = MachineModel { cpu: before.cpu.spec_step().0, ..before };
            proof {
                assert(self@ =~= stepped_m);
            }
            if let Some((port, value)) = self.cpu.get_output() {
                self.space_invaders_out(port, value);
                let triggered = self.sound_triggers();
                events.push(triggered);
                proof {
                    assert(self@ =~= stepped_m.spec_drain().0);
                    assert(stepped_m.spec_drain().1 =~= seq![triggered]);
                }
            } else {
                proof {
                    assert(self@ =~= stepped_m.spec_drain().0);
                    assert(stepped_m.spec_drain().1 =~= Seq::<SoundEvents>::empty());
                }
            }
            proof {
                let rest = self@.spec_tick(remaining - consumed);
                assert(before.spec_tick(remaining).0 == rest.0);
                assert(before.spec_tick(remaining).1 =~= stepped_m.spec_drain().1 + rest.1);
                assert(before.spec_tick(remaining).2 == rest.2);
                if budget - cycles != remaining - consumed {
                    // The budget saturated: both sides are past zero, where
                    // the tick has already stopped.
                    assert(cycles == cycles_needed);
                    assert(remaining - consumed <= 0);
                    assert(self@.spec_tick(remaining - consumed) == self@.spec_tick(
                        budget - cycles,
                    ));
                }
                assert(start.spec_tick(budget).1 =~= events@ + self@.spec_tick(
                    budget - cycles,
                ).1);
            }
        }
        proof {
            assert(self@.spec_tick(budget - cycles).2 is None);
            assert(self@.spec_tick(budget - cycles).0 == self@);
            assert(self@.spec_tick(budget - cycles).1 =~= Seq::<SoundEvents>::empty());
            assert(events@ =~= start.spec_tick(budget).1);
        }
        Ok(events)
    }

    /// One CPU step inside a tick: exactly the step relation on the CPU
    /// (see [`Intel8080::execute_next_instruction`]), with every I/O-layer
    /// field untouched.  The pacing loop also relies on the step frame:
    /// write guard and input ports are preserved, ROM and the region beyond
    /// the arcade RAM keep their bytes, and 0 cycles are returned only by a
    /// halted CPU.
    fn step_once(&mut self) -> (r: Result<u8, StepError>)
        requires
            old(self).wf(),
        ensures
            final(self).wf(),
            final(self)@ == (MachineModel { cpu: final(self)@.cpu, ..old(self)@ }),
            old(self)@.cpu.step_ok() ==> r == Ok::<u8, StepError>(old(self)@.cpu.spec_step().1)
                && final(self)@.cpu == old(self)@.cpu.spec_step().0,
            !old(self)@.cpu.step_ok() ==> r == Err::<u8, StepError>(
                StepError { opcode: old(self)@.cpu.fetched(), pc: old(self)@.cpu.pc },
            ) && final(self)@.cpu == old(self)@.cpu.promoted(),
            !old(self)@.cpu.halted && old(self)@.cpu.step_ok() ==> 4 <= old(
                self,
            )@.cpu.spec_step().1 <= 18,
            old(self)@.cpu.halted ==> old(self)@.cpu.spec_step().1 == 0
                && final(self)@ == old(self)@,
            final(self)@.cpu.rom_guard == old(self)@.cpu.rom_guard,
            old(self)@.cpu.rom_guard ==> forall|a: int|
                0 <= a < 0x10000 && !(0x2000 <= a < 0x4000) ==> final(self)@.cpu.mem[a] == old(self)@.cpu.mem[a],
            final(self)@.cpu.ports == old(self)@.cpu.ports,
    {
        proof {
            lemma_step_frame(self@.cpu);
        }
        self.cpu.execute_next_instruction()
    }
}

/// The number of CPU cycles a span of wall time pays for, at 480 ns per
/// cycle, rounded up.
pub fn cycles_for_nanos(elapsed_ns: u64) -> (r: u64)
    ensures
        r == elapsed_ns / 480 + (if elapsed_ns % 480 == 0 {
            0int
        } else {
            1int
        }),
{
    if elapsed_ns % 480 == 0 {
        elapsed_ns / 480
    } else {
        elapsed_ns / 480 + 1
    }
}

/// The interrupt pacing interval in microseconds: one half-frame at 60 Hz.
pub const INTERRUPT_INTERVAL_MICROS: u64 = 8000;

/// One CPU clock cycle in nanoseconds.
pub const CYCLE_TIME_NANOS: u64 = 480;

} // verus!
