//! Lee Hart's 1802 Membership Card: CPU, memory and an optional serial
//! port wired together, with the front panel's toggles and buttons mapped
//! onto the CPU pins.

use vstd::prelude::*;

use crate::cdp1802::cpu::{Cdp1802, CpuModel, Mode, State};
use crate::cdp1802::memory::{MemModel, Memory};
use crate::cdp1802::pins::Cdp1802Pins;
use crate::uart::Ay51013Uart;
use crate::uart::UartRxError;

verus! {

/// The length of the opcode history used by the poll heuristic: with a
/// 4 MHz clock and 2400 baud, at most 4_000_000 / (2400 * 16) = 104
/// instructions can run without missing a start bit.
pub const OPCODE_HISTORY_LEN: usize = 104;

/// What the board is waiting for.
#[derive(Debug, Clone, Copy, PartialEq, Eq, Structural)]
pub enum Status {
    UartRead,
    UartWrite,
    Tick,
}

/// The front panel: output display, input switches, and the INP, CLEAR,
/// WAIT and read/write toggles.
#[derive(Debug, Default, Clone, Copy, PartialEq, Eq, Structural)]
pub struct FrontPanel {
    pub out_buffer: u8,
    pub inp_buffer: u8,
    /// True while the input button is pressed.
    pub inp: bool,
    /// True while the clear toggle is down.
    pub clear: bool,
    /// True while the wait toggle is down.
    pub wait: bool,
    /// True for read, false for write.
    pub read: bool,
}

/// The mathematical value of a [`MembershipCard`].
#[verifier::ext_equal]
pub struct BoardModel {
    pub cpu_pins: Cdp1802Pins,
    pub cpu: CpuModel,
    pub memory: MemModel,
    pub front_panel: FrontPanel,
    pub last_front_panel: FrontPanel,
    pub uart: Option<Ay51013Uart>,
    pub invert_ef: bool,
    pub invert_q: bool,
    pub last_pc: u16,
    pub opcode_history: Seq<u8>,
}

/// How many entries of `s` equal `v`.
pub open spec fn count_eq(s: Seq<u8>, v: u8) -> nat
    decreases s.len(),
{
    if s.len() == 0 {
        0
    } else {
        count_eq(s.drop_last(), v) + if s.last() == v {
            1nat
        } else {
            0nat
        }
    }
}

impl BoardModel {
    pub open spec fn wf(self) -> bool {
        &&& self.cpu.wf()
        &&& crate::cdp1802::memory::spec_small_pow2(self.memory.data.len() as int)
        &&& match self.uart {
            Some(u) => u.wf(),
            None => true,
        }
    }

    /// The pins a tick hands to the memory: the panel signals, the CPU's
    /// own tick, the DMA-In release and the input buffer on the bus.
    pub open spec fn mem_pins_spec(self) -> Cdp1802Pins {
        let load = self.front_panel.clear && self.front_panel.wait;
        let p1 = self.cpu_pins.spec_set_clear(!self.front_panel.clear).spec_set_wait(
            !self.front_panel.wait,
        ).spec_set_ef4(self.invert_ef != !self.front_panel.inp);
        let p2 = if load && self.last_front_panel.inp && !self.front_panel.inp {
            p1.spec_set_dma_in(false)
        } else {
            p1
        };
        let (cpu, p3) = self.cpu.tick_full(p2);
        let p4 = if !p3.get_dma_in() && p3.get_sc1() {
            p3.spec_set_dma_in(true)
        } else {
            p3
        };
        let n2_or_load = p4.get_n2() || load;
        if !p4.get_mwr() && n2_or_load {
            p4.spec_set_bus(self.front_panel.inp_buffer)
        } else {
            p4
        }
    }

    /// Whether the memory access this tick performs, if any, stays within
    /// the memory's capacity. A full 64 KiB memory satisfies it outright;
    /// a smaller one refuses the ticks whose address would run past its
    /// end, as the capacity of [`crate::cdp1802::memory::Builder`] demands.
    pub open spec fn mem_access_ok(self) -> bool {
        self.memory.data.len() == 0x10000 || {
            let p = self.mem_pins_spec();
            let write_enable = !self.front_panel.read;
            self.memory.full_addr(p) < self.memory.data.len() || (p.get_mrd() && (p.get_mwr()
                || !write_enable))
        }
    }

    /// The opcode history with `opcode` appended, older entries dropped to
    /// keep the window under its bound.
    pub open spec fn push_history(s: Seq<u8>, opcode: u8) -> Seq<u8> {
        let dropn: int = if s.len() + 1 >= OPCODE_HISTORY_LEN {
            s.len() + 1 - OPCODE_HISTORY_LEN + 1
        } else {
            0
        };
        s.skip(dropn).push(opcode)
    }

    /// The Load-mode listing heuristic: while instructions are being keyed
    /// in, track R(P)-1 so the display shows the byte just written, but only
    /// step past an instruction once all of its bytes are in.
    pub open spec fn last_pc_step(self, cpu: CpuModel, mem: MemModel) -> u16 {
        if cpu.state == State::Fetch(0u8) {
            cpu.r[cpu.p as int]
        } else if self.front_panel.clear && self.front_panel.wait {
            let rp0 = cpu.r[cpu.p as int];
            let rp: u16 = if rp0 == 0 {
                0
            } else {
                (rp0 - 1) as u16
            };
            if rp > self.last_pc && (rp as int) < self.last_pc + 3 {
                let size: u16 = match crate::cdp1802::memory::spec_instr_at(
                    mem.data,
                    self.last_pc,
                ) {
                    Some(i) => i.size_spec() as u16,
                    None => 1,
                };
                if rp >= self.last_pc + size {
                    rp
                } else {
                    self.last_pc
                }
            } else if rp != self.last_pc {
                rp
            } else {
                self.last_pc
            }
        } else {
            self.last_pc
        }
    }

    /// One board tick: panel signals onto the CPU pins, the CPU, the
    /// listing and history bookkeeping, the DMA-In release, the input
    /// buffer onto the bus, the memory, the output latch, and the UART
    /// crossing with its polarity knobs.
    #[verifier::opaque]
    pub open spec fn tick_spec(self) -> BoardModel {
        let load = self.front_panel.clear && self.front_panel.wait;
        let p1 = self.cpu_pins.spec_set_clear(!self.front_panel.clear).spec_set_wait(
            !self.front_panel.wait,
        ).spec_set_ef4(self.invert_ef != !self.front_panel.inp);
        let write_enable = !self.front_panel.read;
        let p2 = if load && self.last_front_panel.inp && !self.front_panel.inp {
            p1.spec_set_dma_in(false)
        } else {
            p1
        };
        let last_fp = self.front_panel;
        let (cpu, p3) = self.cpu.tick_full(p2);
        let last_pc = self.last_pc_step(cpu, self.memory);
        let history = if self.front_panel.clear {
            Seq::<u8>::empty()
        } else if cpu.state == State::Execute(0u8) {
            BoardModel::push_history(self.opcode_history, ((cpu.i << 4) | cpu.n) as u8)
        } else {
            self.opcode_history
        };
        let p4 = if !p3.get_dma_in() && p3.get_sc1() {
            p3.spec_set_dma_in(true)
        } else {
            p3
        };
        let n2_or_load = p4.get_n2() || load;
        let p5 = if !p4.get_mwr() && n2_or_load {
            p4.spec_set_bus(self.front_panel.inp_buffer)
        } else {
            p4
        };
        let (mem, p6, _r) = self.memory.tick_spec(p5, write_enable);
        let fp2 = if !p6.get_mrd() && p6.get_tpb() && n2_or_load {
            FrontPanel { out_buffer: p6.get_bus(), ..self.front_panel }
        } else {
            self.front_panel
        };
        let (uart, p7) = match self.uart {
            Some(u) => {
                let u1 = if self.front_panel.clear {
                    let pu = u.pins.spec_set_ds(true).spec_set_rde(false).spec_set_swe(
                        false,
                    ).spec_set_rdav(true).spec_set_xr(true);
                    let (c1, pu1) = u.chip.tick_spec(pu);
                    Ay51013Uart { chip: c1, pins: pu1.spec_set_xr(false), ..u }
                } else if !self.front_panel.wait {
                    let u0 = Ay51013Uart {
                        pins: u.pins.spec_set_si(self.invert_q != !p6.get_q()),
                        ..u
                    };
                    u0.tick_spec()
                } else {
                    u
                };
                (Some(u1), p6.spec_set_ef3(self.invert_ef != u1.pins.get_so()))
            },
            None => (None, p6),
        };
        BoardModel {
            cpu_pins: p7,
            cpu,
            memory: mem,
            front_panel: fp2,
            last_front_panel: last_fp,
            uart,
            last_pc,
            opcode_history: history,
            ..self
        }
    }

    /// Whether a received byte is waiting while the CPU runs.
    pub open spec fn is_uart_rx_ready(self) -> bool {
        !self.front_panel.clear && !self.front_panel.wait && match self.uart {
            Some(u) => u.pins.get_dav(),
            None => false,
        }
    }

    /// Whether the CPU seems to sit in a tight loop probing EF3 for serial
    /// data: it is running, the transmitter is idle, it has just entered S1
    /// on a `B3`/`BN3` opcode, and the same opcode ran recently more than
    /// once.
    pub open spec fn is_cpu_waiting_for_uart(self) -> bool {
        if self.front_panel.clear || self.front_panel.wait || !(match self.uart {
            Some(u) => u.chip.tx.state is Idle,
            None => false,
        }) {
            false
        } else if self.cpu.state == State::Execute(0u8) {
            let opcode = ((self.cpu.i << 4) | self.cpu.n) as u8;
            (opcode == 0x36 || opcode == 0x3e) && count_eq(self.opcode_history, opcode) > 1
        } else {
            false
        }
    }

    /// What to do next: drain a ready receive byte, supply one to a CPU
    /// that waits for serial input, tick if anything can advance, else
    /// idle.
    pub open spec fn poll_spec(self) -> Option<Status> {
        if self.is_uart_rx_ready() {
            Some(Status::UartRead)
        } else if self.is_cpu_waiting_for_uart() {
            Some(Status::UartWrite)
        } else if !self.cpu.is_waiting_spec(self.cpu_pins) || self.front_panel
            != self.last_front_panel {
            Some(Status::Tick)
        } else {
            None
        }
    }

    /// The board run forward by `n` ticks.
    pub open spec fn run_ticks(self, n: nat) -> BoardModel
        decreases n,
    {
        if n == 0 {
            self
        } else {
            self.tick_spec().run_ticks((n - 1) as nat)
        }
    }

    /// Running `n` ticks and one more is running `n + 1` ticks.
    pub proof fn lemma_run_ticks_step(self, n: nat)
        ensures
            self.run_ticks(n).tick_spec() == self.run_ticks(n + 1),
        decreases n,
    {
        assert(self.run_ticks(n + 1) == self.tick_spec().run_ticks(n));
        if n > 0 {
            self.tick_spec().lemma_run_ticks_step((n - 1) as nat);
            assert(self.run_ticks(n) == self.tick_spec().run_ticks((n - 1) as nat));
        }
    }

    /// The board as a serial read leaves it before its hold ticks: RDAV
    /// pulled low to acknowledge the byte.
    pub open spec fn rx_ack_state(self) -> BoardModel {
        let u0 = self.uart->Some_0;
        BoardModel {
            uart: Some(Ay51013Uart { pins: u0.pins.spec_set_rdav(false), ..u0 }),
            ..self
        }
    }

    /// Board ticks held after a serial read: until the next serial tick
    /// samples the line.
    pub open spec fn rx_hold_ticks(self) -> nat {
        let u0 = self.uart->Some_0;
        (u0.clk_mul - u0.clk_seq) as nat
    }

    /// The board as a serial write leaves it before its hold ticks: the
    /// byte on DB with DS strobed low.
    pub open spec fn tx_strobe_state(self, byte: u8) -> BoardModel {
        let u0 = self.uart->Some_0;
        BoardModel {
            uart: Some(
                Ay51013Uart { pins: u0.pins.spec_set_db(byte).spec_set_ds(false), ..u0 },
            ),
            ..self
        }
    }

    /// Board ticks held after a serial write: one full serial cycle past
    /// the next serial tick.
    pub open spec fn tx_hold_ticks(self) -> nat {
        let u0 = self.uart->Some_0;
        (u0.clk_mul + (u0.clk_mul - u0.clk_seq)) as nat
    }
}

/// Builds a [`MembershipCard`].
#[must_use]
pub struct Builder {
    pub memory: Memory,
    pub front: FrontPanel,
    pub invert_ef: bool,
    pub invert_q: bool,
    pub uart: Option<Ay51013Uart>,
}

impl Builder {
    pub open spec fn wf(self) -> bool {
        crate::cdp1802::memory::spec_small_pow2(self.memory@.data.len() as int) && match self
            .uart {
            Some(u) => u.wf(),
            None => true,
        }
    }

    pub fn with_memory(self, memory: Memory) -> (r: Self)
        ensures
            r == (Builder { memory, ..self }),
    {
        Builder { memory, ..self }
    }

    pub fn with_invert_ef(self, invert_ef: bool) -> (r: Self)
        ensures
            r == (Builder { invert_ef, ..self }),
    {
        Builder { invert_ef, ..self }
    }

    pub fn with_invert_q(self, invert_q: bool) -> (r: Self)
        ensures
            r == (Builder { invert_q, ..self }),
    {
        Builder { invert_q, ..self }
    }

    pub fn with_uart(self, uart: Option<Ay51013Uart>) -> (r: Self)
        ensures
            r == (Builder { uart, ..self }),
    {
        Builder { uart, ..self }
    }

    /// Build the board: a fresh CPU reset against default pins, the given
    /// memory and panel.
    pub fn build(self) -> (r: MembershipCard)
        requires
            self.wf(),
        ensures
            r.wf(),
            r@.memory == self.memory@,
            r@.front_panel == self.front,
            r@.last_front_panel == self.front,
            r@.uart == self.uart,
            r@.invert_ef == self.invert_ef,
            r@.invert_q == self.invert_q,
            r@.last_pc == 0,
            r@.opcode_history == Seq::<u8>::empty(),
            r@.cpu == Cdp1802::power_on_model().reset_step(),
            r@.cpu_pins == Cdp1802::power_on_model().reset_step().update_pins_spec(
                if self.invert_ef {
                    Cdp1802Pins(0x7_ffff_ffffu64).spec_set_ef(0)
                } else {
                    Cdp1802Pins(0x7_ffff_ffffu64)
                },
            ),
    {
        let mut cpu = Cdp1802::default();
        let mut cpu_pins = Cdp1802Pins::default();
        if self.invert_ef {
            cpu_pins.set_ef(0);
        }
        cpu.reset(&mut cpu_pins);
        MembershipCard {
            cpu_pins,
            cpu,
            memory: self.memory,
            front_panel: self.front,
            last_front_panel: self.front,
            uart: self.uart,
            invert_ef: self.invert_ef,
            invert_q: self.invert_q,
            last_pc: 0,
            opcode_history: Vec::new(),
        }
    }
}

impl Default for Builder {
    /// 64 KiB of zeros, an idle panel, no polarity inversion, no serial
    /// port.
    fn default() -> (r: Self)
        ensures
            r.wf(),
            r.front == (FrontPanel {
                out_buffer: 0u8,
                inp_buffer: 0u8,
                inp: false,
                clear: false,
                wait: false,
                read: false,
            }),
            (r.uart is None),
            !r.invert_ef && !r.invert_q,
            r.memory@.data.len() == 0x10000,
    {
        Builder {
            memory: Memory::default(),
            front: FrontPanel {
                out_buffer: 0,
                inp_buffer: 0,
                inp: false,
                clear: false,
                wait: false,
                read: false,
            },
            invert_ef: false,
            invert_q: false,
            uart: None,
        }
    }
}

/// The Membership Card.
#[derive(Debug)]
pub struct MembershipCard {
    pub cpu_pins: Cdp1802Pins,
    pub cpu: Cdp1802,
    pub memory: Memory,
    pub front_panel: FrontPanel,
    pub last_front_panel: FrontPanel,
    pub uart: Option<Ay51013Uart>,
    pub invert_ef: bool,
    pub invert_q: bool,
    pub last_pc: u16,
    pub opcode_history: Vec<u8>,
}

impl View for MembershipCard {
    type V = BoardModel;

    open spec fn view(&self) -> BoardModel {
        BoardModel {
            cpu_pins: self.cpu_pins,
            cpu: self.cpu@,
            memory: self.memory@,
            front_panel: self.front_panel,
            last_front_panel: self.last_front_panel,
            uart: self.uart,
            invert_ef: self.invert_ef,
            invert_q: self.invert_q,
            last_pc: self.last_pc,
            opcode_history: self.opcode_history@,
        }
    }
}

impl MembershipCard {
    pub open spec fn wf(&self) -> bool {
        self@.wf()
    }

    /// A builder for the board.
    pub fn builder() -> (r: Builder)
        ensures
            r.wf(),
            (r.uart is None),
            !r.invert_ef && !r.invert_q,
    {
        Builder::default()
    }

    /// R(P) as it stood the last time the system entered S0, or the Load
    /// heuristic's tracking of it.
    pub fn last_pc(&self) -> (r: u16)
        ensures
            r == self@.last_pc,
    {
        self.last_pc
    }

    /// The CPU.
    pub fn cpu(&self) -> (r: &Cdp1802)
        ensures
            r@ == self@.cpu,
    {
        &self.cpu
    }

    /// The memory.
    pub fn memory(&self) -> (r: &Memory)
        ensures
            r@ == self@.memory,
    {
        &self.memory
    }

    /// The front panel.
    pub fn front_panel(&self) -> (r: &FrontPanel)
        ensures
            *r == self@.front_panel,
    {
        &self.front_panel
    }

    /// The front panel, for toggling.
    pub fn front_panel_mut(&mut self) -> (r: &mut FrontPanel)
        ensures
            *r == old(self).front_panel,
            *final(self) == (MembershipCard { front_panel: *final(r), ..*old(self) }),
    {
        &mut self.front_panel
    }

    /// Advance the whole board by one clock tick. On a memory smaller than
    /// 64 KiB, the tick's own access must stay within its capacity; a full
    /// 64 KiB memory satisfies that for every address.
    #[verifier::rlimit(100)]
    pub fn tick(&mut self)
        requires
            old(self).wf(),
            old(self)@.mem_access_ok(),
        ensures
            final(self).wf(),
            final(self)@ == old(self)@.tick_spec(),
    {
        proof {
            reveal(BoardModel::tick_spec);
        }
        // Propagate signals from the front panel.
        let load = self.front_panel.clear && self.front_panel.wait;
        self.cpu_pins.set_clear(!self.front_panel.clear);
        self.cpu_pins.set_wait(!self.front_panel.wait);
        self.cpu_pins.set_ef4(self.invert_ef != !self.front_panel.inp);
        let write_enable = !self.front_panel.read;
        // In the load state, releasing the input button pulls DMA-IN low.
        if load && self.last_front_panel.inp && !self.front_panel.inp {
            self.cpu_pins.set_dma_in(false);
        }
        self.last_front_panel = self.front_panel;
        // Tick the CPU.
        self.cpu.tick(&mut self.cpu_pins);
        // Track the listing position.
        if self.cpu.is_fetch_tick0() {
            self.last_pc = self.cpu.rp();
        } else if load {
            // In load mode, R(P)-1 points at the byte just written; decode
            // at the tracked position to step only past whole instructions.
            let rp0 = self.cpu.rp();
            let rp = if rp0 == 0 {
                0
            } else {
                rp0 - 1
            };
            if rp > self.last_pc && (rp as u32) < (self.last_pc as u32) + 3 {
                let size: u16 = match self.memory.get_instr_at(self.last_pc) {
                    Some(i) => i.size() as u16,
                    None => 1,
                };
                if (rp as u32) >= (self.last_pc as u32) + (size as u32) {
                    self.last_pc = rp;
                }
            } else if rp != self.last_pc {
                self.last_pc = rp;
            }
        }
        // Track the opcode history.
        if self.front_panel.clear {
            self.opcode_history.clear();
        } else {
            match self.cpu.get_exec_opcode() {
                Some(opcode) => self.push_opcode_history(opcode),
                None => (),
            }
        }
        // Release DMA-IN in any S2 cycle.
        if !self.cpu_pins.get_dma_in() && self.cpu_pins.get_sc1() {
            self.cpu_pins.set_dma_in(true);
        }
        // Propagate the input buffer on MWR when N2 is set or loading.
        let n2_or_load = self.cpu_pins.get_n2() || load;
        if !self.cpu_pins.get_mwr() && n2_or_load {
            self.cpu_pins.set_bus(self.front_panel.inp_buffer);
        }
        // Tick the memory; a write-protection fault leaves the tick intact.
        proof {
            assert(self.cpu_pins == old(self)@.mem_pins_spec());
            assert(self.memory@ == old(self)@.memory);
        }
        let _ = self.memory.tick(&mut self.cpu_pins, write_enable);
        // Latch the output display on the data strobe.
        if !self.cpu_pins.get_mrd() && self.cpu_pins.get_tpb() && n2_or_load {
            self.front_panel.out_buffer = self.cpu_pins.get_bus();
        }
        // Tick or reset the UART, crossing Q to its input and its output to
        // EF3, with the polarity knobs applied at the crossing.
        match &mut self.uart {
            Some(u) => {
                if self.front_panel.clear {
                    u.reset();
                } else if !self.front_panel.wait {
                    let q = self.cpu_pins.get_q();
                    u.set_rx_pin(self.invert_q != !q);
                    u.tick();
                }
                let so = u.get_tx_pin();
                self.cpu_pins.set_ef3(self.invert_ef != so);
            },
            None => (),
        }
        proof {
            assert(self@ =~= old(self)@.tick_spec());
        }
    }

    /// Record the opcode of an instruction entering S1, keeping the window
    /// bounded.
    fn push_opcode_history(&mut self, opcode: u8)
        ensures
            *final(self) == (MembershipCard {
                opcode_history: final(self).opcode_history,
                ..*old(self)
            }),
            final(self).opcode_history@ == BoardModel::push_history(
                old(self).opcode_history@,
                opcode,
            ),
    {
        let ghost s = self.opcode_history@;
        let ghost dropn: int = if s.len() + 1 >= OPCODE_HISTORY_LEN {
            s.len() + 1 - OPCODE_HISTORY_LEN + 1
        } else {
            0
        };
        let to_drop: usize = if self.opcode_history.len() >= OPCODE_HISTORY_LEN - 1 {
            self.opcode_history.len() - (OPCODE_HISTORY_LEN - 2)
        } else {
            0
        };
        let mut k: usize = 0;
        while k < to_drop
            invariant
                k <= to_drop,
                to_drop <= s.len(),
                self.opcode_history@ == s.skip(k as int),
                *self == (MembershipCard { opcode_history: self.opcode_history, ..*old(self) }),
            decreases to_drop - k,
        {
            let _ = self.opcode_history.remove(0);
            proof {
                assert(self.opcode_history@ =~= s.skip(k + 1));
            }
            k = k + 1;
        }
        proof {
            assert(to_drop == dropn);
        }
        self.opcode_history.push(opcode);
    }

    /// Read one byte from the serial port, then hold for the cycles the
    /// line needs; each hold tick's memory access must stay in range,
    /// which a full 64 KiB memory gives outright.
    pub fn uart_read(&mut self) -> (r: Result<u8, UartRxError>)
        requires
            old(self).wf(),
            old(self)@.uart matches Some(u) && u.pins.get_dav(),
            forall|k: nat|
                k < old(self)@.rx_hold_ticks() ==> (#[trigger] old(
                    self,
                )@.rx_ack_state().run_ticks(k)).mem_access_ok(),
        ensures
            final(self).wf(),
            r == old(self)@.uart->Some_0.rx_result(),
            final(self)@ == old(self)@.rx_ack_state().run_ticks(old(self)@.rx_hold_ticks()),
    {
        let result: Result<u8, UartRxError>;
        let hold_cycles: u32 = match &mut self.uart {
            Some(u) => {
                result = u.rx();
                u.rx_hold_cycles()
            },
            None => {
                // Unreachable under the precondition; keep the state still.
                return Err(UartRxError::Framing);
            },
        };
        let mut k: u32 = 0;
        while k < hold_cycles
            invariant
                k <= hold_cycles,
                hold_cycles == old(self)@.rx_hold_ticks(),
                forall|j: nat|
                    j < old(self)@.rx_hold_ticks() ==> (#[trigger] old(
                        self,
                    )@.rx_ack_state().run_ticks(j)).mem_access_ok(),
                self.wf(),
                self@ == old(self)@.rx_ack_state().run_ticks(k as nat),
            decreases hold_cycles - k,
        {
            proof {
                old(self)@.rx_ack_state().lemma_run_ticks_step(k as nat);
                assert(self@.mem_access_ok());
            }
            self.tick();
            proof {
                assert(k < hold_cycles);
            }
            k = k + 1;
        }
        result
    }

    /// Write one byte to the serial port, then hold for the cycles the
    /// line needs; each hold tick's memory access must stay in range,
    /// which a full 64 KiB memory gives outright.
    pub fn uart_write(&mut self, byte: u8)
        requires
            old(self).wf(),
            old(self)@.uart matches Some(u) && u.pins.get_tbmt(),
            forall|k: nat|
                k < old(self)@.tx_hold_ticks() ==> (#[trigger] old(self)@.tx_strobe_state(
                    byte,
                ).run_ticks(k)).mem_access_ok(),
        ensures
            final(self).wf(),
            final(self)@ == old(self)@.tx_strobe_state(byte).run_ticks(
                old(self)@.tx_hold_ticks(),
            ),
    {
        let hold_cycles: u32 = match &mut self.uart {
            Some(u) => {
                u.tx(byte);
                u.tx_hold_cycles()
            },
            None => {
                return;
            },
        };
        let mut k: u32 = 0;
        while k < hold_cycles
            invariant
                k <= hold_cycles,
                hold_cycles == old(self)@.tx_hold_ticks(),
                forall|j: nat|
                    j < old(self)@.tx_hold_ticks() ==> (#[trigger] old(self)@.tx_strobe_state(
                        byte,
                    ).run_ticks(j)).mem_access_ok(),
                self.wf(),
                self@ == old(self)@.tx_strobe_state(byte).run_ticks(k as nat),
            decreases hold_cycles - k,
        {
            proof {
                old(self)@.tx_strobe_state(byte).lemma_run_ticks_step(k as nat);
                assert(self@.mem_access_ok());
            }
            self.tick();
            proof {
                assert(k < hold_cycles);
            }
            k = k + 1;
        }
    }

    /// Poll the board for what to do next.
    pub fn poll(&self) -> (r: Option<Status>)
        requires
            self.wf(),
        ensures
            r == self@.poll_spec(),
    {
        if self.is_uart_rx_ready() {
            Some(Status::UartRead)
        } else if self.is_cpu_waiting_for_uart() {
            Some(Status::UartWrite)
        } else if !self.cpu.is_waiting(self.cpu_pins) || self.is_front_panel_updated() {
            Some(Status::Tick)
        } else {
            None
        }
    }

    fn is_uart_rx_ready(&self) -> (r: bool)
        ensures
            r == self@.is_uart_rx_ready(),
    {
        !self.front_panel.clear && !self.front_panel.wait && match &self.uart {
            Some(u) => u.is_rx_ready(),
            None => false,
        }
    }

    fn is_cpu_waiting_for_uart(&self) -> (r: bool)
        requires
            self.wf(),
        ensures
            r == self@.is_cpu_waiting_for_uart(),
    {
        if self.front_panel.clear || self.front_panel.wait || !(match &self.uart {
            Some(u) => u.is_tx_idle(),
            None => false,
        }) {
            return false;
        }
        match self.cpu.get_exec_opcode() {
            Some(opcode) => if opcode == 0x36 || opcode == 0x3e {
                self.count_history(opcode) > 1
            } else {
                false
            },
            None => false,
        }
    }

    /// How many entries of the opcode history equal `opcode`.
    fn count_history(&self, opcode: u8) -> (r: usize)
        ensures
            r == count_eq(self@.opcode_history, opcode),
    {
        let mut cnt: usize = 0;
        let mut k: usize = 0;
        while k < self.opcode_history.len()
            invariant
                k <= self.opcode_history@.len(),
                cnt == count_eq(self.opcode_history@.take(k as int), opcode),
                cnt <= k,
            decreases self.opcode_history@.len() - k,
        {
            proof {
                let t = self.opcode_history@.take(k + 1);
                assert(t.drop_last() =~= self.opcode_history@.take(k as int));
                assert(t.last() == self.opcode_history@[k as int]);
            }
            if self.opcode_history[k] == opcode {
                cnt = cnt + 1;
            }
            k = k + 1;
        }
        proof {
            assert(self.opcode_history@.take(self.opcode_history@.len() as int)
                =~= self.opcode_history@);
        }
        cnt
    }

    fn is_front_panel_updated(&self) -> (r: bool)
        ensures
            r == (self@.front_panel != self@.last_front_panel),
    {
        self.front_panel != self.last_front_panel
    }
}

} // verus!