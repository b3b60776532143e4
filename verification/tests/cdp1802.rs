use cosmac::cdp1802::cpu::{Cdp1802, State};
use cosmac::cdp1802::memory::Memory;
use cosmac::cdp1802::pins::Cdp1802Pins;

struct TestSystem {
    pins: Cdp1802Pins,
    cpu: Cdp1802,
    mem: Memory,
    write_enable: bool,
}

impl TestSystem {
    fn new() -> Self {
        Self {
            pins: Cdp1802Pins(Cdp1802Pins::mask_all()),
            cpu: Cdp1802::default(),
            mem: Memory::default(),
            write_enable: true,
        }
    }

    fn new_with_program(data: Vec<u8>) -> Self {
        let mem = Memory::builder().with_image(0, data).build().unwrap();
        Self {
            pins: Cdp1802Pins(Cdp1802Pins::mask_all()),
            cpu: Cdp1802::default(),
            mem,
            write_enable: true,
        }
    }

    fn tick(&mut self) {
        self.cpu.tick(&mut self.pins);
        self.mem.tick(&mut self.pins, self.write_enable).ok();
    }

    fn tick_n(&mut self, n: usize) {
        for _ in 0..n {
            self.tick();
        }
    }

    fn is_waiting(&self) -> bool {
        self.cpu.is_waiting(self.pins)
    }

    fn reset(&mut self) {
        self.pins.set_clear(false);
        self.tick();
        self.pins.set_clear(true);
        self.tick_n(9);
    }
}

#[test]
fn test_init() {
    let mut sys = TestSystem::new();
    sys.tick();
    assert!(!sys.is_waiting());
    assert!(matches!(sys.cpu.state, State::Init(1)));
    sys.tick_n(8);
    assert!(matches!(sys.cpu.state, State::Fetch(0)));
    sys.tick_n(8);
    assert!(matches!(sys.cpu.state, State::Execute(0)));
    sys.tick_n(7);
    assert!(matches!(sys.cpu.state, State::Execute(7)));
    assert!(sys.is_waiting());
    sys.tick();
    assert!(matches!(sys.cpu.state, State::Execute(0)));
}

#[test]
fn test_reset_to_run() {
    let mut sys = TestSystem::new();
    sys.cpu = Cdp1802::random();
    sys.pins.set_clear(false);
    sys.tick();
    assert!(matches!(sys.cpu.state, State::Init(0)));
    assert_eq!(sys.cpu.i, 0);
    assert_eq!(sys.cpu.n, 0);
    assert!(sys.cpu.ie);
    assert!(!sys.pins.get_q());
    assert_eq!(sys.pins.get_bus(), 0x00);

    // Stay in reset until clear goes high.
    sys.pins.set_bus(0xff);
    sys.tick();
    assert!(matches!(sys.cpu.state, State::Init(0)));
    assert_eq!(sys.pins.get_bus(), 0x00);

    // Init takes 9 cycles, and interrupts are disabled coming out of init.
    sys.pins.set_clear(true);
    sys.pins.set_intr(false);
    sys.pins.set_bus(0xff);
    sys.tick();
    assert!(matches!(sys.cpu.state, State::Init(1)));
    assert_eq!(sys.cpu.x, 0);
    assert_eq!(sys.cpu.p, 0);
    assert_eq!(sys.cpu.r[0], 0);
    assert_eq!(sys.pins.get_bus(), 0x00);
    sys.tick_n(7);
    assert!(matches!(sys.cpu.state, State::Init(8)));
    sys.tick();
    assert!(matches!(sys.cpu.state, State::Fetch(0)));
}

#[test]
fn test_reset_to_load() {
    let mut sys = TestSystem::new();
    sys.cpu = Cdp1802::random();
    sys.pins.set_clear(false);
    sys.tick();
    assert!(matches!(sys.cpu.state, State::Init(0)));

    // Stay in reset until wait goes low.
    sys.tick();
    assert!(matches!(sys.cpu.state, State::Init(0)));

    // Init takes 9 cycles, and interrupts are disabled coming out of init.
    sys.pins.set_wait(false);
    sys.tick();
    assert!(matches!(sys.cpu.state, State::Init(1)));
    sys.tick_n(8);
    assert!(matches!(sys.cpu.state, State::Execute(0)));
    assert!(matches!(sys.cpu.r[0], 0));
    sys.tick_n(7);

    // At this point the device is waiting for inputs to change.
    assert!(matches!(sys.cpu.state, State::Execute(7)));
    assert!(sys.is_waiting());

    // Idle transition back to S1.
    sys.tick();
    assert!(matches!(sys.cpu.state, State::Execute(0)));
    assert!(matches!(sys.cpu.r[0], 0));
}

#[test]
fn test_n() {
    let mut sys = TestSystem::new();
    sys.pins.set_clear(false);
    sys.tick();

    // N lines are low at all times except for I/O instructions.
    assert_eq!(sys.pins.get_n(), 0);
}

#[test]
fn test_ef_sampling() {
    // EF flags are sampled at the beginning of S1; see the branch tests.
}

#[test]
fn test_intr_dma_sampling() {
    // Interrupt and DMA pins are sampled between TPB and TPA: asserting
    // INTR during an instruction takes effect at the end of its Execute.
    let mut sys = TestSystem::new_with_program(vec![0xf8, 0x00, 0xf8, 0x00]);
    sys.reset();
    sys.tick_n(16);
    sys.pins.set_intr(false);
    sys.tick_n(16);
    assert!(matches!(sys.cpu.state, State::Interrupt(0)));
}

#[test]
fn test_intr() {
    // X and P are stored in T at interrupt entry; X becomes 2, P becomes 1,
    // IE drops, and one S3 machine cycle runs.
    let mut sys = TestSystem::new_with_program(vec![0xf8, 0x00, 0xf8, 0x00]);
    sys.reset();
    sys.pins.set_intr(false);
    sys.tick_n(16);
    assert!(matches!(sys.cpu.state, State::Interrupt(0)));
    sys.pins.set_intr(true);
    sys.tick_n(8);
    assert_eq!(sys.cpu.t, 0x00);
    assert_eq!(sys.cpu.x, 2);
    assert_eq!(sys.cpu.p, 1);
    assert!(!sys.cpu.ie);
    assert!(matches!(sys.cpu.state, State::Fetch(0)));
}

#[test]
fn test_dma_in() {
    // The current instruction finishes, then one S2 cycle writes the bus
    // byte at R(0) and increments R(0).
    let mut sys = TestSystem::new_with_program(vec![0xf8, 0x00, 0xf8, 0x00]);
    sys.reset();
    sys.tick_n(16);
    sys.pins.set_dma_in(false);
    sys.tick_n(16);
    assert!(matches!(sys.cpu.state, State::DmaIn(0)));
    sys.pins.set_dma_in(true);
    sys.tick_n(8);
    assert_eq!(sys.cpu.r[0], 5);
    assert!(matches!(sys.cpu.state, State::Fetch(0)));
}

#[test]
fn test_dma_out() {
    // The current instruction finishes, then one S2 cycle reads memory at
    // R(0) onto the bus and increments R(0).
    let mut sys = TestSystem::new_with_program(vec![0xf8, 0x00, 0xf8, 0x00, 0x5a]);
    sys.reset();
    sys.tick_n(16);
    sys.pins.set_dma_out(false);
    sys.tick_n(16);
    assert!(matches!(sys.cpu.state, State::DmaOut(0)));
    sys.pins.set_dma_out(true);
    sys.tick_n(8);
    assert_eq!(sys.cpu.r[0], 5);
    assert_eq!(sys.pins.get_bus(), 0x5a);
    assert!(matches!(sys.cpu.state, State::Fetch(0)));
}

#[test]
fn test_dma_priority() {
    // DMA-In wins over DMA-Out and interrupts when sampled together.
    let mut sys = TestSystem::new_with_program(vec![0xf8, 0x00, 0xf8, 0x00]);
    sys.reset();
    sys.tick_n(16);
    sys.pins.set_dma_in(false);
    sys.pins.set_dma_out(false);
    sys.pins.set_intr(false);
    sys.tick_n(16);
    assert!(matches!(sys.cpu.state, State::DmaIn(0)));
}

fn expect_lbr(instr: u8, cb: impl FnOnce(&mut TestSystem)) {
    let mut sys = TestSystem::new_with_program(vec![instr, 0x55, 0xaa]);
    sys.reset();
    cb(&mut sys);
    sys.tick_n(24);
    assert!(matches!(sys.cpu.state, State::Fetch(0)));
    assert_eq!(sys.cpu.rp(), 0x55aa);
}

fn expect_lskp(instr: u8, cb: impl FnOnce(&mut TestSystem)) {
    let mut sys = TestSystem::new_with_program(vec![instr, 0xff, 0xff]);
    sys.reset();
    cb(&mut sys);
    sys.tick_n(24);
    assert!(matches!(sys.cpu.state, State::Fetch(0)));
    assert_eq!(sys.cpu.rp(), 3);
}

fn expect_lcnt(instr: u8, cb: impl FnOnce(&mut TestSystem)) {
    let mut sys = TestSystem::new_with_program(vec![instr, 0xff, 0xff]);
    sys.reset();
    cb(&mut sys);
    sys.tick_n(24);
    assert!(matches!(sys.cpu.state, State::Fetch(0)));
    assert_eq!(sys.cpu.rp(), 1);
}

#[test]
fn test_lbr() {
    expect_lbr(0xc0, |_| ());
}

#[test]
fn test_lbr_at_page_boundary() {
    // The long-branch target's high byte is latched in B, not in R(P): the
    // high byte sits at the edge of a page so the low-byte fetch needs a
    // full 16-bit increment of R(P).
    let mut prog = vec![0xc0, 0x01, 0xfe];
    prog.extend([0; 256 + 251]);
    prog.extend([0xc0, 0x55, 0xaa]);
    assert_eq!(prog[0x1ff], 0x55);

    let mut sys = TestSystem::new_with_program(prog);
    sys.reset();

    // First branch.
    sys.tick_n(24);
    assert!(matches!(sys.cpu.state, State::Fetch(0)));
    assert_eq!(sys.cpu.rp(), 0x01fe);

    // Second branch.
    sys.tick_n(24);
    assert!(matches!(sys.cpu.state, State::Fetch(0)));
    assert_eq!(sys.cpu.rp(), 0x55aa);
}

#[test]
fn test_lbq() {
    expect_lbr(0xc1, |sys| sys.cpu.out.set_q(true));
    expect_lskp(0xc1, |sys| sys.cpu.out.set_q(false));
}

#[test]
fn test_lbz() {
    expect_lbr(0xc2, |sys| sys.cpu.d = 0);
    expect_lskp(0xc2, |sys| sys.cpu.d = 1);
}

#[test]
fn test_lbdf() {
    expect_lbr(0xc3, |sys| sys.cpu.df = true);
    expect_lskp(0xc3, |sys| sys.cpu.df = false);
}

#[test]
fn test_nop() {
    expect_lcnt(0xc4, |_| ());
}

#[test]
fn test_lsnq() {
    expect_lskp(0xc5, |sys| sys.cpu.out.set_q(false));
    expect_lcnt(0xc5, |sys| sys.cpu.out.set_q(true));
}

#[test]
fn test_lsnz() {
    expect_lskp(0xc6, |sys| sys.cpu.d = 1);
    expect_lcnt(0xc6, |sys| sys.cpu.d = 0);
}

#[test]
fn test_lsnf() {
    expect_lskp(0xc7, |sys| sys.cpu.df = false);
    expect_lcnt(0xc7, |sys| sys.cpu.df = true);
}

#[test]
fn test_lskp() {
    expect_lskp(0xc8, |_| ());
}

#[test]
fn test_lbnq() {
    expect_lbr(0xc9, |sys| sys.cpu.out.set_q(false));
    expect_lskp(0xc9, |sys| sys.cpu.out.set_q(true));
}

#[test]
fn test_lbnz() {
    expect_lbr(0xca, |sys| sys.cpu.d = 1);
    expect_lskp(0xca, |sys| sys.cpu.d = 0);
}

#[test]
fn test_lbnf() {
    expect_lbr(0xcb, |sys| sys.cpu.df = false);
    expect_lskp(0xcb, |sys| sys.cpu.df = true);
}

#[test]
fn test_lsie() {
    expect_lskp(0xcc, |sys| sys.cpu.ie = true);
    expect_lcnt(0xcc, |sys| sys.cpu.ie = false);
}

#[test]
fn test_lsq() {
    expect_lskp(0xcd, |sys| sys.cpu.out.set_q(true));
    expect_lcnt(0xcd, |sys| sys.cpu.out.set_q(false));
}

#[test]
fn test_lsz() {
    expect_lskp(0xce, |sys| sys.cpu.d = 0);
    expect_lcnt(0xce, |sys| sys.cpu.d = 1);
}

#[test]
fn test_lsdf() {
    expect_lskp(0xcf, |sys| sys.cpu.df = true);
    expect_lcnt(0xcf, |sys| sys.cpu.df = false);
}

#[test]
fn test_sd_borrow_convention() {
    // SD with D = y and M(R(X)) = x leaves DF = 1 exactly when x >= y and
    // D holding the wrapped difference. After reset X = P = 0, so during
    // SD the operand pointer R(0) sits just past the SD opcode.
    for (x, y) in [(0x10u8, 0x01u8), (0x01, 0x10), (0x42, 0x42), (0x00, 0x01), (0xff, 0x00)] {
        let mut sys = TestSystem::new_with_program(vec![0xf8, y, 0xf5, x]);
        sys.reset();
        sys.tick_n(16); // LDI y
        assert_eq!(sys.cpu.d, y);
        sys.tick_n(16); // SD: D = x - y, DF = no borrow
        assert_eq!(sys.cpu.df, x >= y, "df for x={x:#x} y={y:#x}");
        assert_eq!(sys.cpu.d, x.wrapping_sub(y), "d for x={x:#x} y={y:#x}");
    }
}

#[test]
fn test_rp_wraparound() {
    // A fetch of a non-IDL opcode from R(P) = 0xFFFF wraps R(P) to 0.
    let mut sys = TestSystem::new();
    sys.mem.set(0xffff, 0xc4);
    sys.reset();
    sys.cpu.r[0] = 0xffff;
    sys.tick_n(8);
    assert_eq!(sys.cpu.rp(), 0x0000);
}
