//! The CDP1802 state machine: Init/Fetch/Execute/DmaIn/DmaOut/Interrupt
//! machine cycles, registers, timing-pulse emission and sampling rules.
//!
//! Each clock cycle is a single tick with this sub-tick ordering:
//!
//! - 0: MRD high, N sampling (S1)
//! - 1: TPA high, EF sampling (S1)
//! - 2: TPA low, MRD low (for reads)
//! - 3: bus sampling, update registers
//! - 4: post-op increment/decrement
//! - 5: MWR low (for writes)
//! - 6: TPB high
//! - 7: TPB low, MWR high, DMA sampling (S1, S2, S3), INTR sampling (S1, S2)

use vstd::prelude::*;

use crate::bits;
use crate::math;
use super::pins::Cdp1802Pins;

verus! {

/// The run mode selected by the external CLEAR and WAIT pins.
#[derive(Debug, Clone, Copy, PartialEq, Eq, Structural)]
pub enum Mode {
    Load,
    Reset,
    Pause,
    Run,
}

pub open spec fn spec_mode(pins: Cdp1802Pins) -> Mode {
    match (pins.get_clear(), pins.get_wait()) {
        (false, false) => Mode::Load,
        (false, true) => Mode::Reset,
        (true, false) => Mode::Pause,
        (true, true) => Mode::Run,
    }
}

/// The mode selected by the CLEAR and WAIT pins of `pins`.
#[verifier::when_used_as_spec(spec_mode)]
pub fn mode(pins: Cdp1802Pins) -> (r: Mode)
    ensures
        r == spec_mode(pins),
{
    match (pins.get_clear(), pins.get_wait()) {
        (false, false) => Mode::Load,
        (false, true) => Mode::Reset,
        (true, false) => Mode::Pause,
        (true, true) => Mode::Run,
    }
}

/// A machine-cycle kind together with its tick counter.
#[derive(Debug, Clone, Copy, PartialEq, Eq, Structural)]
pub enum State {
    Init(u8),
    Fetch(u8),
    Execute(u8),
    DmaIn(u8),
    DmaOut(u8),
    Interrupt(u8),
}

impl State {
    pub open spec fn spec_tick(self) -> u8 {
        match self {
            State::Init(t) => t,
            State::Fetch(t) => t,
            State::Execute(t) => t,
            State::DmaIn(t) => t,
            State::DmaOut(t) => t,
            State::Interrupt(t) => t,
        }
    }

    /// The tick counter within the current machine cycle.
    #[verifier::when_used_as_spec(spec_tick)]
    pub fn tick(self) -> (r: u8)
        ensures
            r == self.spec_tick(),
    {
        match self {
            State::Init(t) => t,
            State::Fetch(t) => t,
            State::Execute(t) => t,
            State::DmaIn(t) => t,
            State::DmaOut(t) => t,
            State::Interrupt(t) => t,
        }
    }

    pub open spec fn spec_as_sc(self) -> u8 {
        match self {
            State::Fetch(_) => 0,
            State::Init(_) => 1,
            State::Execute(_) => 1,
            State::DmaIn(_) => 2,
            State::DmaOut(_) => 2,
            State::Interrupt(_) => 3,
        }
    }

    /// The SC state-code pin encoding of the current cycle kind.
    #[verifier::when_used_as_spec(spec_as_sc)]
    pub fn as_sc(self) -> (r: u8)
        ensures
            r == self.spec_as_sc(),
    {
        match self {
            State::Fetch(_) => 0,
            State::Init(_) => 1,
            State::Execute(_) => 1,
            State::DmaIn(_) => 2,
            State::DmaOut(_) => 2,
            State::Interrupt(_) => 3,
        }
    }

    /// The tick counter stays within its cycle's length.
    pub open spec fn wf(self) -> bool {
        match self {
            State::Init(t) => t <= 8,
            State::Fetch(t) => t <= 7,
            State::Execute(t) => t <= 15,
            State::DmaIn(t) => t <= 7,
            State::DmaOut(t) => t <= 7,
            State::Interrupt(t) => t <= 7,
        }
    }

    /// The states a CPU can sit in while Load mode continues.
    pub open spec fn load_ok(self) -> bool {
        match self {
            State::Init(t) => t <= 8,
            State::Execute(t) => t <= 7,
            State::DmaIn(t) => t <= 7,
            _ => false,
        }
    }
}

/// The mathematical value of a [`Cdp1802`]: its architectural state with the
/// sixteen general registers as a sequence.
#[verifier::ext_equal]
pub struct CpuModel {
    pub state: State,
    pub d: u8,
    pub df: bool,
    pub b: u8,
    pub r: Seq<u16>,
    pub p: u8,
    pub x: u8,
    pub i: u8,
    pub n: u8,
    pub t: u8,
    pub ie: bool,
    pub out: Cdp1802Pins,
    pub ef: u8,
    pub prev_mode: Mode,
}

impl CpuModel {
    pub open spec fn wf(self) -> bool {
        &&& self.r.len() == 16
    &&& self.p < 16
        &&& self.x < 16
        &&& self.i < 16
        &&& self.n < 16
        &&& self.state.wf()
        &&& (self.prev_mode == Mode::Reset ==> self.state == State::Init(0u8))
        &&& (self.prev_mode == Mode::Load ==> self.state.load_ok())
    }

    pub open spec fn glo(self, n: u8) -> u8 {
        (self.r[n as int] & 0xff) as u8
    }

    pub open spec fn ghi(self, n: u8) -> u8 {
        (self.r[n as int] >> 8) as u8
    }

    pub open spec fn with_plo(self, n: u8, d: u8) -> CpuModel {
        CpuModel { r: self.r.update(n as int, ((self.r[n as int] & 0xff00) | (d as u16)) as u16), ..self }
    }

    pub open spec fn with_phi(self, n: u8, d: u8) -> CpuModel {
        CpuModel { r: self.r.update(n as int, ((self.r[n as int] & 0x00ff) | ((d as u16) << 8)) as u16), ..self }
    }

    pub open spec fn with_inc(self, n: u8) -> CpuModel {
        let v = self.r[n as int];
        let v2: u16 = if v == 0xffff { 0 } else { (v + 1) as u16 };
        CpuModel { r: self.r.update(n as int, v2), ..self }
    }

    pub open spec fn with_dec(self, n: u8) -> CpuModel {
        let v = self.r[n as int];
        let v2: u16 = if v == 0 { 0xffff } else { (v - 1) as u16 };
        CpuModel { r: self.r.update(n as int, v2), ..self }
    }

    /// One tick of the Reset mode: force I, N, X, P, R(0), IE and the
    /// buffered outputs to their defined reset values and hold in Init(0).
    pub open spec fn reset_step(self) -> CpuModel {
        let out = Cdp1802Pins(0).spec_set_mrd(true).spec_set_mwr(true).spec_set_sc(1);
        CpuModel {
            i: 0,
            n: 0,
            x: 0,
            p: 0,
            r: self.r.update(0, 0u16),
            ie: true,
            state: State::Init(0u8),
            out,
            ..self
        }
    }

    /// Timing-pulse emission at the current sub-tick.
    pub open spec fn timing_step(self, enable_tpa: bool) -> CpuModel {
        let t = self.state.tick() & 7;
        if t == 0 {
            CpuModel { out: self.out.spec_set_sc(self.state.as_sc()).spec_set_mrd(true), ..self }
        } else if t == 1 {
            if enable_tpa {
                CpuModel { out: self.out.spec_set_tpa(true), ..self }
            } else {
                self
            }
        } else if t == 2 {
            CpuModel { out: self.out.spec_set_tpa(false), ..self }
        } else if t == 6 {
            CpuModel { out: self.out.spec_set_tpb(true), ..self }
        } else if t == 7 {
            CpuModel { out: self.out.spec_set_mwr(true).spec_set_tpb(false), ..self }
        } else {
            self
        }
    }

    /// Init cycle: X, P and R(0) are cleared on tick 1.
    pub open spec fn init_step(self, t: u8) -> CpuModel {
        if t == 1 {
            CpuModel { x: 0, p: 0, r: self.r.update(0, 0u16), ..self }
        } else {
            self
        }
    }

    /// Memory-read address emission: high byte at tick 0, MRD and the low
    /// byte at tick 2.
    pub open spec fn mrd_step(self, t: u8, n: u8) -> CpuModel {
        if t == 0 {
            CpuModel { out: self.out.spec_set_ma(self.ghi(n)), ..self }
        } else {
            CpuModel { out: self.out.spec_set_mrd(false).spec_set_ma(self.glo(n)), ..self }
        }
    }

    /// Memory-write cycle: address, data and the MWR strobe in turn.
    pub open spec fn store_step(self, t: u8, n: u8, value: u8) -> CpuModel {
        if t == 0 {
            CpuModel { out: self.out.spec_set_ma(self.ghi(n)), ..self }
        } else if t == 2 {
            CpuModel { out: self.out.spec_set_ma(self.glo(n)), ..self }
        } else if t == 3 {
            CpuModel { out: self.out.spec_set_bus(value), ..self }
        } else if t == 5 {
            CpuModel { out: self.out.spec_set_mwr(false), ..self }
        } else {
            self
        }
    }

    /// Fetch cycle: read at R(P), split the opcode into I and N at tick 3 and
    /// post-increment R(P) unless the opcode was IDL.
    pub open spec fn fetch_step(self, t: u8, pins: Cdp1802Pins) -> CpuModel {
        if t == 0 || t == 2 {
            self.mrd_step(t, self.p)
        } else if t == 3 {
            let inst = pins.get_bus();
            let c = CpuModel { i: ((inst & 0xf0) >> 4) as u8, n: (inst & 0x0f) as u8, ..self };
            if inst != 0 {
                c.with_inc(self.p)
            } else {
                c
            }
        } else {
            self
        }
    }

    /// The branch and skip condition selected by the low instruction nibble.
    pub open spec fn test(self, n: u8) -> bool {
        let br = match n & 7 {
            0 => true,
            1 => self.out.get_q(),
            2 => self.d == 0,
            3 => self.df,
            4 => (self.ef & 1) == 0,
            5 => (self.ef & 2) == 0,
            6 => (self.ef & 4) == 0,
            _ => (self.ef & 8) == 0,
        };
        if (n & 8) > 0 {
            !br
        } else {
            br
        }
    }

    /// Arithmetic family: ADD/ADC and their immediate forms.
    pub open spec fn add_step(self, t: u8, n: u8, carry: bool, pins: Cdp1802Pins) -> CpuModel {
        if t == 0 || t == 2 {
            self.mrd_step(t, n)
        } else if t == 3 {
            let m = pins.get_bus();
            let dd = if carry {
                math::spec_addc(self.d, m, self.df)
            } else {
                math::spec_add(self.d, m)
            };
            CpuModel { d: dd.0, df: dd.1, ..self }
        } else {
            self
        }
    }

    /// Subtract family SD/SDB and immediates: D is subtracted from memory.
    pub open spec fn subd_step(self, t: u8, n: u8, borrow: bool, pins: Cdp1802Pins) -> CpuModel {
        if t == 0 || t == 2 {
            self.mrd_step(t, n)
        } else if t == 3 {
            let m = pins.get_bus();
            let dd = if borrow {
                math::spec_subc(m, self.d, !self.df)
            } else {
                math::spec_sub(m, self.d)
            };
            CpuModel { d: dd.0, df: dd.1, ..self }
        } else {
            self
        }
    }

    /// Subtract family SM/SMB and immediates: memory is subtracted from D.
    pub open spec fn subm_step(self, t: u8, n: u8, borrow: bool, pins: Cdp1802Pins) -> CpuModel {
        if t == 0 || t == 2 {
            self.mrd_step(t, n)
        } else if t == 3 {
            let m = pins.get_bus();
            let dd = if borrow {
                math::spec_subc(self.d, m, !self.df)
            } else {
                math::spec_sub(self.d, m)
            };
            CpuModel { d: dd.0, df: dd.1, ..self }
        } else {
            self
        }
    }

    /// Short branches: sample EF at tick 1; at tick 3 a taken branch loads the
    /// operand into the low byte of R(P), a not-taken one steps past it.
    pub open spec fn bxx_step(self, t: u8, n: u8, pins: Cdp1802Pins) -> CpuModel {
        if t == 0 || t == 2 {
            self.mrd_step(t, self.p)
        } else if t == 1 {
            CpuModel { ef: pins.get_ef(), ..self }
        } else if t == 3 {
            if self.test(n) {
                self.with_plo(self.p, pins.get_bus())
            } else {
                self.with_inc(self.p)
            }
        } else {
            self
        }
    }

    /// Long branches: the high byte is latched in B at tick 3; the second
    /// memory read runs at ticks 8 and 10 and the decision falls at tick 11.
    pub open spec fn lbxx_step(self, t: u8, n: u8, pins: Cdp1802Pins) -> CpuModel {
        if t == 0 || t == 2 {
            self.mrd_step(t, self.p)
        } else if t == 1 {
            CpuModel { ef: pins.get_ef(), ..self }
        } else if t == 3 {
            CpuModel { b: pins.get_bus(), ..self }.with_inc(self.p)
        } else if t == 8 || t == 10 {
            self.mrd_step(if t == 8 { 0 } else { 2 }, self.p)
        } else if t == 11 {
            if self.test(n) {
                self.with_plo(self.p, pins.get_bus()).with_phi(self.p, self.b)
            } else {
                self.with_inc(self.p)
            }
        } else {
            self
        }
    }

    /// The skip condition of the LSxx family: LSKP is unconditional, LSIE
    /// tests IE, and the rest test Q, D = 0 or DF, straight for the high
    /// row and negated for the low one.
    pub open spec fn skip_test(self, n: u8) -> bool {
        if n == 8 {
            true
        } else if n == 0xc {
            self.ie
        } else {
            let cond = if n & 3 == 1 {
                self.out.get_q()
            } else if n & 3 == 2 {
                self.d == 0
            } else {
                self.df
            };
            if (n & 8) > 0 {
                cond
            } else {
                !cond
            }
        }
    }

    /// Long skips: two machine cycles; a taken skip advances R(P) past the
    /// two following bytes at the decision tick.
    pub open spec fn skip_step(self, t: u8, n: u8) -> CpuModel {
        if t == 11 {
            if self.skip_test(n) {
                self.with_inc(self.p).with_inc(self.p)
            } else {
                self
            }
        } else {
            self
        }
    }

    /// MARK: push packed (X, P) at R(2), copy P into X and decrement R(2).
    pub open spec fn mark_step(self, t: u8) -> CpuModel {
        if t == 0 {
            CpuModel { out: self.out.spec_set_ma(self.ghi(2)), ..self }
        } else if t == 2 {
            CpuModel { out: self.out.spec_set_ma(self.glo(2)), ..self }
        } else if t == 3 {
            let tv = ((self.x << 4) | (self.p & 0xf)) as u8;
            CpuModel { t: tv, out: self.out.spec_set_bus(tv), x: self.p, ..self }.with_dec(2)
        } else if t == 5 {
            CpuModel { out: self.out.spec_set_mwr(false), ..self }
        } else {
            self
        }
    }

    /// RET and DIS: pop packed (X, P) from memory at X, post-increment the
    /// new R(X) and set IE.
    pub open spec fn ret_step(self, t: u8, ie: bool, pins: Cdp1802Pins) -> CpuModel {
        if t == 0 || t == 2 {
            self.mrd_step(t, self.x)
        } else if t == 3 {
            let m = pins.get_bus();
            let x2 = (m >> 4) as u8;
            CpuModel { x: x2, p: (m & 0xf) as u8, ie, ..self }.with_inc(x2)
        } else {
            self
        }
    }

    /// OUT: drive the port number on N, read memory at R(X) and
    /// post-increment R(X).
    pub open spec fn output_step(self, t: u8, n: u8) -> CpuModel {
        if t == 0 {
            CpuModel { out: self.out.spec_set_n(n).spec_set_ma(self.ghi(self.x)), ..self }
        } else if t == 2 {
            CpuModel { out: self.out.spec_set_mrd(false).spec_set_ma(self.glo(self.x)), ..self }
        } else if t == 3 {
            self.with_inc(self.x)
        } else if t == 7 {
            CpuModel { out: self.out.spec_set_n(0), ..self }
        } else {
            self
        }
    }

    /// INP: drive the port number on N, let the device drive BUS, store the
    /// byte at R(X) and into D.
    pub open spec fn input_step(self, t: u8, n: u8, pins: Cdp1802Pins) -> CpuModel {
        if t == 0 {
            CpuModel { out: self.out.spec_set_n(n).spec_set_ma(self.ghi(self.x)), ..self }
        } else if t == 2 {
            CpuModel { out: self.out.spec_set_ma(self.glo(self.x)), ..self }
        } else if t == 5 {
            CpuModel { out: self.out.spec_set_mwr(false), ..self }
        } else if t == 6 {
            CpuModel { d: pins.get_bus(), ..self }
        } else if t == 7 {
            CpuModel { out: self.out.spec_set_n(0), ..self }
        } else {
            self
        }
    }

    /// One Execute tick of the current instruction (I, N).
    pub open spec fn execute_step(self, t: u8, pins: Cdp1802Pins) -> CpuModel {
        let c = self;
        match (c.i, c.n, t) {
            // IDL (00)
            (0, 0, 0 | 2) => c.mrd_step(t, 0),
            (0, 0, _) => c,
            // LDN (0n) / LDA (4n)
            (0 | 4, n, 0 | 2) => c.mrd_step(t, n),
            (0 | 4, _, 3) => CpuModel { d: pins.get_bus(), ..c },
            (4, n, 4) => c.with_inc(n),
            (0 | 4, _, _) => c,
            // LDXA (72)
            (7, 2, 0 | 2) => c.mrd_step(t, c.x),
            (7, 2, 3) => CpuModel { d: pins.get_bus(), ..c },
            (7, 2, 4) => c.with_inc(c.x),
            (7, 2, _) => c,
            // LDX (f0)
            (0xf, 0, 0 | 2) => c.mrd_step(t, c.x),
            (0xf, 0, 3) => CpuModel { d: pins.get_bus(), ..c },
            (0xf, 0, _) => c,
            // LDI (f8)
            (0xf, 8, 0 | 2) => c.mrd_step(t, c.p),
            (0xf, 8, 3) => CpuModel { d: pins.get_bus(), ..c },
            (0xf, 8, 4) => c.with_inc(c.p),
            (0xf, 8, _) => c,
            // STR (5n)
            (5, n, _) => c.store_step(t, n, c.d),
            // STXD (73)
            (7, 3, 4) => c.with_dec(c.x),
            (7, 3, _) => c.store_step(t, c.x, c.d),
            // INC (1n) / DEC (2n)
            (1, n, 4) => c.with_inc(n),
            (2, n, 4) => c.with_dec(n),
            (1 | 2, _, _) => c,
            // IRX (60)
            (6, 0, 4) => c.with_inc(c.x),
            (6, 0, _) => c,
            // GLO (8n) / GHI (9n) / PLO (an) / PHI (bn)
            (8, n, 3) => CpuModel { d: c.glo(n), ..c },
            (9, n, 3) => CpuModel { d: c.ghi(n), ..c },
            (0xa, n, 3) => c.with_plo(n, c.d),
            (0xb, n, 3) => c.with_phi(n, c.d),
            (8 | 9 | 0xa | 0xb, _, _) => c,
            // OR (f1) / AND (f2) / XOR (f3)
            (0xf, 1 | 2 | 3, 0 | 2) => c.mrd_step(t, c.x),
            (0xf, 1, 3) => CpuModel { d: c.d | pins.get_bus(), ..c },
            (0xf, 2, 3) => CpuModel { d: c.d & pins.get_bus(), ..c },
            (0xf, 3, 3) => CpuModel { d: c.d ^ pins.get_bus(), ..c },
            (0xf, 1 | 2 | 3, _) => c,
            // ORI (f9) / ANI (fa) / XRI (fb)
            (0xf, 9 | 0xa | 0xb, 0 | 2) => c.mrd_step(t, c.p),
            (0xf, 9, 3) => CpuModel { d: c.d | pins.get_bus(), ..c }.with_inc(c.p),
            (0xf, 0xa, 3) => CpuModel { d: c.d & pins.get_bus(), ..c }.with_inc(c.p),
            (0xf, 0xb, 3) => CpuModel { d: c.d ^ pins.get_bus(), ..c }.with_inc(c.p),
            (0xf, 9 | 0xa | 0xb, _) => c,
            // SHR (f6) / SHL (fe)
            (0xf, 6, 3) => CpuModel { d: c.d >> 1, df: c.d & 0x01 != 0, ..c },
            (0xf, 0xe, 3) => CpuModel { d: c.d << 1, df: c.d & 0x80 != 0, ..c },
            (0xf, 6 | 0xe, _) => c,
            // SHRC (76) / SHLC (7e)
            (7, 6, 3) => CpuModel {
                d: if c.df { (c.d >> 1) | 0x80 } else { c.d >> 1 },
                df: c.d & 0x01 != 0,
                ..c
            },
            (7, 0xe, 3) => CpuModel {
                d: if c.df { (c.d << 1) | 0x01 } else { c.d << 1 },
                df: c.d & 0x80 != 0,
                ..c
            },
            (7, 6 | 0xe, _) => c,
            // ADD (f4) / ADC (74)
            (0xf, 4, _) => c.add_step(t, c.x, false, pins),
            (7, 4, _) => c.add_step(t, c.x, true, pins),
            // ADI (fc) / ADCI (7c)
            (0xf | 7, 0xc, 4) => c.with_inc(c.p),
            (0xf, 0xc, _) => c.add_step(t, c.p, false, pins),
            (7, 0xc, _) => c.add_step(t, c.p, true, pins),
            // SD (f5) / SDB (75)
            (0xf, 5, _) => c.subd_step(t, c.x, false, pins),
            (7, 5, _) => c.subd_step(t, c.x, true, pins),
            // SDI (fd) / SDBI (7d)
            (0xf | 7, 0xd, 4) => c.with_inc(c.p),
            (0xf, 0xd, _) => c.subd_step(t, c.p, false, pins),
            (7, 0xd, _) => c.subd_step(t, c.p, true, pins),
            // SM (f7) / SMB (77)
            (0xf, 7, _) => c.subm_step(t, c.x, false, pins),
            (7, 7, _) => c.subm_step(t, c.x, true, pins),
            // SMI (ff) / SMBI (7f)
            (0xf | 7, 0xf, 4) => c.with_inc(c.p),
            (0xf, 0xf, _) => c.subm_step(t, c.p, false, pins),
            (7, 0xf, _) => c.subm_step(t, c.p, true, pins),
            // NOP (c4)
            (0xc, 4, _) => c,
            // Bxx (3n) / LBxx (cn) / LSxx
            (3, n, _) => c.bxx_step(t, n, pins),
            (0xc, n, _) => if n == 0 || n == 1 || n == 2 || n == 3 || n == 9 || n == 0xa || n
                == 0xb {
                c.lbxx_step(t, n, pins)
            } else {
                c.skip_step(t, n)
            },
            // SEP (dn) / SEX (en)
            (0xd, n, 3) => CpuModel { p: n, ..c },
            (0xe, n, 3) => CpuModel { x: n, ..c },
            (0xd | 0xe, _, _) => c,
            // REQ (7a) / SEQ (7b)
            (7, 0xa, 3) => CpuModel { out: c.out.spec_set_q(false), ..c },
            (7, 0xb, 3) => CpuModel { out: c.out.spec_set_q(true), ..c },
            (7, 0xa | 0xb, _) => c,
            // SAV (78) / MARK (79)
            (7, 8, _) => c.store_step(t, c.x, c.t),
            (7, 9, _) => c.mark_step(t),
            // RET (70) / DIS (71)
            (7, 0, _) => c.ret_step(t, true, pins),
            (7, 1, _) => c.ret_step(t, false, pins),
            // Resv (68)
            (6, 8, _) => c,
            // OUT (61..67) / INP (69..6f)
            (6, n, _) => if n <= 7 {
                c.output_step(t, n)
            } else {
                c.input_step(t, (n - 8) as u8, pins)
            },
            // Out-of-range register values never arise on a well-formed CPU.
            _ => c,
        }
    }

    /// DMA-In cycle: an external device writes one byte at R(0).
    pub open spec fn dma_in_step(self, t: u8) -> CpuModel {
        if t == 0 {
            CpuModel { out: self.out.spec_set_ma(self.ghi(0)), ..self }
        } else if t == 2 {
            CpuModel { out: self.out.spec_set_ma(self.glo(0)), ..self }
        } else if t == 4 {
            self.with_inc(0)
        } else if t == 5 {
            CpuModel { out: self.out.spec_set_mwr(false), ..self }
        } else {
            self
        }
    }

    /// DMA-Out cycle: memory at R(0) is read onto the bus.
    pub open spec fn dma_out_step(self, t: u8) -> CpuModel {
        if t == 0 || t == 2 {
            self.mrd_step(t, 0)
        } else if t == 4 {
            self.with_inc(0)
        } else {
            self
        }
    }

    /// Interrupt cycle: latch packed (X, P) in T, select X=2, P=1 and
    /// disable further interrupts.
    pub open spec fn interrupt_step(self, t: u8) -> CpuModel {
        if t == 0 {
            CpuModel {
                t: ((self.x << 4) | (self.p & 0xf)) as u8,
                x: 2,
                p: 1,
                ie: false,
                ..self
            }
        } else {
            self
        }
    }

    /// DMA and interrupt sampling at the end of a cycle, with DMA-In over
    /// DMA-Out over Interrupt priority; interrupts only when `ie` holds.
    pub open spec fn sample_dma_intr(self, pins: Cdp1802Pins, ie: bool) -> Option<State> {
        if !pins.get_dma_in() {
            Some(State::DmaIn(0u8))
        } else if !pins.get_dma_out() {
            Some(State::DmaOut(0u8))
        } else if !pins.get_intr() && ie {
            Some(State::Interrupt(0u8))
        } else {
            None
        }
    }

    pub open spec fn sample_or(self, pins: Cdp1802Pins, ie: bool, default: State) -> State {
        match self.sample_dma_intr(pins, ie) {
            Some(s) => s,
            None => default,
        }
    }

    /// One Run-mode tick: timing pulses, the cycle's own work, then the next
    /// state decision.
    pub open spec fn run_step(self, pins: Cdp1802Pins) -> CpuModel {
        let c1 = self.timing_step(true);
        let c2 = match c1.state {
            State::Init(t) => c1.init_step(t),
            State::Fetch(t) => c1.fetch_step(t, pins),
            State::Execute(t) => c1.execute_step(t, pins),
            State::DmaIn(t) => c1.dma_in_step(t),
            State::DmaOut(t) => c1.dma_out_step(t),
            State::Interrupt(t) => c1.interrupt_step(t),
        };
        let ns = match c2.state {
            // Interrupts are forcibly disabled during the init transition.
            State::Init(t) => if t == 8 {
                c2.sample_or(pins, false, State::Fetch(0u8))
            } else {
                State::Init((t + 1) as u8)
            },
            State::Fetch(t) => if t == 7 {
                State::Execute(0u8)
            } else {
                State::Fetch((t + 1) as u8)
            },
            State::Execute(t) => if t == 7 && c2.i == 0 && c2.n == 0 {
                // IDL stays in S1.
                c2.sample_or(pins, c2.ie, State::Execute(0u8))
            } else if t == 7 && c2.i != 0xc {
                c2.sample_or(pins, c2.ie, State::Fetch(0u8))
            } else if t == 15 {
                c2.sample_or(pins, c2.ie, State::Fetch(0u8))
            } else {
                State::Execute((t + 1) as u8)
            },
            State::DmaIn(t) => if t == 7 {
                c2.sample_or(pins, c2.ie, State::Fetch(0u8))
            } else {
                State::DmaIn((t + 1) as u8)
            },
            State::DmaOut(t) => if t == 7 {
                c2.sample_or(pins, c2.ie, State::Fetch(0u8))
            } else {
                State::DmaOut((t + 1) as u8)
            },
            State::Interrupt(t) => if t == 7 {
                c2.sample_or(pins, c2.ie, State::Fetch(0u8))
            } else {
                State::Interrupt((t + 1) as u8)
            },
        };
        CpuModel { state: ns, ..c2 }
    }

    /// One Load-mode tick. Entering Load from Pause or Run performs a reset
    /// step first; otherwise the CPU idles in Execute, honouring DMA-In.
    pub open spec fn load_step(self, pins: Cdp1802Pins) -> CpuModel {
        if self.prev_mode == Mode::Pause || self.prev_mode == Mode::Run {
            self.reset_step()
        } else {
            let c1 = self.timing_step(self.state is DmaIn);
            let c2 = match c1.state {
                State::Init(t) => c1.init_step(t),
                State::DmaIn(t) => c1.dma_in_step(t),
                State::Execute(t) => if t == 2 {
                    let addr = c1.glo(c1.p);
                    if addr > 0 {
                        CpuModel {
                            out: c1.out.spec_set_mrd(false).spec_set_ma((addr - 1) as u8),
                            ..c1
                        }
                    } else {
                        c1
                    }
                } else {
                    c1
                },
                _ => c1,
            };
            let ns = match c2.state {
                State::Init(t) => if t == 8 {
                    if !pins.get_dma_in() {
                        State::DmaIn(0u8)
                    } else {
                        State::Execute(0u8)
                    }
                } else {
                    State::Init((t + 1) as u8)
                },
                State::Execute(t) => if t == 7 {
                    if !pins.get_dma_in() {
                        State::DmaIn(0u8)
                    } else {
                        State::Execute(0u8)
                    }
                } else {
                    State::Execute((t + 1) as u8)
                },
                State::DmaIn(t) => if t == 7 {
                    if !pins.get_dma_in() {
                        State::DmaIn(0u8)
                    } else {
                        State::Execute(0u8)
                    }
                } else {
                    State::DmaIn((t + 1) as u8)
                },
                s => s,
            };
            CpuModel { state: ns, ..c2 }
        }
    }

    /// The overlay of the buffered outputs onto the shared pins: the full
    /// bus-capable mask during Init and write cycles, except that BUS drive
    /// is suppressed during INP so the external device may drive it.
    pub open spec fn update_pins_spec(self, pins: Cdp1802Pins) -> Cdp1802Pins {
        let init = self.state is Init;
        let mwr = !self.out.get_mwr();
        let inp = (self.state is Execute) && self.i == 6 && self.n >= 9;
        let mask: u64 = if init || (mwr && !inp) {
            0x3ff_ffff
        } else {
            0x3ff_ff00
        };
        pins.spec_set_masked(self.out, mask)
    }

    /// A whole tick: mode selection, the mode's work, then the pin overlay.
    /// Returns the new CPU model and the new shared pins.
    pub open spec fn tick_full(self, pins: Cdp1802Pins) -> (CpuModel, Cdp1802Pins) {
        let m = spec_mode(pins);
        if m == Mode::Pause {
            (self, pins)
        } else {
            let c1 = if m == Mode::Reset {
                self.reset_step()
            } else if m == Mode::Load {
                self.load_step(pins)
            } else {
                self.run_step(pins)
            };
            let c2 = CpuModel { prev_mode: m, ..c1 };
            (c2, c2.update_pins_spec(pins))
        }
    }

    /// Whether the CPU is waiting for an external event.
    pub open spec fn is_waiting_spec(self, pins: Cdp1802Pins) -> bool {
        let dma_intr = !pins.get_dma_in() || !pins.get_dma_out() || !pins.get_intr();
        match spec_mode(pins) {
            Mode::Load => if self.state == State::Execute(7u8) {
                !dma_intr
            } else {
                false
            },
            Mode::Reset => self.state == State::Init(0u8),
            Mode::Pause => true,
            Mode::Run => if self.state == State::Execute(7u8) && self.i == 0 && self.n == 0 {
                !dma_intr
            } else {
                false
            },
        }
    }
}

/// One tick of Reset forces the defined reset values, whatever the CPU held
/// before: the instruction latches, X, P and R(0) clear, Q goes low, IE is
/// set and the state is Init(0).
pub proof fn lemma_reset_determinism(c: CpuModel, rpins: Cdp1802Pins)
    requires
        c.r.len() == 16,
        spec_mode(rpins) == Mode::Reset,
    ensures
        ({
            let c1 = c.tick_full(rpins).0;
            c1.i == 0 && c1.n == 0 && !c1.out.get_q() && c1.ie && c1.x == 0 && c1.p == 0
                && c1.r[0] == 0 && c1.state == State::Init(0u8)
        }),
{
    let c1 = c.tick_full(rpins).0;
    assert(c1 == CpuModel { prev_mode: Mode::Reset, ..c.reset_step() });
    // Q sits at bit 19; the reset chain touches bits 20, 21 and 24..=25.
    assert(!bits::spec_get_1(
        bits::spec_set(bits::spec_set_1(bits::spec_set_1(0u64, 20, true), 21, true), 24, 0x3, 1),
        19,
    )) by (bit_vector);
    assert(!c1.out.spec_get_q());
}

/// R(P) wraps around: a Fetch cycle that reads an opcode other than IDL from
/// R(P) = 0xFFFF leaves R(P) = 0x0000.
pub proof fn lemma_rp_wraparound(c: CpuModel, pins: Cdp1802Pins)
    requires
        c.r.len() == 16,
        c.p < 16,
        c.state == State::Fetch(3u8),
        c.r[c.p as int] == 0xffff,
        pins.get_bus() != 0,
        spec_mode(pins) == Mode::Run,
    ensures
        c.run_step(pins).r[c.p as int] == 0x0000,
{
}

/// The DF subtract convention: executing SD with D = y and x on the bus
/// (memory at R(X) drives it) leaves DF set exactly when x >= y, and D
/// holding the wrapped difference x - y.
pub proof fn lemma_sd_borrow_convention(c: CpuModel, pins: Cdp1802Pins)
    requires
        c.i == 0xf,
        c.n == 5,
    ensures
        c.execute_step(3, pins).df == (pins.get_bus() >= c.d),
        c.execute_step(3, pins).d == (pins.get_bus() - c.d + 256) % 256,
{
}

/// Interrupt-priority ordering at the sampling point closing an Execute
/// cycle: DMA-In wins over DMA-Out, which wins over an interrupt, and an
/// interrupt is taken only when IE is set.
#[verifier::rlimit(100)]
pub proof fn lemma_interrupt_priority(c: CpuModel, pins: Cdp1802Pins)
    requires
        c.i < 16,
        c.n < 16,
        c.state == State::Execute(7u8) && c.i != 0xc || c.state == State::Execute(15u8),
        spec_mode(pins) == Mode::Run,
    ensures
        !pins.get_dma_in() ==> c.run_step(pins).state == State::DmaIn(0u8),
        pins.get_dma_in() && !pins.get_dma_out() ==> c.run_step(pins).state == State::DmaOut(0u8),
        pins.get_dma_in() && pins.get_dma_out() && !pins.get_intr() && c.ie ==> c.run_step(
            pins,
        ).state == State::Interrupt(0u8),
{
    let c1 = c.timing_step(true);
    let c2 = c1.execute_step(c.state.spec_tick(), pins);
    assert(c2.ie == c.ie);
}

/// The nibbles of a byte are below 16.
proof fn lemma_nibbles(x: u8)
    by (bit_vector)
    ensures
        (x & 0xf0) >> 4 < 16,
        x & 0x0f < 16,
        x >> 4 < 16,
        x & 0xf < 16,
{
}

/// The RCA CDP1802 microprocessor.
#[derive(Debug)]
pub struct Cdp1802 {
    pub state: State,
    // Standard registers (Q is in the buffered outputs).
    pub d: u8,
    pub df: bool,
    pub b: u8,
    pub r: Vec<u16>,
    pub p: u8,
    pub x: u8,
    pub i: u8,
    pub n: u8,
    pub t: u8,
    pub ie: bool,
    /// Buffered pin outputs.
    pub out: Cdp1802Pins,
    /// Sampled external flags; EF1 is the least significant bit.
    pub ef: u8,
    /// The mode of the previous tick, used to detect edges into Load.
    pub prev_mode: Mode,
}

impl View for Cdp1802 {
    type V = CpuModel;

    open spec fn view(&self) -> CpuModel {
        CpuModel {
            state: self.state,
            d: self.d,
            df: self.df,
            b: self.b,
            r: self.r@,
            p: self.p,
            x: self.x,
            i: self.i,
            n: self.n,
            t: self.t,
            ie: self.ie,
            out: self.out,
            ef: self.ef,
            prev_mode: self.prev_mode,
        }
    }
}

impl Cdp1802 {
    /// The power-on value: everything cleared, IE set, Init(0), all pins
    /// buffered high.
    pub open spec fn power_on_model() -> CpuModel {
        CpuModel {
            state: State::Init(0u8),
            d: 0,
            df: false,
            b: 0,
            r: Seq::new(16, |j: int| 0u16),
            p: 0,
            x: 0,
            i: 0,
            n: 0,
            t: 0,
            ie: true,
            out: Cdp1802Pins(0x7_ffff_ffffu64),
            ef: 0,
            prev_mode: Mode::Reset,
        }
    }
}

impl Default for Cdp1802 {
    /// The power-on state: everything cleared, IE set, Init(0).
    fn default() -> (r: Self)
        ensures
            r.wf(),
            r@ == Cdp1802::power_on_model(),
    {
        let r: Vec<u16> = vec![0u16; 16];
        proof {
            assert(r@ =~= Seq::new(16, |j: int| 0u16));
        }
        let c = Cdp1802 {
            state: State::Init(0),
            d: 0,
            df: false,
            b: 0,
            r,
            p: 0,
            x: 0,
            i: 0,
            n: 0,
            t: 0,
            ie: true,
            out: Cdp1802Pins::default(),
            ef: 0,
            prev_mode: Mode::Reset,
        };
        proof {
            assert(c@ =~= Cdp1802::power_on_model());
        }
        c
    }
}

impl Cdp1802 {
    pub open spec fn wf(&self) -> bool {
        self@.wf()
    }

    /// A CPU with pseudorandom architectural state, for tests that must not
    /// rely on the power-on defaults.
    pub fn random() -> (r: Cdp1802)
        ensures
            r.wf(),
    {
        let mut regs: Vec<u16> = Vec::new();
        while regs.len() < 16
            invariant
                regs@.len() <= 16,
            decreases 16 - regs@.len(),
        {
            regs.push(crate::rng::random_u16());
        }
        let state = match crate::rng::random_below(6) {
            0 => State::Init(crate::rng::random_below(9)),
            1 => State::Fetch(crate::rng::random_below(8)),
            2 => State::Execute(crate::rng::random_below(16)),
            3 => State::DmaIn(crate::rng::random_below(8)),
            4 => State::DmaOut(crate::rng::random_below(8)),
            _ => State::Interrupt(crate::rng::random_below(8)),
        };
        Cdp1802 {
            state,
            d: crate::rng::random_u8(),
            df: crate::rng::random_bool(),
            b: crate::rng::random_u8(),
            r: regs,
            p: crate::rng::random_below(16),
            x: crate::rng::random_below(16),
            i: crate::rng::random_below(16),
            n: crate::rng::random_below(16),
            t: crate::rng::random_u8(),
            ie: crate::rng::random_bool(),
            out: Cdp1802Pins(crate::rng::random_u64() & 0x3ff_ffff),
            ef: crate::rng::random_u8() & 0xf,
            // A fresh mode-edge into Load or Reset behaves like the hardware
            // coming out of Run.
            prev_mode: Mode::Run,
        }
    }

    /// Force the reset state and overlay the output pins at once.
    pub fn reset(&mut self, pins: &mut Cdp1802Pins)
        requires
            old(self).wf(),
        ensures
            final(self).wf(),
            final(self)@ == old(self)@.reset_step(),
            *final(pins) == final(self)@.update_pins_spec(*old(pins)),
    {
        self.tick_reset();
        self.update_pins(pins);
    }

    /// Whether the CPU is waiting for an external event.
    pub fn is_waiting(&self, pins: Cdp1802Pins) -> (r: bool)
        ensures
            r == self@.is_waiting_spec(pins),
    {
        let dma_intr = !pins.get_dma_in() || !pins.get_dma_out() || !pins.get_intr();
        match (mode(pins), self.state) {
            (Mode::Load, State::Execute(7)) => !dma_intr,
            (Mode::Load, _) => false,
            (Mode::Reset, State::Init(0)) => true,
            (Mode::Reset, _) => false,
            (Mode::Pause, _) => true,
            (Mode::Run, State::Execute(7)) => if self.i == 0 && self.n == 0 {
                !dma_intr
            } else {
                false
            },
            (Mode::Run, _) => false,
        }
    }

    /// Whether the CPU sits at the first tick of a Fetch cycle.
    pub fn is_fetch_tick0(&self) -> (r: bool)
        ensures
            r == (self@.state == State::Fetch(0u8)),
    {
        matches!(self.state, State::Fetch(0))
    }

    /// The current opcode, if the chip is entering S1.
    pub fn get_exec_opcode(&self) -> (r: Option<u8>)
        requires
            self.wf(),
        ensures
            r == if self@.state == State::Execute(0u8) {
                Some(((self@.i << 4) | self@.n) as u8)
            } else {
                Option::<u8>::None
            },
    {
        if matches!(self.state, State::Execute(0)) {
            Some(self.i << 4 | self.n)
        } else {
            None
        }
    }

    /// The current program counter R(P).
    pub fn rp(&self) -> (r: u16)
        requires
            self.wf(),
        ensures
            r == self@.r[self@.p as int],
    {
        self.r[self.p as usize]
    }

    /// Advance the CPU by one clock tick, mutating the shared pins.
    pub fn tick(&mut self, pins: &mut Cdp1802Pins)
        requires
            old(self).wf(),
        ensures
            final(self).wf(),
            final(self)@ == old(self)@.tick_full(*old(pins)).0,
            *final(pins) == old(self)@.tick_full(*old(pins)).1,
    {
        let m = mode(*pins);
        match m {
            Mode::Pause => {
                return;
            },
            Mode::Reset => self.tick_reset(),
            Mode::Load => self.tick_load(*pins),
            Mode::Run => self.tick_run(*pins),
        }
        self.prev_mode = m;
        self.update_pins(pins);
    }

    fn update_pins(&self, pins: &mut Cdp1802Pins)
        ensures
            *final(pins) == self@.update_pins_spec(*old(pins)),
    {
        // Always drive the bus during init.
        let init = matches!(self.state, State::Init(_));
        // Drive the bus during write cycles...
        let mwr = !self.out.get_mwr();
        // ... but not during INP instructions.
        let inp = matches!(self.state, State::Execute(_)) && self.i == 6 && self.n >= 9;
        let mask = if init || (mwr && !inp) {
            Cdp1802Pins::mask_bus_out()
        } else {
            Cdp1802Pins::mask_out()
        };
        pins.set_masked(self.out, mask);
    }

    fn tick_reset(&mut self)
        requires
            old(self)@.r.len() == 16,
        ensures
            final(self)@ == old(self)@.reset_step(),
    {
        self.i = 0;
        self.n = 0;
        self.x = 0;
        self.p = 0;
        self.r[0] = 0;
        self.ie = true;
        self.state = State::Init(0);
        self.out = Cdp1802Pins(0);
        self.out.set_mrd(true);
        self.out.set_mwr(true);
        self.out.set_sc(self.state.as_sc());
    }

    fn tick_load(&mut self, pins: Cdp1802Pins)
        requires
            old(self).wf(),
            old(self)@.prev_mode == Mode::Load || old(self)@.prev_mode == Mode::Reset
                ==> old(self)@.state.load_ok(),
        ensures
            final(self)@ == old(self)@.load_step(pins),
            final(self)@.state.load_ok(),
            final(self)@.r.len() == 16 && final(self)@.p < 16 && final(self)@.x < 16
                && final(self)@.i < 16 && final(self)@.n < 16,
    {
        // Entering Load from Pause or Run performs one reset step first; the
        // datasheet leaves the transition open and this is the sane choice.
        if matches!(self.prev_mode, Mode::Pause | Mode::Run) {
            self.tick_reset();
            return;
        }
        self.tick_timing_pulses(matches!(self.state, State::DmaIn(_)));
        match self.state {
            State::Init(t) => self.tick_init(t),
            State::DmaIn(t) => self.tick_dma_in(t),
            State::Execute(2) => {
                let addr = self.glo(self.p);
                if addr > 0 {
                    self.out.set_mrd(false);
                    self.out.set_ma(addr - 1);
                }
            },
            _ => (),
        }
        self.state = match self.state {
            State::Init(8) | State::Execute(7) | State::DmaIn(7) => {
                if !pins.get_dma_in() {
                    State::DmaIn(0)
                } else {
                    State::Execute(0)
                }
            },
            State::Init(t) => State::Init(t + 1),
            State::Execute(t) => State::Execute(t + 1),
            State::DmaIn(t) => State::DmaIn(t + 1),
            s => s,
        };
    }

    #[verifier::rlimit(100)]
    fn tick_run(&mut self, pins: Cdp1802Pins)
        requires
            old(self).wf(),
        ensures
            final(self)@ == old(self)@.run_step(pins),
            final(self)@.r.len() == 16 && final(self)@.p < 16 && final(self)@.x < 16
                && final(self)@.i < 16 && final(self)@.n < 16,
            final(self)@.state.wf(),
    {
        self.tick_timing_pulses(true);
        match self.state {
            State::Init(t) => self.tick_init(t),
            State::Fetch(t) => self.tick_fetch(t, pins),
            State::Execute(t) => self.tick_execute(t, pins),
            State::DmaIn(t) => self.tick_dma_in(t),
            State::DmaOut(t) => self.tick_dma_out(t),
            State::Interrupt(t) => self.tick_interrupt(t),
        }
        self.state = match self.state {
            // Interrupts are forcibly disabled during this transition.
            State::Init(8) => match self.sample_dma_intr(pins, false) {
                Some(s) => s,
                None => State::Fetch(0),
            },
            // IDL stays in S1.
            State::Execute(7) if self.i == 0 && self.n == 0 => {
                match self.sample_dma_intr(pins, self.ie) {
                    Some(s) => s,
                    None => State::Execute(0),
                }
            },
            // Non-long-branch instructions return to S0.
            State::Execute(7) if self.i != 0xc => {
                match self.sample_dma_intr(pins, self.ie) {
                    Some(s) => s,
                    None => State::Fetch(0),
                }
            },
            // All other S1/S2/S3 completions return to S0.
            State::Execute(15) | State::DmaIn(7) | State::DmaOut(7) | State::Interrupt(7) => {
                match self.sample_dma_intr(pins, self.ie) {
                    Some(s) => s,
                    None => State::Fetch(0),
                }
            },
            // S0 always goes to S1.
            State::Fetch(7) => State::Execute(0),
            // Increment tick counts.
            State::Init(t) => State::Init(t + 1),
            State::Fetch(t) => State::Fetch(t + 1),
            State::Execute(t) => State::Execute(t + 1),
            State::DmaIn(t) => State::DmaIn(t + 1),
            State::DmaOut(t) => State::DmaOut(t + 1),
            State::Interrupt(t) => State::Interrupt(t + 1),
        };
    }

    fn tick_timing_pulses(&mut self, enable_tpa: bool)
        ensures
            final(self)@ == old(self)@.timing_step(enable_tpa),
    {
        match self.state.tick() & 7 {
            0 => {
                self.out.set_sc(self.state.as_sc());
                self.out.set_mrd(true);
            },
            1 => if enable_tpa {
                self.out.set_tpa(true);
            },
            2 => self.out.set_tpa(false),
            6 => self.out.set_tpb(true),
            7 => {
                self.out.set_mwr(true);
                self.out.set_tpb(false);
            },
            _ => (),
        }
    }

    fn tick_init(&mut self, tick: u8)
        requires
            old(self)@.r.len() == 16,
        ensures
            final(self)@ == old(self)@.init_step(tick),
    {
        if tick == 1 {
            self.x = 0;
            self.p = 0;
            self.r[0] = 0;
        }
    }

    fn tick_fetch(&mut self, tick: u8, pins: Cdp1802Pins)
        requires
            old(self).wf(),
        ensures
            final(self)@ == old(self)@.fetch_step(tick, pins),
            final(self)@.i < 16 && final(self)@.n < 16 && final(self)@.r.len() == 16,
    {
        match tick {
            0 | 2 => self.tick_mrd(tick, self.p),
            3 => {
                let inst = pins.get_bus();
                proof {
                    lemma_nibbles(inst);
                }
                self.i = (inst & 0xf0) >> 4;
                self.n = inst & 0x0f;
                // The program counter does not advance for IDL.
                if inst != 0 {
                    let p = self.p;
                    self.inc(p);
                }
            },
            _ => (),
        }
    }

    #[verifier::rlimit(100)]
    fn tick_execute(&mut self, tick: u8, pins: Cdp1802Pins)
        requires
            old(self).wf(),
        ensures
            final(self)@ == old(self)@.execute_step(tick, pins),
            final(self)@.r.len() == 16 && final(self)@.p < 16 && final(self)@.x < 16
                && final(self)@.i < 16 && final(self)@.n < 16,
    {
        let t = tick;
        match (self.i, self.n, t) {
            // IDL (00)
            (0, 0, 0 | 2) => self.tick_mrd(t, 0),
            (0, 0, _) => (),
            // LDN (0n) / LDA (4n)
            (0 | 4, n, 0 | 2) => self.tick_mrd(t, n),
            (0 | 4, _, 3) => self.d = pins.get_bus(),
            (4, n, 4) => self.inc(n),
            (0 | 4, _, _) => (),
            // LDXA (72)
            (7, 2, 0 | 2) => {
                let x = self.x;
                self.tick_mrd(t, x);
            },
            (7, 2, 3) => self.d = pins.get_bus(),
            (7, 2, 4) => {
                let x = self.x;
                self.inc(x);
            },
            (7, 2, _) => (),
            // LDX (f0)
            (0xf, 0, 0 | 2) => {
                let x = self.x;
                self.tick_mrd(t, x);
            },
            (0xf, 0, 3) => self.d = pins.get_bus(),
            (0xf, 0, _) => (),
            // LDI (f8)
            (0xf, 8, 0 | 2) => {
                let p = self.p;
                self.tick_mrd(t, p);
            },
            (0xf, 8, 3) => self.d = pins.get_bus(),
            (0xf, 8, 4) => {
                let p = self.p;
                self.inc(p);
            },
            (0xf, 8, _) => (),
            // STR (5n)
            (5, n, _) => {
                let d = self.d;
                self.tick_store(t, n, d);
            },
            // STXD (73)
            (7, 3, 4) => {
                let x = self.x;
                self.dec(x);
            },
            (7, 3, _) => {
                let x = self.x;
                let d = self.d;
                self.tick_store(t, x, d);
            },
            // INC (1n) / DEC (2n)
            (1, n, 4) => self.inc(n),
            (2, n, 4) => self.dec(n),
            (1 | 2, _, _) => (),
            // IRX (60)
            (6, 0, 4) => {
                let x = self.x;
                self.inc(x);
            },
            (6, 0, _) => (),
            // GLO (8n) / GHI (9n) / PLO (an) / PHI (bn)
            (8, n, 3) => self.d = self.glo(n),
            (9, n, 3) => self.d = self.ghi(n),
            (0xa, n, 3) => {
                let d = self.d;
                self.plo(n, d);
            },
            (0xb, n, 3) => {
                let d = self.d;
                self.phi(n, d);
            },
            (8 | 9 | 0xa | 0xb, _, _) => (),
            // OR (f1) / AND (f2) / XOR (f3)
            (0xf, 1 | 2 | 3, 0 | 2) => {
                let x = self.x;
                self.tick_mrd(t, x);
            },
            (0xf, 1, 3) => self.d = self.d | pins.get_bus(),
            (0xf, 2, 3) => self.d = self.d & pins.get_bus(),
            (0xf, 3, 3) => self.d = self.d ^ pins.get_bus(),
            (0xf, 1 | 2 | 3, _) => (),
            // ORI (f9) / ANI (fa) / XRI (fb)
            (0xf, 9 | 0xa | 0xb, 0 | 2) => {
                let p = self.p;
                self.tick_mrd(t, p);
            },
            (0xf, 9, 3) => {
                self.d = self.d | pins.get_bus();
                let p = self.p;
                self.inc(p);
            },
            (0xf, 0xa, 3) => {
                self.d = self.d & pins.get_bus();
                let p = self.p;
                self.inc(p);
            },
            (0xf, 0xb, 3) => {
                self.d = self.d ^ pins.get_bus();
                let p = self.p;
                self.inc(p);
            },
            (0xf, 9 | 0xa | 0xb, _) => (),
            // SHR (f6) / SHL (fe)
            (0xf, 6, 3) => {
                let df = self.d & 0x01 != 0;
                self.d = self.d >> 1;
                self.df = df;
            },
            (0xf, 0xe, 3) => {
                let df = self.d & 0x80 != 0;
                self.d = self.d << 1;
                self.df = df;
            },
            (0xf, 6 | 0xe, _) => (),
            // SHRC (76) / SHLC (7e)
            (7, 6, 3) => {
                let df = self.d & 0x01 != 0;
                self.d = self.d >> 1;
                if self.df {
                    self.d = self.d | 0x80;
                }
                self.df = df;
            },
            (7, 0xe, 3) => {
                let df = self.d & 0x80 != 0;
                self.d = self.d << 1;
                if self.df {
                    self.d = self.d | 0x01;
                }
                self.df = df;
            },
            (7, 6 | 0xe, _) => (),
            // ADD (f4) / ADC (74)
            (0xf, 4, _) => {
                let x = self.x;
                self.tick_add(pins, t, x, false);
            },
            (7, 4, _) => {
                let x = self.x;
                self.tick_add(pins, t, x, true);
            },
            // ADI (fc) / ADCI (7c)
            (0xf | 7, 0xc, 4) => {
                let p = self.p;
                self.inc(p);
            },
            (0xf, 0xc, _) => {
                let p = self.p;
                self.tick_add(pins, t, p, false);
            },
            (7, 0xc, _) => {
                let p = self.p;
                self.tick_add(pins, t, p, true);
            },
            // SD (f5) / SDB (75)
            (0xf, 5, _) => {
                let x = self.x;
                self.tick_subd(pins, t, x, false);
            },
            (7, 5, _) => {
                let x = self.x;
                self.tick_subd(pins, t, x, true);
            },
            // SDI (fd) / SDBI (7d)
            (0xf | 7, 0xd, 4) => {
                let p = self.p;
                self.inc(p);
            },
            (0xf, 0xd, _) => {
                let p = self.p;
                self.tick_subd(pins, t, p, false);
            },
            (7, 0xd, _) => {
                let p = self.p;
                self.tick_subd(pins, t, p, true);
            },
            // SM (f7) / SMB (77)
            (0xf, 7, _) => {
                let x = self.x;
                self.tick_subm(pins, t, x, false);
            },
            (7, 7, _) => {
                let x = self.x;
                self.tick_subm(pins, t, x, true);
            },
            // SMI (ff) / SMBI (7f)
            (0xf | 7, 0xf, 4) => {
                let p = self.p;
                self.inc(p);
            },
            (0xf, 0xf, _) => {
                let p = self.p;
                self.tick_subm(pins, t, p, false);
            },
            (7, 0xf, _) => {
                let p = self.p;
                self.tick_subm(pins, t, p, true);
            },
            // NOP (c4)
            (0xc, 4, _) => (),
            // Bxx (3n) / LBxx (cn) / LSxx
            (3, n, _) => self.tick_bxx(pins, t, n),
            (0xc, n, _) => if n == 0 || n == 1 || n == 2 || n == 3 || n == 9 || n == 0xa || n
                == 0xb {
                self.tick_lbxx(pins, t, n)
            } else {
                self.tick_skip(t, n)
            },
            // SEP (dn) / SEX (en)
            (0xd, n, 3) => self.p = n,
            (0xe, n, 3) => self.x = n,
            (0xd | 0xe, _, _) => (),
            // REQ (7a) / SEQ (7b)
            (7, 0xa, 3) => self.out.set_q(false),
            (7, 0xb, 3) => self.out.set_q(true),
            (7, 0xa | 0xb, _) => (),
            // SAV (78) / MARK (79)
            (7, 8, _) => {
                let x = self.x;
                let tt = self.t;
                self.tick_store(t, x, tt);
            },
            (7, 9, _) => self.tick_mark(t),
            // RET (70) / DIS (71)
            (7, 0, _) => self.tick_ret(pins, t, true),
            (7, 1, _) => self.tick_ret(pins, t, false),
            // Resv (68)
            (6, 8, _) => (),
            // OUT (61..67) / INP (69..6f)
            (6, n, _) => if n <= 7 {
                self.tick_output(t, n)
            } else {
                self.tick_input(pins, t, n - 8)
            },
            // Out-of-range register values never arise on a well-formed CPU.
            _ => (),
        }
    }

    fn tick_dma_in(&mut self, tick: u8)
        requires
            old(self).wf(),
        ensures
            final(self)@ == old(self)@.dma_in_step(tick),
    {
        match tick {
            0 => {
                let v = self.ghi(0);
                self.out.set_ma(v);
            },
            2 => {
                let v = self.glo(0);
                self.out.set_ma(v);
            },
            4 => self.inc(0),
            5 => self.out.set_mwr(false),
            _ => (),
        }
    }

    fn tick_dma_out(&mut self, tick: u8)
        requires
            old(self).wf(),
        ensures
            final(self)@ == old(self)@.dma_out_step(tick),
    {
        match tick {
            0 | 2 => self.tick_mrd(tick, 0),
            4 => self.inc(0),
            _ => (),
        }
    }

    fn tick_interrupt(&mut self, tick: u8)
        ensures
            final(self)@ == old(self)@.interrupt_step(tick),
    {
        if tick == 0 {
            self.t = (self.x << 4) | (self.p & 0xf);
            self.x = 2;
            self.p = 1;
            self.ie = false;
        }
    }

    fn sample_dma_intr(&self, pins: Cdp1802Pins, ie: bool) -> (r: Option<State>)
        ensures
            r == self@.sample_dma_intr(pins, ie),
    {
        // The DMA and interrupt lines are sampled between the leading edge of
        // TPB and the leading edge of TPA: the last moment before the state
        // transition at the end of the machine cycle.
        if !pins.get_dma_in() {
            Some(State::DmaIn(0))
        } else if !pins.get_dma_out() {
            Some(State::DmaOut(0))
        } else if !pins.get_intr() && ie {
            Some(State::Interrupt(0))
        } else {
            None
        }
    }

    fn glo(&self, n: u8) -> (r: u8)
        requires
            self@.r.len() == 16,
            n < 16,
        ensures
            r == self@.glo(n),
    {
        (self.r[n as usize] & 0xff) as u8
    }

    fn ghi(&self, n: u8) -> (r: u8)
        requires
            self@.r.len() == 16,
            n < 16,
        ensures
            r == self@.ghi(n),
    {
        (self.r[n as usize] >> 8) as u8
    }

    fn plo(&mut self, n: u8, d: u8)
        requires
            old(self)@.r.len() == 16,
            n < 16,
        ensures
            final(self)@ == old(self)@.with_plo(n, d),
    {
        let v = self.r[n as usize];
        self.r[n as usize] = (v & 0xff00) | (d as u16);
    }

    fn phi(&mut self, n: u8, d: u8)
        requires
            old(self)@.r.len() == 16,
            n < 16,
        ensures
            final(self)@ == old(self)@.with_phi(n, d),
    {
        let v = self.r[n as usize];
        self.r[n as usize] = (v & 0x00ff) | ((d as u16) << 8);
    }

    fn dec(&mut self, n: u8)
        requires
            old(self)@.r.len() == 16,
            n < 16,
        ensures
            final(self)@ == old(self)@.with_dec(n),
    {
        let v = self.r[n as usize];
        self.r[n as usize] = if v == 0 {
            0xffff
        } else {
            v - 1
        };
    }

    fn inc(&mut self, n: u8)
        requires
            old(self)@.r.len() == 16,
            n < 16,
        ensures
            final(self)@ == old(self)@.with_inc(n),
    {
        let v = self.r[n as usize];
        self.r[n as usize] = if v == 0xffff {
            0
        } else {
            v + 1
        };
    }

    fn tick_mrd(&mut self, tick: u8, n: u8)
        requires
            old(self)@.r.len() == 16,
            n < 16,
            tick == 0 || tick == 2,
        ensures
            final(self)@ == old(self)@.mrd_step(tick, n),
    {
        if tick == 0 {
            let v = self.ghi(n);
            self.out.set_ma(v);
        } else {
            let v = self.glo(n);
            self.out.set_mrd(false);
            self.out.set_ma(v);
        }
    }

    fn tick_store(&mut self, tick: u8, n: u8, value: u8)
        requires
            old(self)@.r.len() == 16,
            n < 16,
        ensures
            final(self)@ == old(self)@.store_step(tick, n, value),
    {
        match tick {
            0 => {
                let v = self.ghi(n);
                self.out.set_ma(v);
            },
            2 => {
                let v = self.glo(n);
                self.out.set_ma(v);
            },
            3 => self.out.set_bus(value),
            5 => self.out.set_mwr(false),
            _ => (),
        }
    }

    fn tick_mark(&mut self, tick: u8)
        requires
            old(self)@.r.len() == 16,
            old(self)@.p < 16,
        ensures
            final(self)@ == old(self)@.mark_step(tick),
    {
        match tick {
            0 => {
                let v = self.ghi(2);
                self.out.set_ma(v);
            },
            2 => {
                let v = self.glo(2);
                self.out.set_ma(v);
            },
            3 => {
                self.t = (self.x << 4) | (self.p & 0xf);
                let tt = self.t;
                self.out.set_bus(tt);
                self.x = self.p;
                self.dec(2);
            },
            5 => self.out.set_mwr(false),
            _ => (),
        }
    }

    fn tick_ret(&mut self, pins: Cdp1802Pins, tick: u8, ie: bool)
        requires
            old(self)@.r.len() == 16,
            old(self)@.x < 16,
        ensures
            final(self)@ == old(self)@.ret_step(tick, ie, pins),
            final(self)@.x < 16 || final(self)@.x == old(self)@.x,
            final(self)@.p < 16 || final(self)@.p == old(self)@.p,
    {
        match tick {
            0 | 2 => {
                let x = self.x;
                self.tick_mrd(tick, x);
            },
            3 => {
                let m = pins.get_bus();
                proof {
                    lemma_nibbles(m);
                }
                self.x = m >> 4;
                self.p = m & 0xf;
                let x = self.x;
                self.inc(x);
                self.ie = ie;
            },
            _ => (),
        }
    }

    fn tick_add(&mut self, pins: Cdp1802Pins, tick: u8, n: u8, carry: bool)
        requires
            old(self)@.r.len() == 16,
            n < 16,
        ensures
            final(self)@ == old(self)@.add_step(tick, n, carry, pins),
    {
        match tick {
            0 | 2 => self.tick_mrd(tick, n),
            3 => {
                let m = pins.get_bus();
                if carry {
                    let (d, df) = math::addc(self.d, m, self.df);
                    self.d = d;
                    self.df = df;
                } else {
                    let (d, df) = math::add(self.d, m);
                    self.d = d;
                    self.df = df;
                }
            },
            _ => (),
        }
    }

    fn tick_subd(&mut self, pins: Cdp1802Pins, tick: u8, n: u8, borrow: bool)
        requires
            old(self)@.r.len() == 16,
            n < 16,
        ensures
            final(self)@ == old(self)@.subd_step(tick, n, borrow, pins),
    {
        match tick {
            0 | 2 => self.tick_mrd(tick, n),
            3 => {
                let m = pins.get_bus();
                if borrow {
                    let (d, df) = math::subc(m, self.d, !self.df);
                    self.d = d;
                    self.df = df;
                } else {
                    let (d, df) = math::sub(m, self.d);
                    self.d = d;
                    self.df = df;
                }
            },
            _ => (),
        }
    }

    fn tick_subm(&mut self, pins: Cdp1802Pins, tick: u8, n: u8, borrow: bool)
        requires
            old(self)@.r.len() == 16,
            n < 16,
        ensures
            final(self)@ == old(self)@.subm_step(tick, n, borrow, pins),
    {
        match tick {
            0 | 2 => self.tick_mrd(tick, n),
            3 => {
                let m = pins.get_bus();
                if borrow {
                    let (d, df) = math::subc(self.d, m, !self.df);
                    self.d = d;
                    self.df = df;
                } else {
                    let (d, df) = math::sub(self.d, m);
                    self.d = d;
                    self.df = df;
                }
            },
            _ => (),
        }
    }

    fn tick_bxx(&mut self, pins: Cdp1802Pins, tick: u8, n: u8)
        requires
            old(self)@.r.len() == 16,
            old(self)@.p < 16,
        ensures
            final(self)@ == old(self)@.bxx_step(tick, n, pins),
    {
        match tick {
            0 | 2 => {
                let p = self.p;
                self.tick_mrd(tick, p);
            },
            1 => self.ef = pins.get_ef(),
            3 => {
                if self.test(n) {
                    let m = pins.get_bus();
                    let p = self.p;
                    self.plo(p, m);
                } else {
                    let p = self.p;
                    self.inc(p);
                }
            },
            _ => (),
        }
    }

    fn tick_lbxx(&mut self, pins: Cdp1802Pins, tick: u8, n: u8)
        requires
            old(self)@.r.len() == 16,
            old(self)@.p < 16,
        ensures
            final(self)@ == old(self)@.lbxx_step(tick, n, pins),
    {
        match tick {
            0 | 2 => {
                let p = self.p;
                self.tick_mrd(tick, p);
            },
            1 => self.ef = pins.get_ef(),
            3 => {
                self.b = pins.get_bus();
                let p = self.p;
                self.inc(p);
            },
            8 | 10 => {
                let p = self.p;
                self.tick_mrd(if tick == 8 { 0 } else { 2 }, p);
            },
            11 => {
                if self.test(n) {
                    let m = pins.get_bus();
                    let p = self.p;
                    self.plo(p, m);
                    let b = self.b;
                    self.phi(p, b);
                } else {
                    let p = self.p;
                    self.inc(p);
                }
            },
            _ => (),
        }
    }

    fn tick_skip(&mut self, tick: u8, n: u8)
        requires
            old(self)@.r.len() == 16,
            old(self)@.p < 16,
        ensures
            final(self)@ == old(self)@.skip_step(tick, n),
    {
        if tick == 11 {
            let taken = if n == 8 {
                true
            } else if n == 0xc {
                self.ie
            } else {
                let cond = if n & 3 == 1 {
                    self.out.get_q()
                } else if n & 3 == 2 {
                    self.d == 0
                } else {
                    self.df
                };
                if (n & 8) > 0 {
                    cond
                } else {
                    !cond
                }
            };
            if taken {
                let p = self.p;
                self.inc(p);
                self.inc(p);
            }
        }
    }

    fn test(&self, n: u8) -> (r: bool)
        ensures
            r == self@.test(n),
    {
        let br = match n & 7 {
            0 => true,
            1 => self.out.get_q(),
            2 => self.d == 0,
            3 => self.df,
            4 => (self.ef & 1) == 0,
            5 => (self.ef & 2) == 0,
            6 => (self.ef & 4) == 0,
            _ => (self.ef & 8) == 0,
        };
        if (n & 8) > 0 {
            !br
        } else {
            br
        }
    }

    fn tick_output(&mut self, tick: u8, n: u8)
        requires
            old(self)@.r.len() == 16,
            old(self)@.x < 16,
            n <= 7,
        ensures
            final(self)@ == old(self)@.output_step(tick, n),
    {
        match tick {
            0 => {
                self.out.set_n(n);
                let x = self.x;
                let v = self.ghi(x);
                self.out.set_ma(v);
            },
            2 => {
                self.out.set_mrd(false);
                let x = self.x;
                let v = self.glo(x);
                self.out.set_ma(v);
            },
            3 => {
                let x = self.x;
                self.inc(x);
            },
            7 => self.out.set_n(0),
            _ => (),
        }
    }

    fn tick_input(&mut self, pins: Cdp1802Pins, tick: u8, n: u8)
        requires
            old(self)@.r.len() == 16,
            old(self)@.x < 16,
            n <= 7,
        ensures
            final(self)@ == old(self)@.input_step(tick, n, pins),
    {
        match tick {
            0 => {
                self.out.set_n(n);
                let x = self.x;
                let v = self.ghi(x);
                self.out.set_ma(v);
            },
            2 => {
                let x = self.x;
                let v = self.glo(x);
                self.out.set_ma(v);
            },
            5 => self.out.set_mwr(false),
            6 => self.d = pins.get_bus(),
            7 => self.out.set_n(0),
            _ => (),
        }
    }
}

} // verus!
