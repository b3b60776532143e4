//! The AY-5-1013 UART proper: 16×-oversampled bit-banged receive and
//! transmit state machines, a configuration register latched while CS is
//! high, and status-word output gated by SWE.

use vstd::prelude::*;

use super::pins::Ay51013Pins;

verus! {

/// Parity sense; `None` in a configuration means no parity bit at all.
#[derive(Debug, Clone, Copy, PartialEq, Eq, Structural)]
pub enum Parity {
    Even,
    Odd,
}

/// The latched line configuration.
#[derive(Debug, Clone, Copy, PartialEq, Eq, Structural)]
pub struct Ctrl {
    /// Data bits per character, 5 to 8.
    pub char_bits: u8,
    /// Parity configuration.
    pub parity: Option<Parity>,
    /// Stop bits per character, 1 or 2.
    pub stop_bits: u8,
}

impl Ctrl {
    pub open spec fn wf(self) -> bool {
        5 <= self.char_bits <= 8 && 1 <= self.stop_bits <= 2
    }

    /// Configuration pins are respected only while CS is high.
    pub open spec fn tick_spec(self, pins: Ay51013Pins) -> Ctrl {
        if pins.get_cs() {
            Ctrl {
                parity: if pins.get_np() {
                    None
                } else if pins.get_eps() {
                    Some(Parity::Even)
                } else {
                    Some(Parity::Odd)
                },
                char_bits: (pins.get_nb() + 5) as u8,
                stop_bits: if pins.get_tsb() {
                    2
                } else {
                    1
                },
            }
        } else {
            self
        }
    }

    fn tick(&mut self, pins: Ay51013Pins)
        ensures
            *final(self) == old(self).tick_spec(pins),
            final(self).wf() || *final(self) == *old(self),
    {
        if pins.get_cs() {
            self.parity = if pins.get_np() {
                None
            } else if pins.get_eps() {
                Some(Parity::Even)
            } else {
                Some(Parity::Odd)
            };
            self.char_bits = pins.get_nb() + 5;
            self.stop_bits = if pins.get_tsb() {
                2
            } else {
                1
            };
        }
    }
}

impl Default for Ctrl {
    /// Eight data bits, no parity, one stop bit.
    fn default() -> (r: Self)
        ensures
            r == (Ctrl { char_bits: 8u8, parity: Option::<Parity>::None, stop_bits: 1u8 }),
    {
        Ctrl { char_bits: 8, parity: None, stop_bits: 1 }
    }
}

/// Receiver micro-states.
#[derive(Debug, Clone, Copy, PartialEq, Eq, Structural)]
pub enum RxState {
    Idle,
    WaitSi,
    Start,
    Data(u8),
    Parity,
    Stop,
    Dav,
}

/// The receiver: over-samples the line at 16 ticks per bit.
#[derive(Debug, Clone, Copy, PartialEq, Eq, Structural)]
pub struct Rx {
    pub state: RxState,
    pub tick: u64,
    pub shift: u8,
    pub parity: bool,
    /// Holding register, gated onto RD1..RD8 while RDE is low.
    pub buffer: u8,
    pub dav: bool,
    pub pe: bool,
    pub fe: bool,
    pub or: bool,
}

impl Default for Rx {
    fn default() -> (r: Self)
        ensures
            r == Rx::init(),
    {
        Rx {
            state: RxState::Idle,
            tick: 0,
            shift: 0,
            parity: false,
            buffer: 0,
            dav: false,
            pe: false,
            fe: false,
            or: false,
        }
    }
}

impl Rx {
    pub open spec fn init() -> Rx {
        Rx {
            state: RxState::Idle,
            tick: 0,
            shift: 0,
            parity: false,
            buffer: 0,
            dav: false,
            pe: false,
            fe: false,
            or: false,
        }
    }

    pub open spec fn wf(self) -> bool {
        match self.state {
            RxState::Data(bit) => bit < 8,
            _ => true,
        }
    }

    /// An external reset clears the error latches and the shift register.
    pub open spec fn reset_spec(self) -> Rx {
        Rx { dav: false, pe: false, fe: false, or: false, shift: 0, ..self }
    }

    fn reset(&mut self)
        ensures
            *final(self) == old(self).reset_spec(),
    {
        self.dav = false;
        self.pe = false;
        self.fe = false;
        self.or = false;
        self.shift = 0;
    }

    /// The receiver state machine advanced by one tick: wait for a start
    /// edge, validate it half a bit later, sample each data bit at its 16th
    /// tick, then the parity and stop bits, and finally commit the byte.
    pub open spec fn step_spec(self, ctrl: Ctrl, si: bool) -> Rx {
        let c = self;
        match c.state {
            RxState::Idle => if si {
                Rx { state: RxState::WaitSi, tick: 0, ..c }
            } else {
                c.bump()
            },
            RxState::WaitSi => if !si {
                Rx { state: RxState::Start, tick: 0, ..c }
            } else {
                c.bump()
            },
            RxState::Start => if c.tick == 7 {
                if si {
                    Rx { state: RxState::WaitSi, tick: 0, ..c }
                } else {
                    Rx {
                        shift: 0,
                        parity: ctrl.parity == Some(Parity::Even),
                        state: RxState::Data(0u8),
                        tick: 0,
                        ..c
                    }
                }
            } else {
                c.bump()
            },
            RxState::Data(bit) => if c.tick == 15 {
                let shift = if si {
                    c.shift | (1u8 << bit)
                } else {
                    c.shift
                };
                let parity = c.parity != si;
                let state = if bit + 1 < ctrl.char_bits {
                    RxState::Data((bit + 1) as u8)
                } else if ctrl.parity is Some {
                    RxState::Parity
                } else {
                    RxState::Stop
                };
                Rx { shift, parity, state, tick: 0, ..c }
            } else {
                c.bump()
            },
            RxState::Parity => if c.tick == 15 {
                Rx { pe: si != c.parity, state: RxState::Stop, tick: 0, ..c }
            } else {
                c.bump()
            },
            RxState::Stop => if c.tick == 15 {
                Rx { fe: !si, or: c.dav, dav: false, state: RxState::Dav, tick: 0, ..c }
            } else {
                c.bump()
            },
            RxState::Dav => if c.tick == 0 {
                Rx {
                    buffer: c.shift,
                    dav: true,
                    state: if si {
                        RxState::WaitSi
                    } else {
                        RxState::Idle
                    },
                    tick: 0,
                    ..c
                }
            } else {
                c.bump()
            },
        }
    }

    /// No transition fired: the tick counter advances, wrapping.
    pub open spec fn bump(self) -> Rx {
        Rx { tick: if self.tick == 0xffff_ffff_ffff_ffffu64 {
            0
        } else {
            (self.tick + 1) as u64
        }, ..self }
    }

    /// The whole receive tick: the state machine, the RDAV strobe clearing
    /// DAV, and the status and data outputs (blanked while SWE or RDE are
    /// inactive-high).
    pub open spec fn tick_spec(self, ctrl: Ctrl, pins: Ay51013Pins) -> (Rx, Ay51013Pins) {
        let c1 = self.step_spec(ctrl, pins.get_si());
        let c2 = if !pins.get_rdav() {
            Rx { dav: false, ..c1 }
        } else {
            c1
        };
        let p1 = if pins.get_swe() {
            pins.spec_set_dav(false).spec_set_pe(false).spec_set_fe(false).spec_set_or(false)
        } else {
            pins.spec_set_dav(c2.dav).spec_set_pe(c2.pe).spec_set_fe(c2.fe).spec_set_or(c2.or)
        };
        let p2 = p1.spec_set_rd(
            if p1.get_rde() {
                0
            } else {
                c2.buffer
            },
        );
        (c2, p2)
    }

    #[verifier::rlimit(100)]
    fn tick(&mut self, ctrl: Ctrl, pins: &mut Ay51013Pins)
        requires
            old(self).wf(),
            ctrl.wf(),
        ensures
            (*final(self), *final(pins)) == old(self).tick_spec(ctrl, *old(pins)),
            final(self).wf(),
    {
        let si = pins.get_si();
        match self.state {
            RxState::Idle => if si {
                self.state = RxState::WaitSi;
                self.tick = 0;
            } else {
                self.bump_tick();
            },
            RxState::WaitSi => if !si {
                self.state = RxState::Start;
                self.tick = 0;
            } else {
                self.bump_tick();
            },
            RxState::Start => if self.tick == 7 {
                if si {
                    self.state = RxState::WaitSi;
                    self.tick = 0;
                } else {
                    self.shift = 0;
                    self.parity = matches!(ctrl.parity, Some(Parity::Even));
                    self.state = RxState::Data(0);
                    self.tick = 0;
                }
            } else {
                self.bump_tick();
            },
            RxState::Data(bit) => if self.tick == 15 {
                if si {
                    self.shift = self.shift | (1u8 << bit);
                }
                self.parity = self.parity != si;
                let state = if bit + 1 < ctrl.char_bits {
                    RxState::Data(bit + 1)
                } else if matches!(ctrl.parity, Some(_)) {
                    RxState::Parity
                } else {
                    RxState::Stop
                };
                self.state = state;
                self.tick = 0;
            } else {
                self.bump_tick();
            },
            RxState::Parity => if self.tick == 15 {
                self.pe = si != self.parity;
                self.state = RxState::Stop;
                self.tick = 0;
            } else {
                self.bump_tick();
            },
            RxState::Stop => if self.tick == 15 {
                self.fe = !si;
                self.or = self.dav;
                self.dav = false;
                self.state = RxState::Dav;
                self.tick = 0;
            } else {
                self.bump_tick();
            },
            RxState::Dav => if self.tick == 0 {
                self.buffer = self.shift;
                self.dav = true;
                self.state = if si {
                    RxState::WaitSi
                } else {
                    RxState::Idle
                };
                self.tick = 0;
            } else {
                self.bump_tick();
            },
        }
        // Reset DAV on the RDAV strobe.
        if !pins.get_rdav() {
            self.dav = false;
        }
        // Status word output.
        if pins.get_swe() {
            pins.set_dav(false);
            pins.set_pe(false);
            pins.set_fe(false);
            pins.set_or(false);
        } else {
            pins.set_dav(self.dav);
            pins.set_pe(self.pe);
            pins.set_fe(self.fe);
            pins.set_or(self.or);
        }
        // Data output.
        let rd = if pins.get_rde() {
            0
        } else {
            self.buffer
        };
        pins.set_rd(rd);
    }

    fn bump_tick(&mut self)
        ensures
            *final(self) == old(self).bump(),
    {
        self.tick = if self.tick == 0xffff_ffff_ffff_ffffu64 {
            0
        } else {
            self.tick + 1
        };
    }
}

/// Transmitter micro-states.
#[derive(Debug, Clone, Copy, PartialEq, Eq, Structural)]
pub enum TxState {
    Idle,
    Start,
    Data(u8),
    Parity,
    Stop,
    Eoc,
}

/// The transmitter: latches bytes on the DS rising edge and shifts them out
/// LSB-first at 16 ticks per bit.
#[derive(Debug, Clone, Copy, PartialEq, Eq, Structural)]
pub struct Tx {
    pub state: TxState,
    pub tick: u8,
    pub buffer: u8,
    pub shift: u8,
    pub parity: bool,
    pub prev_ds: bool,
    pub tbmt: bool,
    pub eoc: bool,
    pub so: bool,
}

impl Default for Tx {
    fn default() -> (r: Self)
        ensures
            r == Tx::init(),
    {
        Tx {
            state: TxState::Idle,
            tick: 0,
            buffer: 0,
            shift: 0,
            parity: false,
            prev_ds: true,
            tbmt: true,
            eoc: true,
            so: true,
        }
    }
}

impl Tx {
    pub open spec fn wf(self) -> bool {
        match self.state {
            TxState::Data(bit) => bit < 8,
            _ => true,
        }
    }

    pub open spec fn init() -> Tx {
        Tx {
            state: TxState::Idle,
            tick: 0,
            buffer: 0,
            shift: 0,
            parity: false,
            prev_ds: true,
            tbmt: true,
            eoc: true,
            so: true,
        }
    }

    /// Load the shift register and emit the start bit.
    pub open spec fn start_spec(self, ctrl: Ctrl) -> Tx {
        Tx {
            parity: ctrl.parity == Some(Parity::Even),
            shift: self.buffer,
            so: false,
            ..self
        }
    }

    /// The transmitter state machine advanced by one tick, after the DS
    /// edge latch has been applied.
    pub open spec fn step_spec(self, ctrl: Ctrl) -> Tx {
        let c = self;
        match c.state {
            TxState::Idle => if !c.tbmt {
                Tx { state: TxState::Start, tick: 1, ..c.start_spec(ctrl) }
            } else {
                c.bump()
            },
            TxState::Start => if c.tick == 1 {
                // EOC falls after the first start-bit cycle.
                Tx { eoc: false, state: TxState::Start, tick: 2, ..c }
            } else if c.tick == 5 {
                // TBMT rises again within 6 cycles: the buffer is free.
                Tx { tbmt: true, state: TxState::Start, tick: 6, ..c }
            } else if c.tick == 15 {
                Tx { state: TxState::Data(0u8), tick: 0, ..c }
            } else {
                c.bump()
            },
            TxState::Data(bit) => if c.tick == 0 {
                let val = c.shift & 0x1 == 1;
                Tx {
                    so: val,
                    parity: c.parity != val,
                    shift: c.shift >> 1,
                    state: TxState::Data(bit),
                    tick: 1,
                    ..c
                }
            } else if c.tick == 15 {
                let state = if bit + 1 < ctrl.char_bits {
                    TxState::Data((bit + 1) as u8)
                } else if ctrl.parity is Some {
                    TxState::Parity
                } else {
                    TxState::Stop
                };
                Tx { state, tick: 0, ..c }
            } else {
                c.bump()
            },
            TxState::Parity => if c.tick == 0 {
                Tx { so: c.parity, state: TxState::Parity, tick: 1, ..c }
            } else if c.tick == 15 {
                Tx { state: TxState::Stop, tick: 0, ..c }
            } else {
                c.bump()
            },
            TxState::Stop => if c.tick == 0 {
                Tx { so: true, state: TxState::Stop, tick: 1, ..c }
            } else if c.tick == ctrl.stop_bits * 16 - 1 {
                Tx { state: TxState::Eoc, tick: 0, ..c }
            } else {
                c.bump()
            },
            TxState::Eoc => if c.tick == 0 {
                let c2 = Tx { eoc: true, ..c };
                if !c2.tbmt {
                    Tx { state: TxState::Start, tick: 1, ..c2.start_spec(ctrl) }
                } else {
                    Tx { state: TxState::Idle, tick: 0, ..c2 }
                }
            } else {
                c.bump()
            },
        }
    }

    /// No transition fired: the tick counter advances, wrapping.
    pub open spec fn bump(self) -> Tx {
        Tx { tick: if self.tick == 255 {
            0
        } else {
            (self.tick + 1) as u8
        }, ..self }
    }

    /// The DS rising-edge latch applied before the state machine runs.
    pub open spec fn latch_spec(self, pins: Ay51013Pins) -> Tx {
        let ds = pins.get_ds();
        let c = if !self.prev_ds && ds {
            Tx { buffer: pins.get_db(), tbmt: false, ..self }
        } else {
            self
        };
        Tx { prev_ds: ds, ..c }
    }

    /// The whole transmit tick: the DS latch, the state machine, then the
    /// TBMT (blanked while SWE is inactive-high), EOC and SO outputs.
    pub open spec fn tick_spec(self, ctrl: Ctrl, pins: Ay51013Pins) -> (Tx, Ay51013Pins) {
        let c1 = self.latch_spec(pins).step_spec(ctrl);
        let p1 = pins.spec_set_tbmt(
            if pins.get_swe() {
                false
            } else {
                c1.tbmt
            },
        ).spec_set_eoc(c1.eoc).spec_set_so(c1.so);
        (c1, p1)
    }

    fn tick(&mut self, ctrl: Ctrl, pins: &mut Ay51013Pins)
        requires
            old(self).wf(),
            ctrl.wf(),
        ensures
            (*final(self), *final(pins)) == old(self).tick_spec(ctrl, *old(pins)),
            final(self).wf(),
    {
        // Latch data on the DS rising edge, whatever the state.
        let ds = pins.get_ds();
        if !self.prev_ds && ds {
            self.buffer = pins.get_db();
            self.tbmt = false;
        }
        self.prev_ds = ds;
        match self.state {
            TxState::Idle => if !self.tbmt {
                self.start(ctrl);
                self.state = TxState::Start;
                self.tick = 1;
            } else {
                self.bump_tick();
            },
            TxState::Start => if self.tick == 1 {
                self.eoc = false;
                self.state = TxState::Start;
                self.tick = 2;
            } else if self.tick == 5 {
                self.tbmt = true;
                self.state = TxState::Start;
                self.tick = 6;
            } else if self.tick == 15 {
                self.state = TxState::Data(0);
                self.tick = 0;
            } else {
                self.bump_tick();
            },
            TxState::Data(bit) => if self.tick == 0 {
                let val = self.shift & 0x1 == 1;
                self.so = val;
                self.parity = self.parity != val;
                self.shift = self.shift >> 1;
                self.state = TxState::Data(bit);
                self.tick = 1;
            } else if self.tick == 15 {
                let state = if bit + 1 < ctrl.char_bits {
                    TxState::Data(bit + 1)
                } else if matches!(ctrl.parity, Some(_)) {
                    TxState::Parity
                } else {
                    TxState::Stop
                };
                self.state = state;
                self.tick = 0;
            } else {
                self.bump_tick();
            },
            TxState::Parity => if self.tick == 0 {
                self.so = self.parity;
                self.state = TxState::Parity;
                self.tick = 1;
            } else if self.tick == 15 {
                self.state = TxState::Stop;
                self.tick = 0;
            } else {
                self.bump_tick();
            },
            TxState::Stop => if self.tick == 0 {
                self.so = true;
                self.state = TxState::Stop;
                self.tick = 1;
            } else if self.tick == ctrl.stop_bits * 16 - 1 {
                self.state = TxState::Eoc;
                self.tick = 0;
            } else {
                self.bump_tick();
            },
            TxState::Eoc => if self.tick == 0 {
                self.eoc = true;
                if !self.tbmt {
                    self.start(ctrl);
                    self.state = TxState::Start;
                    self.tick = 1;
                } else {
                    self.state = TxState::Idle;
                    self.tick = 0;
                }
            } else {
                self.bump_tick();
            },
        }
        let tbmt = if pins.get_swe() {
            false
        } else {
            self.tbmt
        };
        pins.set_tbmt(tbmt);
        pins.set_eoc(self.eoc);
        pins.set_so(self.so);
    }

    fn start(&mut self, ctrl: Ctrl)
        ensures
            *final(self) == old(self).start_spec(ctrl),
    {
        self.parity = matches!(ctrl.parity, Some(Parity::Even));
        self.shift = self.buffer;
        self.so = false;
    }

    fn bump_tick(&mut self)
        ensures
            *final(self) == old(self).bump(),
    {
        self.tick = if self.tick == 255 {
            0
        } else {
            self.tick + 1
        };
    }
}

/// The AY-5-1013 UART: configuration, transmitter, receiver and a cycle
/// counter.
#[derive(Debug, Clone, Copy, PartialEq, Eq, Structural)]
pub struct Ay51013 {
    pub ctrl: Ctrl,
    pub tx: Tx,
    pub rx: Rx,
    pub cycle: u64,
}

impl Default for Ay51013 {
    fn default() -> (r: Self)
        ensures
            r == (Ay51013 {
                ctrl: Ctrl { char_bits: 8u8, parity: Option::<Parity>::None, stop_bits: 1u8 },
                tx: Tx::init(),
                rx: Rx::init(),
                cycle: 0u64,
            }),
            r.wf(),
    {
        Ay51013 { ctrl: Ctrl::default(), tx: Tx::default(), rx: Rx::default(), cycle: 0 }
    }
}

impl Ay51013 {
    pub open spec fn wf(self) -> bool {
        self.ctrl.wf() && self.rx.wf() && self.tx.wf()
    }

    /// One UART tick: a high XR resets both machines; the configuration is
    /// latched while CS is high; then the receiver and the transmitter run.
    pub open spec fn tick_spec(self, pins: Ay51013Pins) -> (Ay51013, Ay51013Pins) {
        let c0 = if pins.get_xr() {
            Ay51013 { rx: self.rx.reset_spec(), tx: Tx::init(), ..self }
        } else {
            self
        };
        let ctrl = c0.ctrl.tick_spec(pins);
        let (rx, p1) = c0.rx.tick_spec(ctrl, pins);
        let (tx, p2) = c0.tx.tick_spec(ctrl, p1);
        let cycle: u64 = if c0.cycle == 0xffff_ffff_ffff_ffffu64 {
            0
        } else {
            (c0.cycle + 1) as u64
        };
        (Ay51013 { ctrl, rx, tx, cycle }, p2)
    }

    pub fn tick(&mut self, pins: &mut Ay51013Pins)
        requires
            old(self).wf(),
        ensures
            (*final(self), *final(pins)) == old(self).tick_spec(*old(pins)),
            final(self).wf(),
    {
        if pins.get_xr() {
            self.rx.reset();
            self.tx = Tx::default();
        }
        self.ctrl.tick(*pins);
        self.rx.tick(self.ctrl, pins);
        self.tx.tick(self.ctrl, pins);
        self.cycle = if self.cycle == 0xffff_ffff_ffff_ffffu64 {
            0
        } else {
            self.cycle + 1
        };
    }

    /// Configure the device and reset it. On return CS is low, DS, RDAV
    /// high, RDE, SWE, XR low, and the mode pins carry the configuration.
    pub fn configure(
        &mut self,
        pins: &mut Ay51013Pins,
        char_bits: u8,
        parity: Option<Parity>,
        stop_bits: u8,
    )
        requires
            old(self).wf(),
            5 <= char_bits <= 8,
            1 <= stop_bits <= 2,
        ensures
            final(self).wf(),
            final(self).ctrl == (Ctrl { char_bits, parity, stop_bits }),
            ({
                let p0 = spec_configured_pins(*old(pins), char_bits, parity, stop_bits);
                let (c1, p1) = old(self).tick_spec(p0);
                *final(self) == c1 && *final(pins) == p1.spec_set_xr(false).spec_set_cs(false)
            }),
    {
        pins.set_nb(char_bits - 5);
        let even = matches!(parity, Some(Parity::Even));
        pins.set_eps(even);
        pins.set_np(matches!(parity, None));
        pins.set_tsb(stop_bits == 2);
        pins.set_cs(true);
        self.reset(pins);
        pins.set_cs(false);
        proof {
            lemma_cfg_pins(*old(pins), char_bits, parity, stop_bits);
        }
    }

    /// Reset the device without touching its configuration: pulse XR high
    /// for one tick. On return DS and RDAV are high, RDE, SWE and XR low.
    pub fn reset(&mut self, pins: &mut Ay51013Pins)
        requires
            old(self).wf(),
        ensures
            final(self).wf(),
            ({
                let p0 = old(pins).spec_set_ds(true).spec_set_rde(false).spec_set_swe(
                    false,
                ).spec_set_rdav(true).spec_set_xr(true);
                let (c1, p1) = old(self).tick_spec(p0);
                *final(self) == c1 && *final(pins) == p1.spec_set_xr(false)
            }),
    {
        pins.set_ds(true);
        pins.set_rde(false);
        pins.set_swe(false);
        pins.set_rdav(true);
        pins.set_xr(true);
        self.tick(pins);
        pins.set_xr(false);
    }

    /// Whether the transmitter is idle.
    pub fn is_tx_idle(&self) -> (r: bool)
        ensures
            r == (self.tx.state == TxState::Idle),
    {
        matches!(self.tx.state, TxState::Idle)
    }
}

/// The pins as [`Ay51013::configure`] drives them before the reset pulse.
pub open spec fn spec_configured_pins(
    pins: Ay51013Pins,
    char_bits: u8,
    parity: Option<Parity>,
    stop_bits: u8,
) -> Ay51013Pins {
    pins.spec_set_nb((char_bits - 5) as u8).spec_set_eps(parity == Some(Parity::Even)).spec_set_np(
        parity is None,
    ).spec_set_tsb(stop_bits == 2).spec_set_cs(true).spec_set_ds(true).spec_set_rde(
        false,
    ).spec_set_swe(false).spec_set_rdav(true).spec_set_xr(true)
}

/// The configuration pins written by `configure` read back as written: each
/// field sits in its own slice of the bundle.
proof fn lemma_cfg_bits(w0: u64, nb: u64, eps: bool, np: bool, tsb: bool)
    by (bit_vector)
    requires
        nb <= 3,
    ensures
        ({
            let w = crate::bits::spec_set_1(
                crate::bits::spec_set_1(
                    crate::bits::spec_set_1(
                        crate::bits::spec_set_1(
                            crate::bits::spec_set_1(
                                crate::bits::spec_set_1(
                                    crate::bits::spec_set_1(
                                        crate::bits::spec_set_1(
                                            crate::bits::spec_set_1(
                                                crate::bits::spec_set(w0, 27, 0x3, nb),
                                                25,
                                                eps,
                                            ),
                                            26,
                                            np,
                                        ),
                                        24,
                                        tsb,
                                    ),
                                    29,
                                    true,
                                ),
                                30,
                                true,
                            ),
                            31,
                            false,
                        ),
                        32,
                        false,
                    ),
                    33,
                    true,
                ),
                34,
                true,
            );
            crate::bits::spec_get_1(w, 29) && crate::bits::spec_get(w, 27, 0x3) == nb
                && crate::bits::spec_get_1(w, 25) == eps && crate::bits::spec_get_1(w, 26) == np
                && crate::bits::spec_get_1(w, 24) == tsb && crate::bits::spec_get_1(w, 30)
                && !crate::bits::spec_get_1(w, 31) && !crate::bits::spec_get_1(w, 32)
                && crate::bits::spec_get_1(w, 33) && crate::bits::spec_get_1(w, 34)
        }),
{
}

/// Reading back [`spec_configured_pins`]: CS is high and the mode pins
/// carry the configuration, so the reset tick latches exactly it.
proof fn lemma_cfg_pins(pins: Ay51013Pins, char_bits: u8, parity: Option<Parity>, stop_bits: u8)
    requires
        5 <= char_bits <= 8,
        1 <= stop_bits <= 2,
    ensures
        ({
            let p = spec_configured_pins(pins, char_bits, parity, stop_bits);
            p.get_cs() && p.get_nb() == char_bits - 5 && p.get_eps() == (parity == Some(
                Parity::Even,
            )) && p.get_np() == (parity is None) && p.get_tsb() == (stop_bits == 2) && p.get_ds()
                && !p.get_rde() && !p.get_swe() && p.get_rdav() && p.get_xr()
        }),
{
    lemma_cfg_bits(
        pins.0,
        (char_bits - 5) as u64,
        parity == Some(Parity::Even),
        parity is None,
        stop_bits == 2,
    );
}

} // verus!
