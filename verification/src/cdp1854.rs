//! RCA CDP1854 UART emulation: a bus-addressable UART with control and
//! status registers, interrupt gating, per-phase clock inputs and optional
//! paravirt byte channels that short-circuit the serial line.

use vstd::prelude::*;

use crate::bits;

verus! {

/// The CDP1854's pins within the packed 64-bit bundle, in bit order.
#[derive(Debug, Clone, Copy, PartialEq, Eq, Structural)]
pub enum Pins {
    // Data bus (transmitter side)
    TBus0,
    TBus1,
    TBus2,
    TBus3,
    TBus4,
    TBus5,
    TBus6,
    TBus7,
    // Data bus (receiver side)
    RBus0,
    RBus1,
    RBus2,
    RBus3,
    RBus4,
    RBus5,
    RBus6,
    RBus7,
    // Chip select: high, low, high to select
    Cs1,
    Cs2,
    Cs3,
    // Control
    Clear,
    RdWr,
    Rsel,
    Tpb,
    // Serial data
    Sdi,
    Sdo,
    // Status signals
    Thre,
    Da,
    Fe,
    PeOe,
    Int,
    // Flow control
    Rts,
    Cts,
    Psi,
    Es,
    // Mode select (only mode 1 is supported)
    Mode,
}

impl Pins {
    pub open spec fn spec_offset(self) -> u8 {
        match self {
            Pins::TBus0 => 0,
            Pins::TBus1 => 1,
            Pins::TBus2 => 2,
            Pins::TBus3 => 3,
            Pins::TBus4 => 4,
            Pins::TBus5 => 5,
            Pins::TBus6 => 6,
            Pins::TBus7 => 7,
            Pins::RBus0 => 8,
            Pins::RBus1 => 9,
            Pins::RBus2 => 10,
            Pins::RBus3 => 11,
            Pins::RBus4 => 12,
            Pins::RBus5 => 13,
            Pins::RBus6 => 14,
            Pins::RBus7 => 15,
            Pins::Cs1 => 16,
            Pins::Cs2 => 17,
            Pins::Cs3 => 18,
            Pins::Clear => 19,
            Pins::RdWr => 20,
            Pins::Rsel => 21,
            Pins::Tpb => 22,
            Pins::Sdi => 23,
            Pins::Sdo => 24,
            Pins::Thre => 25,
            Pins::Da => 26,
            Pins::Fe => 27,
            Pins::PeOe => 28,
            Pins::Int => 29,
            Pins::Rts => 30,
            Pins::Cts => 31,
            Pins::Psi => 32,
            Pins::Es => 33,
            Pins::Mode => 34,
        }
    }

    /// The bit position of this pin within the packed word.
    #[verifier::when_used_as_spec(spec_offset)]
    pub fn offset(self) -> (r: u8)
        ensures
            r == self.spec_offset(),
            r < 35,
    {
        match self {
            Pins::TBus0 => 0,
            Pins::TBus1 => 1,
            Pins::TBus2 => 2,
            Pins::TBus3 => 3,
            Pins::TBus4 => 4,
            Pins::TBus5 => 5,
            Pins::TBus6 => 6,
            Pins::TBus7 => 7,
            Pins::RBus0 => 8,
            Pins::RBus1 => 9,
            Pins::RBus2 => 10,
            Pins::RBus3 => 11,
            Pins::RBus4 => 12,
            Pins::RBus5 => 13,
            Pins::RBus6 => 14,
            Pins::RBus7 => 15,
            Pins::Cs1 => 16,
            Pins::Cs2 => 17,
            Pins::Cs3 => 18,
            Pins::Clear => 19,
            Pins::RdWr => 20,
            Pins::Rsel => 21,
            Pins::Tpb => 22,
            Pins::Sdi => 23,
            Pins::Sdo => 24,
            Pins::Thre => 25,
            Pins::Da => 26,
            Pins::Fe => 27,
            Pins::PeOe => 28,
            Pins::Int => 29,
            Pins::Rts => 30,
            Pins::Cts => 31,
            Pins::Psi => 32,
            Pins::Es => 33,
            Pins::Mode => 34,
        }
    }

    /// The mask of every pin in the bundle.
    pub fn mask_all() -> (r: u64)
        ensures
            r == 0x7_ffff_ffffu64,
    {
        0x7_ffff_ffff
    }

    pub open spec fn spec_get(self, pins: u64) -> bool {
        bits::spec_get_1(pins, self.spec_offset() as u64)
    }

    /// Read this pin.
    #[verifier::when_used_as_spec(spec_get)]
    pub fn get(self, pins: u64) -> (r: bool)
        ensures
            r == self.spec_get(pins),
    {
        bits::get_1(pins, self.offset())
    }

    /// Read the three chip-select pins, CS1 in the least significant bit.
    pub open spec fn spec_get3(self, pins: u64) -> u8 {
        bits::spec_get(pins, self.spec_offset() as u64, 0x7) as u8
    }

    #[verifier::when_used_as_spec(spec_get3)]
    pub fn get3(self, pins: u64) -> (r: u8)
        requires
            self == Pins::Cs1,
        ensures
            r == self.spec_get3(pins),
            r <= 7,
    {
        bits::get_3(pins, self.offset())
    }

    /// Read one half of the data bus.
    pub open spec fn spec_get8(self, pins: u64) -> u8 {
        bits::spec_get(pins, self.spec_offset() as u64, 0xff) as u8
    }

    #[verifier::when_used_as_spec(spec_get8)]
    pub fn get8(self, pins: u64) -> (r: u8)
        requires
            self == Pins::TBus0 || self == Pins::RBus0,
        ensures
            r == self.spec_get8(pins),
    {
        bits::get_8(pins, self.offset())
    }

    pub open spec fn spec_set(self, pins: u64, val: bool) -> u64 {
        bits::spec_set_1(pins, self.spec_offset() as u64, val)
    }

    /// Drive this pin.
    pub fn set(self, pins: &mut u64, val: bool)
        ensures
            *final(pins) == self.spec_set(*old(pins), val),
    {
        *pins = bits::set_1(*pins, self.offset(), val);
    }

    pub open spec fn spec_set8(self, pins: u64, val: u8) -> u64 {
        bits::spec_set(pins, self.spec_offset() as u64, 0xff, val as u64)
    }

    /// Drive one half of the data bus.
    pub fn set8(self, pins: &mut u64, val: u8)
        requires
            self == Pins::TBus0 || self == Pins::RBus0,
        ensures
            *final(pins) == self.spec_set8(*old(pins), val),
    {
        *pins = bits::set_8(*pins, self.offset(), val);
    }

    pub open spec fn spec_set3(self, pins: u64, val: u8) -> u64 {
        bits::spec_set(pins, self.spec_offset() as u64, 0x7, val as u64)
    }

    /// Drive the three chip-select pins at once.
    pub fn set3(self, pins: &mut u64, val: u8)
        requires
            self == Pins::Cs1,
            val <= 7,
        ensures
            *final(pins) == self.spec_set3(*old(pins), val),
    {
        *pins = bits::set_3(*pins, self.offset(), val);
    }
}

/// Parity sense; `None` in a control value inhibits the parity bit.
#[derive(Debug, Clone, Copy, PartialEq, Eq, Structural)]
pub enum Parity {
    Even,
    Odd,
}

/// The control register.
///
/// Bit layout: 0 PI (parity inhibit), 1 EPE (even parity enable), 2 BSS
/// (stop-bit select), 3..=4 WLS (word length), 5 IE, 6 TBRK (transmit
/// break), 7 TR (transmit request).
#[derive(Debug, Clone, Copy, PartialEq, Eq, Structural)]
pub struct Control {
    /// Word length in bits, 5 to 8.
    pub word_length: u8,
    /// Parity configuration.
    pub parity: Option<Parity>,
    /// Stop bits, 1 or 2; with 5 data bits a value of 2 means 1.5.
    pub stop_bits: u8,
    /// Interrupt enable.
    pub ie: bool,
    /// Transmit break: holds SDO low, sticky until CLEAR, CTS or a word.
    pub tx_break: bool,
    /// Transmit request: while set, bus control loads change TR alone.
    pub tr: bool,
}

impl Default for Control {
    /// Eight data bits, no parity, one stop bit, everything else off.
    fn default() -> (r: Self)
        ensures
            r == Control::init(),
    {
        Control {
            word_length: 8,
            parity: None,
            stop_bits: 1,
            ie: false,
            tx_break: false,
            tr: false,
        }
    }
}

impl Control {
    pub open spec fn init() -> Control {
        Control {
            word_length: 8u8,
            parity: Option::<Parity>::None,
            stop_bits: 1u8,
            ie: false,
            tx_break: false,
            tr: false,
        }
    }

    /// The constructible control values.
    pub open spec fn wf(self) -> bool {
        5 <= self.word_length <= 8 && 1 <= self.stop_bits <= 2
    }

    pub fn new(word_length: u8, parity: Option<Parity>, stop_bits: u8) -> (r: Self)
        ensures
            r == (Control { word_length, parity, stop_bits, ..Control::init() }),
    {
        Control { word_length, parity, stop_bits, ie: false, tx_break: false, tr: false }
    }

    pub fn with_ie(self, ie: bool) -> (r: Self)
        ensures
            r == (Control { ie, ..self }),
    {
        Control { ie, ..self }
    }

    pub fn with_tx_break(self, tx_break: bool) -> (r: Self)
        ensures
            r == (Control { tx_break, ..self }),
    {
        Control { tx_break, ..self }
    }

    pub fn with_tr(self, tr: bool) -> (r: Self)
        ensures
            r == (Control { tr, ..self }),
    {
        Control { tr, ..self }
    }

    pub fn set_ie(&mut self, ie: bool)
        ensures
            *final(self) == (Control { ie, ..*old(self) }),
    {
        self.ie = ie;
    }

    pub fn set_tx_break(&mut self, tx_break: bool)
        ensures
            *final(self) == (Control { tx_break, ..*old(self) }),
    {
        self.tx_break = tx_break;
    }

    pub fn set_tr(&mut self, tr: bool)
        ensures
            *final(self) == (Control { tr, ..*old(self) }),
    {
        self.tr = tr;
    }

    /// The mask selecting a word of the configured length.
    pub open spec fn spec_word_mask(self) -> u8 {
        if self.word_length == 5 {
            0x1f
        } else if self.word_length == 6 {
            0x3f
        } else if self.word_length == 7 {
            0x7f
        } else {
            0xff
        }
    }

    pub fn word_mask(&self) -> (r: u8)
        ensures
            r == self.spec_word_mask(),
    {
        if self.word_length == 5 {
            0x1f
        } else if self.word_length == 6 {
            0x3f
        } else if self.word_length == 7 {
            0x7f
        } else {
            0xff
        }
    }

    /// Ticks from start-bit detection to data-available, half-way through
    /// the first stop bit: eight ticks of start-bit settling, one full bit
    /// period, one tick per data bit, a parity period when parity is
    /// configured, and a final full period. A paravirt byte completes this
    /// many receiver ticks after its dequeue.
    pub open spec fn spec_rx_ticks(self) -> u64 {
        (8 + 16 + (self.word_length as int) + 16 * (if self.parity is Some {
            1int
        } else {
            0int
        }) + 16) as u64
    }

    pub fn rx_ticks(&self) -> (r: u64)
        requires
            self.wf(),
        ensures
            r == self.spec_rx_ticks(),
    {
        8 + 16 + (self.word_length as u64) + (if matches!(self.parity, Some(_)) {
            16
        } else {
            0
        }) + 16
    }

    /// Ticks from start-bit emission to the end of the last stop bit.
    pub fn tx_ticks(&self) -> (r: u64)
        requires
            self.wf(),
        ensures
            r == 16 + 16 * (self.word_length as int) + 16 * (if self.parity is Some {
                1int
            } else {
                0int
            }) + self.spec_stop_ticks(),
    {
        16 + 16 * (self.word_length as u64) + (if matches!(self.parity, Some(_)) {
            16
        } else {
            0
        }) + self.stop_ticks()
    }

    /// Stop-bit ticks: 16 for one stop bit, 24 for 1.5 (5-bit words), 32
    /// for two.
    pub open spec fn spec_stop_ticks(self) -> u64 {
        if self.stop_bits == 1 {
            16
        } else if self.word_length == 5 {
            24
        } else {
            32
        }
    }

    pub fn stop_ticks(&self) -> (r: u64)
        requires
            self.wf(),
        ensures
            r == self.spec_stop_ticks(),
    {
        if self.stop_bits == 1 {
            16
        } else if self.word_length == 5 {
            24
        } else {
            32
        }
    }

    /// The register byte this control value packs into.
    pub open spec fn spec_to_u8(self) -> u8 {
        let pi: u8 = if self.parity is None {
            1
        } else {
            0
        };
        let epe: u8 = if self.parity == Some(Parity::Even) {
            1
        } else {
            0
        };
        let bss: u8 = if self.stop_bits > 1 {
            1
        } else {
            0
        };
        let wls1: u8 = if self.word_length == 6 || self.word_length >= 8 {
            1
        } else {
            0
        };
        let wls2: u8 = if self.word_length >= 7 {
            1
        } else {
            0
        };
        (pi | (epe << 1) | (bss << 2) | (wls1 << 3) | (wls2 << 4) | ((if self.ie {
            1u8
        } else {
            0u8
        }) << 5) | ((if self.tx_break {
            1u8
        } else {
            0u8
        }) << 6) | ((if self.tr {
            1u8
        } else {
            0u8
        }) << 7)) as u8
    }

    /// The control value a register byte unpacks to.
    pub open spec fn spec_from_u8(v: u8) -> Control {
        Control {
            parity: if v & 0x03 == 0x00 {
                Some(Parity::Odd)
            } else if v & 0x03 == 0x02 {
                Some(Parity::Even)
            } else {
                None
            },
            stop_bits: (1 + ((v >> 2) & 1)) as u8,
            word_length: (5 + ((v >> 3) & 0x3)) as u8,
            ie: ((v >> 5) & 1) != 0,
            tx_break: ((v >> 6) & 1) != 0,
            tr: (v >> 7) != 0,
        }
    }
}

impl From<Control> for u8 {
    fn from(c: Control) -> (r: u8) {
        let pi: u8 = if matches!(c.parity, None) {
            1
        } else {
            0
        };
        let epe: u8 = if matches!(c.parity, Some(Parity::Even)) {
            1
        } else {
            0
        };
        let bss: u8 = if c.stop_bits > 1 {
            1
        } else {
            0
        };
        let wls1: u8 = if c.word_length == 6 || c.word_length >= 8 {
            1
        } else {
            0
        };
        let wls2: u8 = if c.word_length >= 7 {
            1
        } else {
            0
        };
        pi | (epe << 1) | (bss << 2) | (wls1 << 3) | (wls2 << 4) | ((if c.ie {
            1u8
        } else {
            0u8
        }) << 5) | ((if c.tx_break {
            1u8
        } else {
            0u8
        }) << 6) | ((if c.tr {
            1u8
        } else {
            0u8
        }) << 7)
    }
}

impl vstd::std_specs::convert::FromSpecImpl<Control> for u8 {
    open spec fn obeys_from_spec() -> bool {
        true
    }

    open spec fn from_spec(c: Control) -> u8 {
        c.spec_to_u8()
    }
}

impl From<u8> for Control {
    fn from(v: u8) -> (r: Control) {
        proof {
            assert((v >> 2) & 1 <= 1 && (v >> 3) & 0x3 <= 3) by (bit_vector);
        }
        let parity = if v & 0x03 == 0x00 {
            Some(Parity::Odd)
        } else if v & 0x03 == 0x02 {
            Some(Parity::Even)
        } else {
            None
        };
        let stop_bits = 1 + ((v >> 2) & 1);
        let word_length = 5 + ((v >> 3) & 0x3);
        let ie = ((v >> 5) & 1) != 0;
        let tx_break = ((v >> 6) & 1) != 0;
        let tr = (v >> 7) != 0;
        Control { word_length, parity, stop_bits, ie, tx_break, tr }
    }
}

impl vstd::std_specs::convert::FromSpecImpl<u8> for Control {
    open spec fn obeys_from_spec() -> bool {
        true
    }

    open spec fn from_spec(v: u8) -> Control {
        Control::spec_from_u8(v)
    }
}

/// Unpacking a packed control byte recovers each bit.
proof fn lemma_ctrl_bits(
    pi: u8,
    epe: u8,
    bss: u8,
    wls1: u8,
    wls2: u8,
    ie: u8,
    tbrk: u8,
    tr: u8,
)
    by (bit_vector)
    requires
        pi <= 1,
        epe <= 1,
        bss <= 1,
        wls1 <= 1,
        wls2 <= 1,
        ie <= 1,
        tbrk <= 1,
        tr <= 1,
    ensures
        ({
            let v = pi | (epe << 1) | (bss << 2) | (wls1 << 3) | (wls2 << 4) | (ie << 5) | (tbrk
                << 6) | (tr << 7);
            v & 1 == pi && (v >> 1) & 1 == epe && v & 0x03 == (pi | (epe << 1)) && (v >> 2) & 1
                == bss && (v >> 3) & 0x3 == (wls1 | (wls2 << 1)) && (v >> 5) & 1 == ie && (v >> 6)
                & 1 == tbrk && v >> 7 == tr && (pi | (epe << 1)) == pi + 2 * epe && (wls1 | (wls2
                << 1)) == wls1 + 2 * wls2
        }),
{
}

/// The control-register roundtrip: every constructible control value packs
/// into a byte that unpacks back to it.
pub proof fn lemma_control_roundtrip(c: Control)
    requires
        c.wf(),
    ensures
        Control::spec_from_u8(c.spec_to_u8()) == c,
{
    let pi: u8 = if c.parity is None {
        1
    } else {
        0
    };
    let epe: u8 = if c.parity == Some(Parity::Even) {
        1
    } else {
        0
    };
    let bss: u8 = if c.stop_bits > 1 {
        1
    } else {
        0
    };
    let wls1: u8 = if c.word_length == 6 || c.word_length >= 8 {
        1
    } else {
        0
    };
    let wls2: u8 = if c.word_length >= 7 {
        1
    } else {
        0
    };
    let ie: u8 = if c.ie {
        1
    } else {
        0
    };
    let tbrk: u8 = if c.tx_break {
        1
    } else {
        0
    };
    let tr: u8 = if c.tr {
        1
    } else {
        0
    };
    lemma_ctrl_bits(pi, epe, bss, wls1, wls2, ie, tbrk, tr);
    let v = pi | (epe << 1) | (bss << 2) | (wls1 << 3) | (wls2 << 4) | (ie << 5) | (tbrk << 6) | (
    tr << 7);
    assert(c.spec_to_u8() == v);
    assert(v & 0x03 == pi + 2 * epe);
    assert(Control::spec_from_u8(v).parity == c.parity);
    assert(Control::spec_from_u8(v).stop_bits == c.stop_bits);
    assert(Control::spec_from_u8(v).word_length == c.word_length);
}

/// The status register.
///
/// Bit layout: 0 DA, 1 OE, 2 PE, 3 FE, 4 ES, 5 PSI, 6 TSRE, 7 THRE.
#[derive(Debug, Default, Clone, Copy, PartialEq, Eq, Structural)]
pub struct Status {
    /// Data available.
    pub da: bool,
    /// Overrun error.
    pub oe: bool,
    /// Parity error.
    pub pe: bool,
    /// Framing error.
    pub fe: bool,
    /// External status.
    pub es: bool,
    /// Peripheral status interrupt.
    pub psi: bool,
    /// Transmitter shift register empty.
    pub tsre: bool,
    /// Transmitter holding register empty.
    pub thre: bool,
}

impl Status {
    /// The register byte this status packs into.
    pub open spec fn spec_to_u8(self) -> u8 {
        ((if self.da {
            1u8
        } else {
            0u8
        }) | ((if self.oe {
            1u8
        } else {
            0u8
        }) << 1) | ((if self.pe {
            1u8
        } else {
            0u8
        }) << 2) | ((if self.fe {
            1u8
        } else {
            0u8
        }) << 3) | ((if self.es {
            1u8
        } else {
            0u8
        }) << 4) | ((if self.psi {
            1u8
        } else {
            0u8
        }) << 5) | ((if self.tsre {
            1u8
        } else {
            0u8
        }) << 6) | ((if self.thre {
            1u8
        } else {
            0u8
        }) << 7)) as u8
    }

    /// The status a register byte unpacks to.
    pub open spec fn spec_from_u8(v: u8) -> Status {
        Status {
            da: v & 1 != 0,
            oe: (v >> 1) & 1 != 0,
            pe: (v >> 2) & 1 != 0,
            fe: (v >> 3) & 1 != 0,
            es: (v >> 4) & 1 != 0,
            psi: (v >> 5) & 1 != 0,
            tsre: (v >> 6) & 1 != 0,
            thre: (v >> 7) & 1 != 0,
        }
    }
}

impl From<Status> for u8 {
    fn from(s: Status) -> (r: u8) {
        (if s.da {
            1u8
        } else {
            0u8
        }) | ((if s.oe {
            1u8
        } else {
            0u8
        }) << 1) | ((if s.pe {
            1u8
        } else {
            0u8
        }) << 2) | ((if s.fe {
            1u8
        } else {
            0u8
        }) << 3) | ((if s.es {
            1u8
        } else {
            0u8
        }) << 4) | ((if s.psi {
            1u8
        } else {
            0u8
        }) << 5) | ((if s.tsre {
            1u8
        } else {
            0u8
        }) << 6) | ((if s.thre {
            1u8
        } else {
            0u8
        }) << 7)
    }
}

impl vstd::std_specs::convert::FromSpecImpl<Status> for u8 {
    open spec fn obeys_from_spec() -> bool {
        true
    }

    open spec fn from_spec(s: Status) -> u8 {
        s.spec_to_u8()
    }
}

impl From<u8> for Status {
    fn from(v: u8) -> (r: Status) {
        Status {
            da: v & 1 != 0,
            oe: (v >> 1) & 1 != 0,
            pe: (v >> 2) & 1 != 0,
            fe: (v >> 3) & 1 != 0,
            es: (v >> 4) & 1 != 0,
            psi: (v >> 5) & 1 != 0,
            tsre: (v >> 6) & 1 != 0,
            thre: (v >> 7) & 1 != 0,
        }
    }
}

impl vstd::std_specs::convert::FromSpecImpl<u8> for Status {
    open spec fn obeys_from_spec() -> bool {
        true
    }

    open spec fn from_spec(v: u8) -> Status {
        Status::spec_from_u8(v)
    }
}

#[verifier::external_type_specification]
#[verifier::external_body]
#[verifier::reject_recursive_types(T)]
pub struct ExSender<T>(flume::Sender<T>);

#[verifier::external_type_specification]
#[verifier::external_body]
#[verifier::reject_recursive_types(T)]
pub struct ExReceiver<T>(flume::Receiver<T>);

/// Why a paravirt receive produced no byte.
#[derive(Debug, Clone, Copy, PartialEq, Eq, Structural)]
pub enum ChannelError {
    Empty,
    Disconnected,
}

/// Why a paravirt send failed.
#[derive(Debug, Clone, Copy, PartialEq, Eq, Structural)]
pub enum SendFailure {
    Full,
    Disconnected,
}

/// Relies on flume::Receiver::try_recv: a queued byte, emptiness or
/// disconnection; which arrives depends on the channel's other side, so
/// nothing more is promised.
#[verifier::external_body]
fn chan_try_recv(rx: &flume::Receiver<u8>) -> Result<u8, ChannelError> {
    match rx.try_recv() {
        Ok(b) => Ok(b),
        Err(flume::TryRecvError::Empty) => Err(ChannelError::Empty),
        Err(flume::TryRecvError::Disconnected) => Err(ChannelError::Disconnected),
    }
}

/// Relies on flume::Sender::try_send: acceptance, a full queue or
/// disconnection; which happens depends on the channel's other side.
#[verifier::external_body]
fn chan_try_send(tx: &flume::Sender<u8>, byte: u8) -> Result<(), SendFailure> {
    match tx.try_send(byte) {
        Ok(()) => Ok(()),
        Err(flume::TrySendError::Full(_)) => Err(SendFailure::Full),
        Err(flume::TrySendError::Disconnected(_)) => Err(SendFailure::Disconnected),
    }
}

/// Relies on flume::Sender::is_full: a momentary view of the queue's
/// occupancy; the channel's other side may change it at any time.
#[verifier::external_body]
fn chan_is_full(tx: &flume::Sender<u8>) -> bool {
    tx.is_full()
}

/// Receiver micro-states.
#[derive(Debug, Clone, Copy, PartialEq, Eq, Structural)]
pub enum RxState {
    /// Waiting for SDI to go high.
    WaitSdiHigh,
    /// Waiting for SDI to go low.
    WaitSdiLow,
    /// A paravirt byte completes after the held number of ticks.
    ParavirtData(u64),
    /// Validating the start bit.
    Start,
    /// Receiving data bits.
    Data(u8),
    /// Receiving the parity bit.
    Parity,
    /// Receiving the stop bit.
    Stop,
}

/// The receiver, over-sampling SDI at 16 ticks per bit, with an optional
/// paravirt byte channel that bypasses the line.
#[derive(Debug)]
pub struct Rx {
    pub state: RxState,
    pub tick: u64,
    pub shift: u8,
    pub holding: u8,
    pub parity: bool,
    pub da: bool,
    pub oe: bool,
    pub pe: bool,
    pub fe: bool,
    pub pv_rx: Option<flume::Receiver<u8>>,
}

impl Rx {
    pub open spec fn wf(self) -> bool {
        match self.state {
            RxState::Data(bit) => bit < 8,
            RxState::ParavirtData(t) => t >= 1,
            _ => true,
        }
    }

    /// A cleared receiver keeping its paravirt channel.
    pub open spec fn clear_spec(self) -> Rx {
        Rx {
            state: RxState::WaitSdiHigh,
            tick: 0,
            shift: 0,
            holding: 0,
            parity: false,
            da: false,
            oe: false,
            pe: false,
            fe: false,
            ..self
        }
    }

    fn new_idle() -> (r: Rx)
        ensures
            r == (Rx { pv_rx: None, ..r.clear_spec() }),
            r.pv_rx is None,
            r.wf(),
    {
        Rx {
            state: RxState::WaitSdiHigh,
            tick: 0,
            shift: 0,
            holding: 0,
            parity: false,
            da: false,
            oe: false,
            pe: false,
            fe: false,
            pv_rx: None,
        }
    }

    fn clear(&mut self)
        ensures
            *final(self) == old(self).clear_spec(),
    {
        self.state = RxState::WaitSdiHigh;
        self.tick = 0;
        self.shift = 0;
        self.holding = 0;
        self.parity = false;
        self.da = false;
        self.oe = false;
        self.pe = false;
        self.fe = false;
    }

    /// No transition fired: the tick counter advances, wrapping.
    pub open spec fn bump(self) -> Rx {
        Rx { tick: if self.tick == 0xffff_ffff_ffff_ffffu64 {
            0
        } else {
            (self.tick + 1) as u64
        }, ..self }
    }

    /// One receive tick, given the paravirt observation `pv`: `None` when no
    /// dequeue was attempted or no channel exists, else the dequeue's result.
    pub open spec fn step_spec(self, ctrl: Control, sdi: bool, pv: Option<Result<u8, ChannelError>>) -> Rx {
        let c = self;
        match c.state {
            RxState::WaitSdiHigh => if sdi {
                Rx { state: RxState::WaitSdiLow, tick: 0, ..c }
            } else {
                c.bump()
            },
            RxState::WaitSdiLow => if sdi {
                // The line is idle: a paravirt byte may arrive instead.
                match pv {
                    Some(Ok(byte)) => Rx {
                        shift: (byte & ctrl.spec_word_mask()) as u8,
                        state: RxState::ParavirtData(ctrl.spec_rx_ticks()),
                        tick: 0,
                        ..c
                    },
                    Some(Err(ChannelError::Disconnected)) => Rx { pv_rx: None, ..c }.bump(),
                    _ => c.bump(),
                }
            } else {
                Rx { state: RxState::Start, tick: 0, ..c }
            },
            RxState::Start => if c.tick == 7 {
                if sdi {
                    Rx { state: RxState::WaitSdiLow, tick: 0, ..c }
                } else {
                    Rx {
                        shift: 0,
                        parity: ctrl.parity == Some(Parity::Even),
                        state: RxState::Data(0u8),
                        tick: 0,
                        ..c
                    }
                }
            } else {
                c.bump()
            },
            RxState::Data(bit) => if c.tick == 15 {
                let shift = if sdi {
                    c.shift | (1u8 << bit)
                } else {
                    c.shift
                };
                let parity = c.parity != sdi;
                let state = if bit + 1 < ctrl.word_length {
                    RxState::Data((bit + 1) as u8)
                } else if ctrl.parity is Some {
                    RxState::Parity
                } else {
                    RxState::Stop
                };
                Rx { shift, parity, state, tick: 0, ..c }
            } else {
                c.bump()
            },
            RxState::Parity => if c.tick == 15 {
                Rx { pe: sdi != c.parity, state: RxState::Stop, tick: 0, ..c }
            } else {
                c.bump()
            },
            RxState::Stop => if c.tick == 15 {
                Rx {
                    holding: c.shift,
                    fe: !sdi,
                    oe: c.da,
                    da: true,
                    state: if sdi {
                        RxState::WaitSdiLow
                    } else {
                        RxState::WaitSdiHigh
                    },
                    tick: 0,
                    ..c
                }
            } else {
                c.bump()
            },
            RxState::ParavirtData(ticks) => if c.tick == ticks - 1 {
                Rx {
                    holding: c.shift,
                    fe: false,
                    oe: c.da,
                    da: true,
                    state: if sdi {
                        RxState::WaitSdiLow
                    } else {
                        RxState::WaitSdiHigh
                    },
                    tick: 0,
                    ..c
                }
            } else {
                c.bump()
            },
        }
    }

    fn tick(&mut self, ctrl: Control, sdi: bool) -> (obs: Ghost<
        Option<Result<u8, ChannelError>>,
    >)
        requires
            old(self).wf(),
            ctrl.wf(),
        ensures
            *final(self) == old(self).step_spec(ctrl, sdi, obs@),
            final(self).wf(),
    {
        let pv: Option<Result<u8, ChannelError>> = if matches!(self.state, RxState::WaitSdiLow)
            && sdi {
            match &self.pv_rx {
                None => None,
                Some(r) => Some(chan_try_recv(r)),
            }
        } else {
            None
        };
        self.apply_step(ctrl, sdi, pv);
        Ghost(pv)
    }

    /// The deterministic part of a receive tick, once the paravirt
    /// observation is in hand.
    fn apply_step(&mut self, ctrl: Control, sdi: bool, pv: Option<Result<u8, ChannelError>>)
        requires
            old(self).wf(),
            ctrl.wf(),
        ensures
            *final(self) == old(self).step_spec(ctrl, sdi, pv),
            final(self).wf(),
    {
        match self.state {
            RxState::WaitSdiHigh => if sdi {
                self.state = RxState::WaitSdiLow;
                self.tick = 0;
            } else {
                self.bump_tick();
            },
            RxState::WaitSdiLow => if sdi {
                match pv {
                    Some(Ok(byte)) => {
                        self.shift = byte & ctrl.word_mask();
                        self.state = RxState::ParavirtData(ctrl.rx_ticks());
                        self.tick = 0;
                    },
                    Some(Err(ChannelError::Disconnected)) => {
                        self.pv_rx = None;
                        self.bump_tick();
                    },
                    _ => self.bump_tick(),
                }
            } else {
                self.state = RxState::Start;
                self.tick = 0;
            },
            RxState::Start => if self.tick == 7 {
                if sdi {
                    self.state = RxState::WaitSdiLow;
                    self.tick = 0;
                } else {
                    self.shift = 0;
                    self.parity = matches!(ctrl.parity, Some(Parity::Even));
                    self.state = RxState::Data(0);
                    self.tick = 0;
                }
            } else {
                self.bump_tick();
            },
            RxState::Data(bit) => if self.tick == 15 {
                if sdi {
                    self.shift = self.shift | (1u8 << bit);
                }
                self.parity = self.parity != sdi;
                let state = if bit + 1 < ctrl.word_length {
                    RxState::Data(bit + 1)
                } else if matches!(ctrl.parity, Some(_)) {
                    RxState::Parity
                } else {
                    RxState::Stop
                };
                self.state = state;
                self.tick = 0;
            } else {
                self.bump_tick();
            },
            RxState::Parity => if self.tick == 15 {
                self.pe = sdi != self.parity;
                self.state = RxState::Stop;
                self.tick = 0;
            } else {
                self.bump_tick();
            },
            RxState::Stop => if self.tick == 15 {
                self.holding = self.shift;
                self.fe = !sdi;
                self.oe = self.da;
                self.da = true;
                self.state = if sdi {
                    RxState::WaitSdiLow
                } else {
                    RxState::WaitSdiHigh
                };
                self.tick = 0;
            } else {
                self.bump_tick();
            },
            RxState::ParavirtData(ticks) => if self.tick == ticks - 1 {
                self.holding = self.shift;
                self.fe = false;
                self.oe = self.da;
                self.da = true;
                self.state = if sdi {
                    RxState::WaitSdiLow
                } else {
                    RxState::WaitSdiHigh
                };
                self.tick = 0;
            } else {
                self.bump_tick();
            },
        }
    }

    fn bump_tick(&mut self)
        ensures
            *final(self) == old(self).bump(),
    {
        self.tick = if self.tick == 0xffff_ffff_ffff_ffffu64 {
            0
        } else {
            self.tick + 1
        };
    }
}

/// Transmitter micro-states.
#[derive(Debug, Clone, Copy, PartialEq, Eq, Structural)]
pub enum TxState {
    /// Waiting for a loaded holding register and CTS.
    Idle,
    /// Transmitting the start bit.
    Start,
    /// Transmitting data bits.
    Data(u8),
    /// Transmitting the parity bit.
    Parity,
    /// Transmitting the stop bit or bits.
    Stop,
}

/// The transmitter, with an optional paravirt byte channel that receives
/// each byte the moment it leaves the holding register.
#[derive(Debug)]
pub struct Tx {
    pub state: TxState,
    pub tick: u64,
    pub holding: u8,
    pub shift: u8,
    pub parity: bool,
    /// Latched from [`Control::tx_break`]; sticky until cleared.
    pub break_latch: bool,
    pub tsre: bool,
    pub thre: bool,
    pub sdo: bool,
    pub pv_tx: Option<flume::Sender<u8>>,
}

impl Tx {
    pub open spec fn wf(self) -> bool {
        match self.state {
            TxState::Data(bit) => bit < 8,
            _ => true,
        }
    }

    /// A cleared transmitter keeping its paravirt channel.
    pub open spec fn clear_spec(self) -> Tx {
        Tx {
            state: TxState::Idle,
            tick: 0,
            holding: 0,
            shift: 0,
            parity: false,
            break_latch: false,
            tsre: true,
            thre: true,
            sdo: true,
            ..self
        }
    }

    fn new_idle() -> (r: Tx)
        ensures
            r == (Tx { pv_tx: None, ..r.clear_spec() }),
            r.pv_tx is None,
            r.wf(),
    {
        Tx {
            state: TxState::Idle,
            tick: 0,
            holding: 0,
            shift: 0,
            parity: false,
            break_latch: false,
            tsre: true,
            thre: true,
            sdo: true,
            pv_tx: None,
        }
    }

    fn clear(&mut self)
        ensures
            *final(self) == old(self).clear_spec(),
    {
        self.state = TxState::Idle;
        self.tick = 0;
        self.holding = 0;
        self.shift = 0;
        self.parity = false;
        self.break_latch = false;
        self.tsre = true;
        self.thre = true;
        self.sdo = true;
    }

    /// No transition fired: the tick counter advances, wrapping.
    pub open spec fn bump(self) -> Tx {
        Tx { tick: if self.tick == 0xffff_ffff_ffff_ffffu64 {
            0
        } else {
            (self.tick + 1) as u64
        }, ..self }
    }

    /// One transmit tick, given the paravirt observation `send`: `None` when
    /// no enqueue was attempted, else the byte handed over and the enqueue's
    /// result. A full queue loses the byte; CTS is held high while the queue
    /// is full to keep that from arising.
    pub open spec fn step_spec(self, ctrl: Control, cts: bool, send: Option<
        (u8, Result<(), SendFailure>),
    >) -> Tx {
        let c = self;
        match c.state {
            TxState::Idle => if cts && !c.thre {
                // The shift register loads half a cycle after TPB's trailing
                // edge.
                Tx { shift: c.holding, tsre: false, state: TxState::Start, tick: 0, ..c }
            } else {
                c.bump()
            },
            TxState::Start => if c.tick == 0 {
                let c2 = Tx {
                    sdo: false,
                    break_latch: false,
                    thre: true,
                    parity: ctrl.parity == Some(Parity::Even),
                    ..c
                };
                let c3 = if send matches Some((_, Err(SendFailure::Disconnected))) {
                    Tx { pv_tx: None, ..c2 }
                } else {
                    c2
                };
                Tx { state: TxState::Start, tick: 1, ..c3 }
            } else if c.tick == 15 {
                Tx { state: TxState::Data(0u8), tick: 0, ..c }
            } else {
                c.bump()
            },
            TxState::Data(bit) => if c.tick == 0 {
                let val = c.shift & 1 == 1;
                Tx {
                    sdo: val,
                    parity: c.parity != val,
                    shift: c.shift >> 1,
                    state: TxState::Data(bit),
                    tick: 1,
                    ..c
                }
            } else if c.tick == 15 {
                let state = if bit + 1 < ctrl.word_length {
                    TxState::Data((bit + 1) as u8)
                } else if ctrl.parity is Some {
                    TxState::Parity
                } else {
                    TxState::Stop
                };
                Tx { state, tick: 0, ..c }
            } else {
                c.bump()
            },
            TxState::Parity => if c.tick == 0 {
                Tx { sdo: c.parity, state: TxState::Parity, tick: 1, ..c }
            } else if c.tick == 15 {
                Tx { state: TxState::Stop, tick: 0, ..c }
            } else {
                c.bump()
            },
            TxState::Stop => if c.tick == 0 {
                Tx { sdo: true, state: TxState::Stop, tick: 1, ..c }
            } else if c.tick == ctrl.spec_stop_ticks() - 1 {
                if c.thre || !cts {
                    Tx { tsre: true, state: TxState::Idle, tick: 0, ..c }
                } else {
                    Tx { shift: c.holding, state: TxState::Start, tick: 0, ..c }
                }
            } else {
                c.bump()
            },
        }
    }

    fn tick(&mut self, ctrl: Control, cts: bool) -> (obs: Ghost<
        Option<(u8, Result<(), SendFailure>)>,
    >)
        requires
            old(self).wf(),
            ctrl.wf(),
        ensures
            *final(self) == old(self).step_spec(ctrl, cts, obs@),
            final(self).wf(),
            obs@ is Some <==> (old(self).state == TxState::Start && old(self).tick == 0 && old(
                self,
            ).pv_tx is Some),
            obs@ matches Some(s) ==> s.0 == (old(self).shift & ctrl.spec_word_mask()),
    {
        let send: Option<(u8, Result<(), SendFailure>)> = if matches!(self.state, TxState::Start)
            && self.tick == 0 {
            match &self.pv_tx {
                None => None,
                Some(t) => {
                    let byte = self.shift & ctrl.word_mask();
                    Some((byte, chan_try_send(t, byte)))
                },
            }
        } else {
            None
        };
        self.apply_step(ctrl, cts, send);
        Ghost(send)
    }

    /// The deterministic part of a transmit tick, once the paravirt
    /// observation is in hand.
    fn apply_step(&mut self, ctrl: Control, cts: bool, send: Option<(u8, Result<(), SendFailure>)>)
        requires
            old(self).wf(),
            ctrl.wf(),
        ensures
            *final(self) == old(self).step_spec(ctrl, cts, send),
            final(self).wf(),
    {
        match self.state {
            TxState::Idle => if cts && !self.thre {
                self.shift = self.holding;
                self.tsre = false;
                self.state = TxState::Start;
                self.tick = 0;
            } else {
                self.bump_tick();
            },
            TxState::Start => if self.tick == 0 {
                self.sdo = false;
                self.break_latch = false;
                self.thre = true;
                self.parity = matches!(ctrl.parity, Some(Parity::Even));
                if matches!(send, Some((_, Err(SendFailure::Disconnected)))) {
                    self.pv_tx = None;
                }
                self.state = TxState::Start;
                self.tick = 1;
            } else if self.tick == 15 {
                self.state = TxState::Data(0);
                self.tick = 0;
            } else {
                self.bump_tick();
            },
            TxState::Data(bit) => if self.tick == 0 {
                let val = self.shift & 1 == 1;
                self.sdo = val;
                self.parity = self.parity != val;
                self.shift = self.shift >> 1;
                self.state = TxState::Data(bit);
                self.tick = 1;
            } else if self.tick == 15 {
                let state = if bit + 1 < ctrl.word_length {
                    TxState::Data(bit + 1)
                } else if matches!(ctrl.parity, Some(_)) {
                    TxState::Parity
                } else {
                    TxState::Stop
                };
                self.state = state;
                self.tick = 0;
            } else {
                self.bump_tick();
            },
            TxState::Parity => if self.tick == 0 {
                self.sdo = self.parity;
                self.state = TxState::Parity;
                self.tick = 1;
            } else if self.tick == 15 {
                self.state = TxState::Stop;
                self.tick = 0;
            } else {
                self.bump_tick();
            },
            TxState::Stop => if self.tick == 0 {
                self.sdo = true;
                self.state = TxState::Stop;
                self.tick = 1;
            } else if self.tick == ctrl.stop_ticks() - 1 {
                if self.thre || !cts {
                    self.tsre = true;
                    self.state = TxState::Idle;
                    self.tick = 0;
                } else {
                    self.shift = self.holding;
                    self.state = TxState::Start;
                    self.tick = 0;
                }
            } else {
                self.bump_tick();
            },
        }
    }

    fn bump_tick(&mut self)
        ensures
            *final(self) == old(self).bump(),
    {
        self.tick = if self.tick == 0xffff_ffff_ffff_ffffu64 {
            0
        } else {
            self.tick + 1
        };
    }
}

/// The interrupt-source latches.
#[derive(Debug, Clone, Copy, PartialEq, Eq, Structural)]
pub struct Interrupts {
    pub da: bool,
    pub tx_ready: bool,
    pub tx_done: bool,
    pub psi: bool,
    pub cts: bool,
}

impl Interrupts {
    pub open spec fn spec_any(self) -> bool {
        self.da || self.tx_ready || self.tx_done || self.psi || self.cts
    }

    #[verifier::when_used_as_spec(spec_any)]
    pub fn any(self) -> (r: bool)
        ensures
            r == self.spec_any(),
    {
        self.da || self.tx_ready || self.tx_done || self.psi || self.cts
    }

    pub open spec fn init() -> Interrupts {
        Interrupts { da: false, tx_ready: false, tx_done: false, psi: false, cts: false }
    }
}

impl Default for Interrupts {
    /// All latches clear.
    fn default() -> (r: Self)
        ensures
            r == Interrupts::init(),
    {
        Interrupts { da: false, tx_ready: false, tx_done: false, psi: false, cts: false }
    }
}

/// The CDP1854: control and status registers, receiver, transmitter,
/// interrupt latches and edge detectors for PSI and CTS.
#[derive(Debug)]
pub struct Cdp1854 {
    pub control: Control,
    pub rx: Rx,
    pub tx: Tx,
    pub interrupts: Interrupts,
    pub prev_psi: bool,
    pub prev_cts: bool,
}

impl Default for Cdp1854 {
    /// The power-on state; see [`Cdp1854::new`].
    fn default() -> (r: Self)
        ensures
            r.wf(),
            r.control == Control::init(),
            r.interrupts == Interrupts::init(),
            (r.rx.pv_rx is None) && (r.tx.pv_tx is None),
            r.rx.state == RxState::WaitSdiHigh && r.tx.state == TxState::Idle,
            !r.rx.da && r.tx.thre && r.tx.tsre,
    {
        Cdp1854::new()
    }
}

impl Cdp1854 {
    pub open spec fn wf(self) -> bool {
        self.control.wf() && self.rx.wf() && self.tx.wf()
    }

    pub fn new() -> (r: Self)
        ensures
            r.wf(),
            r.control == Control::init(),
            r.interrupts == Interrupts::init(),
            r.rx.pv_rx is None && r.tx.pv_tx is None,
            r.rx.state == RxState::WaitSdiHigh && r.tx.state == TxState::Idle,
            !r.rx.da && r.tx.thre && r.tx.tsre,
    {
        Cdp1854 {
            control: Control::default(),
            rx: Rx::new_idle(),
            tx: Tx::new_idle(),
            interrupts: Interrupts::default(),
            prev_psi: false,
            prev_cts: false,
        }
    }

    /// Attach a paravirt channel feeding the receiver.
    #[must_use]
    pub fn with_pv_rx(self, rx: flume::Receiver<u8>) -> (r: Self)
        ensures
            r.rx == (Rx { pv_rx: Some(rx), ..self.rx }),
            r.control == self.control && r.tx == self.tx && r.interrupts == self.interrupts,
            r.wf() == self.wf(),
    {
        let mut s = self;
        s.rx.pv_rx = Some(rx);
        s
    }

    /// Attach a paravirt channel draining the transmitter.
    #[must_use]
    pub fn with_pv_tx(self, tx: flume::Sender<u8>) -> (r: Self)
        ensures
            r.tx == (Tx { pv_tx: Some(tx), ..self.tx }),
            r.control == self.control && r.rx == self.rx && r.interrupts == self.interrupts,
            r.wf() == self.wf(),
    {
        let mut s = self;
        s.tx.pv_tx = Some(tx);
        s
    }

    /// The output pins driven from the current state; `full` is the
    /// momentary paravirt-queue occupancy forcing CTS, when a channel is
    /// attached.
    #[verifier::opaque]
    pub open spec fn update_pins_spec(self, pins: u64, full: Option<bool>) -> u64 {
        let p0 = self.pv_cts_spec(pins, full);
        let p1 = Pins::Rts.spec_set(p0, !self.control.tr);
        let p2 = Pins::Da.spec_set(p1, !self.rx.da);
        let p3 = Pins::Fe.spec_set(p2, self.rx.fe);
        let p4 = Pins::PeOe.spec_set(p3, self.rx.pe || self.rx.oe);
        let p5 = Pins::Sdo.spec_set(p4, !self.tx.break_latch && self.tx.sdo);
        let p6 = Pins::Thre.spec_set(p5, !self.tx.thre);
        Pins::Int.spec_set(p6, !(self.control.ie && self.interrupts.spec_any()))
    }

    fn update_pins(&self, pins: &mut u64) -> (obs: Ghost<Option<bool>>)
        ensures
            *final(pins) == self.update_pins_spec(*old(pins), obs@),
    {
        proof {
            reveal(Cdp1854::update_pins_spec);
        }
        let obs = self.update_pv_cts(pins);
        Pins::Rts.set(pins, !self.control.tr);
        Pins::Da.set(pins, !self.rx.da);
        Pins::Fe.set(pins, self.rx.fe);
        Pins::PeOe.set(pins, self.rx.pe || self.rx.oe);
        Pins::Sdo.set(pins, !self.tx.break_latch && self.tx.sdo);
        Pins::Thre.set(pins, !self.tx.thre);
        Pins::Int.set(pins, !(self.control.ie && self.interrupts.any()));
        obs
    }

    /// The CTS pin forced by the paravirt-queue occupancy `full`, when a
    /// channel is attached.
    pub open spec fn pv_cts_spec(self, pins: u64, full: Option<bool>) -> u64 {
        if self.tx.pv_tx is Some {
            Pins::Cts.spec_set(
                pins,
                match full {
                    Some(f) => f,
                    None => false,
                },
            )
        } else {
            pins
        }
    }

    fn update_pv_cts(&self, pins: &mut u64) -> (obs: Ghost<Option<bool>>)
        ensures
            *final(pins) == self.pv_cts_spec(*old(pins), obs@),
            obs@ is Some <==> self.tx.pv_tx is Some,
    {
        match &self.tx.pv_tx {
            Some(pv_tx) => {
                let f = chan_is_full(pv_tx);
                Pins::Cts.set(pins, f);
                Ghost(Some(f))
            },
            None => Ghost(None),
        }
    }

    /// Reset to the power-on state; the paravirt channels stay attached.
    #[verifier::opaque]
    pub open spec fn clear_spec(self, pins: u64, full: Option<bool>) -> (Cdp1854, u64) {
        let c = Cdp1854 {
            control: Control::init(),
            interrupts: Interrupts::init(),
            rx: self.rx.clear_spec(),
            tx: self.tx.clear_spec(),
            prev_psi: Pins::Psi.spec_get(pins),
            prev_cts: Pins::Cts.spec_get(pins),
        };
        (c, c.update_pins_spec(pins, full))
    }

    fn clear(&mut self, pins: &mut u64) -> (obs: Ghost<Option<bool>>)
        requires
            Pins::Mode.spec_get(*old(pins)),
        ensures
            (*final(self), *final(pins)) == old(self).clear_spec(*old(pins), obs@),
            final(self).wf(),
    {
        proof {
            reveal(Cdp1854::clear_spec);
        }
        self.control = Control::default();
        self.interrupts = Interrupts::default();
        self.rx.clear();
        self.tx.clear();
        self.prev_psi = Pins::Psi.get(*pins);
        self.prev_cts = Pins::Cts.get(*pins);
        self.update_pins(pins)
    }

    /// A write to the data register: load the transmit holding register,
    /// drop THRE and the transmit interrupt latches.
    #[verifier::opaque]
    pub open spec fn bus_get_data_spec(self, pins: u64) -> Cdp1854 {
        Cdp1854 {
            tx: Tx { holding: Pins::TBus0.spec_get8(pins), thre: false, ..self.tx },
            interrupts: Interrupts { tx_ready: false, tx_done: false, ..self.interrupts },
            ..self
        }
    }

    fn bus_get_data(&mut self, pins: u64)
        requires
            old(self).wf(),
        ensures
            *final(self) == old(self).bus_get_data_spec(pins),
            final(self).wf(),
    {
        proof {
            reveal(Cdp1854::bus_get_data_spec);
        }
        self.tx.holding = Pins::TBus0.get8(pins);
        self.tx.thre = false;
        self.interrupts.tx_ready = false;
        self.interrupts.tx_done = false;
    }

    /// A write to the control register: while TR is set in the written
    /// byte, only TR changes; otherwise the break bit latches stickily and
    /// the rest is loaded.
    #[verifier::opaque]
    pub open spec fn bus_get_control_spec(self, pins: u64) -> Cdp1854 {
        let control = Control::spec_from_u8(Pins::TBus0.spec_get8(pins));
        if control.tr {
            Cdp1854 { control: Control { tr: true, ..self.control }, ..self }
        } else {
            Cdp1854 {
                control,
                tx: Tx { break_latch: self.tx.break_latch || control.tx_break, ..self.tx },
                ..self
            }
        }
    }

    fn bus_get_control(&mut self, pins: u64)
        requires
            old(self).wf(),
        ensures
            *final(self) == old(self).bus_get_control_spec(pins),
            final(self).wf(),
    {
        proof {
            reveal(Cdp1854::bus_get_control_spec);
        }
        let byte = Pins::TBus0.get8(pins);
        let control = Control::from(byte);
        proof {
            assert(control == Control::spec_from_u8(byte));
            assert((1 + ((byte >> 2) & 1)) >= 1 && (1 + ((byte >> 2) & 1)) <= 2 && (5 + ((byte
                >> 3) & 0x3)) >= 5 && (5 + ((byte >> 3) & 0x3)) <= 8) by (bit_vector);
        }
        if control.tr {
            self.control.tr = true;
        } else {
            self.tx.break_latch = self.tx.break_latch || control.tx_break;
            self.control = control;
        }
    }

    /// A read of the data register: the receive holding register goes onto
    /// RBus and DA clears.
    #[verifier::opaque]
    pub open spec fn bus_put_data_spec(self, pins: u64) -> (Cdp1854, u64) {
        (
            Cdp1854 {
                rx: Rx { da: false, ..self.rx },
                interrupts: Interrupts { da: false, ..self.interrupts },
                ..self
            },
            Pins::RBus0.spec_set8(pins, self.rx.holding),
        )
    }

    fn bus_put_data(&mut self, pins: &mut u64)
        requires
            old(self).wf(),
        ensures
            (*final(self), *final(pins)) == old(self).bus_put_data_spec(*old(pins)),
            final(self).wf(),
    {
        proof {
            reveal(Cdp1854::bus_put_data_spec);
        }
        let h = self.rx.holding;
        Pins::RBus0.set8(pins, h);
        self.rx.da = false;
        self.interrupts.da = false;
    }

    /// The status byte as read from the bus.
    pub open spec fn status_spec(self, pins: u64) -> Status {
        Status {
            da: self.rx.da,
            oe: self.rx.oe,
            pe: self.rx.pe,
            fe: self.rx.fe,
            es: !Pins::Es.spec_get(pins),
            psi: self.interrupts.psi,
            tsre: self.tx.tsre,
            thre: self.tx.thre,
        }
    }

    /// A read of the status register: the packed status goes onto RBus and
    /// the transmit, PSI and CTS interrupt latches clear.
    #[verifier::opaque]
    pub open spec fn bus_put_status_spec(self, pins: u64) -> (Cdp1854, u64) {
        (
            Cdp1854 {
                interrupts: Interrupts {
                    tx_ready: false,
                    tx_done: false,
                    psi: false,
                    cts: false,
                    ..self.interrupts
                },
                ..self
            },
            Pins::RBus0.spec_set8(pins, self.status_spec(pins).spec_to_u8()),
        )
    }

    fn bus_put_status(&mut self, pins: &mut u64)
        requires
            old(self).wf(),
        ensures
            (*final(self), *final(pins)) == old(self).bus_put_status_spec(*old(pins)),
            final(self).wf(),
    {
        proof {
            reveal(Cdp1854::bus_put_status_spec);
        }
        let status = Status {
            da: self.rx.da,
            oe: self.rx.oe,
            pe: self.rx.pe,
            fe: self.rx.fe,
            es: !Pins::Es.get(*pins),
            psi: self.interrupts.psi,
            tsre: self.tx.tsre,
            thre: self.tx.thre,
        };
        let byte = u8::from(status);
        Pins::RBus0.set8(pins, byte);
        self.interrupts.tx_ready = false;
        self.interrupts.tx_done = false;
        self.interrupts.psi = false;
        self.interrupts.cts = false;
    }

    /// One TPB pulse, given the two paravirt occupancy observations made on
    /// the way (before the CTS edge detector and in the final pin update):
    /// reset on CLEAR low; PSI and CTS edge detection; one bus access when
    /// the chip is selected; then the pin update.
    pub open spec fn tpb_step(self, pins: u64, f1: Option<bool>, f2: Option<bool>) -> (
        Cdp1854,
        u64,
    ) {
        if !Pins::Clear.spec_get(pins) {
            self.clear_spec(pins, f1)
        } else {
            self.tpb_run_step(pins, f1, f2)
        }
    }

    /// The non-reset part of a TPB pulse.
    pub open spec fn tpb_run_step(self, pins: u64, f1: Option<bool>, f2: Option<bool>) -> (
        Cdp1854,
        u64,
    ) {
        {
            let psi = Pins::Psi.spec_get(pins);
            let psi_falling = self.prev_psi && !psi;
            let c1 = Cdp1854 {
                prev_psi: psi,
                interrupts: Interrupts {
                    psi: self.interrupts.psi || psi_falling,
                    ..self.interrupts
                },
                ..self
            };
            let p1 = c1.pv_cts_spec(pins, f1);
            let cts = Pins::Cts.spec_get(p1);
            let cts_rising = !c1.prev_cts && cts;
            let c2 = Cdp1854 { prev_cts: cts, ..c1 };
            let c3 = if cts_rising {
                Cdp1854 {
                    tx: Tx { break_latch: false, ..c2.tx },
                    interrupts: Interrupts {
                        cts: c2.interrupts.cts || (!c2.tx.thre || !c2.tx.tsre),
                        ..c2.interrupts
                    },
                    ..c2
                }
            } else {
                c2
            };
            let (c4, p2) = if Pins::Cs1.spec_get3(p1) == 5 && Pins::Tpb.spec_get(p1) {
                let rsel = Pins::Rsel.spec_get(p1);
                let rd_wr = Pins::RdWr.spec_get(p1);
                if !rsel && !rd_wr {
                    (c3.bus_get_data_spec(p1), p1)
                } else if !rsel && rd_wr {
                    c3.bus_put_data_spec(p1)
                } else if rsel && !rd_wr {
                    (c3.bus_get_control_spec(p1), p1)
                } else {
                    c3.bus_put_status_spec(p1)
                }
            } else {
                (c3, p1)
            };
            (c4, c4.update_pins_spec(p2, f2))
        }
    }

    /// Advance the bus-facing side on a TPB pulse.
    #[verifier::rlimit(100)]
    pub fn tick_tpb(&mut self, pins: &mut u64)
        requires
            old(self).wf(),
            !Pins::Clear.spec_get(*old(pins)) ==> Pins::Mode.spec_get(*old(pins)),
        ensures
            exists|f1: Option<bool>, f2: Option<bool>|
                (*final(self), *final(pins)) == old(self).tpb_step(*old(pins), f1, f2),
            final(self).wf(),
    {
        if !Pins::Clear.get(*pins) {
            let obs = self.clear(pins);
            proof {
                assert((*self, *pins) == old(self).tpb_step(*old(pins), obs@, None::<bool>));
            }
            return;
        }
        let obs = self.tpb_run(pins);
        proof {
            assert((*self, *pins) == old(self).tpb_step(*old(pins), obs@.0, obs@.1));
        }
    }

    /// The non-reset part of a TPB pulse.
    #[verifier::rlimit(100)]
    fn tpb_run(&mut self, pins: &mut u64) -> (obs: Ghost<(Option<bool>, Option<bool>)>)
        requires
            old(self).wf(),
            Pins::Clear.spec_get(*old(pins)),
        ensures
            (*final(self), *final(pins)) == old(self).tpb_run_step(*old(pins), obs@.0, obs@.1),
            final(self).wf(),
    {
        // Detect the PSI falling edge.
        let psi = Pins::Psi.get(*pins);
        let psi_falling = self.prev_psi && !psi;
        self.prev_psi = psi;
        if psi_falling {
            self.interrupts.psi = true;
        }
        let ghost c1v = Cdp1854 {
            prev_psi: psi,
            interrupts: Interrupts {
                psi: old(self).interrupts.psi || (old(self).prev_psi && !psi),
                ..old(self).interrupts
            },
            ..*old(self)
        };
        proof {
            assert(*self == c1v);
        }
        // Detect the CTS rising edge, with CTS forced by a full paravirt
        // queue.
        let obs1 = self.update_pv_cts(pins);
        let ghost p1v = c1v.pv_cts_spec(*old(pins), obs1@);
        proof {
            assert(*pins == p1v);
        }
        let cts = Pins::Cts.get(*pins);
        let cts_rising = !self.prev_cts && cts;
        self.prev_cts = cts;
        if cts_rising {
            // Clears the transmit-break latch.
            self.tx.break_latch = false;
            // Raises an interrupt only if there is data left to transmit.
            if !self.tx.thre || !self.tx.tsre {
                self.interrupts.cts = true;
            }
        }
        let ghost c3v = *self;
        // Bus I/O while the chip is selected.
        if Pins::Cs1.get3(*pins) == 5 && Pins::Tpb.get(*pins) {
            let rsel = Pins::Rsel.get(*pins);
            let rd_wr = Pins::RdWr.get(*pins);
            if !rsel && !rd_wr {
                self.bus_get_data(*pins);
            } else if !rsel && rd_wr {
                self.bus_put_data(pins);
            } else if rsel && !rd_wr {
                self.bus_get_control(*pins);
            } else {
                self.bus_put_status(pins);
            }
        }
        let ghost c4v = *self;
        let ghost p2v = *pins;
        proof {
            assert((c4v, p2v) == (if Pins::Cs1.spec_get3(p1v) == 5 && Pins::Tpb.spec_get(p1v) {
                let rsel = Pins::Rsel.spec_get(p1v);
                let rd_wr = Pins::RdWr.spec_get(p1v);
                if !rsel && !rd_wr {
                    (c3v.bus_get_data_spec(p1v), p1v)
                } else if !rsel && rd_wr {
                    c3v.bus_put_data_spec(p1v)
                } else if rsel && !rd_wr {
                    (c3v.bus_get_control_spec(p1v), p1v)
                } else {
                    c3v.bus_put_status_spec(p1v)
                }
            } else {
                (c3v, p1v)
            }));
        }
        let obs2 = self.update_pins(pins);
        proof {
            assert((*self, *pins) == old(self).tpb_run_step(*old(pins), obs1@, obs2@));
        }
        Ghost((obs1@, obs2@))
    }

    /// One receiver clock tick, given the paravirt observations.
    pub open spec fn rclock_step(self, pins: u64, pv: Option<Result<u8, ChannelError>>, full: Option<bool>) -> (Cdp1854, u64) {
        let rx = self.rx.step_spec(self.control, Pins::Sdi.spec_get(pins), pv);
        let c1 = Cdp1854 {
            rx,
            interrupts: Interrupts { da: self.interrupts.da || rx.da, ..self.interrupts },
            ..self
        };
        (c1, c1.update_pins_spec(pins, full))
    }

    /// Advance the receiver by one clock tick.
    pub fn tick_rclock(&mut self, pins: &mut u64)
        requires
            old(self).wf(),
        ensures
            exists|pv: Option<Result<u8, ChannelError>>, full: Option<bool>|
                (*final(self), *final(pins)) == old(self).rclock_step(*old(pins), pv, full),
            final(self).wf(),
    {
        let sdi = Pins::Sdi.get(*pins);
        let ctrl = self.control;
        let obs1 = self.rx.tick(ctrl, sdi);
        if self.rx.da {
            self.interrupts.da = true;
        }
        let obs2 = self.update_pins(pins);
        proof {
            assert((*self, *pins) == old(self).rclock_step(*old(pins), obs1@, obs2@));
        }
    }

    /// One transmitter clock tick, given the paravirt observations.
    pub open spec fn tclock_step(self, pins: u64, send: Option<(u8, Result<(), SendFailure>)>, full: Option<bool>) -> (Cdp1854, u64) {
        let prev_thre = self.tx.thre;
        let prev_tsre = self.tx.tsre;
        let tx = self.tx.step_spec(self.control, !Pins::Cts.spec_get(pins), send);
        let c1 = Cdp1854 {
            tx,
            interrupts: Interrupts {
                tx_ready: self.interrupts.tx_ready || (self.control.tr && !prev_thre && tx.thre),
                tx_done: self.interrupts.tx_done || (tx.thre && !prev_tsre && tx.tsre),
                ..self.interrupts
            },
            ..self
        };
        (c1, c1.update_pins_spec(pins, full))
    }

    /// Advance the transmitter by one clock tick; CTS is active-low on the
    /// pin. The byte a departing word hands to the paravirt channel is the
    /// shift register masked to the configured word length.
    pub fn tick_tclock(&mut self, pins: &mut u64)
        requires
            old(self).wf(),
        ensures
            exists|send: Option<(u8, Result<(), SendFailure>)>, full: Option<bool>|
                {
                    &&& (*final(self), *final(pins)) == old(self).tclock_step(
                        *old(pins),
                        send,
                        full,
                    )
                    &&& (send is Some <==> (old(self).tx.state == TxState::Start && old(
                        self,
                    ).tx.tick == 0 && old(self).tx.pv_tx is Some))
                    &&& (send matches Some(s) ==> s.0 == (old(self).tx.shift & old(
                        self,
                    ).control.spec_word_mask()))
                },
            final(self).wf(),
    {
        let prev_thre = self.tx.thre;
        let prev_tsre = self.tx.tsre;
        let cts = !Pins::Cts.get(*pins);
        let ctrl = self.control;
        let obs1 = self.tx.tick(ctrl, cts);
        if self.control.tr && !prev_thre && self.tx.thre {
            self.interrupts.tx_ready = true;
        }
        if self.tx.thre && !prev_tsre && self.tx.tsre {
            self.interrupts.tx_done = true;
        }
        let obs2 = self.update_pins(pins);
        proof {
            assert((*self, *pins) == old(self).tclock_step(*old(pins), obs1@, obs2@));
            assert(obs1@ is Some <==> (old(self).tx.state == TxState::Start && old(self).tx.tick
                == 0 && old(self).tx.pv_tx is Some));
            assert(obs1@ matches Some(s) ==> s.0 == (old(self).tx.shift & old(
                self,
            ).control.spec_word_mask()));
        }
    }
}

} // verus!
