//! Byte-oriented serial transport over the AY-5-1013, dividing the board
//! clock into serial ticks by an integer multiplier chosen so that sixteen
//! serial ticks make one baud period.

use vstd::prelude::*;
use vstd::string::StringSliceAdditionalSpecFns;

use crate::ay51013::chip::{Ay51013, Ctrl, TxState};
use crate::ay51013::pins::Ay51013Pins;

verus! {

/// A receive-side line error, latched until the next good frame.
#[derive(Debug, Clone, Copy, PartialEq, Eq, Structural)]
pub enum UartRxError {
    Framing,
    Parity,
    Overrun,
}

/// Parity sense of a serial mode.
#[derive(Debug, Clone, Copy, PartialEq, Eq, Structural)]
pub enum Parity {
    Even,
    Odd,
}

/// What a mode string can be rejected for.
#[derive(Debug, Clone, Copy, PartialEq, Eq, Structural)]
pub enum UartModeError {
    InvalidCharBits,
    InvalidParity,
    InvalidStopBits,
    TrailingGarbage,
}

/// A serial line mode: data bits, parity and stop bits, written `8n1`.
#[derive(Debug, Clone, Copy, PartialEq, Eq, Structural)]
pub struct UartMode {
    pub char_bits: u8,
    pub parity: Option<Parity>,
    pub stop_bits: u8,
}

impl UartMode {
    pub open spec fn wf(self) -> bool {
        5 <= self.char_bits <= 8 && 1 <= self.stop_bits <= 2
    }

    pub fn new(char_bits: u8, parity: Option<Parity>, stop_bits: u8) -> (r: Self)
        ensures
            r == (UartMode { char_bits, parity, stop_bits }),
    {
        UartMode { char_bits, parity, stop_bits }
    }
}

impl Default for UartMode {
    /// Eight data bits, no parity, one stop bit.
    fn default() -> (r: Self)
        ensures
            r == (UartMode { char_bits: 8u8, parity: Option::<Parity>::None, stop_bits: 1u8 }),
            r.wf(),
    {
        UartMode { char_bits: 8, parity: None, stop_bits: 1 }
    }
}

/// The mode encoded by the UTF-8 bytes of a string such as `8n1`: a digit
/// 5..=8, a parity letter n, e or o, and a stop-bit digit 1 or 2.
pub open spec fn spec_parse_mode(b: Seq<u8>) -> Result<UartMode, UartModeError> {
    if b.len() < 1 || !(0x35 <= b[0] <= 0x38) {
        Err(UartModeError::InvalidCharBits)
    } else if b.len() < 2 || !(b[1] == 0x6e || b[1] == 0x65 || b[1] == 0x6f) {
        Err(UartModeError::InvalidParity)
    } else if b.len() < 3 || !(b[2] == 0x31 || b[2] == 0x32) {
        Err(UartModeError::InvalidStopBits)
    } else if b.len() > 3 {
        Err(UartModeError::TrailingGarbage)
    } else {
        Ok(
            UartMode {
                char_bits: (b[0] - 0x30) as u8,
                parity: if b[1] == 0x6e {
                    None
                } else if b[1] == 0x65 {
                    Some(Parity::Even)
                } else {
                    Some(Parity::Odd)
                },
                stop_bits: (b[2] - 0x30) as u8,
            },
        )
    }
}

/// Parse a mode string such as `8n1` or `5o2`.
pub fn parse_mode(s: &str) -> (r: Result<UartMode, UartModeError>)
    ensures
        r == spec_parse_mode(s.spec_bytes()),
        r matches Ok(m) ==> m.wf(),
{
    let b = s.as_bytes();
    if b.len() < 1 || !(0x35 <= b[0] && b[0] <= 0x38) {
        return Err(UartModeError::InvalidCharBits);
    }
    if b.len() < 2 || !(b[1] == 0x6e || b[1] == 0x65 || b[1] == 0x6f) {
        return Err(UartModeError::InvalidParity);
    }
    if b.len() < 3 || !(b[2] == 0x31 || b[2] == 0x32) {
        return Err(UartModeError::InvalidStopBits);
    }
    if b.len() > 3 {
        return Err(UartModeError::TrailingGarbage);
    }
    Ok(
        UartMode {
            char_bits: b[0] - 0x30,
            parity: if b[1] == 0x6e {
                None
            } else if b[1] == 0x65 {
                Some(Parity::Even)
            } else {
                Some(Parity::Odd)
            },
            stop_bits: b[2] - 0x30,
        },
    )
}

impl core::str::FromStr for UartMode {
    type Err = UartModeError;

    fn from_str(s: &str) -> Result<UartMode, UartModeError> {
        parse_mode(s)
    }
}

/// The chip-level parity value of a mode's parity.
pub open spec fn spec_chip_parity(p: Option<Parity>) -> Option<crate::ay51013::chip::Parity> {
    match p {
        None => None,
        Some(Parity::Even) => Some(crate::ay51013::chip::Parity::Even),
        Some(Parity::Odd) => Some(crate::ay51013::chip::Parity::Odd),
    }
}

#[verifier::when_used_as_spec(spec_chip_parity)]
fn chip_parity(p: Option<Parity>) -> (r: Option<crate::ay51013::chip::Parity>)
    ensures
        r == spec_chip_parity(p),
{
    match p {
        None => None,
        Some(Parity::Even) => Some(crate::ay51013::chip::Parity::Even),
        Some(Parity::Odd) => Some(crate::ay51013::chip::Parity::Odd),
    }
}

/// Builds an [`Ay51013Uart`]: the serial mode, the clock multiplier, and
/// whether received bytes are masked to 7-bit ASCII.
#[must_use]
pub struct Builder {
    pub mode: UartMode,
    pub clk_mul: u16,
    pub force_7bit_ascii: bool,
}

impl Default for Builder {
    fn default() -> (r: Self)
        ensures
            r.mode == (UartMode { char_bits: 8u8, parity: Option::<Parity>::None, stop_bits: 1u8 }),
            r.clk_mul == 1,
            !r.force_7bit_ascii,
    {
        Builder { mode: UartMode::default(), clk_mul: 1, force_7bit_ascii: false }
    }
}

impl Builder {
    pub fn with_mode(self, mode: UartMode) -> (r: Self)
        ensures
            r == (Builder { mode, ..self }),
    {
        Builder { mode, ..self }
    }

    pub fn with_clock_multiplier(self, clk_mul: u16) -> (r: Self)
        ensures
            r == (Builder { clk_mul, ..self }),
    {
        Builder { clk_mul, ..self }
    }

    pub fn with_force_7bit_ascii(self, force_7bit_ascii: bool) -> (r: Self)
        ensures
            r == (Builder { force_7bit_ascii, ..self }),
    {
        Builder { force_7bit_ascii, ..self }
    }

    /// Build the adapter: a fresh chip configured to the mode.
    pub fn build(self) -> (r: Ay51013Uart)
        requires
            self.mode.wf(),
            self.clk_mul >= 1,
        ensures
            r.wf(),
            r.clk_mul == self.clk_mul,
            r.clk_seq == 0,
            r.force_7bit_ascii == self.force_7bit_ascii,
            r.chip.ctrl == (Ctrl {
                char_bits: self.mode.char_bits,
                parity: spec_chip_parity(self.mode.parity),
                stop_bits: self.mode.stop_bits,
            }),
    {
        let mut chip = Ay51013::default();
        let mut pins = Ay51013Pins::default();
        let p = chip_parity(self.mode.parity);
        chip.configure(&mut pins, self.mode.char_bits, p, self.mode.stop_bits);
        Ay51013Uart {
            chip,
            pins,
            clk_mul: self.clk_mul,
            clk_seq: 0,
            force_7bit_ascii: self.force_7bit_ascii,
        }
    }
}

/// The AY-5-1013 adapted to a byte-oriented serial port with hold-cycle
/// semantics.
#[derive(Debug, Clone, Copy, PartialEq, Eq, Structural)]
pub struct Ay51013Uart {
    pub chip: Ay51013,
    pub pins: Ay51013Pins,
    pub clk_mul: u16,
    pub clk_seq: u16,
    pub force_7bit_ascii: bool,
}

impl Ay51013Uart {
    pub open spec fn wf(self) -> bool {
        self.chip.wf() && 1 <= self.clk_mul && self.clk_seq < self.clk_mul
    }

    pub fn builder() -> (r: Builder)
        ensures
            r.mode == (UartMode { char_bits: 8u8, parity: Option::<Parity>::None, stop_bits: 1u8 }),
            r.clk_mul == 1,
            !r.force_7bit_ascii,
    {
        Builder::default()
    }

    /// Reset the underlying chip, keeping the configuration.
    pub fn reset(&mut self)
        requires
            old(self).wf(),
        ensures
            final(self).wf(),
            ({
                let p0 = old(self).pins.spec_set_ds(true).spec_set_rde(false).spec_set_swe(
                    false,
                ).spec_set_rdav(true).spec_set_xr(true);
                let (c1, p1) = old(self).chip.tick_spec(p0);
                *final(self) == (Ay51013Uart {
                    chip: c1,
                    pins: p1.spec_set_xr(false),
                    ..*old(self)
                })
            }),
    {
        self.chip.reset(&mut self.pins);
    }

    /// One board tick: every `clk_mul` ticks the chip advances one serial
    /// tick, after which the RDAV and DS strobes are released.
    pub open spec fn tick_spec(self) -> Ay51013Uart {
        if self.clk_seq + 1 == self.clk_mul {
            let (chip, pins) = self.chip.tick_spec(self.pins);
            Ay51013Uart {
                chip,
                pins: pins.spec_set_rdav(true).spec_set_ds(true),
                clk_seq: 0,
                ..self
            }
        } else {
            Ay51013Uart { clk_seq: (self.clk_seq + 1) as u16, ..self }
        }
    }

    pub fn tick(&mut self)
        requires
            old(self).wf(),
        ensures
            final(self).wf(),
            *final(self) == old(self).tick_spec(),
    {
        self.clk_seq = self.clk_seq + 1;
        if self.clk_seq == self.clk_mul {
            self.chip.tick(&mut self.pins);
            self.clk_seq = 0;
            self.pins.set_rdav(true);
            self.pins.set_ds(true);
        }
    }

    /// Drive the serial input line.
    pub fn set_rx_pin(&mut self, val: bool)
        ensures
            *final(self) == (Ay51013Uart { pins: old(self).pins.spec_set_si(val), ..*old(self) }),
    {
        self.pins.set_si(val);
    }

    /// The serial output line.
    pub fn get_tx_pin(&self) -> (r: bool)
        ensures
            r == self.pins.get_so(),
    {
        self.pins.get_so()
    }

    /// What [`Ay51013Uart::rx`] returns: the latched line error if any is
    /// set, else the received byte, masked to 7 bits when configured so.
    pub open spec fn rx_result(self) -> Result<u8, UartRxError> {
        if self.pins.get_fe() {
            Err(UartRxError::Framing)
        } else if self.pins.get_pe() {
            Err(UartRxError::Parity)
        } else if self.pins.get_or() {
            Err(UartRxError::Overrun)
        } else if self.force_7bit_ascii {
            Ok((self.pins.get_rd() & 0x7f) as u8)
        } else {
            Ok(self.pins.get_rd())
        }
    }

    /// Read one received byte, pulling RDAV low to acknowledge it.
    pub fn rx(&mut self) -> (r: Result<u8, UartRxError>)
        requires
            old(self).pins.get_dav(),
        ensures
            r == old(self).rx_result(),
            *final(self) == (Ay51013Uart { pins: old(self).pins.spec_set_rdav(false), ..*old(self) }),
    {
        let result = if self.pins.get_fe() {
            Err(UartRxError::Framing)
        } else if self.pins.get_pe() {
            Err(UartRxError::Parity)
        } else if self.pins.get_or() {
            Err(UartRxError::Overrun)
        } else {
            let byte = self.pins.get_rd();
            if self.force_7bit_ascii {
                Ok(byte & 0x7f)
            } else {
                Ok(byte)
            }
        };
        self.pins.set_rdav(false);
        result
    }

    /// Queue one byte for transmission: place it on DB and strobe DS low.
    pub fn tx(&mut self, byte: u8)
        requires
            old(self).pins.get_tbmt(),
        ensures
            *final(self) == (Ay51013Uart {
                pins: old(self).pins.spec_set_db(byte).spec_set_ds(false),
                ..*old(self)
            }),
    {
        self.pins.set_db(byte);
        self.pins.set_ds(false);
    }

    /// Board ticks left until the next serial tick samples the line.
    pub fn rx_hold_cycles(&self) -> (r: u32)
        requires
            self.wf(),
        ensures
            r == self.clk_mul - self.clk_seq,
    {
        let mult = self.clk_mul as u32;
        let seq = self.clk_seq as u32;
        mult - seq
    }

    /// Board ticks to hold after a transmit strobe: one full serial cycle
    /// past the next serial tick.
    pub fn tx_hold_cycles(&self) -> (r: u32)
        requires
            self.wf(),
        ensures
            r == self.clk_mul + (self.clk_mul - self.clk_seq),
    {
        let mult = self.clk_mul as u32;
        let seq = self.clk_seq as u32;
        mult + (mult - seq)
    }

    /// Whether a received byte is waiting.
    pub fn is_rx_ready(&self) -> (r: bool)
        ensures
            r == self.pins.get_dav(),
    {
        self.pins.get_dav()
    }

    /// Whether the transmit holding register is free.
    pub fn is_tx_ready(&self) -> (r: bool)
        ensures
            r == self.pins.get_tbmt(),
    {
        self.pins.get_tbmt()
    }

    /// Whether the transmitter has gone fully idle.
    pub fn is_tx_idle(&self) -> (r: bool)
        ensures
            r == (self.chip.tx.state == TxState::Idle),
    {
        self.chip.is_tx_idle()
    }
}

} // verus!
