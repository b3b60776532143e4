use cosmac::uart::{Ay51013Uart, Parity, UartMode};

fn loopback_byte(mode: UartMode, byte: u8) {
    let mut uart = Ay51013Uart::builder()
        .with_mode(mode)
        .with_clock_multiplier(1)
        .build();
    assert!(uart.is_tx_ready());
    uart.tx(byte);
    let mask = if mode.char_bits == 8 {
        0xff
    } else {
        (1u8 << mode.char_bits) - 1
    };
    let mut ready = false;
    for _ in 0..2000 {
        let bit = uart.get_tx_pin();
        uart.set_rx_pin(bit);
        uart.tick();
        if uart.is_rx_ready() {
            ready = true;
            break;
        }
    }
    assert!(ready, "no byte received for mode {mode:?} byte {byte:#x}");
    assert_eq!(uart.rx(), Ok(byte & mask), "mode {mode:?} byte {byte:#x}");
}

#[test]
fn test_rx_tx_symmetry() {
    // Looping SO back into SI returns every byte unchanged, with no
    // framing, parity or overrun error, in every mode.
    for char_bits in 5..=8u8 {
        for parity in [None, Some(Parity::Even), Some(Parity::Odd)] {
            for stop_bits in 1..=2u8 {
                let mode = UartMode::new(char_bits, parity, stop_bits);
                let step = if char_bits == 8 { 17 } else { 5 };
                let top: u16 = 1u16 << char_bits;
                let mut b: u16 = 0;
                while b < top {
                    loopback_byte(mode, b as u8);
                    b += step;
                }
            }
        }
    }
}

#[test]
fn test_hold_cycles() {
    let mut uart = Ay51013Uart::builder()
        .with_mode(UartMode::new(8, None, 1))
        .with_clock_multiplier(4)
        .build();
    assert_eq!(uart.rx_hold_cycles(), 4);
    assert_eq!(uart.tx_hold_cycles(), 8);
    uart.tick();
    // One board tick into the serial cycle, one fewer to hold; a transmit
    // strobe still waits a full extra serial cycle.
    assert_eq!(uart.rx_hold_cycles(), 3);
    assert_eq!(uart.tx_hold_cycles(), 7);
}
