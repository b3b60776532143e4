use cosmac::cdp1802::memory::{Memory, MemoryBuilderError, MemoryRange};
use cosmac::cdp1802::pins::Cdp1802Pins;
use cosmac::instr::Instr;

#[test]
fn test_builder_images_and_fill() {
    let mem = Memory::builder()
        .with_capacity(0x100)
        .unwrap()
        .with_image(0x10, vec![1, 2, 3])
        .with_image(0x11, vec![9])
        .build()
        .unwrap();
    assert_eq!(mem.as_slice().len(), 0x100);
    assert_eq!(mem.get(0x0f), 0);
    assert_eq!(mem.get(0x10), 1);
    // The later image overwrites the earlier one.
    assert_eq!(mem.get(0x11), 9);
    assert_eq!(mem.get(0x12), 3);
}

#[test]
fn test_builder_image_out_of_range() {
    let err = Memory::builder()
        .with_capacity(0x100)
        .unwrap()
        .with_image(0xfe, vec![1, 2, 3])
        .build()
        .unwrap_err();
    assert_eq!(err, MemoryBuilderError::ImageOutOfRange(0xfe));
}

#[test]
fn test_builder_capacity_rules() {
    assert!(Memory::builder().with_capacity(0x100).is_ok());
    assert!(Memory::builder().with_capacity(0x10000).is_ok());
    assert!(Memory::builder().with_capacity(0x180).is_err());
    assert!(Memory::builder().with_capacity(0).is_err());
    assert!(Memory::builder().with_capacity(0x20000).is_err());
    assert!(Memory::builder().with_address_width(16).is_ok());
    assert!(Memory::builder().with_address_width(17).is_err());
}

#[test]
fn test_builder_random_fill_keeps_images() {
    let mem = Memory::builder()
        .with_random()
        .with_image(0x1234, vec![0xaa, 0xbb])
        .build()
        .unwrap();
    assert_eq!(mem.get(0x1234), 0xaa);
    assert_eq!(mem.get(0x1235), 0xbb);
}

#[test]
fn test_write_protect() {
    let mut mem = Memory::builder()
        .with_write_protect_range(MemoryRange {
            start: Some(0x10),
            end: Some(0x1f),
        })
        .build()
        .unwrap();
    assert!(mem.is_writable(0x0f));
    assert!(!mem.is_writable(0x10));
    assert!(!mem.is_writable(0x1f));
    assert!(mem.is_writable(0x20));

    // A write tick into the protected range faults.
    let mut pins = Cdp1802Pins(Cdp1802Pins::mask_all());
    pins.set_tpa(true);
    pins.set_ma(0x00);
    mem.tick(&mut pins, true).unwrap();
    pins.set_tpa(false);
    pins.set_ma(0x15);
    pins.set_bus(0x42);
    pins.set_mwr(false);
    assert!(mem.tick(&mut pins, true).is_err());
    assert_eq!(mem.get(0x15), 0);

    // The same write outside the range lands.
    pins.set_ma(0x25);
    assert!(mem.tick(&mut pins, true).is_ok());
    assert_eq!(mem.get(0x25), 0x42);
}

#[test]
fn test_tpa_latch() {
    // The TPA edge latches the high address byte; later accesses combine
    // it with each tick's low byte until the next edge.
    let mut mem = Memory::default();
    mem.set(0x1234, 0x99);
    let mut pins = Cdp1802Pins(Cdp1802Pins::mask_all());
    pins.set_tpa(true);
    pins.set_ma(0x12);
    mem.tick(&mut pins, true).unwrap();
    pins.set_tpa(false);
    pins.set_ma(0x34);
    pins.set_mrd(false);
    mem.tick(&mut pins, true).unwrap();
    assert_eq!(pins.get_bus(), 0x99);
    // Another read with a different low byte stays on the latched page.
    mem.set(0x12ff, 0x77);
    pins.set_ma(0xff);
    mem.tick(&mut pins, true).unwrap();
    assert_eq!(pins.get_bus(), 0x77);
}

#[test]
fn test_get_instr_at() {
    let mem = Memory::builder()
        .with_image(0, vec![0xf8, 0x42, 0xc0, 0x12, 0x34])
        .build()
        .unwrap();
    assert_eq!(mem.get_instr_at(0), Some(Instr::Ldi(0x42)));
    assert_eq!(mem.get_instr_at(2), Some(Instr::Lbr(0x12, 0x34)));
    assert_eq!(mem.get_instr_at(5), Some(Instr::Idl));
}
