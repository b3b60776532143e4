use cosmac::cdp1802::pins::Cdp1802Pins;
use cosmac::event::{Event, InputEventLog, InputKind, OutputEventLog, OutputKind};

#[test]
fn test_input_log_ordering() {
    let mut log = InputEventLog::new();
    log.add(Event::new(200, InputKind::Ef1, 1), 0);
    log.add(Event::new(100, InputKind::Intr, 1), 0);
    log.add(Event::new(200, InputKind::Ef2, 0), 0);

    // Nothing is due before its timestamp.
    assert_eq!(log.peek_next_at(50), None);
    assert_eq!(log.pop_next_at(50), None);

    // Events come out in time order; equal timestamps in insertion order.
    let e1 = log.pop_next_at(300).unwrap();
    assert!(matches!(e1.kind, InputKind::Intr));
    let e2 = log.pop_next_at(300).unwrap();
    assert!(matches!(e2.kind, InputKind::Ef1));
    let e3 = log.pop_next_at(300).unwrap();
    assert!(matches!(e3.kind, InputKind::Ef2));
    assert_eq!(log.pop_next_at(300), None);
}

#[test]
fn test_input_log_expired_and_reset() {
    let mut log = InputEventLog::new();
    // An event behind `now` lands on the expired side immediately.
    log.add(Event::new(10, InputKind::Io1, 5), 100);
    assert_eq!(log.pop_next_at(1000), None);
    // A reset replays it.
    log.reset();
    let e = log.pop_next_at(1000).unwrap();
    assert!(matches!(e.kind, InputKind::Io1));
    assert_eq!(e.value, 5);
    // The full contents, expired first.
    assert_eq!(log.iter().len(), 1);
    log.clear();
    assert_eq!(log.iter().len(), 0);
}

#[test]
fn test_output_log() {
    let mut log = OutputEventLog::default();
    log.push(Event::new(1, OutputKind::Q, 1));
    log.push(Event::new(2, OutputKind::Io3, 0x42));
    let all = log.iter();
    assert_eq!(all.len(), 2);
    assert!(matches!(all[0].kind, OutputKind::Q));
    assert!(matches!(all[1].kind, OutputKind::Io3));
    assert_eq!(all[1].value, 0x42);
    log.clear();
    assert_eq!(log.iter().len(), 0);
}

#[test]
fn test_output_strobe_classification() {
    let mut pins = Cdp1802Pins::default();
    // No strobe while MRD is high.
    assert_eq!(cosmac::event::output_strobe(&pins), None);
    pins.set_mrd(false);
    pins.set_tpb(true);
    pins.set_n(3);
    pins.set_bus(0x5a);
    assert_eq!(
        cosmac::event::output_strobe(&pins),
        Some((OutputKind::Io3, 0x5a))
    );
    // Port 0 is no OUT strobe.
    pins.set_n(0);
    assert_eq!(cosmac::event::output_strobe(&pins), None);
    // Nothing leaves without the TPB pulse.
    pins.set_n(7);
    pins.set_tpb(false);
    assert_eq!(cosmac::event::output_strobe(&pins), None);
}

#[test]
fn test_q_event_classification() {
    let mut pins = Cdp1802Pins::default();
    pins.set_q(false);
    assert_eq!(cosmac::event::q_event(&pins, false), None);
    assert_eq!(cosmac::event::q_event(&pins, true), Some((OutputKind::Q, 0)));
    pins.set_q(true);
    assert_eq!(cosmac::event::q_event(&pins, false), Some((OutputKind::Q, 1)));
    assert_eq!(cosmac::event::q_event(&pins, true), None);
}
