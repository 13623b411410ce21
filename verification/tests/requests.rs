use wirecli::registers::{Presentation, ReadRequest, RegisterKind, WriteRequest};

#[test]
fn read_request_defaults() {
    let r = ReadRequest::new(7, RegisterKind::Holding, None, None, None, None);
    assert_eq!(r.address, 7);
    assert_eq!(r.kind, RegisterKind::Holding);
    assert_eq!(r.count, 1);
    assert_eq!(r.unit_id, 1);
    assert!(!r.watch);
    assert_eq!(r.presentation, Presentation::Dec);
}

#[test]
fn read_request_explicit_fields() {
    let r = ReadRequest::new(
        100,
        RegisterKind::Input,
        Some(true),
        Some(9),
        Some(12),
        Some(Presentation::Hex),
    );
    assert_eq!(r.address, 100);
    assert_eq!(r.kind, RegisterKind::Input);
    assert_eq!(r.count, 12);
    assert_eq!(r.unit_id, 9);
    assert!(r.watch);
    assert_eq!(r.presentation, Presentation::Hex);
}

#[test]
fn write_request_keeps_address_and_value() {
    let w = WriteRequest::new(1000, 0xBEEF, Some(3));
    assert_eq!(w.address, 1000);
    assert_eq!(w.value, 0xBEEF);
    assert_eq!(w.unit_id, 3);
}

#[test]
fn write_request_unit_id_defaults_to_one() {
    let w = WriteRequest::new(0, 0, None);
    assert_eq!(w.unit_id, 1);
}

#[test]
fn write_request_extreme_values() {
    let w = WriteRequest::new(u16::MAX, u16::MAX, Some(u8::MAX));
    assert_eq!(w.address, u16::MAX);
    assert_eq!(w.value, u16::MAX);
    assert_eq!(w.unit_id, u8::MAX);
}
