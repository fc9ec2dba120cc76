use post_clock::Display;
use post_clock::Error;

#[test]
fn acquisition_refused_when_kernel_owns_the_port() {
    let result = Display::new(0x80, 0);
    assert!(matches!(result, Err(Error::PortConflictError)));
}

#[test]
fn acquisition_succeeds_when_port_is_free() {
    let guard = Display::new(0x80, 4).unwrap();
    assert_eq!(guard.port(), 0x80);
    assert!(guard.submitted().is_empty());
}

#[test]
fn decimal_submits_the_lookalike_byte() {
    let mut guard = Display::new(0x80, 4).unwrap();
    guard.decimal(59);
    assert_eq!(guard.submitted().as_slice(), &[(0x80, 0x59)]);
}

#[test]
fn hexadecimal_submits_the_raw_byte() {
    let mut guard = Display::new(0x80, 4).unwrap();
    guard.hexadecimal(0xCC);
    assert_eq!(guard.submitted().as_slice(), &[(0x80, 0xCC)]);
}

#[test]
fn writes_touch_only_the_target_port() {
    let mut guard = Display::new(0x80, 4).unwrap();
    guard.decimal(12);
    guard.decimal(34);
    guard.hexadecimal(0xCC);
    for write in guard.submitted() {
        assert_eq!(write.0, 0x80);
    }
}

#[test]
fn same_byte_twice_gives_identical_writes() {
    let mut guard = Display::new(0x80, 4).unwrap();
    guard.decimal(12);
    guard.decimal(12);
    let writes = guard.submitted();
    assert_eq!(writes.len(), 2);
    assert_eq!(writes[0], writes[1]);
    assert_eq!(writes[1], (0x80, 0x12));
}
