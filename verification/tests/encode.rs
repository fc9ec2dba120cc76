use post_clock::to_hex_lookalike;

#[test]
fn decimal_to_hex_lookalikes() {
    assert_eq!(to_hex_lookalike(6), 0x06);
    assert_eq!(to_hex_lookalike(12), 0x12);
    assert_eq!(to_hex_lookalike(59), 0x59);
}

#[test]
fn boundary_values() {
    assert_eq!(to_hex_lookalike(0), 0x00);
    assert_eq!(to_hex_lookalike(99), 0x99);
}

#[test]
fn nibbles_hold_the_digits() {
    for v in 0u8..=99 {
        let byte = to_hex_lookalike(v);
        let high = byte >> 4;
        let low = byte & 0x0F;
        assert_eq!(high, v / 10);
        assert_eq!(low, v % 10);
        assert!(high <= 9);
        assert!(low <= 9);
    }
}

#[test]
fn round_trip_recovers_value() {
    for v in 0u8..=99 {
        let byte = to_hex_lookalike(v);
        let decoded = (byte >> 4) * 10 + (byte & 0x0F);
        assert_eq!(decoded, v);
    }
}
