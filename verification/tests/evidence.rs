use browser_automation::evidence::screenshot_payload;

#[test]
fn empty_payload_encodes_to_nothing() {
    assert_eq!(screenshot_payload(&Vec::new()), "");
}

#[test]
fn known_base64_vectors() {
    assert_eq!(screenshot_payload(&b"Man".to_vec()), "TWFu");
    assert_eq!(screenshot_payload(&b"Ma".to_vec()), "TWE=");
    assert_eq!(screenshot_payload(&b"M".to_vec()), "TQ==");
    assert_eq!(screenshot_payload(&b"hello".to_vec()), "aGVsbG8=");
}

#[test]
fn payload_length_is_four_per_three_byte_group() {
    for n in 0..32usize {
        let data = vec![0u8; n];
        assert_eq!(screenshot_payload(&data).len(), 4 * ((n + 2) / 3));
    }
}
