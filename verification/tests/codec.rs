use browser_automation::codec::{ElemDecodeError, ElemWire};

#[test]
fn decode_error_message_carries_the_text() {
    let parse = ElemDecodeError::Parse("Invalid element parameter: oops".to_owned());
    assert_eq!(parse.message(), "Invalid element parameter: oops");
    let bind = ElemDecodeError::Bind("Invalid element: gone".to_owned());
    assert_eq!(bind.message(), "Invalid element: gone");
}

#[test]
fn wire_pairs_keep_id_and_wire_apart() {
    let w = ElemWire {
        id: "abc-123".to_owned(),
        wire: "{\"element-6066-11e4-a52e-4f735466cecf\":\"abc-123\"}".to_owned(),
    };
    assert_eq!(w.id, "abc-123");
    assert!(w.wire.contains("abc-123"));
}
