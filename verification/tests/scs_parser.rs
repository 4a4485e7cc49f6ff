use basis::messages::Message;
use basis::scs::ScsParser;

fn raw(msg: &Message) -> (u32, [u8; 8], u8) {
    match msg {
        Message::CanFrame(f) => (f.can_id, f.data, f.dlc),
        other => panic!("expected a raw frame, got {:?}", other),
    }
}

#[test]
fn scs_parser_owns_0x300_to_0x310() {
    let p = ScsParser::new();
    assert!(p.matches_id(0x300));
    assert!(p.matches_id(0x310));
    assert!(!p.matches_id(0x2FF));
    assert!(!p.matches_id(0x311));
    assert!(!p.matches_id(0x520));
}

#[test]
fn rendered_json_becomes_an_ecu_json_message() {
    let p = ScsParser::new();
    let data = [7, 208, 50, 100, 3, 232, 0, 100];
    let text = b"{\"id\":0x300,\"rpm\":2000,\"tps\":19.61,\"kfuel_map\":156.86,\"map\":1000,\"idle_learn\":0.0387}\n";
    match p.parse_rendered(0x300, &data, Some(&text[..])) {
        Message::EcuJson(j) => assert_eq!(j.json.as_str().as_bytes(), &text[..]),
        other => panic!("unexpected {:?}", other),
    }
}

#[test]
fn undecodable_frames_are_forwarded_raw() {
    let p = ScsParser::new();
    let short = [1u8, 2, 3];
    assert_eq!(raw(&p.parse_rendered(0x300, &short, None)), (0x300, [1, 2, 3, 0, 0, 0, 0, 0], 3));
    let long = [9u8; 12];
    assert_eq!(raw(&p.parse_rendered(0x311, &long, None)), (0x311, [9; 8], 8));
}

#[test]
fn json_that_is_not_utf8_or_too_long_falls_back_to_raw() {
    let p = ScsParser::new();
    let data = [1u8, 2, 3, 4, 5, 6, 7, 8];
    let bad = [b'{', 0xFF, b'}'];
    assert_eq!(raw(&p.parse_rendered(0x301, &data, Some(&bad[..]))), (0x301, data, 8));
    let long = [b'a'; 257];
    assert_eq!(raw(&p.parse_rendered(0x301, &data, Some(&long[..]))), (0x301, data, 8));
    let fits = [b'a'; 256];
    assert!(matches!(p.parse_rendered(0x301, &data, Some(&fits[..])), Message::EcuJson(_)));
}
