use basis::ecu::raw_frame_to_message;
use basis::messages::{CanFrameData, EcuJsonData, Message, MessageType, PotReading};

fn json(s: &str) -> EcuJsonData {
    EcuJsonData::new(heapless::String::<256>::try_from(s).unwrap())
}

#[test]
fn message_type_bytes() {
    assert_eq!(MessageType::from_byte(0x01), Some(MessageType::Bytes));
    assert_eq!(MessageType::from_byte(0x02), Some(MessageType::Pot));
    assert_eq!(MessageType::from_byte(0x03), Some(MessageType::CanFrame));
    assert_eq!(MessageType::from_byte(0x04), Some(MessageType::EcuJson));
    assert_eq!(MessageType::from_byte(0x00), None);
    assert_eq!(MessageType::from_byte(0x05), None);
    for t in [MessageType::Bytes, MessageType::Pot, MessageType::CanFrame, MessageType::EcuJson] {
        assert_eq!(MessageType::from_byte(t.to_byte()), Some(t));
    }
}

#[test]
fn bytes_message_roundtrip() {
    let data = *b"button 1 pressed";
    let msg = Message::Bytes(data);
    let mut buf = [0xAAu8; 32];
    let n = msg.serialize(&mut buf);
    assert_eq!(n, 17);
    assert_eq!(buf[0], 0x01);
    assert_eq!(&buf[1..17], &data[..]);
    assert_eq!(buf[17], 0xAA);
    match Message::deserialize(&buf[..n]) {
        Some(Message::Bytes(d)) => assert_eq!(d, data),
        other => panic!("unexpected {:?}", other),
    }
    assert_eq!(msg.message_type(), MessageType::Bytes);
}

#[test]
fn pot_message_carries_voltage_bits_only() {
    let bits = 1.65f32.to_bits();
    let msg = Message::Pot(PotReading::new(8192, bits));
    let mut buf = [0u8; 8];
    assert_eq!(msg.serialize(&mut buf), 5);
    assert_eq!(&buf[..5], &[0x02, 0x3F, 0xD3, 0x33, 0x33]);
    match Message::deserialize(&buf[..5]) {
        Some(Message::Pot(r)) => {
            assert_eq!(r.measured, 0);
            assert_eq!(r.voltage_bits, bits);
            assert_eq!(f32::from_bits(r.voltage_bits), 1.65f32);
        }
        other => panic!("unexpected {:?}", other),
    }
    assert_eq!(PotReading::new(1, bits).to_bytes(), [0x3F, 0xD3, 0x33, 0x33]);
    assert!(PotReading::from_bytes(&[1, 2, 3]).is_none());
}

#[test]
fn can_frame_message_roundtrip() {
    let frame = CanFrameData::new(0x1234_5678, [1, 2, 3, 4, 5, 6, 7, 8], 8);
    assert_eq!(frame.to_bytes(), [0x12, 0x34, 0x56, 0x78, 1, 2, 3, 4, 5, 6, 7, 8, 8]);
    let msg = Message::CanFrame(frame);
    let mut buf = [0u8; 14];
    assert_eq!(msg.serialize(&mut buf), 14);
    match Message::deserialize(&buf) {
        Some(Message::CanFrame(f)) => {
            assert_eq!(f.can_id, 0x1234_5678);
            assert_eq!(f.data, [1, 2, 3, 4, 5, 6, 7, 8]);
            assert_eq!(f.dlc, 8);
        }
        other => panic!("unexpected {:?}", other),
    }
}

#[test]
fn can_frame_with_dlc_above_8_is_rejected() {
    let mut bytes = [0u8; 13];
    bytes[12] = 9;
    assert!(CanFrameData::from_bytes(&bytes).is_none());
    bytes[12] = 8;
    assert!(CanFrameData::from_bytes(&bytes).is_some());
    assert!(CanFrameData::from_bytes(&bytes[..12]).is_none());
}

#[test]
fn json_message_roundtrip() {
    let text = r#"{"id":0x520,"rpm":1500}"#;
    let msg = Message::EcuJson(json(text));
    let mut buf = [0u8; 64];
    let n = msg.serialize(&mut buf);
    assert_eq!(n, 2 + text.len());
    assert_eq!(buf[0], 0x04);
    assert_eq!(buf[1] as usize, text.len());
    assert_eq!(&buf[2..n], text.as_bytes());
    match Message::deserialize(&buf[..n]) {
        Some(Message::EcuJson(e)) => assert_eq!(e.json.as_str(), text),
        other => panic!("unexpected {:?}", other),
    }
}

#[test]
fn json_message_with_small_buffer_writes_only_the_type() {
    let msg = Message::EcuJson(json("abcdef"));
    let mut buf = [0xEEu8; 5];
    assert_eq!(msg.serialize(&mut buf), 1);
    assert_eq!(buf, [0x04, 0xEE, 0xEE, 0xEE, 0xEE]);
    let mut one = [0xEEu8; 1];
    assert_eq!(msg.serialize(&mut one), 0);
    assert_eq!(one, [0xEE]);
}

#[test]
fn fixed_messages_with_small_buffer_write_nothing() {
    let mut buf = [0x55u8; 13];
    assert_eq!(Message::Bytes([1; 16]).serialize(&mut buf), 0);
    assert_eq!(Message::CanFrame(CanFrameData::new(1, [0; 8], 0)).serialize(&mut buf), 0);
    assert_eq!(buf, [0x55u8; 13]);
    let mut four = [0x55u8; 4];
    assert_eq!(Message::Pot(PotReading::new(0, 0)).serialize(&mut four), 0);
    assert_eq!(four, [0x55u8; 4]);
}

#[test]
fn json_of_256_bytes_wraps_the_length_byte() {
    let text: String = core::iter::repeat('x').take(256).collect();
    let e = json(&text);
    let mut buf = [0u8; 300];
    assert_eq!(e.to_bytes(&mut buf), 257);
    assert_eq!(buf[0], 0);
    let mut small = [7u8; 256];
    assert_eq!(e.to_bytes(&mut small), 0);
    assert_eq!(small, [7u8; 256]);
}

#[test]
fn json_decoding_rejects_bad_input() {
    assert!(EcuJsonData::from_bytes(&[]).is_none());
    assert!(EcuJsonData::from_bytes(&[3, b'a', b'b']).is_none());
    assert!(EcuJsonData::from_bytes(&[2, 0xFF, 0xFE]).is_none());
    let e = EcuJsonData::from_bytes(&[2, b'o', b'k', b'!']).unwrap();
    assert_eq!(e.json.as_str(), "ok");
    let e = EcuJsonData::from_bytes(&[0]).unwrap();
    assert_eq!(e.json.as_str(), "");
    let copy = e.clone();
    assert_eq!(copy.json.as_str(), "");
}

#[test]
fn deserialize_rejects_unknown_and_short_buffers() {
    assert!(Message::deserialize(&[]).is_none());
    assert!(Message::deserialize(&[0x00, 1, 2, 3]).is_none());
    assert!(Message::deserialize(&[0x05, 1, 2, 3]).is_none());
    assert!(Message::deserialize(&[0x01; 16]).is_none());
    assert!(Message::deserialize(&[0x02, 1, 2, 3]).is_none());
    assert!(Message::deserialize(&[0x03, 0, 0, 0, 1, 0, 0, 0, 0, 0, 0, 0, 0]).is_none());
    assert!(Message::deserialize(&[0x04]).is_none());
}

#[test]
fn raw_frames_keep_at_most_8_bytes() {
    match raw_frame_to_message(0x123, &[9, 8, 7]) {
        Message::CanFrame(f) => {
            assert_eq!(f.can_id, 0x123);
            assert_eq!(f.data, [9, 8, 7, 0, 0, 0, 0, 0]);
            assert_eq!(f.dlc, 3);
        }
        other => panic!("unexpected {:?}", other),
    }
    match raw_frame_to_message(0x7FF, &[1, 2, 3, 4, 5, 6, 7, 8, 9, 10]) {
        Message::CanFrame(f) => {
            assert_eq!(f.data, [1, 2, 3, 4, 5, 6, 7, 8]);
            assert_eq!(f.dlc, 8);
        }
        other => panic!("unexpected {:?}", other),
    }
}
