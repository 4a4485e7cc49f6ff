use basis::bridge::{
    classify_usb_packet, discovery_reply, discovery_request, forwardable_len,
    is_discovery_response, udp_retry_delay_ms, usb_write_backoff, UsbPacket, CMD_LED_OFF,
    CMD_LED_ON, DISCOVERY_REQUEST, DISCOVERY_RESPONSE, UDP_SEND_ATTEMPTS, USB_WRITE_ATTEMPTS,
};

#[test]
fn usb_packets_are_classified_by_first_byte() {
    assert_eq!(classify_usb_packet(&[]), UsbPacket::Empty);
    assert_eq!(classify_usb_packet(&[CMD_LED_ON]), UsbPacket::LedOn);
    assert_eq!(classify_usb_packet(&[CMD_LED_OFF, 9, 9]), UsbPacket::LedOff);
    assert_eq!(classify_usb_packet(&[0x03]), UsbPacket::Forward);
    assert_eq!(classify_usb_packet(b"hello"), UsbPacket::Forward);
}

#[test]
fn discovery_handshake() {
    let req = discovery_request();
    assert_eq!(req, [0xA0]);
    assert_eq!(discovery_reply(&req), Some([DISCOVERY_RESPONSE]));
    assert_eq!(discovery_reply(&[DISCOVERY_REQUEST, 1, 2]), Some([0xA1]));
    assert_eq!(discovery_reply(&[]), None);
    assert_eq!(discovery_reply(&[DISCOVERY_RESPONSE]), None);
    let reply = discovery_reply(&req).unwrap();
    assert!(is_discovery_response(&reply));
    assert!(!is_discovery_response(&req));
    assert!(!is_discovery_response(&[]));
}

#[test]
fn only_nonempty_chunks_that_fit_are_forwarded() {
    assert!(!forwardable_len(0, 64));
    assert!(forwardable_len(1, 64));
    assert!(forwardable_len(64, 64));
    assert!(!forwardable_len(65, 64));
}

#[test]
fn udp_send_retries_back_off_then_give_up() {
    assert_eq!(UDP_SEND_ATTEMPTS, 3);
    assert_eq!(udp_retry_delay_ms(0), Some(100));
    assert_eq!(udp_retry_delay_ms(1), Some(200));
    assert_eq!(udp_retry_delay_ms(2), None);
    assert_eq!(udp_retry_delay_ms(u32::MAX), None);
}

#[test]
fn usb_write_backoff_grows_and_stops_after_ten() {
    assert_eq!(USB_WRITE_ATTEMPTS, 10);
    assert_eq!(usb_write_backoff(1), (1, true));
    assert_eq!(usb_write_backoff(9), (9, true));
    assert_eq!(usb_write_backoff(10), (10, false));
}
