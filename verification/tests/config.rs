use basis::config::{
    nucleo_1, nucleo_1_destination, nucleo_2, nucleo_2_destination, nucleo_3,
    nucleo_3_destination, validate_config, CanConfig, CanStats, EcuType, CAN_BITRATE_DEFAULT,
    MAX_PACKET_SIZE, NUCLEO_1_ECU_MODE, RX_BUFFER_SIZE, TX_BUFFER_SIZE,
};

#[test]
fn board_addresses() {
    assert_eq!(nucleo_1().ip, [10, 42, 0, 61]);
    assert_eq!(nucleo_1().listen_port, 4321);
    assert_eq!(nucleo_2().ip, [10, 42, 0, 60]);
    assert_eq!(nucleo_2().mac, [0x00, 0x00, 0xDE, 0xAD, 0xBE, 0x60]);
    assert_eq!(nucleo_3().endpoint(), ([10, 42, 0, 62], 12346));
    assert_eq!(nucleo_1_destination(), ([10, 42, 0, 60], 12345));
    assert_eq!(nucleo_2_destination(), ([10, 42, 0, 61], 4321));
    assert_eq!(nucleo_3_destination(), ([10, 42, 0, 61], 4321));
}

#[test]
fn can_configuration() {
    assert_eq!(EcuType::ScsDelta.primary_can_id(), 0x300);
    assert_eq!(EcuType::MaxxEcu.primary_can_id(), 0x520);
    let d = CanConfig::default();
    assert_eq!(d.ecu_type, NUCLEO_1_ECU_MODE);
    assert_eq!(d.bitrate, 500_000);
    assert_eq!(d.tx_interval_ms, 250);
    assert_eq!(d.rx_timeout_ms, 5_000);
    assert!(d.enable_filtering);
    assert_eq!(d.primary_can_id(), 0x520);
    let c = CanConfig::new(EcuType::ScsDelta, 250_000, 10, 20);
    assert_eq!(c.primary_can_id(), 0x300);
    assert!(c.enable_filtering);
    assert_eq!(CAN_BITRATE_DEFAULT, 500_000);
    let s = CanStats::default();
    assert_eq!(s.rx_count + s.rx_errors + s.tx_count + s.tx_errors + s.timeout_count, 0);
}

#[test]
fn buffer_sizes_are_valid() {
    validate_config();
    assert!(RX_BUFFER_SIZE >= MAX_PACKET_SIZE);
    assert!(TX_BUFFER_SIZE >= MAX_PACKET_SIZE);
}
