use basis::messages::Message;
use basis::sensors::{
    AdcConfig, AdcSensor, ButtonConfig, ButtonDriver, PotConfig, PotDriver, VoltageReader,
    VREF_3V3_BITS,
};

#[test]
fn adc_config_defaults() {
    let c = AdcConfig::default();
    assert_eq!(c.sample_interval_ms, 100);
    assert_eq!(c.threshold, 10);
    assert_eq!(f32::from_bits(c.vref_bits), 3.3f32);
    assert_eq!(c.resolution_bits, 14);
    assert_eq!(c.sensor_id, 0);
    let s = AdcConfig::for_sensor(3, 250);
    assert_eq!(s.sensor_id, 3);
    assert_eq!(s.sample_interval_ms, 250);
    assert_eq!(s.vref_bits, VREF_3V3_BITS);
}

#[test]
fn adc_reports_only_changes_above_threshold() {
    let mut s = AdcSensor::new(AdcConfig::for_sensor(7, 100));
    assert_eq!(s.sensor_id(), 7);
    assert!(s.process_reading(9, 1).is_none());
    match s.process_reading(10, 2) {
        Some(Message::Pot(r)) => {
            assert_eq!(r.measured, 10);
            assert_eq!(r.voltage_bits, 2);
        }
        other => panic!("unexpected {:?}", other),
    }
    assert!(s.process_reading(19, 3).is_none());
    assert!(s.process_reading(1, 4).is_none());
    assert!(s.process_reading(0, 5).is_some());
    match s.force_reading(5, 6) {
        Message::Pot(r) => assert_eq!(r.measured, 5),
        other => panic!("unexpected {:?}", other),
    }
    assert!(s.process_reading(14, 7).is_none());
    assert!(s.process_reading(15, 7).is_some());
    assert_eq!(s.config().threshold, 10);
}

#[test]
fn button_messages() {
    let d = ButtonConfig::default();
    assert_eq!(&d.press_message, b"button pressed  ");
    assert_eq!(d.debounce_ms, 20);
    assert_eq!(d.long_press_ms, 0);
    let b = ButtonConfig::for_button(2);
    assert_eq!(&b.press_message, b"button 2 pressed");
    let m = ButtonConfig::with_message(b"0123456789abcdef");
    let driver = ButtonDriver::new(m);
    assert_eq!(driver.debounce_ms(), 20);
    match driver.press_message() {
        Message::Bytes(bytes) => assert_eq!(&bytes, b"0123456789abcdef"),
        other => panic!("unexpected {:?}", other),
    }
}

#[test]
fn pot_driver_change_detection() {
    let mut p = PotDriver::new(PotConfig::default(), 1234);
    assert_eq!(p.vrefint_cal(), 1234);
    assert_eq!(p.sample_interval_ms(), 100);
    assert!(!p.value_changed(9));
    assert!(p.value_changed(10));
    let r = p.record_reading(500, 0x4000_0000);
    assert_eq!(r.measured, 500);
    assert_eq!(r.voltage_bits, 0x4000_0000);
    assert!(!p.value_changed(491));
    assert!(p.value_changed(490));
    assert!(p.value_changed(510));
    match p.to_message(r) {
        Message::Pot(x) => assert_eq!(x.measured, 500),
        other => panic!("unexpected {:?}", other),
    }
    let c = PotConfig::default();
    assert!(c.use_vrefint);
    assert_eq!(VoltageReader::new(42).vrefint_cal(), 42);
}
