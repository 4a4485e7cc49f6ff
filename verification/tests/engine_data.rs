use basis::engine_data::{CanParseError, EngineData};

#[test]
fn engine_frame_layout() {
    let e = EngineData { rpm: 0x1F40, throttle: 55, map: 0x0123, lambda_scaled: 98 };
    assert_eq!(e.to_can_frame(), [0x1F, 0x40, 55, 0x01, 0x23, 98, 0, 0]);
}

#[test]
fn engine_frame_roundtrip() {
    let e = EngineData { rpm: 65535, throttle: 100, map: 300, lambda_scaled: 255 };
    assert_eq!(EngineData::from_can_frame(&e.to_can_frame()), Ok(e));
    let n = EngineData::new();
    assert_eq!(n, EngineData { rpm: 0, throttle: 0, map: 0, lambda_scaled: 0 });
    assert_eq!(EngineData::from_can_frame(&n.to_can_frame()), Ok(n));
}

#[test]
fn engine_frame_errors() {
    assert_eq!(EngineData::from_can_frame(&[0, 0, 0, 0, 0]), Err(CanParseError::InvalidLength));
    assert_eq!(EngineData::from_can_frame(&[]), Err(CanParseError::InvalidLength));
    assert_eq!(
        EngineData::from_can_frame(&[0, 0, 101, 0, 0, 0]),
        Err(CanParseError::InvalidThrottle(101))
    );
    let six = EngineData::from_can_frame(&[0x03, 0xE8, 100, 0, 100, 100]).unwrap();
    assert_eq!(six, EngineData { rpm: 1000, throttle: 100, map: 100, lambda_scaled: 100 });
}

#[test]
fn simulated_sensor_values() {
    assert_eq!(
        EngineData::simulate_sensor_read(0),
        EngineData { rpm: 1000, throttle: 50, map: 100, lambda_scaled: 100 }
    );
    assert_eq!(EngineData::simulate_sensor_read(255).rpm, 13750);
    assert_eq!(EngineData::simulate_sensor_read(3).rpm, 1150);
}
