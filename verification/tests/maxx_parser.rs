use basis::maxx::{MaxxParser, MaxxTestGenerator, MAXX_MESSAGE_IDS};
use basis::messages::Message;

fn le_u16(data: &[u8], offset: usize) -> u16 {
    u16::from_le_bytes([data[offset], data[offset + 1]])
}

fn le_i16(data: &[u8], offset: usize) -> i16 {
    i16::from_le_bytes([data[offset], data[offset + 1]])
}

fn scale_i16(raw: i16, scale: f32) -> f32 {
    (raw as f32) * scale
}

/// The JSON text printed through `f32` scaling and `{:.k}` formatting.
fn float_json(id: u32, data: &[u8]) -> Option<String> {
    match id {
        0x520 => {
            Some(format!(
                "{{\"id\":0x520,\"rpm\":{},\"throttle_position_pedal\":{:.1},\"map_kpa\":{:.1},\"lambda\":{:.3}}}",
                le_i16(data, 0),
                scale_i16(le_i16(data, 2), 0.1),
                scale_i16(le_i16(data, 4), 0.1),
                scale_i16(le_i16(data, 6), 0.001)
            ))
        }
        0x521 => {
            Some(format!(
                "{{\"id\":0x521,\"lambda_a\":{:.3},\"lambda_b\":{:.3},\"ignition_angle_btdc\":{:.1},\"ignition_cut\":{:.0}}}",
                scale_i16(le_i16(data, 0), 0.001),
                scale_i16(le_i16(data, 2), 0.001),
                scale_i16(le_i16(data, 4), 0.1),
                scale_i16(le_i16(data, 6), 1.0)
            ))
        }
        0x522 => {
            Some(format!(
                "{{\"id\":0x522,\"fuel_pulsewidth_primary_ms\":{:.2},\"fuel_duty_primary\":{:.1},\"fuel_cut\":{:.0},\"vehicle_speed_kmh\":{:.1}}}",
                scale_i16(le_i16(data, 0), 0.01),
                scale_i16(le_i16(data, 2), 0.1),
                scale_i16(le_i16(data, 4), 1.0),
                scale_i16(le_i16(data, 6), 0.1)
            ))
        }
        0x523 => {
            Some(format!(
                "{{\"id\":0x523,\"undriven_wheels_avg_spd_kmh\":{:.1},\"driven_wheels_avg_spd_kmh\":{:.1},\"wheel_slip\":{:.1},\"target_slip\":{:.1}}}",
                scale_i16(le_i16(data, 0), 0.1),
                scale_i16(le_i16(data, 2), 0.1),
                scale_i16(le_i16(data, 4), 0.1),
                scale_i16(le_i16(data, 6), 0.1)
            ))
        }
        0x524 => {
            Some(format!(
                "{{\"id\":0x524,\"traction_ctrl_power_limit\":{:.1},\"lambda_corr_a\":{:.1},\"lambda_corr_b\":{:.1},\"firmware_version\":{:.3}}}",
                scale_i16(le_i16(data, 0), 0.1),
                scale_i16(le_i16(data, 2), 0.1),
                scale_i16(le_i16(data, 4), 0.1),
                scale_i16(le_i16(data, 6), 0.001)
            ))
        }
        0x526 => {
            let flags0 = data[0];
            let flags1 = data[1];
            Some(format!(
                "{{\"id\":0x526,\"throttle_blip_active\":{},\"ac_idle_up_active\":{},\"knock_detected\":{},\"brake_pedal_active\":{},\"clutch_pedal_active\":{},\"speed_limit_active\":{},\"gp_limiter_active\":{},\"user_cut_active\":{},\"ecu_is_logging\":{},\"nitrous_active\":{},\"spare_1_7\":{},\"spare_2\":{},\"rev_limit_rpm\":{},\"spare_3\":{}}}",
                (flags0 & (1 << 5)) != 0,
                (flags0 & (1 << 6)) != 0,
                (flags0 & (1 << 7)) != 0,
                (flags1 & (1 << 0)) != 0,
                (flags1 & (1 << 1)) != 0,
                (flags1 & (1 << 2)) != 0,
                (flags1 & (1 << 3)) != 0,
                (flags1 & (1 << 4)) != 0,
                (flags1 & (1 << 5)) != 0,
                (flags1 & (1 << 6)) != 0,
                (flags1 & (1 << 7)) != 0,
                le_i16(data, 2),
                le_i16(data, 4),
                le_i16(data, 6)
            ))
        }
        0x527 => {
            Some(format!(
                "{{\"id\":0x527,\"acceleration_forward_g\":{:.2},\"acceleration_right_g\":{:.2},\"acceleration_up_g\":{:.2},\"lambda_target\":{:.3}}}",
                scale_i16(le_i16(data, 0), 0.01),
                scale_i16(le_i16(data, 2), 0.01),
                scale_i16(le_i16(data, 4), 0.01),
                scale_i16(le_i16(data, 6), 0.001)
            ))
        }
        0x528 => {
            Some(format!(
                "{{\"id\":0x528,\"knocklevel_all_peak\":{},\"knock_correction_deg\":{:.1},\"knock_count\":{},\"last_knock_cylinder\":{}}}",
                le_i16(data, 0),
                scale_i16(le_i16(data, 2), 0.1),
                le_i16(data, 4),
                le_i16(data, 6)
            ))
        }
        0x530 => {
            Some(format!(
                "{{\"id\":0x530,\"battery_voltage_v\":{:.2},\"baro_pressure_kpa\":{:.1},\"intake_air_temp_c\":{:.1},\"coolant_temp_c\":{:.1}}}",
                scale_i16(le_i16(data, 0), 0.01),
                scale_i16(le_i16(data, 2), 0.1),
                scale_i16(le_i16(data, 4), 0.1),
                scale_i16(le_i16(data, 6), 0.1)
            ))
        }
        0x531 => {
            Some(format!(
                "{{\"id\":0x531,\"total_fuel_trim_pct\":{:.1},\"ethanol_concentration_pct\":{:.1},\"total_ignition_comp_deg\":{:.1},\"egt1_c\":{}}}",
                scale_i16(le_i16(data, 0), 0.1),
                scale_i16(le_i16(data, 2), 0.1),
                scale_i16(le_i16(data, 4), 0.1),
                le_i16(data, 6)
            ))
        }
        0x532 => {
            Some(format!(
                "{{\"id\":0x532,\"egt2_c\":{},\"egt3_c\":{},\"egt4_c\":{},\"egt5_c\":{}}}",
                le_i16(data, 0),
                le_i16(data, 2),
                le_i16(data, 4),
                le_i16(data, 6)
            ))
        }
        0x533 => {
            Some(format!(
                "{{\"id\":0x533,\"egt6_c\":{},\"egt7_c\":{},\"egt8_c\":{},\"egt_highest_c\":{}}}",
                le_i16(data, 0),
                le_i16(data, 2),
                le_i16(data, 4),
                le_i16(data, 6)
            ))
        }
        0x534 => {
            Some(format!(
                "{{\"id\":0x534,\"egt_difference_c\":{},\"cpu_temp_c\":{},\"error_code_count\":{},\"lost_sync_count\":{}}}",
                le_i16(data, 0),
                le_i16(data, 2),
                le_i16(data, 4),
                le_i16(data, 6)
            ))
        }
        0x535 => {
            Some(format!(
                "{{\"id\":0x535,\"user_analog_input_1\":{:.1},\"user_analog_input_2\":{:.1},\"user_analog_input_3\":{:.1},\"user_analog_input_4\":{:.1}}}",
                scale_i16(le_i16(data, 0), 0.1),
                scale_i16(le_i16(data, 2), 0.1),
                scale_i16(le_i16(data, 4), 0.1),
                scale_i16(le_i16(data, 6), 0.1)
            ))
        }
        0x536 => {
            Some(format!(
                "{{\"id\":0x536,\"gear\":{},\"boost_solenoid_duty_pct\":{:.1},\"oil_pressure_kpa\":{:.1},\"oil_temp_c\":{:.1}}}",
                le_i16(data, 0),
                scale_i16(le_i16(data, 2), 0.1),
                scale_i16(le_i16(data, 4), 0.1),
                scale_i16(le_i16(data, 6), 0.1)
            ))
        }
        0x537 => {
            Some(format!(
                "{{\"id\":0x537,\"fuel_pressure_1_kpa\":{:.1},\"wastegate_pressure_kpa\":{:.1},\"coolant_pressure_kpa\":{:.1},\"boost_target_kpa\":{:.1}}}",
                scale_i16(le_i16(data, 0), 0.1),
                scale_i16(le_i16(data, 2), 0.1),
                scale_i16(le_i16(data, 4), 0.1),
                scale_i16(le_i16(data, 6), 0.1)
            ))
        }
        0x538 => {
            Some(format!(
                "{{\"id\":0x538,\"user_channel_1\":{:.1},\"user_channel_2\":{:.1},\"user_channel_3\":{:.1},\"user_channel_4\":{:.1}}}",
                scale_i16(le_i16(data, 0), 0.1),
                scale_i16(le_i16(data, 2), 0.1),
                scale_i16(le_i16(data, 4), 0.1),
                scale_i16(le_i16(data, 6), 0.1)
            ))
        }
        0x539 => {
            Some(format!(
                "{{\"id\":0x539,\"user_channel_5\":{:.1},\"user_channel_6\":{:.1},\"user_channel_7\":{:.1},\"user_channel_8\":{:.1}}}",
                scale_i16(le_i16(data, 0), 0.1),
                scale_i16(le_i16(data, 2), 0.1),
                scale_i16(le_i16(data, 4), 0.1),
                scale_i16(le_i16(data, 6), 0.1)
            ))
        }
        0x540 => {
            Some(format!(
                "{{\"id\":0x540,\"active_boost_table\":{},\"active_tune_selector\":{},\"virtual_fuel_tank_l\":{:.1},\"transmission_temp_c\":{:.1},\"differential_temp_c\":{:.1}}}",
                data[0],
                data[1],
                scale_i16(le_i16(data, 2), 0.1),
                scale_i16(le_i16(data, 4), 0.1),
                scale_i16(le_i16(data, 6), 0.1)
            ))
        }
        0x541 => {
            Some(format!(
                "{{\"id\":0x541,\"vvt_intake_cam1_deg\":{:.1},\"vvt_exhaust_cam1_deg\":{:.1},\"vvt_intake_cam2_deg\":{:.1},\"vvt_exhaust_cam2_deg\":{:.1}}}",
                scale_i16(le_i16(data, 0), 0.1),
                scale_i16(le_i16(data, 2), 0.1),
                scale_i16(le_i16(data, 4), 0.1),
                scale_i16(le_i16(data, 6), 0.1)
            ))
        }
        0x542 => {
            Some(format!(
                "{{\"id\":0x542,\"vvt_intake_cam_target_deg\":{:.1},\"vvt_exhaust_cam_target_deg\":{:.1},\"ecu_errors_code\":{},\"spare\":{}}}",
                scale_i16(le_i16(data, 0), 0.1),
                scale_i16(le_i16(data, 2), 0.1),
                le_u16(data, 4),
                le_i16(data, 6)
            ))
        }
        _ => None,
    }
}

/// The JSON text expected for a frame, or `None` where the raw frame comes back
/// (undocumented ids and texts longer than the 256-byte buffer).
fn expected(id: u32, data: &[u8]) -> Option<String> {
    match float_json(id, data) {
        Some(s) if s.len() <= 256 => Some(s),
        _ => None,
    }
}

fn check_frame(id: u32, data: &[u8]) {
    let parser = MaxxParser::new();
    let got = parser.parse(id, data);
    match (expected(id, data), got) {
        (Some(text), Ok(Message::EcuJson(e))) => {
            assert_eq!(e.json.as_str(), text, "id 0x{:03X} data {:?}", id, data)
        }
        (None, Ok(Message::CanFrame(f))) => {
            assert_eq!(f.can_id, id);
            assert_eq!(&f.data[..], &data[..8]);
            assert_eq!(f.dlc, 8);
        }
        (e, g) => panic!("id 0x{:03X} data {:?}: expected {:?}, got {:?}", id, data, e, g),
    }
}

const EDGE_VALUES: [i16; 18] = [
    0, 1, -1, 5, -5, 9, 10, 99, -99, 100, 999, -999, 1000, 12345, -12345, 32767, -32768, 4095,
];

#[test]
fn maxx_json_matches_float_formatting_on_edge_values() {
    for &id in MAXX_MESSAGE_IDS.iter() {
        for &a in EDGE_VALUES.iter() {
            for &b in EDGE_VALUES.iter() {
                let mut data = [0u8; 8];
                data[0..2].copy_from_slice(&a.to_le_bytes());
                data[2..4].copy_from_slice(&b.to_le_bytes());
                data[4..6].copy_from_slice(&b.to_le_bytes());
                data[6..8].copy_from_slice(&a.to_le_bytes());
                check_frame(id, &data);
            }
        }
    }
}

#[test]
fn maxx_json_matches_float_formatting_on_pseudo_random_frames() {
    let mut state: u64 = 0x2545_F491_4F6C_DD1D;
    for _ in 0..4000 {
        let mut data = [0u8; 8];
        for b in data.iter_mut() {
            state = state.wrapping_mul(6364136223846793005).wrapping_add(1442695040888963407);
            *b = (state >> 56) as u8;
        }
        for &id in MAXX_MESSAGE_IDS.iter() {
            check_frame(id, &data);
        }
    }
}

#[test]
fn maxx_json_on_generated_frames() {
    for counter in [0u8, 1, 17, 128, 254] {
        let g = MaxxTestGenerator::with_counter(counter);
        for &id in MAXX_MESSAGE_IDS.iter() {
            let (frame_id, data) = g.generate_frame(id);
            check_frame(frame_id, &data);
        }
    }
}

#[test]
fn maxx_engine_frame_json_text() {
    let data = [0xDC, 0x05, 0xDC, 0x00, 0xE8, 0x03, 0xF2, 0x03];
    match MaxxParser::new().parse(0x520, &data) {
        Ok(Message::EcuJson(e)) => assert_eq!(
            e.json.as_str(),
            r#"{"id":0x520,"rpm":1500,"throttle_position_pedal":22.0,"map_kpa":100.0,"lambda":1.010}"#
        ),
        other => panic!("unexpected {:?}", other),
    }
    let negative = [0xFB, 0xFF, 0x00, 0x80, 0x01, 0x00, 0xFF, 0xFF];
    match MaxxParser::new().parse(0x521, &negative) {
        Ok(Message::EcuJson(e)) => assert_eq!(
            e.json.as_str(),
            r#"{"id":0x521,"lambda_a":-0.005,"lambda_b":-32.768,"ignition_angle_btdc":0.1,"ignition_cut":-1}"#
        ),
        other => panic!("unexpected {:?}", other),
    }
}

#[test]
fn maxx_flag_frame_too_long_for_the_buffer_is_forwarded_raw() {
    for data in [[0xFF; 8], [0x00; 8], [0x20, 0x03, 0, 0, 0x58, 0x1B, 0, 0]] {
        match MaxxParser::new().parse(0x526, &data) {
            Ok(Message::CanFrame(f)) => {
                assert_eq!(f.can_id, 0x526);
                assert_eq!(f.data, data);
                assert_eq!(f.dlc, 8);
            }
            other => panic!("unexpected {:?}", other),
        }
    }
}

#[test]
fn maxx_short_or_unknown_frames_are_forwarded_raw() {
    let parser = MaxxParser::new();
    match parser.parse(0x520, &[1, 2, 3]) {
        Ok(Message::CanFrame(f)) => {
            assert_eq!(f.can_id, 0x520);
            assert_eq!(f.data, [1, 2, 3, 0, 0, 0, 0, 0]);
            assert_eq!(f.dlc, 3);
        }
        other => panic!("unexpected {:?}", other),
    }
    match parser.parse(0x525, &[1, 2, 3, 4, 5, 6, 7, 8]) {
        Ok(Message::CanFrame(f)) => {
            assert_eq!(f.can_id, 0x525);
            assert_eq!(f.data, [1, 2, 3, 4, 5, 6, 7, 8]);
        }
        other => panic!("unexpected {:?}", other),
    }
}

#[test]
fn maxx_parser_owns_0x520_to_0x542() {
    let parser = MaxxParser::new();
    assert!(parser.matches_id(0x520));
    assert!(parser.matches_id(0x542));
    assert!(parser.matches_id(0x525));
    assert!(!parser.matches_id(0x51F));
    assert!(!parser.matches_id(0x543));
}

#[test]
fn generated_maxx_frames_parse_back_as_json() {
    let p = MaxxParser::new();
    for counter in [0u8, 3, 99, 200, 254] {
        let g = MaxxTestGenerator::with_counter(counter);
        for &id in MAXX_MESSAGE_IDS.iter() {
            let (frame_id, data) = g.generate_frame(id);
            let r = p.parse(frame_id, &data);
            if id == 0x526 {
                assert!(matches!(r, Ok(Message::CanFrame(f)) if f.can_id == 0x526 && f.data == data));
            } else {
                assert!(matches!(r, Ok(Message::EcuJson(_))), "id 0x{:03X} counter {}", id, counter);
            }
        }
    }
}
