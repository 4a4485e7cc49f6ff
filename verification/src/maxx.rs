//! MaxxECU default CAN protocol.
//!
//! Implements the documented 11-bit CAN output map of the MaxxECU default CAN
//! output. Known frames become JSON messages for UDP logging; anything else is
//! forwarded as a raw frame so that the receiver stays robust under a wrong
//! initialization.
//!
//! Every documented frame carries four little-endian 16-bit values (0x526 and
//! 0x540 mix in flag bits and bytes). Scaled values are printed as fixed-point
//! decimals: a raw value `r` with scale `10^-k` prints as `r / 10^k` with `k`
//! decimals.

use vstd::prelude::*;
use vstd::string::StringSliceAdditionalSpecFns;

use crate::scs::twos16;
use crate::ecu::{raw_frame_model, raw_frame_to_message};
use crate::messages::{EcuJsonData, Message, MessageModel};
use crate::text::{
    dec_digits, fits, fixed_text, int_text, push_decimal, push_fixed, push_int, push_piece, text_bytes,
    text_new,
};

verus! {

/// The documented MaxxECU CAN ids.
pub const MAXX_MESSAGE_IDS: [u32; 21] = [
    0x520, 0x521, 0x522, 0x523, 0x524, 0x526, 0x527, 0x528,
    0x530, 0x531, 0x532, 0x533, 0x534, 0x535, 0x536, 0x537, 0x538, 0x539,
    0x540, 0x541, 0x542,
];

/// How one value of a frame is read and printed.
#[derive(Copy, Clone, Debug)]
pub enum Field {
    /// little-endian signed 16-bit value at the offset, printed as an integer
    Int(usize),
    /// little-endian unsigned 16-bit value at the offset, printed as an integer
    Unsigned(usize),
    /// the byte at the offset, printed as an integer
    Byte(usize),
    /// little-endian signed 16-bit value at the offset, printed with the given
    /// number of decimals (the value scaled by `10^-decimals`)
    Fixed(usize, u32),
    /// the bit selected by the mask in the byte at the offset, printed as
    /// `true` / `false`
    Flag(usize, u8),
}

/// One piece of a JSON text: literal text or a value of the frame.
#[derive(Copy, Clone, Debug)]
pub enum Piece {
    Lit(&'static str),
    Value(Field),
}

/// Unsigned little-endian 16-bit value at `o`.
pub open spec fn le_u16_at(d: Seq<u8>, o: int) -> int {
    d[o] + 256 * d[o + 1]
}

/// Signed (two's complement) little-endian 16-bit value at `o`.
pub open spec fn le_i16_at(d: Seq<u8>, o: int) -> int {
    let u = le_u16_at(d, o);
    if u >= 32768 {
        u - 65536
    } else {
        u
    }
}

pub open spec fn render_field(f: Field, d: Seq<u8>) -> Seq<u8> {
    match f {
        Field::Int(o) => int_text(le_i16_at(d, o as int)),
        Field::Unsigned(o) => dec_digits(le_u16_at(d, o as int) as nat),
        Field::Byte(o) => dec_digits(d[o as int] as nat),
        Field::Fixed(o, k) => fixed_text(le_i16_at(d, o as int), k as nat),
        Field::Flag(o, mask) => if d[o as int] & mask != 0 {
            "true".spec_bytes()
        } else {
            "false".spec_bytes()
        },
    }
}

pub open spec fn render_piece(p: Piece, d: Seq<u8>) -> Seq<u8> {
    match p {
        Piece::Lit(s) => s.spec_bytes(),
        Piece::Value(f) => render_field(f, d),
    }
}

/// The text of a layout filled with the values of frame `d`.
pub open spec fn render(ps: Seq<Piece>, d: Seq<u8>) -> Seq<u8>
    decreases ps.len(),
{
    if ps.len() == 0 {
        seq![]
    } else {
        render(ps.drop_last(), d) + render_piece(ps.last(), d)
    }
}

/// Fields read inside an 8-byte frame, with 1 to 3 decimals.
pub open spec fn field_ok(f: Field) -> bool {
    match f {
        Field::Int(o) => o <= 6,
        Field::Unsigned(o) => o <= 6,
        Field::Byte(o) => o <= 7,
        Field::Fixed(o, k) => o <= 6 && 1 <= k <= 3,
        Field::Flag(o, mask) => o <= 7,
    }
}

pub open spec fn layout_ok(ps: Seq<Piece>) -> bool {
    forall|i: int| 0 <= i < ps.len() ==> (#[trigger] ps[i] matches Piece::Value(f) ==> field_ok(f))
}

/// The JSON layout of each documented frame: the text printed for frame
/// `id` is `render(layout, data)`.
pub open spec fn maxx_layout(id: u32) -> Option<Seq<Piece>> {
    if id == 0x520 {
        Some(seq![
            Piece::Lit("{\"id\":0x520,\"rpm\":"),
            Piece::Value(Field::Int(0)),
            Piece::Lit(",\"throttle_position_pedal\":"),
            Piece::Value(Field::Fixed(2, 1)),
            Piece::Lit(",\"map_kpa\":"),
            Piece::Value(Field::Fixed(4, 1)),
            Piece::Lit(",\"lambda\":"),
            Piece::Value(Field::Fixed(6, 3)),
            Piece::Lit("}"),
        ])
    } else if id == 0x521 {
        Some(seq![
            Piece::Lit("{\"id\":0x521,\"lambda_a\":"),
            Piece::Value(Field::Fixed(0, 3)),
            Piece::Lit(",\"lambda_b\":"),
            Piece::Value(Field::Fixed(2, 3)),
            Piece::Lit(",\"ignition_angle_btdc\":"),
            Piece::Value(Field::Fixed(4, 1)),
            Piece::Lit(",\"ignition_cut\":"),
            Piece::Value(Field::Int(6)),
            Piece::Lit("}"),
        ])
    } else if id == 0x522 {
        Some(seq![
            Piece::Lit("{\"id\":0x522,\"fuel_pulsewidth_primary_ms\":"),
            Piece::Value(Field::Fixed(0, 2)),
            Piece::Lit(",\"fuel_duty_primary\":"),
            Piece::Value(Field::Fixed(2, 1)),
            Piece::Lit(",\"fuel_cut\":"),
            Piece::Value(Field::Int(4)),
            Piece::Lit(",\"vehicle_speed_kmh\":"),
            Piece::Value(Field::Fixed(6, 1)),
            Piece::Lit("}"),
        ])
    } else if id == 0x523 {
        Some(seq![
            Piece::Lit("{\"id\":0x523,\"undriven_wheels_avg_spd_kmh\":"),
            Piece::Value(Field::Fixed(0, 1)),
            Piece::Lit(",\"driven_wheels_avg_spd_kmh\":"),
            Piece::Value(Field::Fixed(2, 1)),
            Piece::Lit(",\"wheel_slip\":"),
            Piece::Value(Field::Fixed(4, 1)),
            Piece::Lit(",\"target_slip\":"),
            Piece::Value(Field::Fixed(6, 1)),
            Piece::Lit("}"),
        ])
    } else if id == 0x524 {
        Some(seq![
            Piece::Lit("{\"id\":0x524,\"traction_ctrl_power_limit\":"),
            Piece::Value(Field::Fixed(0, 1)),
            Piece::Lit(",\"lambda_corr_a\":"),
            Piece::Value(Field::Fixed(2, 1)),
            Piece::Lit(",\"lambda_corr_b\":"),
            Piece::Value(Field::Fixed(4, 1)),
            Piece::Lit(",\"firmware_version\":"),
            Piece::Value(Field::Fixed(6, 3)),
            Piece::Lit("}"),
        ])
    } else if id == 0x526 {
        Some(seq![
            Piece::Lit("{\"id\":0x526,\"throttle_blip_active\":"),
            Piece::Value(Field::Flag(0, 32)),
            Piece::Lit(",\"ac_idle_up_active\":"),
            Piece::Value(Field::Flag(0, 64)),
            Piece::Lit(",\"knock_detected\":"),
            Piece::Value(Field::Flag(0, 128)),
            Piece::Lit(",\"brake_pedal_active\":"),
            Piece::Value(Field::Flag(1, 1)),
            Piece::Lit(",\"clutch_pedal_active\":"),
            Piece::Value(Field::Flag(1, 2)),
            Piece::Lit(",\"speed_limit_active\":"),
            Piece::Value(Field::Flag(1, 4)),
            Piece::Lit(",\"gp_limiter_active\":"),
            Piece::Value(Field::Flag(1, 8)),
            Piece::Lit(",\"user_cut_active\":"),
            Piece::Value(Field::Flag(1, 16)),
            Piece::Lit(",\"ecu_is_logging\":"),
            Piece::Value(Field::Flag(1, 32)),
            Piece::Lit(",\"nitrous_active\":"),
            Piece::Value(Field::Flag(1, 64)),
            Piece::Lit(",\"spare_1_7\":"),
            Piece::Value(Field::Flag(1, 128)),
            Piece::Lit(",\"spare_2\":"),
            Piece::Value(Field::Int(2)),
            Piece::Lit(",\"rev_limit_rpm\":"),
            Piece::Value(Field::Int(4)),
            Piece::Lit(",\"spare_3\":"),
            Piece::Value(Field::Int(6)),
            Piece::Lit("}"),
        ])
    } else if id == 0x527 {
        Some(seq![
            Piece::Lit("{\"id\":0x527,\"acceleration_forward_g\":"),
            Piece::Value(Field::Fixed(0, 2)),
            Piece::Lit(",\"acceleration_right_g\":"),
            Piece::Value(Field::Fixed(2, 2)),
            Piece::Lit(",\"acceleration_up_g\":"),
            Piece::Value(Field::Fixed(4, 2)),
            Piece::Lit(",\"lambda_target\":"),
            Piece::Value(Field::Fixed(6, 3)),
            Piece::Lit("}"),
        ])
    } else if id == 0x528 {
        Some(seq![
            Piece::Lit("{\"id\":0x528,\"knocklevel_all_peak\":"),
            Piece::Value(Field::Int(0)),
            Piece::Lit(",\"knock_correction_deg\":"),
            Piece::Value(Field::Fixed(2, 1)),
            Piece::Lit(",\"knock_count\":"),
            Piece::Value(Field::Int(4)),
            Piece::Lit(",\"last_knock_cylinder\":"),
            Piece::Value(Field::Int(6)),
            Piece::Lit("}"),
        ])
    } else if id == 0x530 {
        Some(seq![
            Piece::Lit("{\"id\":0x530,\"battery_voltage_v\":"),
            Piece::Value(Field::Fixed(0, 2)),
            Piece::Lit(",\"baro_pressure_kpa\":"),
            Piece::Value(Field::Fixed(2, 1)),
            Piece::Lit(",\"intake_air_temp_c\":"),
            Piece::Value(Field::Fixed(4, 1)),
            Piece::Lit(",\"coolant_temp_c\":"),
            Piece::Value(Field::Fixed(6, 1)),
            Piece::Lit("}"),
        ])
    } else if id == 0x531 {
        Some(seq![
            Piece::Lit("{\"id\":0x531,\"total_fuel_trim_pct\":"),
            Piece::Value(Field::Fixed(0, 1)),
            Piece::Lit(",\"ethanol_concentration_pct\":"),
            Piece::Value(Field::Fixed(2, 1)),
            Piece::Lit(",\"total_ignition_comp_deg\":"),
            Piece::Value(Field::Fixed(4, 1)),
            Piece::Lit(",\"egt1_c\":"),
            Piece::Value(Field::Int(6)),
            Piece::Lit("}"),
        ])
    } else if id == 0x532 {
        Some(seq![
            Piece::Lit("{\"id\":0x532,\"egt2_c\":"),
            Piece::Value(Field::Int(0)),
            Piece::Lit(",\"egt3_c\":"),
            Piece::Value(Field::Int(2)),
            Piece::Lit(",\"egt4_c\":"),
            Piece::Value(Field::Int(4)),
            Piece::Lit(",\"egt5_c\":"),
            Piece::Value(Field::Int(6)),
            Piece::Lit("}"),
        ])
    } else if id == 0x533 {
        Some(seq![
            Piece::Lit("{\"id\":0x533,\"egt6_c\":"),
            Piece::Value(Field::Int(0)),
            Piece::Lit(",\"egt7_c\":"),
            Piece::Value(Field::Int(2)),
            Piece::Lit(",\"egt8_c\":"),
            Piece::Value(Field::Int(4)),
            Piece::Lit(",\"egt_highest_c\":"),
            Piece::Value(Field::Int(6)),
            Piece::Lit("}"),
        ])
    } else if id == 0x534 {
        Some(seq![
            Piece::Lit("{\"id\":0x534,\"egt_difference_c\":"),
            Piece::Value(Field::Int(0)),
            Piece::Lit(",\"cpu_temp_c\":"),
            Piece::Value(Field::Int(2)),
            Piece::Lit(",\"error_code_count\":"),
            Piece::Value(Field::Int(4)),
            Piece::Lit(",\"lost_sync_count\":"),
            Piece::Value(Field::Int(6)),
            Piece::Lit("}"),
        ])
    } else if id == 0x535 {
        Some(seq![
            Piece::Lit("{\"id\":0x535,\"user_analog_input_1\":"),
            Piece::Value(Field::Fixed(0, 1)),
            Piece::Lit(",\"user_analog_input_2\":"),
            Piece::Value(Field::Fixed(2, 1)),
            Piece::Lit(",\"user_analog_input_3\":"),
            Piece::Value(Field::Fixed(4, 1)),
            Piece::Lit(",\"user_analog_input_4\":"),
            Piece::Value(Field::Fixed(6, 1)),
            Piece::Lit("}"),
        ])
    } else if id == 0x536 {
        Some(seq![
            Piece::Lit("{\"id\":0x536,\"gear\":"),
            Piece::Value(Field::Int(0)),
            Piece::Lit(",\"boost_solenoid_duty_pct\":"),
            Piece::Value(Field::Fixed(2, 1)),
            Piece::Lit(",\"oil_pressure_kpa\":"),
            Piece::Value(Field::Fixed(4, 1)),
            Piece::Lit(",\"oil_temp_c\":"),
            Piece::Value(Field::Fixed(6, 1)),
            Piece::Lit("}"),
        ])
    } else if id == 0x537 {
        Some(seq![
            Piece::Lit("{\"id\":0x537,\"fuel_pressure_1_kpa\":"),
            Piece::Value(Field::Fixed(0, 1)),
            Piece::Lit(",\"wastegate_pressure_kpa\":"),
            Piece::Value(Field::Fixed(2, 1)),
            Piece::Lit(",\"coolant_pressure_kpa\":"),
            Piece::Value(Field::Fixed(4, 1)),
            Piece::Lit(",\"boost_target_kpa\":"),
            Piece::Value(Field::Fixed(6, 1)),
            Piece::Lit("}"),
        ])
    } else if id == 0x538 {
        Some(seq![
            Piece::Lit("{\"id\":0x538,\"user_channel_1\":"),
            Piece::Value(Field::Fixed(0, 1)),
            Piece::Lit(",\"user_channel_2\":"),
            Piece::Value(Field::Fixed(2, 1)),
            Piece::Lit(",\"user_channel_3\":"),
            Piece::Value(Field::Fixed(4, 1)),
            Piece::Lit(",\"user_channel_4\":"),
            Piece::Value(Field::Fixed(6, 1)),
            Piece::Lit("}"),
        ])
    } else if id == 0x539 {
        Some(seq![
            Piece::Lit("{\"id\":0x539,\"user_channel_5\":"),
            Piece::Value(Field::Fixed(0, 1)),
            Piece::Lit(",\"user_channel_6\":"),
            Piece::Value(Field::Fixed(2, 1)),
            Piece::Lit(",\"user_channel_7\":"),
            Piece::Value(Field::Fixed(4, 1)),
            Piece::Lit(",\"user_channel_8\":"),
            Piece::Value(Field::Fixed(6, 1)),
            Piece::Lit("}"),
        ])
    } else if id == 0x540 {
        Some(seq![
            Piece::Lit("{\"id\":0x540,\"active_boost_table\":"),
            Piece::Value(Field::Byte(0)),
            Piece::Lit(",\"active_tune_selector\":"),
            Piece::Value(Field::Byte(1)),
            Piece::Lit(",\"virtual_fuel_tank_l\":"),
            Piece::Value(Field::Fixed(2, 1)),
            Piece::Lit(",\"transmission_temp_c\":"),
            Piece::Value(Field::Fixed(4, 1)),
            Piece::Lit(",\"differential_temp_c\":"),
            Piece::Value(Field::Fixed(6, 1)),
            Piece::Lit("}"),
        ])
    } else if id == 0x541 {
        Some(seq![
            Piece::Lit("{\"id\":0x541,\"vvt_intake_cam1_deg\":"),
            Piece::Value(Field::Fixed(0, 1)),
            Piece::Lit(",\"vvt_exhaust_cam1_deg\":"),
            Piece::Value(Field::Fixed(2, 1)),
            Piece::Lit(",\"vvt_intake_cam2_deg\":"),
            Piece::Value(Field::Fixed(4, 1)),
            Piece::Lit(",\"vvt_exhaust_cam2_deg\":"),
            Piece::Value(Field::Fixed(6, 1)),
            Piece::Lit("}"),
        ])
    } else if id == 0x542 {
        Some(seq![
            Piece::Lit("{\"id\":0x542,\"vvt_intake_cam_target_deg\":"),
            Piece::Value(Field::Fixed(0, 1)),
            Piece::Lit(",\"vvt_exhaust_cam_target_deg\":"),
            Piece::Value(Field::Fixed(2, 1)),
            Piece::Lit(",\"ecu_errors_code\":"),
            Piece::Value(Field::Unsigned(4)),
            Piece::Lit(",\"spare\":"),
            Piece::Value(Field::Int(6)),
            Piece::Lit("}"),
        ])
    } else {
        None
    }
}

/// The JSON text of a documented frame with the values of `d`.
pub open spec fn maxx_json(id: u32, d: Seq<u8>) -> Option<Seq<u8>> {
    match maxx_layout(id) {
        Some(ps) => Some(render(ps, d)),
        None => None,
    }
}

/// What `MaxxParser::parse` answers for frame `id` with payload `d`: a JSON
/// message for documented frames of at least 8 bytes whose text fits in the
/// 256-byte buffer, and the raw frame for everything else (short frames,
/// undocumented ids, and texts that do not fit), so the receiver always gets
/// the frame.
pub open spec fn maxx_parse(id: u32, d: Seq<u8>) -> MessageModel {
    if d.len() < 8 {
        raw_frame_model(id, d)
    } else {
        match maxx_json(id, d) {
            Some(text) => if text.len() <= 256 {
                MessageModel::EcuJson(text)
            } else {
                raw_frame_model(id, d)
            },
            None => raw_frame_model(id, d),
        }
    }
}

fn layout(id: u32) -> (r: Option<Vec<Piece>>)
    ensures
        match r {
            Some(v) => maxx_layout(id) == Some(v@) && layout_ok(v@),
            None => maxx_layout(id) is None,
        },
{
    let r = match id {
        0x520 => Some(vec![
            Piece::Lit("{\"id\":0x520,\"rpm\":"),
            Piece::Value(Field::Int(0)),
            Piece::Lit(",\"throttle_position_pedal\":"),
            Piece::Value(Field::Fixed(2, 1)),
            Piece::Lit(",\"map_kpa\":"),
            Piece::Value(Field::Fixed(4, 1)),
            Piece::Lit(",\"lambda\":"),
            Piece::Value(Field::Fixed(6, 3)),
            Piece::Lit("}"),
        ]),
        0x521 => Some(vec![
            Piece::Lit("{\"id\":0x521,\"lambda_a\":"),
            Piece::Value(Field::Fixed(0, 3)),
            Piece::Lit(",\"lambda_b\":"),
            Piece::Value(Field::Fixed(2, 3)),
            Piece::Lit(",\"ignition_angle_btdc\":"),
            Piece::Value(Field::Fixed(4, 1)),
            Piece::Lit(",\"ignition_cut\":"),
            Piece::Value(Field::Int(6)),
            Piece::Lit("}"),
        ]),
        0x522 => Some(vec![
            Piece::Lit("{\"id\":0x522,\"fuel_pulsewidth_primary_ms\":"),
            Piece::Value(Field::Fixed(0, 2)),
            Piece::Lit(",\"fuel_duty_primary\":"),
            Piece::Value(Field::Fixed(2, 1)),
            Piece::Lit(",\"fuel_cut\":"),
            Piece::Value(Field::Int(4)),
            Piece::Lit(",\"vehicle_speed_kmh\":"),
            Piece::Value(Field::Fixed(6, 1)),
            Piece::Lit("}"),
        ]),
        0x523 => Some(vec![
            Piece::Lit("{\"id\":0x523,\"undriven_wheels_avg_spd_kmh\":"),
            Piece::Value(Field::Fixed(0, 1)),
            Piece::Lit(",\"driven_wheels_avg_spd_kmh\":"),
            Piece::Value(Field::Fixed(2, 1)),
            Piece::Lit(",\"wheel_slip\":"),
            Piece::Value(Field::Fixed(4, 1)),
            Piece::Lit(",\"target_slip\":"),
            Piece::Value(Field::Fixed(6, 1)),
            Piece::Lit("}"),
        ]),
        0x524 => Some(vec![
            Piece::Lit("{\"id\":0x524,\"traction_ctrl_power_limit\":"),
            Piece::Value(Field::Fixed(0, 1)),
            Piece::Lit(",\"lambda_corr_a\":"),
            Piece::Value(Field::Fixed(2, 1)),
            Piece::Lit(",\"lambda_corr_b\":"),
            Piece::Value(Field::Fixed(4, 1)),
            Piece::Lit(",\"firmware_version\":"),
            Piece::Value(Field::Fixed(6, 3)),
            Piece::Lit("}"),
        ]),
        0x526 => Some(vec![
            Piece::Lit("{\"id\":0x526,\"throttle_blip_active\":"),
            Piece::Value(Field::Flag(0, 32)),
            Piece::Lit(",\"ac_idle_up_active\":"),
            Piece::Value(Field::Flag(0, 64)),
            Piece::Lit(",\"knock_detected\":"),
            Piece::Value(Field::Flag(0, 128)),
            Piece::Lit(",\"brake_pedal_active\":"),
            Piece::Value(Field::Flag(1, 1)),
            Piece::Lit(",\"clutch_pedal_active\":"),
            Piece::Value(Field::Flag(1, 2)),
            Piece::Lit(",\"speed_limit_active\":"),
            Piece::Value(Field::Flag(1, 4)),
            Piece::Lit(",\"gp_limiter_active\":"),
            Piece::Value(Field::Flag(1, 8)),
            Piece::Lit(",\"user_cut_active\":"),
            Piece::Value(Field::Flag(1, 16)),
            Piece::Lit(",\"ecu_is_logging\":"),
            Piece::Value(Field::Flag(1, 32)),
            Piece::Lit(",\"nitrous_active\":"),
            Piece::Value(Field::Flag(1, 64)),
            Piece::Lit(",\"spare_1_7\":"),
            Piece::Value(Field::Flag(1, 128)),
            Piece::Lit(",\"spare_2\":"),
            Piece::Value(Field::Int(2)),
            Piece::Lit(",\"rev_limit_rpm\":"),
            Piece::Value(Field::Int(4)),
            Piece::Lit(",\"spare_3\":"),
            Piece::Value(Field::Int(6)),
            Piece::Lit("}"),
        ]),
        0x527 => Some(vec![
            Piece::Lit("{\"id\":0x527,\"acceleration_forward_g\":"),
            Piece::Value(Field::Fixed(0, 2)),
            Piece::Lit(",\"acceleration_right_g\":"),
            Piece::Value(Field::Fixed(2, 2)),
            Piece::Lit(",\"acceleration_up_g\":"),
            Piece::Value(Field::Fixed(4, 2)),
            Piece::Lit(",\"lambda_target\":"),
            Piece::Value(Field::Fixed(6, 3)),
            Piece::Lit("}"),
        ]),
        0x528 => Some(vec![
            Piece::Lit("{\"id\":0x528,\"knocklevel_all_peak\":"),
            Piece::Value(Field::Int(0)),
            Piece::Lit(",\"knock_correction_deg\":"),
            Piece::Value(Field::Fixed(2, 1)),
            Piece::Lit(",\"knock_count\":"),
            Piece::Value(Field::Int(4)),
            Piece::Lit(",\"last_knock_cylinder\":"),
            Piece::Value(Field::Int(6)),
            Piece::Lit("}"),
        ]),
        0x530 => Some(vec![
            Piece::Lit("{\"id\":0x530,\"battery_voltage_v\":"),
            Piece::Value(Field::Fixed(0, 2)),
            Piece::Lit(",\"baro_pressure_kpa\":"),
            Piece::Value(Field::Fixed(2, 1)),
            Piece::Lit(",\"intake_air_temp_c\":"),
            Piece::Value(Field::Fixed(4, 1)),
            Piece::Lit(",\"coolant_temp_c\":"),
            Piece::Value(Field::Fixed(6, 1)),
            Piece::Lit("}"),
        ]),
        0x531 => Some(vec![
            Piece::Lit("{\"id\":0x531,\"total_fuel_trim_pct\":"),
            Piece::Value(Field::Fixed(0, 1)),
            Piece::Lit(",\"ethanol_concentration_pct\":"),
            Piece::Value(Field::Fixed(2, 1)),
            Piece::Lit(",\"total_ignition_comp_deg\":"),
            Piece::Value(Field::Fixed(4, 1)),
            Piece::Lit(",\"egt1_c\":"),
            Piece::Value(Field::Int(6)),
            Piece::Lit("}"),
        ]),
        0x532 => Some(vec![
            Piece::Lit("{\"id\":0x532,\"egt2_c\":"),
            Piece::Value(Field::Int(0)),
            Piece::Lit(",\"egt3_c\":"),
            Piece::Value(Field::Int(2)),
            Piece::Lit(",\"egt4_c\":"),
            Piece::Value(Field::Int(4)),
            Piece::Lit(",\"egt5_c\":"),
            Piece::Value(Field::Int(6)),
            Piece::Lit("}"),
        ]),
        0x533 => Some(vec![
            Piece::Lit("{\"id\":0x533,\"egt6_c\":"),
            Piece::Value(Field::Int(0)),
            Piece::Lit(",\"egt7_c\":"),
            Piece::Value(Field::Int(2)),
            Piece::Lit(",\"egt8_c\":"),
            Piece::Value(Field::Int(4)),
            Piece::Lit(",\"egt_highest_c\":"),
            Piece::Value(Field::Int(6)),
            Piece::Lit("}"),
        ]),
        0x534 => Some(vec![
            Piece::Lit("{\"id\":0x534,\"egt_difference_c\":"),
            Piece::Value(Field::Int(0)),
            Piece::Lit(",\"cpu_temp_c\":"),
            Piece::Value(Field::Int(2)),
            Piece::Lit(",\"error_code_count\":"),
            Piece::Value(Field::Int(4)),
            Piece::Lit(",\"lost_sync_count\":"),
            Piece::Value(Field::Int(6)),
            Piece::Lit("}"),
        ]),
        0x535 => Some(vec![
            Piece::Lit("{\"id\":0x535,\"user_analog_input_1\":"),
            Piece::Value(Field::Fixed(0, 1)),
            Piece::Lit(",\"user_analog_input_2\":"),
            Piece::Value(Field::Fixed(2, 1)),
            Piece::Lit(",\"user_analog_input_3\":"),
            Piece::Value(Field::Fixed(4, 1)),
            Piece::Lit(",\"user_analog_input_4\":"),
            Piece::Value(Field::Fixed(6, 1)),
            Piece::Lit("}"),
        ]),
        0x536 => Some(vec![
            Piece::Lit("{\"id\":0x536,\"gear\":"),
            Piece::Value(Field::Int(0)),
            Piece::Lit(",\"boost_solenoid_duty_pct\":"),
            Piece::Value(Field::Fixed(2, 1)),
            Piece::Lit(",\"oil_pressure_kpa\":"),
            Piece::Value(Field::Fixed(4, 1)),
            Piece::Lit(",\"oil_temp_c\":"),
            Piece::Value(Field::Fixed(6, 1)),
            Piece::Lit("}"),
        ]),
        0x537 => Some(vec![
            Piece::Lit("{\"id\":0x537,\"fuel_pressure_1_kpa\":"),
            Piece::Value(Field::Fixed(0, 1)),
            Piece::Lit(",\"wastegate_pressure_kpa\":"),
            Piece::Value(Field::Fixed(2, 1)),
            Piece::Lit(",\"coolant_pressure_kpa\":"),
            Piece::Value(Field::Fixed(4, 1)),
            Piece::Lit(",\"boost_target_kpa\":"),
            Piece::Value(Field::Fixed(6, 1)),
            Piece::Lit("}"),
        ]),
        0x538 => Some(vec![
            Piece::Lit("{\"id\":0x538,\"user_channel_1\":"),
            Piece::Value(Field::Fixed(0, 1)),
            Piece::Lit(",\"user_channel_2\":"),
            Piece::Value(Field::Fixed(2, 1)),
            Piece::Lit(",\"user_channel_3\":"),
            Piece::Value(Field::Fixed(4, 1)),
            Piece::Lit(",\"user_channel_4\":"),
            Piece::Value(Field::Fixed(6, 1)),
            Piece::Lit("}"),
        ]),
        0x539 => Some(vec![
            Piece::Lit("{\"id\":0x539,\"user_channel_5\":"),
            Piece::Value(Field::Fixed(0, 1)),
            Piece::Lit(",\"user_channel_6\":"),
            Piece::Value(Field::Fixed(2, 1)),
            Piece::Lit(",\"user_channel_7\":"),
            Piece::Value(Field::Fixed(4, 1)),
            Piece::Lit(",\"user_channel_8\":"),
            Piece::Value(Field::Fixed(6, 1)),
            Piece::Lit("}"),
        ]),
        0x540 => Some(vec![
            Piece::Lit("{\"id\":0x540,\"active_boost_table\":"),
            Piece::Value(Field::Byte(0)),
            Piece::Lit(",\"active_tune_selector\":"),
            Piece::Value(Field::Byte(1)),
            Piece::Lit(",\"virtual_fuel_tank_l\":"),
            Piece::Value(Field::Fixed(2, 1)),
            Piece::Lit(",\"transmission_temp_c\":"),
            Piece::Value(Field::Fixed(4, 1)),
            Piece::Lit(",\"differential_temp_c\":"),
            Piece::Value(Field::Fixed(6, 1)),
            Piece::Lit("}"),
        ]),
        0x541 => Some(vec![
            Piece::Lit("{\"id\":0x541,\"vvt_intake_cam1_deg\":"),
            Piece::Value(Field::Fixed(0, 1)),
            Piece::Lit(",\"vvt_exhaust_cam1_deg\":"),
            Piece::Value(Field::Fixed(2, 1)),
            Piece::Lit(",\"vvt_intake_cam2_deg\":"),
            Piece::Value(Field::Fixed(4, 1)),
            Piece::Lit(",\"vvt_exhaust_cam2_deg\":"),
            Piece::Value(Field::Fixed(6, 1)),
            Piece::Lit("}"),
        ]),
        0x542 => Some(vec![
            Piece::Lit("{\"id\":0x542,\"vvt_intake_cam_target_deg\":"),
            Piece::Value(Field::Fixed(0, 1)),
            Piece::Lit(",\"vvt_exhaust_cam_target_deg\":"),
            Piece::Value(Field::Fixed(2, 1)),
            Piece::Lit(",\"ecu_errors_code\":"),
            Piece::Value(Field::Unsigned(4)),
            Piece::Lit(",\"spare\":"),
            Piece::Value(Field::Int(6)),
            Piece::Lit("}"),
        ]),
        _ => None,
    };
    proof {
        if let Some(v) = &r {
            assert(maxx_layout(id) == Some(v@));
            assert forall|i: int| 0 <= i < v@.len() implies (#[trigger] v@[i] matches Piece::Value(f)
                ==> field_ok(f)) by {}
        }
    }
    r
}

/// Unsigned little-endian 16-bit value at `offset`.
fn le_u16(data: &[u8], offset: usize) -> (v: u16)
    requires
        offset + 1 < data@.len(),
    ensures
        v as int == le_u16_at(data@, offset as int),
{
    data[offset] as u16 + (data[offset + 1] as u16) * 256
}

/// Signed little-endian 16-bit value at `offset`.
fn le_i16(data: &[u8], offset: usize) -> (v: i16)
    requires
        offset + 1 < data@.len(),
    ensures
        v as int == le_i16_at(data@, offset as int),
{
    let u = le_u16(data, offset);
    if u >= 32768 {
        (u as i32 - 65536) as i16
    } else {
        u as i16
    }
}

fn push_field(s: &mut heapless::String<256>, f: Field, data: &[u8]) -> (ok: bool)
    requires
        field_ok(f),
        data@.len() >= 8,
        text_bytes(*old(s)).len() <= 256,
    ensures
        ok == fits(text_bytes(*old(s)), render_field(f, data@)),
        ok ==> text_bytes(*final(s)) == text_bytes(*old(s)) + render_field(f, data@),
{
    match f {
        Field::Int(o) => push_int(s, le_i16(data, o) as i32),
        Field::Unsigned(o) => push_decimal(s, le_u16(data, o) as u32),
        Field::Byte(o) => push_decimal(s, data[o] as u32),
        Field::Fixed(o, k) => push_fixed(s, le_i16(data, o) as i32, k),
        Field::Flag(o, mask) => {
            if data[o] & mask != 0 {
                push_piece(s, "true")
            } else {
                push_piece(s, "false")
            }
        },
    }
}

proof fn lemma_render_prefix(ps: Seq<Piece>, i: int, d: Seq<u8>)
    requires
        0 <= i <= ps.len(),
    ensures
        render(ps.take(i), d).len() <= render(ps, d).len(),
    decreases ps.len(),
{
    if i < ps.len() {
        assert(ps.drop_last().take(i) =~= ps.take(i));
        lemma_render_prefix(ps.drop_last(), i, d);
    } else {
        assert(ps.take(i) =~= ps);
    }
}

/// Writes the layout filled with the frame's values into an empty text.
fn build_json(ps: &Vec<Piece>, data: &[u8]) -> (r: Option<heapless::String<256>>)
    requires
        layout_ok(ps@),
        data@.len() >= 8,
    ensures
        r is Some <==> render(ps@, data@).len() <= 256,
        r matches Some(s) ==> text_bytes(s) == render(ps@, data@),
{
    let mut s = text_new();
    let mut i: usize = 0;
    while i < ps.len()
        invariant
            layout_ok(ps@),
            data@.len() >= 8,
            i <= ps@.len(),
            text_bytes(s) == render(ps@.take(i as int), data@),
            text_bytes(s).len() <= 256,
        decreases ps@.len() - i,
    {
        let ghost prefix = ps@.take(i as int);
        assert(ps@.take(i + 1).drop_last() =~= prefix);
        let p = ps[i];
        assert(ps@[i as int] == p);
        let ok = match p {
            Piece::Lit(lit) => push_piece(&mut s, lit),
            Piece::Value(f) => push_field(&mut s, f, data),
        };
        if !ok {
            proof {
                lemma_render_prefix(ps@, i + 1, data@);
            }
            return None;
        }
        i = i + 1;
    }
    assert(ps@.take(i as int) =~= ps@);
    Some(s)
}

/// The message carrying a JSON text.
fn json_message(body: heapless::String<256>) -> (m: Message)
    ensures
        m@ == MessageModel::EcuJson(text_bytes(body)),
{
    Message::EcuJson(EcuJsonData::new(body))
}

/// Parser of MaxxECU frames.
#[derive(Clone, Copy, Debug, Default)]
pub struct MaxxParser;

impl MaxxParser {
    pub fn new() -> (r: Self)
        ensures
            r == MaxxParser,
    {
        MaxxParser
    }

    /// The ids this parser is responsible for: 0x520 through 0x542.
    pub fn matches_id(&self, id: u32) -> (r: bool)
        ensures
            r == (0x520 <= id <= 0x542),
    {
        0x520 <= id && id <= 0x542
    }

    /// Parses a CAN frame (id and payload) into a message; it never fails.
    pub fn parse(&self, id: u32, data: &[u8]) -> (r: Result<Message, &'static str>)
        ensures
            r matches Ok(m) && m@ == maxx_parse(id, data@),
    {
        if data.len() < 8 {
            return Ok(raw_frame_to_message(id, data));
        }
        match layout(id) {
            None => Ok(raw_frame_to_message(id, data)),
            Some(ps) => match build_json(&ps, data) {
                Some(json) => Ok(json_message(json)),
                None => Ok(raw_frame_to_message(id, data)),
            },
        }
    }
}

// ---------------------------------------------------------------------------
//  Test frame generator
// ---------------------------------------------------------------------------

/// Little-endian bytes of a signed 16-bit value (two's complement).
pub open spec fn le_i16_bytes(v: int) -> Seq<u8> {
    let u = if v < 0 { v + 65536 } else { v };
    seq![(u % 256) as u8, (u / 256) as u8]
}

/// The 8 data bytes the MaxxECU generator produces for `id` at cycle counter
/// `c` (all zeros for an undocumented id).
pub open spec fn maxx_frame(c: int, id: u32) -> Seq<u8> {
    if id == 0x520 {
        le_i16_bytes(1500 + c * 80) + le_i16_bytes(220 + c * 5) + le_i16_bytes(1000 + c * 12) + le_i16_bytes(1000 + c * 3)
    } else if id == 0x521 {
        le_i16_bytes(1000 + c * 2) + le_i16_bytes(1005 + c * 2) + le_i16_bytes(150 - c * 2) + le_i16_bytes(c % 10)
    } else if id == 0x522 {
        le_i16_bytes(250 + c * 4) + le_i16_bytes(300 + c * 6) + le_i16_bytes(c % 5) + le_i16_bytes(300 + c * 8)
    } else if id == 0x523 {
        le_i16_bytes(200 + c * 5) + le_i16_bytes(195 + c * 5) + le_i16_bytes(10 + c) + le_i16_bytes(12 + c)
    } else if id == 0x524 {
        le_i16_bytes(1000 - c * 3) + le_i16_bytes(50 + c) + le_i16_bytes(45 + c) + le_i16_bytes(1135)
    } else if id == 0x526 {
        seq![(32 + c % 4) as u8, (1 + 2 * (c % 2)) as u8] + le_i16_bytes(0) + le_i16_bytes(7000 - c * 50) + le_i16_bytes(0)
    } else if id == 0x527 {
        le_i16_bytes(10 + c) + le_i16_bytes(2 + c) + le_i16_bytes(c) + le_i16_bytes(1000 + c * 2)
    } else if id == 0x528 {
        le_i16_bytes(2 + c) + le_i16_bytes(5 + c) + le_i16_bytes(c % 8) + le_i16_bytes(1 + c % 8)
    } else if id == 0x530 {
        le_i16_bytes(1200 + c * 5) + le_i16_bytes(1013 + c) + le_i16_bytes(200 + c) + le_i16_bytes(90 + c)
    } else if id == 0x531 {
        le_i16_bytes(100 + c) + le_i16_bytes(850 + c) + le_i16_bytes(10 + c) + le_i16_bytes(700 + c)
    } else if id == 0x532 {
        le_i16_bytes(705 + c) + le_i16_bytes(710 + c) + le_i16_bytes(715 + c) + le_i16_bytes(720 + c)
    } else if id == 0x533 {
        le_i16_bytes(725 + c) + le_i16_bytes(730 + c) + le_i16_bytes(735 + c) + le_i16_bytes(740 + c)
    } else if id == 0x534 {
        le_i16_bytes(5 + c) + le_i16_bytes(80 + c) + le_i16_bytes(c % 3) + le_i16_bytes(c % 2)
    } else if id == 0x535 {
        le_i16_bytes(100 + c) + le_i16_bytes(200 + c) + le_i16_bytes(300 + c) + le_i16_bytes(400 + c)
    } else if id == 0x536 {
        le_i16_bytes(c % 6) + le_i16_bytes(35 + c) + le_i16_bytes(400 + c * 2) + le_i16_bytes(85 + c)
    } else if id == 0x537 {
        le_i16_bytes(300 + c) + le_i16_bytes(250 + c) + le_i16_bytes(120 + c) + le_i16_bytes(200 + c)
    } else if id == 0x538 {
        le_i16_bytes(10 + c) + le_i16_bytes(20 + c) + le_i16_bytes(30 + c) + le_i16_bytes(40 + c)
    } else if id == 0x539 {
        le_i16_bytes(50 + c) + le_i16_bytes(60 + c) + le_i16_bytes(70 + c) + le_i16_bytes(80 + c)
    } else if id == 0x540 {
        seq![(c % 4) as u8, ((c + 1) % 3) as u8] + le_i16_bytes(45 + c) + le_i16_bytes(80 + c) + le_i16_bytes(60 + c)
    } else if id == 0x541 {
        le_i16_bytes(100 + c) + le_i16_bytes(90 + c) + le_i16_bytes(95 + c) + le_i16_bytes(85 + c)
    } else if id == 0x542 {
        le_i16_bytes(110 + c) + le_i16_bytes(105 + c) + le_i16_bytes(0) + le_i16_bytes(0)
    } else {
        seq![0u8, 0, 0, 0, 0, 0, 0, 0]
    }
}

/// What each generated MaxxECU frame holds, field by field, for cycle
/// counter `c`: four little-endian 16-bit values (signed ones in two's
/// complement), the flag frames 0x526 and 0x540 starting with two single
/// bytes; every other id gives eight zero bytes.
pub open spec fn maxx_fields(c: int, id: u32, f: Seq<u8>) -> bool {
    &&& f.len() == 8
    &&& (
        if id == 0x520 {
            &&& f[0] + 256 * f[1] == twos16(1500 + c * 80)
            &&& f[2] + 256 * f[3] == twos16(220 + c * 5)
            &&& f[4] + 256 * f[5] == twos16(1000 + c * 12)
            &&& f[6] + 256 * f[7] == twos16(1000 + c * 3)
        } else if id == 0x521 {
            &&& f[0] + 256 * f[1] == twos16(1000 + c * 2)
            &&& f[2] + 256 * f[3] == twos16(1005 + c * 2)
            &&& f[4] + 256 * f[5] == twos16(150 - c * 2)
            &&& f[6] + 256 * f[7] == twos16(c % 10)
        } else if id == 0x522 {
            &&& f[0] + 256 * f[1] == twos16(250 + c * 4)
            &&& f[2] + 256 * f[3] == twos16(300 + c * 6)
            &&& f[4] + 256 * f[5] == twos16(c % 5)
            &&& f[6] + 256 * f[7] == twos16(300 + c * 8)
        } else if id == 0x523 {
            &&& f[0] + 256 * f[1] == twos16(200 + c * 5)
            &&& f[2] + 256 * f[3] == twos16(195 + c * 5)
            &&& f[4] + 256 * f[5] == twos16(10 + c)
            &&& f[6] + 256 * f[7] == twos16(12 + c)
        } else if id == 0x524 {
            &&& f[0] + 256 * f[1] == twos16(1000 - c * 3)
            &&& f[2] + 256 * f[3] == twos16(50 + c)
            &&& f[4] + 256 * f[5] == twos16(45 + c)
            &&& f[6] + 256 * f[7] == twos16(1135)
        } else if id == 0x526 {
            &&& f[0] == 32 + c % 4
            &&& f[1] == 1 + 2 * (c % 2)
            &&& f[2] + 256 * f[3] == twos16(0)
            &&& f[4] + 256 * f[5] == twos16(7000 - c * 50)
            &&& f[6] + 256 * f[7] == twos16(0)
        } else if id == 0x527 {
            &&& f[0] + 256 * f[1] == twos16(10 + c)
            &&& f[2] + 256 * f[3] == twos16(2 + c)
            &&& f[4] + 256 * f[5] == twos16(c)
            &&& f[6] + 256 * f[7] == twos16(1000 + c * 2)
        } else if id == 0x528 {
            &&& f[0] + 256 * f[1] == twos16(2 + c)
            &&& f[2] + 256 * f[3] == twos16(5 + c)
            &&& f[4] + 256 * f[5] == twos16(c % 8)
            &&& f[6] + 256 * f[7] == twos16(1 + c % 8)
        } else if id == 0x530 {
            &&& f[0] + 256 * f[1] == twos16(1200 + c * 5)
            &&& f[2] + 256 * f[3] == twos16(1013 + c)
            &&& f[4] + 256 * f[5] == twos16(200 + c)
            &&& f[6] + 256 * f[7] == twos16(90 + c)
        } else if id == 0x531 {
            &&& f[0] + 256 * f[1] == twos16(100 + c)
            &&& f[2] + 256 * f[3] == twos16(850 + c)
            &&& f[4] + 256 * f[5] == twos16(10 + c)
            &&& f[6] + 256 * f[7] == twos16(700 + c)
        } else if id == 0x532 {
            &&& f[0] + 256 * f[1] == twos16(705 + c)
            &&& f[2] + 256 * f[3] == twos16(710 + c)
            &&& f[4] + 256 * f[5] == twos16(715 + c)
            &&& f[6] + 256 * f[7] == twos16(720 + c)
        } else if id == 0x533 {
            &&& f[0] + 256 * f[1] == twos16(725 + c)
            &&& f[2] + 256 * f[3] == twos16(730 + c)
            &&& f[4] + 256 * f[5] == twos16(735 + c)
            &&& f[6] + 256 * f[7] == twos16(740 + c)
        } else if id == 0x534 {
            &&& f[0] + 256 * f[1] == twos16(5 + c)
            &&& f[2] + 256 * f[3] == twos16(80 + c)
            &&& f[4] + 256 * f[5] == twos16(c % 3)
            &&& f[6] + 256 * f[7] == twos16(c % 2)
        } else if id == 0x535 {
            &&& f[0] + 256 * f[1] == twos16(100 + c)
            &&& f[2] + 256 * f[3] == twos16(200 + c)
            &&& f[4] + 256 * f[5] == twos16(300 + c)
            &&& f[6] + 256 * f[7] == twos16(400 + c)
        } else if id == 0x536 {
            &&& f[0] + 256 * f[1] == twos16(c % 6)
            &&& f[2] + 256 * f[3] == twos16(35 + c)
            &&& f[4] + 256 * f[5] == twos16(400 + c * 2)
            &&& f[6] + 256 * f[7] == twos16(85 + c)
        } else if id == 0x537 {
            &&& f[0] + 256 * f[1] == twos16(300 + c)
            &&& f[2] + 256 * f[3] == twos16(250 + c)
            &&& f[4] + 256 * f[5] == twos16(120 + c)
            &&& f[6] + 256 * f[7] == twos16(200 + c)
        } else if id == 0x538 {
            &&& f[0] + 256 * f[1] == twos16(10 + c)
            &&& f[2] + 256 * f[3] == twos16(20 + c)
            &&& f[4] + 256 * f[5] == twos16(30 + c)
            &&& f[6] + 256 * f[7] == twos16(40 + c)
        } else if id == 0x539 {
            &&& f[0] + 256 * f[1] == twos16(50 + c)
            &&& f[2] + 256 * f[3] == twos16(60 + c)
            &&& f[4] + 256 * f[5] == twos16(70 + c)
            &&& f[6] + 256 * f[7] == twos16(80 + c)
        } else if id == 0x540 {
            &&& f[0] == c % 4
            &&& f[1] == (c + 1) % 3
            &&& f[2] + 256 * f[3] == twos16(45 + c)
            &&& f[4] + 256 * f[5] == twos16(80 + c)
            &&& f[6] + 256 * f[7] == twos16(60 + c)
        } else if id == 0x541 {
            &&& f[0] + 256 * f[1] == twos16(100 + c)
            &&& f[2] + 256 * f[3] == twos16(90 + c)
            &&& f[4] + 256 * f[5] == twos16(95 + c)
            &&& f[6] + 256 * f[7] == twos16(85 + c)
        } else if id == 0x542 {
            &&& f[0] + 256 * f[1] == twos16(110 + c)
            &&& f[2] + 256 * f[3] == twos16(105 + c)
            &&& f[4] + 256 * f[5] == twos16(0)
            &&& f[6] + 256 * f[7] == twos16(0)
        } else {
            forall|i: int| 0 <= i < 8 ==> f[i] == 0
        }
    )
}

proof fn lemma_le_i16_value(v: int)
    requires
        -32768 <= v < 32768,
    ensures
        le_i16_bytes(v).len() == 2,
        le_i16_bytes(v)[0] + 256 * le_i16_bytes(v)[1] == twos16(v),
{
}

/// The MaxxECU generator's frames hold exactly the fields that
/// `maxx_fields` describes, for every counter and every id: e.g. frame
/// 0x520 carries RPM `1500 + 80 * c`.
pub proof fn lemma_maxx_frame_fields(c: u8, id: u32)
    ensures
        maxx_fields(c as int, id, maxx_frame(c as int, id)),
{
    if id == 0x520 {
        lemma_maxx_fields_520(c);
    } else if id == 0x521 {
        lemma_maxx_fields_521(c);
    } else if id == 0x522 {
        lemma_maxx_fields_522(c);
    } else if id == 0x523 {
        lemma_maxx_fields_523(c);
    } else if id == 0x524 {
        lemma_maxx_fields_524(c);
    } else if id == 0x526 {
        lemma_maxx_fields_526(c);
    } else if id == 0x527 {
        lemma_maxx_fields_527(c);
    } else if id == 0x528 {
        lemma_maxx_fields_528(c);
    } else if id == 0x530 {
        lemma_maxx_fields_530(c);
    } else if id == 0x531 {
        lemma_maxx_fields_531(c);
    } else if id == 0x532 {
        lemma_maxx_fields_532(c);
    } else if id == 0x533 {
        lemma_maxx_fields_533(c);
    } else if id == 0x534 {
        lemma_maxx_fields_534(c);
    } else if id == 0x535 {
        lemma_maxx_fields_535(c);
    } else if id == 0x536 {
        lemma_maxx_fields_536(c);
    } else if id == 0x537 {
        lemma_maxx_fields_537(c);
    } else if id == 0x538 {
        lemma_maxx_fields_538(c);
    } else if id == 0x539 {
        lemma_maxx_fields_539(c);
    } else if id == 0x540 {
        lemma_maxx_fields_540(c);
    } else if id == 0x541 {
        lemma_maxx_fields_541(c);
    } else if id == 0x542 {
        lemma_maxx_fields_542(c);
    }
}

proof fn lemma_maxx_fields_520(c: u8)
    ensures
        maxx_fields(c as int, 0x520, maxx_frame(c as int, 0x520)),
{
    let c = c as int;
    let f = maxx_frame(c, 0x520);
    let v0 = 1500 + c * 80;
    lemma_le_i16_value(v0);
    assert(f[0] == le_i16_bytes(v0)[0] && f[1] == le_i16_bytes(v0)[1]);
    let v2 = 220 + c * 5;
    lemma_le_i16_value(v2);
    assert(f[2] == le_i16_bytes(v2)[0] && f[3] == le_i16_bytes(v2)[1]);
    let v4 = 1000 + c * 12;
    lemma_le_i16_value(v4);
    assert(f[4] == le_i16_bytes(v4)[0] && f[5] == le_i16_bytes(v4)[1]);
    let v6 = 1000 + c * 3;
    lemma_le_i16_value(v6);
    assert(f[6] == le_i16_bytes(v6)[0] && f[7] == le_i16_bytes(v6)[1]);
}

proof fn lemma_maxx_fields_521(c: u8)
    ensures
        maxx_fields(c as int, 0x521, maxx_frame(c as int, 0x521)),
{
    let c = c as int;
    let f = maxx_frame(c, 0x521);
    let v0 = 1000 + c * 2;
    lemma_le_i16_value(v0);
    assert(f[0] == le_i16_bytes(v0)[0] && f[1] == le_i16_bytes(v0)[1]);
    let v2 = 1005 + c * 2;
    lemma_le_i16_value(v2);
    assert(f[2] == le_i16_bytes(v2)[0] && f[3] == le_i16_bytes(v2)[1]);
    let v4 = 150 - c * 2;
    lemma_le_i16_value(v4);
    assert(f[4] == le_i16_bytes(v4)[0] && f[5] == le_i16_bytes(v4)[1]);
    let v6 = c % 10;
    lemma_le_i16_value(v6);
    assert(f[6] == le_i16_bytes(v6)[0] && f[7] == le_i16_bytes(v6)[1]);
}

proof fn lemma_maxx_fields_522(c: u8)
    ensures
        maxx_fields(c as int, 0x522, maxx_frame(c as int, 0x522)),
{
    let c = c as int;
    let f = maxx_frame(c, 0x522);
    let v0 = 250 + c * 4;
    lemma_le_i16_value(v0);
    assert(f[0] == le_i16_bytes(v0)[0] && f[1] == le_i16_bytes(v0)[1]);
    let v2 = 300 + c * 6;
    lemma_le_i16_value(v2);
    assert(f[2] == le_i16_bytes(v2)[0] && f[3] == le_i16_bytes(v2)[1]);
    let v4 = c % 5;
    lemma_le_i16_value(v4);
    assert(f[4] == le_i16_bytes(v4)[0] && f[5] == le_i16_bytes(v4)[1]);
    let v6 = 300 + c * 8;
    lemma_le_i16_value(v6);
    assert(f[6] == le_i16_bytes(v6)[0] && f[7] == le_i16_bytes(v6)[1]);
}

proof fn lemma_maxx_fields_523(c: u8)
    ensures
        maxx_fields(c as int, 0x523, maxx_frame(c as int, 0x523)),
{
    let c = c as int;
    let f = maxx_frame(c, 0x523);
    let v0 = 200 + c * 5;
    lemma_le_i16_value(v0);
    assert(f[0] == le_i16_bytes(v0)[0] && f[1] == le_i16_bytes(v0)[1]);
    let v2 = 195 + c * 5;
    lemma_le_i16_value(v2);
    assert(f[2] == le_i16_bytes(v2)[0] && f[3] == le_i16_bytes(v2)[1]);
    let v4 = 10 + c;
    lemma_le_i16_value(v4);
    assert(f[4] == le_i16_bytes(v4)[0] && f[5] == le_i16_bytes(v4)[1]);
    let v6 = 12 + c;
    lemma_le_i16_value(v6);
    assert(f[6] == le_i16_bytes(v6)[0] && f[7] == le_i16_bytes(v6)[1]);
}

proof fn lemma_maxx_fields_524(c: u8)
    ensures
        maxx_fields(c as int, 0x524, maxx_frame(c as int, 0x524)),
{
    let c = c as int;
    let f = maxx_frame(c, 0x524);
    let v0 = 1000 - c * 3;
    lemma_le_i16_value(v0);
    assert(f[0] == le_i16_bytes(v0)[0] && f[1] == le_i16_bytes(v0)[1]);
    let v2 = 50 + c;
    lemma_le_i16_value(v2);
    assert(f[2] == le_i16_bytes(v2)[0] && f[3] == le_i16_bytes(v2)[1]);
    let v4 = 45 + c;
    lemma_le_i16_value(v4);
    assert(f[4] == le_i16_bytes(v4)[0] && f[5] == le_i16_bytes(v4)[1]);
    let v6 = 1135;
    lemma_le_i16_value(v6);
    assert(f[6] == le_i16_bytes(v6)[0] && f[7] == le_i16_bytes(v6)[1]);
}

proof fn lemma_maxx_fields_526(c: u8)
    ensures
        maxx_fields(c as int, 0x526, maxx_frame(c as int, 0x526)),
{
    let c = c as int;
    let f = maxx_frame(c, 0x526);
    let v2 = 0;
    lemma_le_i16_value(v2);
    assert(f[2] == le_i16_bytes(v2)[0] && f[3] == le_i16_bytes(v2)[1]);
    let v4 = 7000 - c * 50;
    lemma_le_i16_value(v4);
    assert(f[4] == le_i16_bytes(v4)[0] && f[5] == le_i16_bytes(v4)[1]);
    let v6 = 0;
    lemma_le_i16_value(v6);
    assert(f[6] == le_i16_bytes(v6)[0] && f[7] == le_i16_bytes(v6)[1]);
}

proof fn lemma_maxx_fields_527(c: u8)
    ensures
        maxx_fields(c as int, 0x527, maxx_frame(c as int, 0x527)),
{
    let c = c as int;
    let f = maxx_frame(c, 0x527);
    let v0 = 10 + c;
    lemma_le_i16_value(v0);
    assert(f[0] == le_i16_bytes(v0)[0] && f[1] == le_i16_bytes(v0)[1]);
    let v2 = 2 + c;
    lemma_le_i16_value(v2);
    assert(f[2] == le_i16_bytes(v2)[0] && f[3] == le_i16_bytes(v2)[1]);
    let v4 = c;
    lemma_le_i16_value(v4);
    assert(f[4] == le_i16_bytes(v4)[0] && f[5] == le_i16_bytes(v4)[1]);
    let v6 = 1000 + c * 2;
    lemma_le_i16_value(v6);
    assert(f[6] == le_i16_bytes(v6)[0] && f[7] == le_i16_bytes(v6)[1]);
}

proof fn lemma_maxx_fields_528(c: u8)
    ensures
        maxx_fields(c as int, 0x528, maxx_frame(c as int, 0x528)),
{
    let c = c as int;
    let f = maxx_frame(c, 0x528);
    let v0 = 2 + c;
    lemma_le_i16_value(v0);
    assert(f[0] == le_i16_bytes(v0)[0] && f[1] == le_i16_bytes(v0)[1]);
    let v2 = 5 + c;
    lemma_le_i16_value(v2);
    assert(f[2] == le_i16_bytes(v2)[0] && f[3] == le_i16_bytes(v2)[1]);
    let v4 = c % 8;
    lemma_le_i16_value(v4);
    assert(f[4] == le_i16_bytes(v4)[0] && f[5] == le_i16_bytes(v4)[1]);
    let v6 = 1 + c % 8;
    lemma_le_i16_value(v6);
    assert(f[6] == le_i16_bytes(v6)[0] && f[7] == le_i16_bytes(v6)[1]);
}

proof fn lemma_maxx_fields_530(c: u8)
    ensures
        maxx_fields(c as int, 0x530, maxx_frame(c as int, 0x530)),
{
    let c = c as int;
    let f = maxx_frame(c, 0x530);
    let v0 = 1200 + c * 5;
    lemma_le_i16_value(v0);
    assert(f[0] == le_i16_bytes(v0)[0] && f[1] == le_i16_bytes(v0)[1]);
    let v2 = 1013 + c;
    lemma_le_i16_value(v2);
    assert(f[2] == le_i16_bytes(v2)[0] && f[3] == le_i16_bytes(v2)[1]);
    let v4 = 200 + c;
    lemma_le_i16_value(v4);
    assert(f[4] == le_i16_bytes(v4)[0] && f[5] == le_i16_bytes(v4)[1]);
    let v6 = 90 + c;
    lemma_le_i16_value(v6);
    assert(f[6] == le_i16_bytes(v6)[0] && f[7] == le_i16_bytes(v6)[1]);
}

proof fn lemma_maxx_fields_531(c: u8)
    ensures
        maxx_fields(c as int, 0x531, maxx_frame(c as int, 0x531)),
{
    let c = c as int;
    let f = maxx_frame(c, 0x531);
    let v0 = 100 + c;
    lemma_le_i16_value(v0);
    assert(f[0] == le_i16_bytes(v0)[0] && f[1] == le_i16_bytes(v0)[1]);
    let v2 = 850 + c;
    lemma_le_i16_value(v2);
    assert(f[2] == le_i16_bytes(v2)[0] && f[3] == le_i16_bytes(v2)[1]);
    let v4 = 10 + c;
    lemma_le_i16_value(v4);
    assert(f[4] == le_i16_bytes(v4)[0] && f[5] == le_i16_bytes(v4)[1]);
    let v6 = 700 + c;
    lemma_le_i16_value(v6);
    assert(f[6] == le_i16_bytes(v6)[0] && f[7] == le_i16_bytes(v6)[1]);
}

proof fn lemma_maxx_fields_532(c: u8)
    ensures
        maxx_fields(c as int, 0x532, maxx_frame(c as int, 0x532)),
{
    let c = c as int;
    let f = maxx_frame(c, 0x532);
    let v0 = 705 + c;
    lemma_le_i16_value(v0);
    assert(f[0] == le_i16_bytes(v0)[0] && f[1] == le_i16_bytes(v0)[1]);
    let v2 = 710 + c;
    lemma_le_i16_value(v2);
    assert(f[2] == le_i16_bytes(v2)[0] && f[3] == le_i16_bytes(v2)[1]);
    let v4 = 715 + c;
    lemma_le_i16_value(v4);
    assert(f[4] == le_i16_bytes(v4)[0] && f[5] == le_i16_bytes(v4)[1]);
    let v6 = 720 + c;
    lemma_le_i16_value(v6);
    assert(f[6] == le_i16_bytes(v6)[0] && f[7] == le_i16_bytes(v6)[1]);
}

proof fn lemma_maxx_fields_533(c: u8)
    ensures
        maxx_fields(c as int, 0x533, maxx_frame(c as int, 0x533)),
{
    let c = c as int;
    let f = maxx_frame(c, 0x533);
    let v0 = 725 + c;
    lemma_le_i16_value(v0);
    assert(f[0] == le_i16_bytes(v0)[0] && f[1] == le_i16_bytes(v0)[1]);
    let v2 = 730 + c;
    lemma_le_i16_value(v2);
    assert(f[2] == le_i16_bytes(v2)[0] && f[3] == le_i16_bytes(v2)[1]);
    let v4 = 735 + c;
    lemma_le_i16_value(v4);
    assert(f[4] == le_i16_bytes(v4)[0] && f[5] == le_i16_bytes(v4)[1]);
    let v6 = 740 + c;
    lemma_le_i16_value(v6);
    assert(f[6] == le_i16_bytes(v6)[0] && f[7] == le_i16_bytes(v6)[1]);
}

proof fn lemma_maxx_fields_534(c: u8)
    ensures
        maxx_fields(c as int, 0x534, maxx_frame(c as int, 0x534)),
{
    let c = c as int;
    let f = maxx_frame(c, 0x534);
    let v0 = 5 + c;
    lemma_le_i16_value(v0);
    assert(f[0] == le_i16_bytes(v0)[0] && f[1] == le_i16_bytes(v0)[1]);
    let v2 = 80 + c;
    lemma_le_i16_value(v2);
    assert(f[2] == le_i16_bytes(v2)[0] && f[3] == le_i16_bytes(v2)[1]);
    let v4 = c % 3;
    lemma_le_i16_value(v4);
    assert(f[4] == le_i16_bytes(v4)[0] && f[5] == le_i16_bytes(v4)[1]);
    let v6 = c % 2;
    lemma_le_i16_value(v6);
    assert(f[6] == le_i16_bytes(v6)[0] && f[7] == le_i16_bytes(v6)[1]);
}

proof fn lemma_maxx_fields_535(c: u8)
    ensures
        maxx_fields(c as int, 0x535, maxx_frame(c as int, 0x535)),
{
    let c = c as int;
    let f = maxx_frame(c, 0x535);
    let v0 = 100 + c;
    lemma_le_i16_value(v0);
    assert(f[0] == le_i16_bytes(v0)[0] && f[1] == le_i16_bytes(v0)[1]);
    let v2 = 200 + c;
    lemma_le_i16_value(v2);
    assert(f[2] == le_i16_bytes(v2)[0] && f[3] == le_i16_bytes(v2)[1]);
    let v4 = 300 + c;
    lemma_le_i16_value(v4);
    assert(f[4] == le_i16_bytes(v4)[0] && f[5] == le_i16_bytes(v4)[1]);
    let v6 = 400 + c;
    lemma_le_i16_value(v6);
    assert(f[6] == le_i16_bytes(v6)[0] && f[7] == le_i16_bytes(v6)[1]);
}

proof fn lemma_maxx_fields_536(c: u8)
    ensures
        maxx_fields(c as int, 0x536, maxx_frame(c as int, 0x536)),
{
    let c = c as int;
    let f = maxx_frame(c, 0x536);
    let v0 = c % 6;
    lemma_le_i16_value(v0);
    assert(f[0] == le_i16_bytes(v0)[0] && f[1] == le_i16_bytes(v0)[1]);
    let v2 = 35 + c;
    lemma_le_i16_value(v2);
    assert(f[2] == le_i16_bytes(v2)[0] && f[3] == le_i16_bytes(v2)[1]);
    let v4 = 400 + c * 2;
    lemma_le_i16_value(v4);
    assert(f[4] == le_i16_bytes(v4)[0] && f[5] == le_i16_bytes(v4)[1]);
    let v6 = 85 + c;
    lemma_le_i16_value(v6);
    assert(f[6] == le_i16_bytes(v6)[0] && f[7] == le_i16_bytes(v6)[1]);
}

proof fn lemma_maxx_fields_537(c: u8)
    ensures
        maxx_fields(c as int, 0x537, maxx_frame(c as int, 0x537)),
{
    let c = c as int;
    let f = maxx_frame(c, 0x537);
    let v0 = 300 + c;
    lemma_le_i16_value(v0);
    assert(f[0] == le_i16_bytes(v0)[0] && f[1] == le_i16_bytes(v0)[1]);
    let v2 = 250 + c;
    lemma_le_i16_value(v2);
    assert(f[2] == le_i16_bytes(v2)[0] && f[3] == le_i16_bytes(v2)[1]);
    let v4 = 120 + c;
    lemma_le_i16_value(v4);
    assert(f[4] == le_i16_bytes(v4)[0] && f[5] == le_i16_bytes(v4)[1]);
    let v6 = 200 + c;
    lemma_le_i16_value(v6);
    assert(f[6] == le_i16_bytes(v6)[0] && f[7] == le_i16_bytes(v6)[1]);
}

proof fn lemma_maxx_fields_538(c: u8)
    ensures
        maxx_fields(c as int, 0x538, maxx_frame(c as int, 0x538)),
{
    let c = c as int;
    let f = maxx_frame(c, 0x538);
    let v0 = 10 + c;
    lemma_le_i16_value(v0);
    assert(f[0] == le_i16_bytes(v0)[0] && f[1] == le_i16_bytes(v0)[1]);
    let v2 = 20 + c;
    lemma_le_i16_value(v2);
    assert(f[2] == le_i16_bytes(v2)[0] && f[3] == le_i16_bytes(v2)[1]);
    let v4 = 30 + c;
    lemma_le_i16_value(v4);
    assert(f[4] == le_i16_bytes(v4)[0] && f[5] == le_i16_bytes(v4)[1]);
    let v6 = 40 + c;
    lemma_le_i16_value(v6);
    assert(f[6] == le_i16_bytes(v6)[0] && f[7] == le_i16_bytes(v6)[1]);
}

proof fn lemma_maxx_fields_539(c: u8)
    ensures
        maxx_fields(c as int, 0x539, maxx_frame(c as int, 0x539)),
{
    let c = c as int;
    let f = maxx_frame(c, 0x539);
    let v0 = 50 + c;
    lemma_le_i16_value(v0);
    assert(f[0] == le_i16_bytes(v0)[0] && f[1] == le_i16_bytes(v0)[1]);
    let v2 = 60 + c;
    lemma_le_i16_value(v2);
    assert(f[2] == le_i16_bytes(v2)[0] && f[3] == le_i16_bytes(v2)[1]);
    let v4 = 70 + c;
    lemma_le_i16_value(v4);
    assert(f[4] == le_i16_bytes(v4)[0] && f[5] == le_i16_bytes(v4)[1]);
    let v6 = 80 + c;
    lemma_le_i16_value(v6);
    assert(f[6] == le_i16_bytes(v6)[0] && f[7] == le_i16_bytes(v6)[1]);
}

proof fn lemma_maxx_fields_540(c: u8)
    ensures
        maxx_fields(c as int, 0x540, maxx_frame(c as int, 0x540)),
{
    let c = c as int;
    let f = maxx_frame(c, 0x540);
    let v2 = 45 + c;
    lemma_le_i16_value(v2);
    assert(f[2] == le_i16_bytes(v2)[0] && f[3] == le_i16_bytes(v2)[1]);
    let v4 = 80 + c;
    lemma_le_i16_value(v4);
    assert(f[4] == le_i16_bytes(v4)[0] && f[5] == le_i16_bytes(v4)[1]);
    let v6 = 60 + c;
    lemma_le_i16_value(v6);
    assert(f[6] == le_i16_bytes(v6)[0] && f[7] == le_i16_bytes(v6)[1]);
}

proof fn lemma_maxx_fields_541(c: u8)
    ensures
        maxx_fields(c as int, 0x541, maxx_frame(c as int, 0x541)),
{
    let c = c as int;
    let f = maxx_frame(c, 0x541);
    let v0 = 100 + c;
    lemma_le_i16_value(v0);
    assert(f[0] == le_i16_bytes(v0)[0] && f[1] == le_i16_bytes(v0)[1]);
    let v2 = 90 + c;
    lemma_le_i16_value(v2);
    assert(f[2] == le_i16_bytes(v2)[0] && f[3] == le_i16_bytes(v2)[1]);
    let v4 = 95 + c;
    lemma_le_i16_value(v4);
    assert(f[4] == le_i16_bytes(v4)[0] && f[5] == le_i16_bytes(v4)[1]);
    let v6 = 85 + c;
    lemma_le_i16_value(v6);
    assert(f[6] == le_i16_bytes(v6)[0] && f[7] == le_i16_bytes(v6)[1]);
}

proof fn lemma_maxx_fields_542(c: u8)
    ensures
        maxx_fields(c as int, 0x542, maxx_frame(c as int, 0x542)),
{
    let c = c as int;
    let f = maxx_frame(c, 0x542);
    let v0 = 110 + c;
    lemma_le_i16_value(v0);
    assert(f[0] == le_i16_bytes(v0)[0] && f[1] == le_i16_bytes(v0)[1]);
    let v2 = 105 + c;
    lemma_le_i16_value(v2);
    assert(f[2] == le_i16_bytes(v2)[0] && f[3] == le_i16_bytes(v2)[1]);
    let v4 = 0;
    lemma_le_i16_value(v4);
    assert(f[4] == le_i16_bytes(v4)[0] && f[5] == le_i16_bytes(v4)[1]);
    let v6 = 0;
    lemma_le_i16_value(v6);
    assert(f[6] == le_i16_bytes(v6)[0] && f[7] == le_i16_bytes(v6)[1]);
}

/// Generator for MaxxECU default CAN frames: the documented 11-bit frame
/// layout with little-endian payloads.
#[derive(Clone, Copy, Debug)]
pub struct MaxxTestGenerator {
    counter: u8,
}

impl MaxxTestGenerator {
    /// The cycle counter.
    pub closed spec fn spec_counter(self) -> u8 {
        self.counter
    }

    /// A generator at counter 0.
    pub fn new() -> (r: Self)
        ensures
            r.spec_counter() == 0,
    {
        MaxxTestGenerator { counter: 0 }
    }

    /// A generator at the given counter.
    pub fn with_counter(counter: u8) -> (r: Self)
        ensures
            r.spec_counter() == counter,
    {
        MaxxTestGenerator { counter }
    }

    /// Current counter value.
    pub fn counter(&self) -> (r: u8)
        ensures
            r == self.spec_counter(),
    {
        self.counter
    }

    /// Advances to the next cycle; the counter wraps from 255 to 0.
    pub fn next_cycle(&mut self)
        ensures
            final(self).spec_counter() == (old(self).spec_counter() + 1) % 256,
        no_unwind
    {
        self.counter = if self.counter == 255 { 0 } else { self.counter + 1 };
    }

    /// The frame for `msg_id`: the id and the generated 8 data bytes (zeros
    /// for an undocumented id). Frame 0x540 computes `counter + 1` in 8 bits,
    /// which overflows at counter 255.
    pub fn generate_frame(&self, msg_id: u32) -> (r: (u32, [u8; 8]))
        requires
            msg_id == 0x540 ==> self.spec_counter() < 255,
        ensures
            r.0 == msg_id,
            r.1@ == maxx_frame(self.spec_counter() as int, msg_id),
            maxx_fields(self.spec_counter() as int, msg_id, r.1@),
    {
        proof {
            lemma_maxx_frame_fields(self.counter, msg_id);
        }
        let mut data = [0u8; 8];
        if msg_id == 0x520 {
            self.write_520(&mut data);
        } else if msg_id == 0x521 {
            self.write_521(&mut data);
        } else if msg_id == 0x522 {
            self.write_522(&mut data);
        } else if msg_id == 0x523 {
            self.write_523(&mut data);
        } else if msg_id == 0x524 {
            self.write_524(&mut data);
        } else if msg_id == 0x526 {
            self.write_526(&mut data);
        } else if msg_id == 0x527 {
            self.write_527(&mut data);
        } else if msg_id == 0x528 {
            self.write_528(&mut data);
        } else if msg_id == 0x530 {
            self.write_530(&mut data);
        } else if msg_id == 0x531 {
            self.write_531(&mut data);
        } else if msg_id == 0x532 {
            self.write_532(&mut data);
        } else if msg_id == 0x533 {
            self.write_533(&mut data);
        } else if msg_id == 0x534 {
            self.write_534(&mut data);
        } else if msg_id == 0x535 {
            self.write_535(&mut data);
        } else if msg_id == 0x536 {
            self.write_536(&mut data);
        } else if msg_id == 0x537 {
            self.write_537(&mut data);
        } else if msg_id == 0x538 {
            self.write_538(&mut data);
        } else if msg_id == 0x539 {
            self.write_539(&mut data);
        } else if msg_id == 0x540 {
            self.write_540(&mut data);
        } else if msg_id == 0x541 {
            self.write_541(&mut data);
        } else if msg_id == 0x542 {
            self.write_542(&mut data);
        } else {
            assert(data@ =~= maxx_frame(self.counter as int, msg_id));
        }
        (msg_id, data)
    }

    fn write_u16(data: &mut [u8; 8], offset: usize, value: u16)
        requires
            offset + 1 < 8,
        ensures
            final(data)@ == old(data)@.update(offset as int, (value % 256) as u8).update(
                offset + 1,
                (value / 256) as u8,
            ),
    {
        data[offset] = (value % 256) as u8;
        data[offset + 1] = (value / 256) as u8;
    }

    fn write_i16(data: &mut [u8; 8], offset: usize, value: i16)
        requires
            offset + 1 < 8,
        ensures
            final(data)@ == old(data)@.update(offset as int, le_i16_bytes(value as int)[0]).update(
                offset + 1,
                le_i16_bytes(value as int)[1],
            ),
    {
        let u: u16 = if value < 0 {
            (value as i32 + 65536) as u16
        } else {
            value as u16
        };
        Self::write_u16(data, offset, u);
    }

    fn write_520(&self, data: &mut [u8; 8])
        ensures
            final(data)@ == maxx_frame(self.counter as int, 0x520),
    {
        let c = self.counter;
        Self::write_i16(data, 0, 1500 + (c as i16) * 80);
        Self::write_i16(data, 2, 220 + (c as i16) * 5);
        Self::write_i16(data, 4, 1000 + (c as i16) * 12);
        Self::write_i16(data, 6, 1000 + (c as i16) * 3);
        assert(data@ =~= maxx_frame(c as int, 0x520));
    }

    fn write_521(&self, data: &mut [u8; 8])
        ensures
            final(data)@ == maxx_frame(self.counter as int, 0x521),
    {
        let c = self.counter;
        Self::write_i16(data, 0, 1000 + (c as i16) * 2);
        Self::write_i16(data, 2, 1005 + (c as i16) * 2);
        Self::write_i16(data, 4, 150 - (c as i16) * 2);
        Self::write_i16(data, 6, (c % 10) as i16);
        assert(data@ =~= maxx_frame(c as int, 0x521));
    }

    fn write_522(&self, data: &mut [u8; 8])
        ensures
            final(data)@ == maxx_frame(self.counter as int, 0x522),
    {
        let c = self.counter;
        Self::write_i16(data, 0, 250 + (c as i16) * 4);
        Self::write_i16(data, 2, 300 + (c as i16) * 6);
        Self::write_i16(data, 4, (c % 5) as i16);
        Self::write_i16(data, 6, 300 + (c as i16) * 8);
        assert(data@ =~= maxx_frame(c as int, 0x522));
    }

    fn write_523(&self, data: &mut [u8; 8])
        ensures
            final(data)@ == maxx_frame(self.counter as int, 0x523),
    {
        let c = self.counter;
        Self::write_i16(data, 0, 200 + (c as i16) * 5);
        Self::write_i16(data, 2, 195 + (c as i16) * 5);
        Self::write_i16(data, 4, 10 + (c as i16));
        Self::write_i16(data, 6, 12 + (c as i16));
        assert(data@ =~= maxx_frame(c as int, 0x523));
    }

    fn write_524(&self, data: &mut [u8; 8])
        ensures
            final(data)@ == maxx_frame(self.counter as int, 0x524),
    {
        let c = self.counter;
        Self::write_i16(data, 0, 1000 - (c as i16) * 3);
        Self::write_i16(data, 2, 50 + (c as i16));
        Self::write_i16(data, 4, 45 + (c as i16));
        Self::write_i16(data, 6, 1135);
        assert(data@ =~= maxx_frame(c as int, 0x524));
    }

    fn write_526(&self, data: &mut [u8; 8])
        ensures
            final(data)@ == maxx_frame(self.counter as int, 0x526),
    {
        let c = self.counter;
        data[0] = (1u8 << 5) | (c & 0x03);
        data[1] = (1u8 << 0) | ((c & 0x01) << 1);
        Self::write_i16(data, 2, 0);
        Self::write_i16(data, 4, 7000i16 - (c as i16) * 50);
        Self::write_i16(data, 6, 0);
        assert((1u8 << 5) | (c & 0x03) == 32 + c % 4) by (bit_vector);
        assert((1u8 << 0) | ((c & 0x01) << 1) == 1 + 2 * (c % 2)) by (bit_vector);
        assert(data@ =~= maxx_frame(c as int, 0x526));
    }

    fn write_527(&self, data: &mut [u8; 8])
        ensures
            final(data)@ == maxx_frame(self.counter as int, 0x527),
    {
        let c = self.counter;
        Self::write_i16(data, 0, 10 + (c as i16));
        Self::write_i16(data, 2, 2 + (c as i16));
        Self::write_i16(data, 4, (c as i16));
        Self::write_i16(data, 6, 1000 + (c as i16) * 2);
        assert(data@ =~= maxx_frame(c as int, 0x527));
    }

    fn write_528(&self, data: &mut [u8; 8])
        ensures
            final(data)@ == maxx_frame(self.counter as int, 0x528),
    {
        let c = self.counter;
        Self::write_i16(data, 0, 2 + (c as i16));
        Self::write_i16(data, 2, 5 + (c as i16));
        Self::write_i16(data, 4, (c % 8) as i16);
        Self::write_i16(data, 6, 1 + (c % 8) as i16);
        assert(data@ =~= maxx_frame(c as int, 0x528));
    }

    fn write_530(&self, data: &mut [u8; 8])
        ensures
            final(data)@ == maxx_frame(self.counter as int, 0x530),
    {
        let c = self.counter;
        Self::write_i16(data, 0, 1200 + (c as i16) * 5);
        Self::write_i16(data, 2, 1013 + (c as i16));
        Self::write_i16(data, 4, 200 + (c as i16));
        Self::write_i16(data, 6, 90 + (c as i16));
        assert(data@ =~= maxx_frame(c as int, 0x530));
    }

    fn write_531(&self, data: &mut [u8; 8])
        ensures
            final(data)@ == maxx_frame(self.counter as int, 0x531),
    {
        let c = self.counter;
        Self::write_i16(data, 0, 100 + (c as i16));
        Self::write_i16(data, 2, 850 + (c as i16));
        Self::write_i16(data, 4, 10 + (c as i16));
        Self::write_i16(data, 6, 700 + (c as i16));
        assert(data@ =~= maxx_frame(c as int, 0x531));
    }

    fn write_532(&self, data: &mut [u8; 8])
        ensures
            final(data)@ == maxx_frame(self.counter as int, 0x532),
    {
        let c = self.counter;
        Self::write_i16(data, 0, 705 + (c as i16));
        Self::write_i16(data, 2, 710 + (c as i16));
        Self::write_i16(data, 4, 715 + (c as i16));
        Self::write_i16(data, 6, 720 + (c as i16));
        assert(data@ =~= maxx_frame(c as int, 0x532));
    }

    fn write_533(&self, data: &mut [u8; 8])
        ensures
            final(data)@ == maxx_frame(self.counter as int, 0x533),
    {
        let c = self.counter;
        Self::write_i16(data, 0, 725 + (c as i16));
        Self::write_i16(data, 2, 730 + (c as i16));
        Self::write_i16(data, 4, 735 + (c as i16));
        Self::write_i16(data, 6, 740 + (c as i16));
        assert(data@ =~= maxx_frame(c as int, 0x533));
    }

    fn write_534(&self, data: &mut [u8; 8])
        ensures
            final(data)@ == maxx_frame(self.counter as int, 0x534),
    {
        let c = self.counter;
        Self::write_i16(data, 0, 5 + (c as i16));
        Self::write_i16(data, 2, 80 + (c as i16));
        Self::write_i16(data, 4, (c % 3) as i16);
        Self::write_i16(data, 6, (c % 2) as i16);
        assert(data@ =~= maxx_frame(c as int, 0x534));
    }

    fn write_535(&self, data: &mut [u8; 8])
        ensures
            final(data)@ == maxx_frame(self.counter as int, 0x535),
    {
        let c = self.counter;
        Self::write_i16(data, 0, 100 + (c as i16));
        Self::write_i16(data, 2, 200 + (c as i16));
        Self::write_i16(data, 4, 300 + (c as i16));
        Self::write_i16(data, 6, 400 + (c as i16));
        assert(data@ =~= maxx_frame(c as int, 0x535));
    }

    fn write_536(&self, data: &mut [u8; 8])
        ensures
            final(data)@ == maxx_frame(self.counter as int, 0x536),
    {
        let c = self.counter;
        Self::write_i16(data, 0, (c % 6) as i16);
        Self::write_i16(data, 2, 35 + (c as i16));
        Self::write_i16(data, 4, 400 + (c as i16) * 2);
        Self::write_i16(data, 6, 85 + (c as i16));
        assert(data@ =~= maxx_frame(c as int, 0x536));
    }

    fn write_537(&self, data: &mut [u8; 8])
        ensures
            final(data)@ == maxx_frame(self.counter as int, 0x537),
    {
        let c = self.counter;
        Self::write_i16(data, 0, 300 + (c as i16));
        Self::write_i16(data, 2, 250 + (c as i16));
        Self::write_i16(data, 4, 120 + (c as i16));
        Self::write_i16(data, 6, 200 + (c as i16));
        assert(data@ =~= maxx_frame(c as int, 0x537));
    }

    fn write_538(&self, data: &mut [u8; 8])
        ensures
            final(data)@ == maxx_frame(self.counter as int, 0x538),
    {
        let c = self.counter;
        Self::write_i16(data, 0, 10 + (c as i16));
        Self::write_i16(data, 2, 20 + (c as i16));
        Self::write_i16(data, 4, 30 + (c as i16));
        Self::write_i16(data, 6, 40 + (c as i16));
        assert(data@ =~= maxx_frame(c as int, 0x538));
    }

    fn write_539(&self, data: &mut [u8; 8])
        ensures
            final(data)@ == maxx_frame(self.counter as int, 0x539),
    {
        let c = self.counter;
        Self::write_i16(data, 0, 50 + (c as i16));
        Self::write_i16(data, 2, 60 + (c as i16));
        Self::write_i16(data, 4, 70 + (c as i16));
        Self::write_i16(data, 6, 80 + (c as i16));
        assert(data@ =~= maxx_frame(c as int, 0x539));
    }

    fn write_540(&self, data: &mut [u8; 8])
        requires
            self.counter < 255,
        ensures
            final(data)@ == maxx_frame(self.counter as int, 0x540),
    {
        let c = self.counter;
        data[0] = c % 4;
        data[1] = (c + 1) % 3;
        Self::write_i16(data, 2, 45i16 + (c as i16));
        Self::write_i16(data, 4, 80i16 + (c as i16));
        Self::write_i16(data, 6, 60i16 + (c as i16));
        assert(data@ =~= maxx_frame(c as int, 0x540));
    }

    fn write_541(&self, data: &mut [u8; 8])
        ensures
            final(data)@ == maxx_frame(self.counter as int, 0x541),
    {
        let c = self.counter;
        Self::write_i16(data, 0, 100 + (c as i16));
        Self::write_i16(data, 2, 90 + (c as i16));
        Self::write_i16(data, 4, 95 + (c as i16));
        Self::write_i16(data, 6, 85 + (c as i16));
        assert(data@ =~= maxx_frame(c as int, 0x541));
    }

    fn write_542(&self, data: &mut [u8; 8])
        ensures
            final(data)@ == maxx_frame(self.counter as int, 0x542),
    {
        let c = self.counter;
        Self::write_i16(data, 0, 110i16 + (c as i16));
        Self::write_i16(data, 2, 105i16 + (c as i16));
        Self::write_u16(data, 4, 0x0000);
        Self::write_i16(data, 6, 0);
        assert(data@ =~= maxx_frame(c as int, 0x542));
    }
}

impl Default for MaxxTestGenerator {
    fn default() -> (r: Self)
        ensures
            r.spec_counter() == 0,
    {
        Self::new()
    }
}

} // verus!
