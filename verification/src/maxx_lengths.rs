//! Length bounds of the MaxxECU JSON texts: which documented frames fit in
//! the 256-byte text buffer.

use vstd::prelude::*;
use vstd::string::StringSliceAdditionalSpecFns;

use crate::maxx::{
    field_ok, layout_ok, le_i16_at, le_u16_at, maxx_frame, maxx_json, maxx_layout, maxx_parse,
    render, render_field, render_piece, Field, Piece, MAXX_MESSAGE_IDS,
};
use crate::ecu::raw_frame_model;
use crate::messages::MessageModel;
use crate::text::{abs, dec_digits, fixed_text, frac_digits, int_text, pow10};

verus! {

/// Total length of the literal pieces of a layout.
pub open spec fn lit_len(ps: Seq<Piece>) -> int
    decreases ps.len(),
{
    if ps.len() == 0 {
        0
    } else {
        lit_len(ps.drop_last()) + match ps.last() {
            Piece::Lit(s) => s.spec_bytes().len() as int,
            Piece::Value(_) => 0int,
        }
    }
}

/// Number of value pieces of a layout.
pub open spec fn value_count(ps: Seq<Piece>) -> int
    decreases ps.len(),
{
    if ps.len() == 0 {
        0
    } else {
        value_count(ps.drop_last()) + match ps.last() {
            Piece::Lit(_) => 0int,
            Piece::Value(_) => 1int,
        }
    }
}

proof fn lemma_dec_len(n: nat, k: nat)
    requires
        1 <= k,
        n < pow10(k),
    ensures
        dec_digits(n).len() <= k,
    decreases n,
{
    if n >= 10 {
        assert(k >= 2) by {
            if k == 1 {
                reveal_with_fuel(pow10, 2);
            }
        }
        assert(pow10(k) == 10 * pow10((k - 1) as nat));
        lemma_dec_len(n / 10, (k - 1) as nat);
    }
}

proof fn lemma_frac_len(n: nat, k: nat)
    ensures
        frac_digits(n, k).len() == k,
    decreases k,
{
    if k > 0 {
        lemma_frac_len(n / 10, (k - 1) as nat);
    }
}

proof fn lemma_pow10_facts()
    ensures
        pow10(5) == 100000,
        pow10(1) == 10,
        pow10(2) == 100,
        pow10(3) == 1000,
{
    reveal_with_fuel(pow10, 6);
}

/// Each value of an 8-byte frame prints in at most 10 bytes.
proof fn lemma_field_len(f: Field, d: Seq<u8>)
    requires
        field_ok(f),
        d.len() >= 8,
    ensures
        render_field(f, d).len() <= 10,
{
    lemma_pow10_facts();
    reveal_strlit("true");
    reveal_strlit("false");
    vstd::string::is_ascii_spec_bytes("true");
    vstd::string::is_ascii_spec_bytes("false");
    match f {
        Field::Int(o) => {
            let v = le_i16_at(d, o as int);
            lemma_dec_len(abs(v), 5);
        },
        Field::Unsigned(o) => {
            lemma_dec_len(le_u16_at(d, o as int) as nat, 5);
        },
        Field::Byte(o) => {
            lemma_dec_len(d[o as int] as nat, 5);
        },
        Field::Fixed(o, k) => {
            let v = le_i16_at(d, o as int);
            assert(pow10(k as nat) >= 10);
            assert(abs(v) / pow10(k as nat) <= abs(v));
            lemma_dec_len(abs(v) / pow10(k as nat), 5);
            lemma_frac_len(abs(v) % pow10(k as nat), k as nat);
        },
        Field::Flag(o, mask) => {},
    }
}

/// A rendered layout is at least as long as its literals and at most 10
/// bytes longer per value.
proof fn lemma_render_len(ps: Seq<Piece>, d: Seq<u8>)
    requires
        layout_ok(ps),
        d.len() >= 8,
    ensures
        lit_len(ps) <= render(ps, d).len() <= lit_len(ps) + 10 * value_count(ps),
    decreases ps.len(),
{
    if ps.len() > 0 {
        let init = ps.drop_last();
        assert(layout_ok(init)) by {
            assert forall|i: int| 0 <= i < init.len() implies (#[trigger] init[i] matches Piece::Value(
                f,
            ) ==> field_ok(f)) by {
                assert(init[i] == ps[i]);
            }
        }
        lemma_render_len(init, d);
        let last = ps.last();
        assert(ps[ps.len() - 1] == last);
        match last {
            Piece::Lit(s) => {},
            Piece::Value(f) => {
                lemma_field_len(f, d);
            },
        }
    }
}

proof fn lemma_layout_len_520()
    ensures
        maxx_layout(0x520) matches Some(ps) && lit_len(ps) == 67 && value_count(ps) == 4,
{
    reveal_strlit("{\"id\":0x520,\"rpm\":");
    vstd::string::is_ascii_spec_bytes("{\"id\":0x520,\"rpm\":");
    reveal_strlit(",\"throttle_position_pedal\":");
    vstd::string::is_ascii_spec_bytes(",\"throttle_position_pedal\":");
    reveal_strlit(",\"map_kpa\":");
    vstd::string::is_ascii_spec_bytes(",\"map_kpa\":");
    reveal_strlit(",\"lambda\":");
    vstd::string::is_ascii_spec_bytes(",\"lambda\":");
    reveal_strlit("}");
    vstd::string::is_ascii_spec_bytes("}");
    reveal_with_fuel(lit_len, 10);
    reveal_with_fuel(value_count, 10);
}

proof fn lemma_layout_len_521()
    ensures
        maxx_layout(0x521) matches Some(ps) && lit_len(ps) == 75 && value_count(ps) == 4,
{
    reveal_strlit("{\"id\":0x521,\"lambda_a\":");
    vstd::string::is_ascii_spec_bytes("{\"id\":0x521,\"lambda_a\":");
    reveal_strlit(",\"lambda_b\":");
    vstd::string::is_ascii_spec_bytes(",\"lambda_b\":");
    reveal_strlit(",\"ignition_angle_btdc\":");
    vstd::string::is_ascii_spec_bytes(",\"ignition_angle_btdc\":");
    reveal_strlit(",\"ignition_cut\":");
    vstd::string::is_ascii_spec_bytes(",\"ignition_cut\":");
    reveal_strlit("}");
    vstd::string::is_ascii_spec_bytes("}");
    reveal_with_fuel(lit_len, 10);
    reveal_with_fuel(value_count, 10);
}

proof fn lemma_layout_len_522()
    ensures
        maxx_layout(0x522) matches Some(ps) && lit_len(ps) == 96 && value_count(ps) == 4,
{
    reveal_strlit("{\"id\":0x522,\"fuel_pulsewidth_primary_ms\":");
    vstd::string::is_ascii_spec_bytes("{\"id\":0x522,\"fuel_pulsewidth_primary_ms\":");
    reveal_strlit(",\"fuel_duty_primary\":");
    vstd::string::is_ascii_spec_bytes(",\"fuel_duty_primary\":");
    reveal_strlit(",\"fuel_cut\":");
    vstd::string::is_ascii_spec_bytes(",\"fuel_cut\":");
    reveal_strlit(",\"vehicle_speed_kmh\":");
    vstd::string::is_ascii_spec_bytes(",\"vehicle_speed_kmh\":");
    reveal_strlit("}");
    vstd::string::is_ascii_spec_bytes("}");
    reveal_with_fuel(lit_len, 10);
    reveal_with_fuel(value_count, 10);
}

proof fn lemma_layout_len_523()
    ensures
        maxx_layout(0x523) matches Some(ps) && lit_len(ps) == 101 && value_count(ps) == 4,
{
    reveal_strlit("{\"id\":0x523,\"undriven_wheels_avg_spd_kmh\":");
    vstd::string::is_ascii_spec_bytes("{\"id\":0x523,\"undriven_wheels_avg_spd_kmh\":");
    reveal_strlit(",\"driven_wheels_avg_spd_kmh\":");
    vstd::string::is_ascii_spec_bytes(",\"driven_wheels_avg_spd_kmh\":");
    reveal_strlit(",\"wheel_slip\":");
    vstd::string::is_ascii_spec_bytes(",\"wheel_slip\":");
    reveal_strlit(",\"target_slip\":");
    vstd::string::is_ascii_spec_bytes(",\"target_slip\":");
    reveal_strlit("}");
    vstd::string::is_ascii_spec_bytes("}");
    reveal_with_fuel(lit_len, 10);
    reveal_with_fuel(value_count, 10);
}

proof fn lemma_layout_len_524()
    ensures
        maxx_layout(0x524) matches Some(ps) && lit_len(ps) == 95 && value_count(ps) == 4,
{
    reveal_strlit("{\"id\":0x524,\"traction_ctrl_power_limit\":");
    vstd::string::is_ascii_spec_bytes("{\"id\":0x524,\"traction_ctrl_power_limit\":");
    reveal_strlit(",\"lambda_corr_a\":");
    vstd::string::is_ascii_spec_bytes(",\"lambda_corr_a\":");
    reveal_strlit(",\"lambda_corr_b\":");
    vstd::string::is_ascii_spec_bytes(",\"lambda_corr_b\":");
    reveal_strlit(",\"firmware_version\":");
    vstd::string::is_ascii_spec_bytes(",\"firmware_version\":");
    reveal_strlit("}");
    vstd::string::is_ascii_spec_bytes("}");
    reveal_with_fuel(lit_len, 10);
    reveal_with_fuel(value_count, 10);
}

proof fn lemma_layout_len_526()
    ensures
        maxx_layout(0x526) matches Some(ps) && lit_len(ps) == 270 && value_count(ps) == 14,
{
    reveal_strlit("{\"id\":0x526,\"throttle_blip_active\":");
    vstd::string::is_ascii_spec_bytes("{\"id\":0x526,\"throttle_blip_active\":");
    reveal_strlit(",\"ac_idle_up_active\":");
    vstd::string::is_ascii_spec_bytes(",\"ac_idle_up_active\":");
    reveal_strlit(",\"knock_detected\":");
    vstd::string::is_ascii_spec_bytes(",\"knock_detected\":");
    reveal_strlit(",\"brake_pedal_active\":");
    vstd::string::is_ascii_spec_bytes(",\"brake_pedal_active\":");
    reveal_strlit(",\"clutch_pedal_active\":");
    vstd::string::is_ascii_spec_bytes(",\"clutch_pedal_active\":");
    reveal_strlit(",\"speed_limit_active\":");
    vstd::string::is_ascii_spec_bytes(",\"speed_limit_active\":");
    reveal_strlit(",\"gp_limiter_active\":");
    vstd::string::is_ascii_spec_bytes(",\"gp_limiter_active\":");
    reveal_strlit(",\"user_cut_active\":");
    vstd::string::is_ascii_spec_bytes(",\"user_cut_active\":");
    reveal_strlit(",\"ecu_is_logging\":");
    vstd::string::is_ascii_spec_bytes(",\"ecu_is_logging\":");
    reveal_strlit(",\"nitrous_active\":");
    vstd::string::is_ascii_spec_bytes(",\"nitrous_active\":");
    reveal_strlit(",\"spare_1_7\":");
    vstd::string::is_ascii_spec_bytes(",\"spare_1_7\":");
    reveal_strlit(",\"spare_2\":");
    vstd::string::is_ascii_spec_bytes(",\"spare_2\":");
    reveal_strlit(",\"rev_limit_rpm\":");
    vstd::string::is_ascii_spec_bytes(",\"rev_limit_rpm\":");
    reveal_strlit(",\"spare_3\":");
    vstd::string::is_ascii_spec_bytes(",\"spare_3\":");
    reveal_strlit("}");
    vstd::string::is_ascii_spec_bytes("}");
    reveal_with_fuel(lit_len, 30);
    reveal_with_fuel(value_count, 30);
}

proof fn lemma_layout_len_527()
    ensures
        maxx_layout(0x527) matches Some(ps) && lit_len(ps) == 100 && value_count(ps) == 4,
{
    reveal_strlit("{\"id\":0x527,\"acceleration_forward_g\":");
    vstd::string::is_ascii_spec_bytes("{\"id\":0x527,\"acceleration_forward_g\":");
    reveal_strlit(",\"acceleration_right_g\":");
    vstd::string::is_ascii_spec_bytes(",\"acceleration_right_g\":");
    reveal_strlit(",\"acceleration_up_g\":");
    vstd::string::is_ascii_spec_bytes(",\"acceleration_up_g\":");
    reveal_strlit(",\"lambda_target\":");
    vstd::string::is_ascii_spec_bytes(",\"lambda_target\":");
    reveal_strlit("}");
    vstd::string::is_ascii_spec_bytes("}");
    reveal_with_fuel(lit_len, 10);
    reveal_with_fuel(value_count, 10);
}

proof fn lemma_layout_len_528()
    ensures
        maxx_layout(0x528) matches Some(ps) && lit_len(ps) == 97 && value_count(ps) == 4,
{
    reveal_strlit("{\"id\":0x528,\"knocklevel_all_peak\":");
    vstd::string::is_ascii_spec_bytes("{\"id\":0x528,\"knocklevel_all_peak\":");
    reveal_strlit(",\"knock_correction_deg\":");
    vstd::string::is_ascii_spec_bytes(",\"knock_correction_deg\":");
    reveal_strlit(",\"knock_count\":");
    vstd::string::is_ascii_spec_bytes(",\"knock_count\":");
    reveal_strlit(",\"last_knock_cylinder\":");
    vstd::string::is_ascii_spec_bytes(",\"last_knock_cylinder\":");
    reveal_strlit("}");
    vstd::string::is_ascii_spec_bytes("}");
    reveal_with_fuel(lit_len, 10);
    reveal_with_fuel(value_count, 10);
}

proof fn lemma_layout_len_530()
    ensures
        maxx_layout(0x530) matches Some(ps) && lit_len(ps) == 93 && value_count(ps) == 4,
{
    reveal_strlit("{\"id\":0x530,\"battery_voltage_v\":");
    vstd::string::is_ascii_spec_bytes("{\"id\":0x530,\"battery_voltage_v\":");
    reveal_strlit(",\"baro_pressure_kpa\":");
    vstd::string::is_ascii_spec_bytes(",\"baro_pressure_kpa\":");
    reveal_strlit(",\"intake_air_temp_c\":");
    vstd::string::is_ascii_spec_bytes(",\"intake_air_temp_c\":");
    reveal_strlit(",\"coolant_temp_c\":");
    vstd::string::is_ascii_spec_bytes(",\"coolant_temp_c\":");
    reveal_strlit("}");
    vstd::string::is_ascii_spec_bytes("}");
    reveal_with_fuel(lit_len, 10);
    reveal_with_fuel(value_count, 10);
}

proof fn lemma_layout_len_531()
    ensures
        maxx_layout(0x531) matches Some(ps) && lit_len(ps) == 101 && value_count(ps) == 4,
{
    reveal_strlit("{\"id\":0x531,\"total_fuel_trim_pct\":");
    vstd::string::is_ascii_spec_bytes("{\"id\":0x531,\"total_fuel_trim_pct\":");
    reveal_strlit(",\"ethanol_concentration_pct\":");
    vstd::string::is_ascii_spec_bytes(",\"ethanol_concentration_pct\":");
    reveal_strlit(",\"total_ignition_comp_deg\":");
    vstd::string::is_ascii_spec_bytes(",\"total_ignition_comp_deg\":");
    reveal_strlit(",\"egt1_c\":");
    vstd::string::is_ascii_spec_bytes(",\"egt1_c\":");
    reveal_strlit("}");
    vstd::string::is_ascii_spec_bytes("}");
    reveal_with_fuel(lit_len, 10);
    reveal_with_fuel(value_count, 10);
}

proof fn lemma_layout_len_532()
    ensures
        maxx_layout(0x532) matches Some(ps) && lit_len(ps) == 52 && value_count(ps) == 4,
{
    reveal_strlit("{\"id\":0x532,\"egt2_c\":");
    vstd::string::is_ascii_spec_bytes("{\"id\":0x532,\"egt2_c\":");
    reveal_strlit(",\"egt3_c\":");
    vstd::string::is_ascii_spec_bytes(",\"egt3_c\":");
    reveal_strlit(",\"egt4_c\":");
    vstd::string::is_ascii_spec_bytes(",\"egt4_c\":");
    reveal_strlit(",\"egt5_c\":");
    vstd::string::is_ascii_spec_bytes(",\"egt5_c\":");
    reveal_strlit("}");
    vstd::string::is_ascii_spec_bytes("}");
    reveal_with_fuel(lit_len, 10);
    reveal_with_fuel(value_count, 10);
}

proof fn lemma_layout_len_533()
    ensures
        maxx_layout(0x533) matches Some(ps) && lit_len(ps) == 59 && value_count(ps) == 4,
{
    reveal_strlit("{\"id\":0x533,\"egt6_c\":");
    vstd::string::is_ascii_spec_bytes("{\"id\":0x533,\"egt6_c\":");
    reveal_strlit(",\"egt7_c\":");
    vstd::string::is_ascii_spec_bytes(",\"egt7_c\":");
    reveal_strlit(",\"egt8_c\":");
    vstd::string::is_ascii_spec_bytes(",\"egt8_c\":");
    reveal_strlit(",\"egt_highest_c\":");
    vstd::string::is_ascii_spec_bytes(",\"egt_highest_c\":");
    reveal_strlit("}");
    vstd::string::is_ascii_spec_bytes("}");
    reveal_with_fuel(lit_len, 10);
    reveal_with_fuel(value_count, 10);
}

proof fn lemma_layout_len_534()
    ensures
        maxx_layout(0x534) matches Some(ps) && lit_len(ps) == 85 && value_count(ps) == 4,
{
    reveal_strlit("{\"id\":0x534,\"egt_difference_c\":");
    vstd::string::is_ascii_spec_bytes("{\"id\":0x534,\"egt_difference_c\":");
    reveal_strlit(",\"cpu_temp_c\":");
    vstd::string::is_ascii_spec_bytes(",\"cpu_temp_c\":");
    reveal_strlit(",\"error_code_count\":");
    vstd::string::is_ascii_spec_bytes(",\"error_code_count\":");
    reveal_strlit(",\"lost_sync_count\":");
    vstd::string::is_ascii_spec_bytes(",\"lost_sync_count\":");
    reveal_strlit("}");
    vstd::string::is_ascii_spec_bytes("}");
    reveal_with_fuel(lit_len, 10);
    reveal_with_fuel(value_count, 10);
}

proof fn lemma_layout_len_535()
    ensures
        maxx_layout(0x535) matches Some(ps) && lit_len(ps) == 104 && value_count(ps) == 4,
{
    reveal_strlit("{\"id\":0x535,\"user_analog_input_1\":");
    vstd::string::is_ascii_spec_bytes("{\"id\":0x535,\"user_analog_input_1\":");
    reveal_strlit(",\"user_analog_input_2\":");
    vstd::string::is_ascii_spec_bytes(",\"user_analog_input_2\":");
    reveal_strlit(",\"user_analog_input_3\":");
    vstd::string::is_ascii_spec_bytes(",\"user_analog_input_3\":");
    reveal_strlit(",\"user_analog_input_4\":");
    vstd::string::is_ascii_spec_bytes(",\"user_analog_input_4\":");
    reveal_strlit("}");
    vstd::string::is_ascii_spec_bytes("}");
    reveal_with_fuel(lit_len, 10);
    reveal_with_fuel(value_count, 10);
}

proof fn lemma_layout_len_536()
    ensures
        maxx_layout(0x536) matches Some(ps) && lit_len(ps) == 81 && value_count(ps) == 4,
{
    reveal_strlit("{\"id\":0x536,\"gear\":");
    vstd::string::is_ascii_spec_bytes("{\"id\":0x536,\"gear\":");
    reveal_strlit(",\"boost_solenoid_duty_pct\":");
    vstd::string::is_ascii_spec_bytes(",\"boost_solenoid_duty_pct\":");
    reveal_strlit(",\"oil_pressure_kpa\":");
    vstd::string::is_ascii_spec_bytes(",\"oil_pressure_kpa\":");
    reveal_strlit(",\"oil_temp_c\":");
    vstd::string::is_ascii_spec_bytes(",\"oil_temp_c\":");
    reveal_strlit("}");
    vstd::string::is_ascii_spec_bytes("}");
    reveal_with_fuel(lit_len, 10);
    reveal_with_fuel(value_count, 10);
}

proof fn lemma_layout_len_537()
    ensures
        maxx_layout(0x537) matches Some(ps) && lit_len(ps) == 105 && value_count(ps) == 4,
{
    reveal_strlit("{\"id\":0x537,\"fuel_pressure_1_kpa\":");
    vstd::string::is_ascii_spec_bytes("{\"id\":0x537,\"fuel_pressure_1_kpa\":");
    reveal_strlit(",\"wastegate_pressure_kpa\":");
    vstd::string::is_ascii_spec_bytes(",\"wastegate_pressure_kpa\":");
    reveal_strlit(",\"coolant_pressure_kpa\":");
    vstd::string::is_ascii_spec_bytes(",\"coolant_pressure_kpa\":");
    reveal_strlit(",\"boost_target_kpa\":");
    vstd::string::is_ascii_spec_bytes(",\"boost_target_kpa\":");
    reveal_strlit("}");
    vstd::string::is_ascii_spec_bytes("}");
    reveal_with_fuel(lit_len, 10);
    reveal_with_fuel(value_count, 10);
}

proof fn lemma_layout_len_538()
    ensures
        maxx_layout(0x538) matches Some(ps) && lit_len(ps) == 84 && value_count(ps) == 4,
{
    reveal_strlit("{\"id\":0x538,\"user_channel_1\":");
    vstd::string::is_ascii_spec_bytes("{\"id\":0x538,\"user_channel_1\":");
    reveal_strlit(",\"user_channel_2\":");
    vstd::string::is_ascii_spec_bytes(",\"user_channel_2\":");
    reveal_strlit(",\"user_channel_3\":");
    vstd::string::is_ascii_spec_bytes(",\"user_channel_3\":");
    reveal_strlit(",\"user_channel_4\":");
    vstd::string::is_ascii_spec_bytes(",\"user_channel_4\":");
    reveal_strlit("}");
    vstd::string::is_ascii_spec_bytes("}");
    reveal_with_fuel(lit_len, 10);
    reveal_with_fuel(value_count, 10);
}

proof fn lemma_layout_len_539()
    ensures
        maxx_layout(0x539) matches Some(ps) && lit_len(ps) == 84 && value_count(ps) == 4,
{
    reveal_strlit("{\"id\":0x539,\"user_channel_5\":");
    vstd::string::is_ascii_spec_bytes("{\"id\":0x539,\"user_channel_5\":");
    reveal_strlit(",\"user_channel_6\":");
    vstd::string::is_ascii_spec_bytes(",\"user_channel_6\":");
    reveal_strlit(",\"user_channel_7\":");
    vstd::string::is_ascii_spec_bytes(",\"user_channel_7\":");
    reveal_strlit(",\"user_channel_8\":");
    vstd::string::is_ascii_spec_bytes(",\"user_channel_8\":");
    reveal_strlit("}");
    vstd::string::is_ascii_spec_bytes("}");
    reveal_with_fuel(lit_len, 10);
    reveal_with_fuel(value_count, 10);
}

proof fn lemma_layout_len_540()
    ensures
        maxx_layout(0x540) matches Some(ps) && lit_len(ps) == 127 && value_count(ps) == 5,
{
    reveal_strlit("{\"id\":0x540,\"active_boost_table\":");
    vstd::string::is_ascii_spec_bytes("{\"id\":0x540,\"active_boost_table\":");
    reveal_strlit(",\"active_tune_selector\":");
    vstd::string::is_ascii_spec_bytes(",\"active_tune_selector\":");
    reveal_strlit(",\"virtual_fuel_tank_l\":");
    vstd::string::is_ascii_spec_bytes(",\"virtual_fuel_tank_l\":");
    reveal_strlit(",\"transmission_temp_c\":");
    vstd::string::is_ascii_spec_bytes(",\"transmission_temp_c\":");
    reveal_strlit(",\"differential_temp_c\":");
    vstd::string::is_ascii_spec_bytes(",\"differential_temp_c\":");
    reveal_strlit("}");
    vstd::string::is_ascii_spec_bytes("}");
    reveal_with_fuel(lit_len, 12);
    reveal_with_fuel(value_count, 12);
}

proof fn lemma_layout_len_541()
    ensures
        maxx_layout(0x541) matches Some(ps) && lit_len(ps) == 106 && value_count(ps) == 4,
{
    reveal_strlit("{\"id\":0x541,\"vvt_intake_cam1_deg\":");
    vstd::string::is_ascii_spec_bytes("{\"id\":0x541,\"vvt_intake_cam1_deg\":");
    reveal_strlit(",\"vvt_exhaust_cam1_deg\":");
    vstd::string::is_ascii_spec_bytes(",\"vvt_exhaust_cam1_deg\":");
    reveal_strlit(",\"vvt_intake_cam2_deg\":");
    vstd::string::is_ascii_spec_bytes(",\"vvt_intake_cam2_deg\":");
    reveal_strlit(",\"vvt_exhaust_cam2_deg\":");
    vstd::string::is_ascii_spec_bytes(",\"vvt_exhaust_cam2_deg\":");
    reveal_strlit("}");
    vstd::string::is_ascii_spec_bytes("}");
    reveal_with_fuel(lit_len, 10);
    reveal_with_fuel(value_count, 10);
}

proof fn lemma_layout_len_542()
    ensures
        maxx_layout(0x542) matches Some(ps) && lit_len(ps) == 99 && value_count(ps) == 4,
{
    reveal_strlit("{\"id\":0x542,\"vvt_intake_cam_target_deg\":");
    vstd::string::is_ascii_spec_bytes("{\"id\":0x542,\"vvt_intake_cam_target_deg\":");
    reveal_strlit(",\"vvt_exhaust_cam_target_deg\":");
    vstd::string::is_ascii_spec_bytes(",\"vvt_exhaust_cam_target_deg\":");
    reveal_strlit(",\"ecu_errors_code\":");
    vstd::string::is_ascii_spec_bytes(",\"ecu_errors_code\":");
    reveal_strlit(",\"spare\":");
    vstd::string::is_ascii_spec_bytes(",\"spare\":");
    reveal_strlit("}");
    vstd::string::is_ascii_spec_bytes("}");
    reveal_with_fuel(lit_len, 10);
    reveal_with_fuel(value_count, 10);
}

/// Literal length and value count of each documented layout.
proof fn lemma_layout_len(id: u32)
    requires
        maxx_layout(id) is Some,
    ensures
        maxx_layout(id) matches Some(ps) && (id == 0x526 ==> lit_len(ps) > 256) && (id != 0x526
            ==> lit_len(ps) + 10 * value_count(ps) <= 256),
{
    if id == 0x520 {
        lemma_layout_len_520();
    } else if id == 0x521 {
        lemma_layout_len_521();
    } else if id == 0x522 {
        lemma_layout_len_522();
    } else if id == 0x523 {
        lemma_layout_len_523();
    } else if id == 0x524 {
        lemma_layout_len_524();
    } else if id == 0x526 {
        lemma_layout_len_526();
    } else if id == 0x527 {
        lemma_layout_len_527();
    } else if id == 0x528 {
        lemma_layout_len_528();
    } else if id == 0x530 {
        lemma_layout_len_530();
    } else if id == 0x531 {
        lemma_layout_len_531();
    } else if id == 0x532 {
        lemma_layout_len_532();
    } else if id == 0x533 {
        lemma_layout_len_533();
    } else if id == 0x534 {
        lemma_layout_len_534();
    } else if id == 0x535 {
        lemma_layout_len_535();
    } else if id == 0x536 {
        lemma_layout_len_536();
    } else if id == 0x537 {
        lemma_layout_len_537();
    } else if id == 0x538 {
        lemma_layout_len_538();
    } else if id == 0x539 {
        lemma_layout_len_539();
    } else if id == 0x540 {
        lemma_layout_len_540();
    } else if id == 0x541 {
        lemma_layout_len_541();
    } else if id == 0x542 {
        lemma_layout_len_542();
    }
}

/// The documented frames are exactly the listed MaxxECU ids.
pub proof fn lemma_documented_ids(id: u32)
    ensures
        maxx_layout(id) is Some <==> MAXX_MESSAGE_IDS@.contains(id),
{
    assert(MAXX_MESSAGE_IDS@ =~= seq![
        0x520u32, 0x521, 0x522, 0x523, 0x524, 0x526, 0x527, 0x528,
        0x530, 0x531, 0x532, 0x533, 0x534, 0x535, 0x536, 0x537, 0x538, 0x539,
        0x540, 0x541, 0x542,
    ]);
    if maxx_layout(id) is Some {
        if id == 0x520 {
            assert(MAXX_MESSAGE_IDS@[0] == id);
        } else if id == 0x521 {
            assert(MAXX_MESSAGE_IDS@[1] == id);
        } else if id == 0x522 {
            assert(MAXX_MESSAGE_IDS@[2] == id);
        } else if id == 0x523 {
            assert(MAXX_MESSAGE_IDS@[3] == id);
        } else if id == 0x524 {
            assert(MAXX_MESSAGE_IDS@[4] == id);
        } else if id == 0x526 {
            assert(MAXX_MESSAGE_IDS@[5] == id);
        } else if id == 0x527 {
            assert(MAXX_MESSAGE_IDS@[6] == id);
        } else if id == 0x528 {
            assert(MAXX_MESSAGE_IDS@[7] == id);
        } else if id == 0x530 {
            assert(MAXX_MESSAGE_IDS@[8] == id);
        } else if id == 0x531 {
            assert(MAXX_MESSAGE_IDS@[9] == id);
        } else if id == 0x532 {
            assert(MAXX_MESSAGE_IDS@[10] == id);
        } else if id == 0x533 {
            assert(MAXX_MESSAGE_IDS@[11] == id);
        } else if id == 0x534 {
            assert(MAXX_MESSAGE_IDS@[12] == id);
        } else if id == 0x535 {
            assert(MAXX_MESSAGE_IDS@[13] == id);
        } else if id == 0x536 {
            assert(MAXX_MESSAGE_IDS@[14] == id);
        } else if id == 0x537 {
            assert(MAXX_MESSAGE_IDS@[15] == id);
        } else if id == 0x538 {
            assert(MAXX_MESSAGE_IDS@[16] == id);
        } else if id == 0x539 {
            assert(MAXX_MESSAGE_IDS@[17] == id);
        } else if id == 0x540 {
            assert(MAXX_MESSAGE_IDS@[18] == id);
        } else if id == 0x541 {
            assert(MAXX_MESSAGE_IDS@[19] == id);
        } else if id == 0x542 {
            assert(MAXX_MESSAGE_IDS@[20] == id);
        }
    }
}

/// Every documented layout reads its values inside an 8-byte frame.
proof fn lemma_layout_ok(id: u32)
    requires
        maxx_layout(id) is Some,
    ensures
        layout_ok(maxx_layout(id).unwrap()),
{
    let ps = maxx_layout(id).unwrap();
    assert forall|i: int| 0 <= i < ps.len() implies (#[trigger] ps[i] matches Piece::Value(f)
        ==> field_ok(f)) by {}
}

/// Every documented MaxxECU frame of at least 8 bytes is answered with a
/// JSON message, except frame 0x526, whose text is always longer than the
/// 256-byte buffer and which is therefore forwarded as the raw frame.
pub proof fn lemma_documented_frames_become_json(id: u32, d: Seq<u8>)
    requires
        MAXX_MESSAGE_IDS@.contains(id),
        d.len() >= 8,
    ensures
        id != 0x526 ==> maxx_parse(id, d) is EcuJson,
        id == 0x526 ==> maxx_parse(id, d) == raw_frame_model(id, d),
{
    lemma_documented_ids(id);
    let ps = maxx_layout(id).unwrap();
    lemma_layout_ok(id);
    lemma_layout_len(id);
    lemma_render_len(ps, d);
}

/// Every frame the MaxxECU test generator produces is 8 bytes long.
proof fn lemma_maxx_frame_len(c: int, id: u32)
    ensures
        maxx_frame(c, id).len() == 8,
{
}

/// What the MaxxECU test generator sends, the MaxxECU parser reads back as
/// JSON: for every counter and every documented id but 0x526, whose text
/// never fits the 256-byte buffer and which comes back as the raw frame.
pub proof fn lemma_generated_frames_parse(c: u8, id: u32)
    requires
        MAXX_MESSAGE_IDS@.contains(id),
    ensures
        id != 0x526 ==> maxx_parse(id, maxx_frame(c as int, id)) is EcuJson,
        id == 0x526 ==> maxx_parse(id, maxx_frame(c as int, id)) == raw_frame_model(
            id,
            maxx_frame(c as int, id),
        ),
{
    lemma_maxx_frame_len(c as int, id);
    lemma_documented_frames_become_json(id, maxx_frame(c as int, id));
}

} // verus!
