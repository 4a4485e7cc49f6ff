//! SCS protocol constants: CAN message ids, message type bytes and the
//! ranges used by the test data generators.

use vstd::prelude::*;

verus! {

/// SCS message IDs (0x300 - 0x310 range)
pub const SCS_MESSAGE_IDS: [u32; 17] = [
    0x300, 0x301, 0x302, 0x303, 0x304, 0x305, 0x306,
    0x307, 0x308, 0x309, 0x30A, 0x30B, 0x30C, 0x30D,
    0x30E, 0x30F, 0x310,
];

pub const MSG_ID_0x300: u32 = 0x300;
pub const MSG_ID_0x301: u32 = 0x301;
pub const MSG_ID_0x302: u32 = 0x302;
pub const MSG_ID_0x303: u32 = 0x303;
pub const MSG_ID_0x304: u32 = 0x304;
pub const MSG_ID_0x305: u32 = 0x305;
pub const MSG_ID_0x306: u32 = 0x306;
pub const MSG_ID_0x307: u32 = 0x307;
pub const MSG_ID_0x308: u32 = 0x308;
pub const MSG_ID_0x309: u32 = 0x309;
pub const MSG_ID_0x30A: u32 = 0x30A;
pub const MSG_ID_0x30B: u32 = 0x30B;
pub const MSG_ID_0x30C: u32 = 0x30C;
pub const MSG_ID_0x30D: u32 = 0x30D;
pub const MSG_ID_0x30E: u32 = 0x30E;
pub const MSG_ID_0x30F: u32 = 0x30F;
pub const MSG_ID_0x310: u32 = 0x310;

pub const TOTAL_MESSAGE_TYPES: usize = 17;

/// Message type identifiers of the UDP broadcast protocol.
pub const MSG_TYPE_BYTES: u8 = 0x01;
pub const MSG_TYPE_POT: u8 = 0x02;
pub const MSG_TYPE_CAN_FRAME: u8 = 0x03;
pub const MSG_TYPE_ECU_JSON: u8 = 0x04;

// Ranges for test data generation (0x300 - Engine Control)
pub const RPM_MIN: u16 = 500;
pub const RPM_MAX: u16 = 8000;
pub const RPM_BASE: u16 = 2000;
pub const RPM_STEP: u16 = 100;

pub const TPS_MIN: u8 = 0;
pub const TPS_MAX: u8 = 255;
pub const TPS_BASE: u8 = 50;

pub const KFUEL_MAP_MIN: u8 = 0;
pub const KFUEL_MAP_MAX: u8 = 255;
pub const KFUEL_MAP_BASE: u8 = 100;

pub const MAP_MIN: i16 = 0;
pub const MAP_MAX: i16 = 2000;
pub const MAP_BASE: i16 = 1000;
pub const MAP_STEP: i16 = 50;

pub const IDLE_LEARN_BASE: u16 = 100;

// 0x301 - Fuel & Lambda
pub const LAMBDA_MIN: u8 = 0;
pub const LAMBDA_MAX: u8 = 255;
pub const LAMBDA_BASE: u8 = 128;

pub const INJ_H_PERC_MIN: u8 = 0;
pub const INJ_H_PERC_MAX: u8 = 255;
pub const INJ_H_PERC_BASE: u8 = 200;

// 0x302 - Speed & Idle Control
pub const KMH_MIN: u16 = 0;
pub const KMH_MAX: u16 = 3000;
pub const SLIP_MIN: u8 = 0;
pub const SLIP_MAX: u8 = 255;

// 0x303 - Cam Control
pub const CAM_ANGLE_MIN: i16 = -180;
pub const CAM_ANGLE_MAX: i16 = 180;
pub const CAM_ANGLE_BASE: i16 = -50;

pub const DBW_TPS_MIN: u16 = 0;
pub const DBW_TPS_MAX: u16 = 1023;

// 0x308 - Battery & Ignition
pub const VBATT_MIN: u16 = 0;
pub const VBATT_MAX: u16 = 1023;
pub const VBATT_BASE: u16 = 12000 / 18;

pub const DWELL_MIN: u16 = 1000;
pub const DWELL_MAX: u16 = 5000;

/// The SCS message ids: 0x300 through 0x310.
pub open spec fn spec_is_valid_scs_message(id: u32) -> bool {
    0x300 <= id <= 0x310
}

/// Check if a message ID is a valid SCS message.
pub fn is_valid_scs_message(id: u32) -> (r: bool)
    ensures
        r == spec_is_valid_scs_message(id),
{
    id >= 0x300 && id <= 0x310
}

/// Human-readable name of each SCS message id.
pub open spec fn scs_message_name(id: u32) -> Seq<char> {
    if id == 0x300 {
        "Engine Control"@
    } else if id == 0x301 {
        "Fuel & Lambda"@
    } else if id == 0x302 {
        "Speed & Idle Control"@
    } else if id == 0x303 {
        "Cam Control"@
    } else if id == 0x304 {
        "Injection & Spark"@
    } else if id == 0x305 {
        "Lambda & Fuel Trim"@
    } else if id == 0x306 {
        "Boost & Pressures"@
    } else if id == 0x307 {
        "Barometric Pressure & Boost Control"@
    } else if id == 0x308 {
        "Battery & Ignition"@
    } else if id == 0x309 {
        "Raw Throttle & Pedal"@
    } else if id == 0x30A {
        "Scaled Throttle & Pedal"@
    } else if id == 0x30B {
        "Temperatures"@
    } else if id == 0x30C {
        "Run Timer & Corrections"@
    } else if id == 0x30D {
        "Crank Counter & Learn Values"@
    } else if id == 0x30E {
        "Wheel Speeds"@
    } else if id == 0x30F {
        "Fuel Learn & Level"@
    } else if id == 0x310 {
        "Knock Retard"@
    } else {
        "Unknown"@
    }
}

/// Get human-readable name for message ID.
pub fn message_name(id: u32) -> (r: &'static str)
    ensures
        r@ == scs_message_name(id),
{
    match id {
        0x300 => "Engine Control",
        0x301 => "Fuel & Lambda",
        0x302 => "Speed & Idle Control",
        0x303 => "Cam Control",
        0x304 => "Injection & Spark",
        0x305 => "Lambda & Fuel Trim",
        0x306 => "Boost & Pressures",
        0x307 => "Barometric Pressure & Boost Control",
        0x308 => "Battery & Ignition",
        0x309 => "Raw Throttle & Pedal",
        0x30A => "Scaled Throttle & Pedal",
        0x30B => "Temperatures",
        0x30C => "Run Timer & Corrections",
        0x30D => "Crank Counter & Learn Values",
        0x30E => "Wheel Speeds",
        0x30F => "Fuel Learn & Level",
        0x310 => "Knock Retard",
        _ => "Unknown",
    }
}

/// Length and first character of each SCS message name; together they tell
/// the names apart.
spec fn name_key(id: u32) -> (nat, char) {
    if id == 0x300 {
        (14, 'E')
    } else if id == 0x301 {
        (13, 'F')
    } else if id == 0x302 {
        (20, 'S')
    } else if id == 0x303 {
        (11, 'C')
    } else if id == 0x304 {
        (17, 'I')
    } else if id == 0x305 {
        (18, 'L')
    } else if id == 0x306 {
        (17, 'B')
    } else if id == 0x307 {
        (35, 'B')
    } else if id == 0x308 {
        (18, 'B')
    } else if id == 0x309 {
        (20, 'R')
    } else if id == 0x30A {
        (23, 'S')
    } else if id == 0x30B {
        (12, 'T')
    } else if id == 0x30C {
        (23, 'R')
    } else if id == 0x30D {
        (28, 'C')
    } else if id == 0x30E {
        (12, 'W')
    } else if id == 0x30F {
        (18, 'F')
    } else if id == 0x310 {
        (12, 'K')
    } else {
        (7, 'U')
    }
}

proof fn lemma_name_key(id: u32)
    ensures
        scs_message_name(id).len() == name_key(id).0,
        scs_message_name(id)[0] == name_key(id).1,
{
    reveal_strlit("Engine Control");
    reveal_strlit("Fuel & Lambda");
    reveal_strlit("Speed & Idle Control");
    reveal_strlit("Cam Control");
    reveal_strlit("Injection & Spark");
    reveal_strlit("Lambda & Fuel Trim");
    reveal_strlit("Boost & Pressures");
    reveal_strlit("Barometric Pressure & Boost Control");
    reveal_strlit("Battery & Ignition");
    reveal_strlit("Raw Throttle & Pedal");
    reveal_strlit("Scaled Throttle & Pedal");
    reveal_strlit("Temperatures");
    reveal_strlit("Run Timer & Corrections");
    reveal_strlit("Crank Counter & Learn Values");
    reveal_strlit("Wheel Speeds");
    reveal_strlit("Fuel Learn & Level");
    reveal_strlit("Knock Retard");
    reveal_strlit("Unknown");
}

/// A message id gets a name other than "Unknown" exactly when it is a valid
/// SCS id, and no two SCS ids share a name.
pub proof fn lemma_message_names(a: u32, b: u32)
    ensures
        scs_message_name(a) != "Unknown"@ <==> spec_is_valid_scs_message(a),
        spec_is_valid_scs_message(a) && spec_is_valid_scs_message(b) && a != b ==> scs_message_name(a)
            != scs_message_name(b),
{
    lemma_name_key(a);
    lemma_name_key(b);
    reveal_strlit("Unknown");
    if !spec_is_valid_scs_message(a) {
        assert(scs_message_name(a) == "Unknown"@);
    }
}

/// The id list holds each SCS id once, in increasing order, and nothing else.
pub proof fn lemma_scs_ids()
    ensures
        SCS_MESSAGE_IDS@.len() == TOTAL_MESSAGE_TYPES,
        forall|i: int| 0 <= i < 17 ==> #[trigger] SCS_MESSAGE_IDS@[i] == 0x300 + i,
        forall|i: int| 0 <= i < 17 ==> spec_is_valid_scs_message(#[trigger] SCS_MESSAGE_IDS@[i]),
{
    assert(SCS_MESSAGE_IDS@ =~= seq![
        0x300u32, 0x301, 0x302, 0x303, 0x304, 0x305, 0x306,
        0x307, 0x308, 0x309, 0x30A, 0x30B, 0x30C, 0x30D,
        0x30E, 0x30F, 0x310,
    ]);
}

} // verus!
