//! SCS Delta CAN protocol: id ownership and the test frame generator.
//!
//! Frames carry big-endian 16-bit values and single bytes; the generator
//! produces a deterministic, slowly changing value set per cycle counter,
//! keeping every value that a generator range constant bounds within it.

use vstd::prelude::*;

use vstd::utf8::*;

use crate::ecu::{raw_frame_model, raw_frame_to_message};
use crate::messages::{EcuJsonData, Message, MessageModel};
use crate::text::{str_from_utf8, text_try_from_str};
use crate::constants::{
    spec_is_valid_scs_message, is_valid_scs_message, CAM_ANGLE_BASE, CAM_ANGLE_MAX, CAM_ANGLE_MIN,
    DBW_TPS_MAX, DBW_TPS_MIN, DWELL_MAX, DWELL_MIN, IDLE_LEARN_BASE, INJ_H_PERC_MAX, INJ_H_PERC_MIN,
    KFUEL_MAP_BASE, KFUEL_MAP_MAX, KFUEL_MAP_MIN, KMH_MAX, KMH_MIN, LAMBDA_MAX, LAMBDA_MIN,
    MAP_BASE, MAP_MAX, MAP_MIN, MAP_STEP, RPM_MAX, RPM_MIN, RPM_STEP, SLIP_MAX, SLIP_MIN, TPS_BASE,
    TPS_MAX, TPS_MIN, VBATT_BASE, VBATT_MAX, VBATT_MIN,
};

verus! {

/// The message an SCS frame becomes, given the JSON rendering of its decoded
/// form (`None` when the frame does not decode): that JSON when it is UTF-8
/// of at most 256 bytes, the raw frame otherwise.
pub open spec fn scs_message_model(id: u32, data: Seq<u8>, json: Option<Seq<u8>>) -> MessageModel {
    match json {
        Some(j) => if valid_utf8(j) && j.len() <= 256 {
            MessageModel::EcuJson(j)
        } else {
            raw_frame_model(id, data)
        },
        None => raw_frame_model(id, data),
    }
}

/// How an SCS frame ends up: the rendered JSON is kept exactly when it is
/// valid UTF-8 of at most 256 bytes; a frame that does not decode, or whose
/// text is not kept, is forwarded raw.
pub proof fn lemma_scs_message_choice(id: u32, data: Seq<u8>, json: Option<Seq<u8>>)
    ensures
        json matches Some(j) ==> (valid_utf8(j) && j.len() <= 256 ==> scs_message_model(id, data, json)
            == MessageModel::EcuJson(j)),
        json is None || !valid_utf8(json.unwrap()) || json.unwrap().len() > 256 ==> scs_message_model(
            id,
            data,
            json,
        ) == raw_frame_model(id, data),
{
}

/// Parser adapter for SCS Delta frames (ids 0x300 - 0x310).
#[derive(Clone, Copy, Debug)]
pub struct ScsParser;

impl ScsParser {
    pub fn new() -> (r: Self)
        ensures
            r == ScsParser,
    {
        ScsParser
    }

    /// The ids this parser is responsible for: the SCS ids.
    pub fn matches_id(&self, id: u32) -> (r: bool)
        ensures
            r == spec_is_valid_scs_message(id),
    {
        is_valid_scs_message(id)
    }

    /// Completes the parse of a frame (`id`, `data`) from the JSON text that
    /// its decoded, scaled form renders to (`None` when it does not decode):
    /// the JSON message when that text is UTF-8 and fits the 256-byte text
    /// buffer, the raw frame otherwise.
    pub fn parse_rendered(&self, id: u32, data: &[u8], json: Option<&[u8]>) -> (m: Message)
        ensures
            m@ == scs_message_model(id, data@, match json {
                Some(j) => Some(j@),
                None => None,
            }),
    {
        match json {
            Some(bytes) => match str_from_utf8(bytes) {
                Some(s) => match text_try_from_str(s) {
                    Some(t) => Message::EcuJson(EcuJsonData::new(t)),
                    None => raw_frame_to_message(id, data),
                },
                None => raw_frame_to_message(id, data),
            },
            None => raw_frame_to_message(id, data),
        }
    }
}

// ---------------------------------------------------------------------------
//  Frame byte helpers
// ---------------------------------------------------------------------------

/// Big-endian bytes of an unsigned 16-bit value.
pub open spec fn be_u16(v: int) -> Seq<u8> {
    seq![(v / 256) as u8, (v % 256) as u8]
}

/// Big-endian bytes of a signed 16-bit value (two's complement).
pub open spec fn be_i16(v: int) -> Seq<u8> {
    be_u16(if v < 0 { v + 65536 } else { v })
}

/// `a + b`, saturating at 255.
pub open spec fn sat_u8(v: int) -> u8 {
    if v > 255 {
        255
    } else {
        v as u8
    }
}

/// `v` modulo 256.
pub open spec fn wrap_u8(v: int) -> u8 {
    (v % 256) as u8
}

pub open spec fn clamp(v: int, lo: int, hi: int) -> int {
    if v < lo {
        lo
    } else if v > hi {
        hi
    } else {
        v
    }
}

pub open spec fn min(a: int, b: int) -> int {
    if a < b {
        a
    } else {
        b
    }
}

/// `v` limited to `lo..=hi`.
fn clamp_i16(v: i16, lo: i16, hi: i16) -> (r: i16)
    requires
        lo <= hi,
    ensures
        r == clamp(v as int, lo as int, hi as int),
{
    if v < lo {
        lo
    } else if v > hi {
        hi
    } else {
        v
    }
}

/// `v` limited to `lo..=hi`.
fn clamp_u16(v: u16, lo: u16, hi: u16) -> (r: u16)
    requires
        lo <= hi,
    ensures
        r == clamp(v as int, lo as int, hi as int),
{
    if v < lo {
        lo
    } else if v > hi {
        hi
    } else {
        v
    }
}

fn put_be_u16(data: &mut [u8; 8], at: usize, v: u16)
    requires
        at + 1 < 8,
    ensures
        final(data)@ == old(data)@.update(at as int, be_u16(v as int)[0]).update(
            at + 1,
            be_u16(v as int)[1],
        ),
{
    data[at] = (v / 256) as u8;
    data[at + 1] = (v % 256) as u8;
}

fn put_be_i16(data: &mut [u8; 8], at: usize, v: i16)
    requires
        at + 1 < 8,
    ensures
        final(data)@ == old(data)@.update(at as int, be_i16(v as int)[0]).update(
            at + 1,
            be_i16(v as int)[1],
        ),
{
    let u: u16 = if v < 0 {
        (v as i32 + 65536) as u16
    } else {
        v as u16
    };
    put_be_u16(data, at, u);
}

/// The 8 data bytes the SCS generator produces for `id` at cycle counter `c`
/// (all zeros for ids outside 0x300 - 0x310).
pub open spec fn scs_frame(c: int, id: u32) -> Seq<u8> {
    if id == 0x300 {
        be_u16(min(2000 + c * 100, 8000)) + seq![sat_u8(50 + c), sat_u8(100 + c)] + be_i16(
            clamp(1000 + c * 50, 0, 2000),
        ) + be_u16(100)
    } else if id == 0x301 {
        be_i16(c * 10) + seq![sat_u8(128 + c), sat_u8(200 + c)] + be_u16(c * 100) + be_u16(c * 50)
    } else if id == 0x302 {
        be_u16((c * 5) % 300) + be_u16(c * 100) + be_u16(c * 80) + seq![wrap_u8(c * 10), wrap_u8(c * 15)]
    } else if id == 0x303 {
        be_i16(clamp(-50 + c * 5, -180, 180)) + be_i16(clamp(-30 + c * 3, -180, 180)) + seq![
            wrap_u8(c * 2),
            wrap_u8(c * 3),
        ] + be_u16((c * 100) % 1023)
    } else if id == 0x304 {
        be_u16((1000 + c * 50) % 10000) + be_u16((900 + c * 40) % 8000) + be_i16(-10 + c * 2)
            + be_i16(-5 + c)
    } else if id == 0x305 {
        seq![sat_u8(128 + c), sat_u8(130 + c)] + be_u16((1000 + c * 60) % 12000) + be_i16(
            100 + c * 5,
        ) + be_i16(50 + c * 3)
    } else if id == 0x306 {
        seq![(c % 2) as u8, sat_u8(50 + c)] + be_u16(c * 30) + be_u16(300 + c * 20) + be_u16(
            450 + c * 10,
        )
    } else if id == 0x307 {
        be_u16((1013 + c * 5) % 1100) + be_u16(c * 100) + be_u16(c * 50) + be_u16(1000 + c * 20)
    } else if id == 0x308 {
        be_u16(min(666 + c, 1023)) + be_u16(c * 10) + seq![wrap_u8(c * 5), (c / 2) as u8] + be_u16(
            clamp(3000 + c * 50, 1000, 5000),
        )
    } else if id == 0x309 {
        be_u16(c * 50) + be_u16(c * 45) + be_u16(c * 42) + be_u16(c * 60)
    } else if id == 0x30A {
        be_u16(c * 55) + seq![
            (c % 3) as u8,
            sat_u8(50 + c),
            sat_u8(48 + c),
            sat_u8(45 + c),
            sat_u8(55 + c),
            sat_u8(52 + c),
        ]
    } else if id == 0x30B {
        seq![sat_u8(20 + c), sat_u8(25 + c), sat_u8(100 + c % 155), sat_u8(20 + c)] + be_u16(c * 40)
            + be_u16(c * 38)
    } else if id == 0x30C {
        be_u16(c * 100) + be_u16(c * 35) + be_u16(c * 42) + seq![
            sat_u8(120 + c % 135),
            sat_u8(100 + c % 100),
        ]
    } else if id == 0x30D {
        be_u16(c * 10) + seq![sat_u8(150 + c % 105), sat_u8(140 + c % 115)] + be_i16(-20 + c * 3)
            + be_u16((750 + c * 25) % 2000)
    } else if id == 0x30E {
        be_u16(c * 5) + be_u16(c * 4) + be_u16(c * 6) + be_u16(c * 5)
    } else if id == 0x30F {
        be_i16(100 + c * 2) + seq![sat_u8(75 + c % 80), sat_u8(150 + c)] + be_u16(1000 + c * 50)
            + seq![wrap_u8(c * 3), wrap_u8(c * 5)]
    } else if id == 0x310 {
        Seq::new(8, |i: int| wrap_u8(c * (i + 1)))
    } else {
        seq![0u8, 0, 0, 0, 0, 0, 0, 0]
    }
}

/// The unsigned big-endian 16-bit value at byte `i` of a frame.
pub open spec fn be16_at(b: Seq<u8>, i: int) -> int {
    b[i] * 256 + b[i + 1]
}

/// The signed (two's complement) big-endian 16-bit value at byte `i`.
pub open spec fn be16_signed_at(b: Seq<u8>, i: int) -> int {
    let u = be16_at(b, i);
    if u >= 32768 {
        u - 65536
    } else {
        u
    }
}

proof fn lemma_be_u16_value(v: int)
    requires
        0 <= v < 65536,
    ensures
        be_u16(v).len() == 2,
        be_u16(v)[0] * 256 + be_u16(v)[1] == v,
{
}

proof fn lemma_be_i16_value(v: int)
    requires
        -32768 <= v < 32768,
    ensures
        be_i16(v).len() == 2,
        ({
            let u = be_i16(v)[0] * 256 + be_i16(v)[1];
            (if u >= 32768 { u - 65536 } else { u }) == v
        }),
{
    lemma_be_u16_value(if v < 0 { v + 65536 } else { v });
}

/// Every generated value that the generator range constants bound stays
/// within them, for every counter: in frame 0x300 RPM, TPS, KFuelMAP and MAP;
/// in 0x301 lambda and injector duty; in 0x302 speed and both slip values; in
/// 0x303 both cam angles and the DBW throttle; in 0x308 battery voltage and
/// dwell.
pub proof fn lemma_generated_values_in_range(c: u8)
    ensures
        ({
            let f = scs_frame(c as int, 0x300);
            &&& RPM_MIN <= be16_at(f, 0) <= RPM_MAX
            &&& TPS_MIN <= f[2] <= TPS_MAX
            &&& KFUEL_MAP_MIN <= f[3] <= KFUEL_MAP_MAX
            &&& MAP_MIN <= be16_signed_at(f, 4) <= MAP_MAX
        }),
        ({
            let f = scs_frame(c as int, 0x301);
            &&& LAMBDA_MIN <= f[2] <= LAMBDA_MAX
            &&& INJ_H_PERC_MIN <= f[3] <= INJ_H_PERC_MAX
        }),
        ({
            let f = scs_frame(c as int, 0x302);
            &&& KMH_MIN <= be16_at(f, 0) <= KMH_MAX
            &&& SLIP_MIN <= f[6] <= SLIP_MAX
            &&& SLIP_MIN <= f[7] <= SLIP_MAX
        }),
        ({
            let f = scs_frame(c as int, 0x303);
            &&& CAM_ANGLE_MIN <= be16_signed_at(f, 0) <= CAM_ANGLE_MAX
            &&& CAM_ANGLE_MIN <= be16_signed_at(f, 2) <= CAM_ANGLE_MAX
            &&& DBW_TPS_MIN <= be16_at(f, 6) <= DBW_TPS_MAX
        }),
        ({
            let f = scs_frame(c as int, 0x308);
            &&& VBATT_MIN <= be16_at(f, 0) <= VBATT_MAX
            &&& DWELL_MIN <= be16_at(f, 6) <= DWELL_MAX
        }),
{
    let c = c as int;
    let rpm = min(2000 + c * 100, 8000);
    let map = clamp(1000 + c * 50, 0, 2000);
    lemma_be_u16_value(rpm);
    lemma_be_i16_value(map);
    lemma_be_u16_value(100);
    let f0 = scs_frame(c, 0x300);
    assert(f0 =~= be_u16(rpm) + seq![sat_u8(50 + c), sat_u8(100 + c)] + be_i16(map) + be_u16(100));
    assert(f0[0] == be_u16(rpm)[0] && f0[1] == be_u16(rpm)[1]);
    assert(f0[4] == be_i16(map)[0] && f0[5] == be_i16(map)[1]);
    let kmh = (c * 5) % 300;
    lemma_be_u16_value(kmh);
    let f2 = scs_frame(c, 0x302);
    assert(f2[0] == be_u16(kmh)[0] && f2[1] == be_u16(kmh)[1]);
    let ivct = clamp(-50 + c * 5, -180, 180);
    let evct = clamp(-30 + c * 3, -180, 180);
    let dbw = (c * 100) % 1023;
    lemma_be_i16_value(ivct);
    lemma_be_i16_value(evct);
    lemma_be_u16_value(dbw);
    let f3 = scs_frame(c, 0x303);
    assert(f3[0] == be_i16(ivct)[0] && f3[1] == be_i16(ivct)[1]);
    assert(f3[2] == be_i16(evct)[0] && f3[3] == be_i16(evct)[1]);
    assert(f3[6] == be_u16(dbw)[0] && f3[7] == be_u16(dbw)[1]);
    let vbatt = min(666 + c, 1023);
    let dwell = clamp(3000 + c * 50, 1000, 5000);
    lemma_be_u16_value(vbatt);
    lemma_be_u16_value(dwell);
    lemma_be_u16_value(c * 10);
    let f8 = scs_frame(c, 0x308);
    assert(f8[0] == be_u16(vbatt)[0] && f8[1] == be_u16(vbatt)[1]);
    assert(f8[6] == be_u16(dwell)[0] && f8[7] == be_u16(dwell)[1]);
}

/// The two's complement 16-bit pattern of a signed value, as a number.
pub open spec fn twos16(v: int) -> int {
    if v < 0 {
        v + 65536
    } else {
        v
    }
}

/// What each generated SCS frame holds, field by field, for cycle counter
/// `c`: 16-bit fields are big-endian (signed ones in two's complement),
/// saturating byte fields stop at 255 and wrapping ones count modulo 256.
/// Every other id gives eight zero bytes.
pub open spec fn scs_fields(c: int, id: u32, f: Seq<u8>) -> bool {
    &&& f.len() == 8
    &&& (
        if id == 0x300 {
            &&& f[0] * 256 + f[1] == (if 2000 + 100 * c > 8000 { 8000 } else { 2000 + 100 * c })
            &&& f[2] == (if 50 + c > 255 { 255 } else { 50 + c })
            &&& f[3] == (if 100 + c > 255 { 255 } else { 100 + c })
            &&& f[4] * 256 + f[5] == twos16((if 1000 + 50 * c > 2000 { 2000 } else { 1000 + 50 * c }))
            &&& f[6] * 256 + f[7] == 100
        } else if id == 0x301 {
            &&& f[0] * 256 + f[1] == twos16(10 * c)
            &&& f[2] == (if 128 + c > 255 { 255 } else { 128 + c })
            &&& f[3] == (if 200 + c > 255 { 255 } else { 200 + c })
            &&& f[4] * 256 + f[5] == 100 * c
            &&& f[6] * 256 + f[7] == 50 * c
        } else if id == 0x302 {
            &&& f[0] * 256 + f[1] == (5 * c) % 300
            &&& f[2] * 256 + f[3] == 100 * c
            &&& f[4] * 256 + f[5] == 80 * c
            &&& f[6] == (10 * c) % 256
            &&& f[7] == (15 * c) % 256
        } else if id == 0x303 {
            &&& f[0] * 256 + f[1] == twos16((if 5 * c - 50 > 180 { 180 } else { 5 * c - 50 }))
            &&& f[2] * 256 + f[3] == twos16((if 3 * c - 30 > 180 { 180 } else { 3 * c - 30 }))
            &&& f[4] == (2 * c) % 256
            &&& f[5] == (3 * c) % 256
            &&& f[6] * 256 + f[7] == (100 * c) % 1023
        } else if id == 0x304 {
            &&& f[0] * 256 + f[1] == (1000 + 50 * c) % 10000
            &&& f[2] * 256 + f[3] == (900 + 40 * c) % 8000
            &&& f[4] * 256 + f[5] == twos16(2 * c - 10)
            &&& f[6] * 256 + f[7] == twos16(c - 5)
        } else if id == 0x305 {
            &&& f[0] == (if 128 + c > 255 { 255 } else { 128 + c })
            &&& f[1] == (if 130 + c > 255 { 255 } else { 130 + c })
            &&& f[2] * 256 + f[3] == (1000 + 60 * c) % 12000
            &&& f[4] * 256 + f[5] == twos16(100 + 5 * c)
            &&& f[6] * 256 + f[7] == twos16(50 + 3 * c)
        } else if id == 0x306 {
            &&& f[0] == c % 2
            &&& f[1] == (if 50 + c > 255 { 255 } else { 50 + c })
            &&& f[2] * 256 + f[3] == 30 * c
            &&& f[4] * 256 + f[5] == 300 + 20 * c
            &&& f[6] * 256 + f[7] == 450 + 10 * c
        } else if id == 0x307 {
            &&& f[0] * 256 + f[1] == (1013 + 5 * c) % 1100
            &&& f[2] * 256 + f[3] == 100 * c
            &&& f[4] * 256 + f[5] == 50 * c
            &&& f[6] * 256 + f[7] == 1000 + 20 * c
        } else if id == 0x308 {
            &&& f[0] * 256 + f[1] == (if 666 + c > 1023 { 1023 } else { 666 + c })
            &&& f[2] * 256 + f[3] == 10 * c
            &&& f[4] == (5 * c) % 256
            &&& f[5] == c / 2
            &&& f[6] * 256 + f[7] == (if 3000 + 50 * c > 5000 { 5000 } else { 3000 + 50 * c })
        } else if id == 0x309 {
            &&& f[0] * 256 + f[1] == 50 * c
            &&& f[2] * 256 + f[3] == 45 * c
            &&& f[4] * 256 + f[5] == 42 * c
            &&& f[6] * 256 + f[7] == 60 * c
        } else if id == 0x30A {
            &&& f[0] * 256 + f[1] == 55 * c
            &&& f[2] == c % 3
            &&& f[3] == (if 50 + c > 255 { 255 } else { 50 + c })
            &&& f[4] == (if 48 + c > 255 { 255 } else { 48 + c })
            &&& f[5] == (if 45 + c > 255 { 255 } else { 45 + c })
            &&& f[6] == (if 55 + c > 255 { 255 } else { 55 + c })
            &&& f[7] == (if 52 + c > 255 { 255 } else { 52 + c })
        } else if id == 0x30B {
            &&& f[0] == (if 20 + c > 255 { 255 } else { 20 + c })
            &&& f[1] == (if 25 + c > 255 { 255 } else { 25 + c })
            &&& f[2] == (if 100 + c % 155 > 255 { 255 } else { 100 + c % 155 })
            &&& f[3] == (if 20 + c > 255 { 255 } else { 20 + c })
            &&& f[4] * 256 + f[5] == 40 * c
            &&& f[6] * 256 + f[7] == 38 * c
        } else if id == 0x30C {
            &&& f[0] * 256 + f[1] == 100 * c
            &&& f[2] * 256 + f[3] == 35 * c
            &&& f[4] * 256 + f[5] == 42 * c
            &&& f[6] == (if 120 + c % 135 > 255 { 255 } else { 120 + c % 135 })
            &&& f[7] == (if 100 + c % 100 > 255 { 255 } else { 100 + c % 100 })
        } else if id == 0x30D {
            &&& f[0] * 256 + f[1] == 10 * c
            &&& f[2] == (if 150 + c % 105 > 255 { 255 } else { 150 + c % 105 })
            &&& f[3] == (if 140 + c % 115 > 255 { 255 } else { 140 + c % 115 })
            &&& f[4] * 256 + f[5] == twos16(3 * c - 20)
            &&& f[6] * 256 + f[7] == (750 + 25 * c) % 2000
        } else if id == 0x30E {
            &&& f[0] * 256 + f[1] == 5 * c
            &&& f[2] * 256 + f[3] == 4 * c
            &&& f[4] * 256 + f[5] == 6 * c
            &&& f[6] * 256 + f[7] == 5 * c
        } else if id == 0x30F {
            &&& f[0] * 256 + f[1] == twos16(100 + 2 * c)
            &&& f[2] == (if 75 + c % 80 > 255 { 255 } else { 75 + c % 80 })
            &&& f[3] == (if 150 + c > 255 { 255 } else { 150 + c })
            &&& f[4] * 256 + f[5] == 1000 + 50 * c
            &&& f[6] == (3 * c) % 256
            &&& f[7] == (5 * c) % 256
        } else if id == 0x310 {
            &&& f[0] == (1 * c) % 256
            &&& f[1] == (2 * c) % 256
            &&& f[2] == (3 * c) % 256
            &&& f[3] == (4 * c) % 256
            &&& f[4] == (5 * c) % 256
            &&& f[5] == (6 * c) % 256
            &&& f[6] == (7 * c) % 256
            &&& f[7] == (8 * c) % 256
        } else {
            forall|i: int| 0 <= i < 8 ==> f[i] == 0
        }
    )
}

/// The generator's frames hold exactly the fields that `scs_fields`
/// describes, for every counter and every id: e.g. the 0x302 speed is
/// `(5 * c) % 300`, rising by 5 per cycle and wrapping after 295.
pub proof fn lemma_scs_frame_fields(c: u8, id: u32)
    ensures
        scs_fields(c as int, id, scs_frame(c as int, id)),
{
    if id == 0x300 {
        lemma_fields_300(c);
    } else if id == 0x301 {
        lemma_fields_301(c);
    } else if id == 0x302 {
        lemma_fields_302(c);
    } else if id == 0x303 {
        lemma_fields_303(c);
    } else if id == 0x304 {
        lemma_fields_304(c);
    } else if id == 0x305 {
        lemma_fields_305(c);
    } else if id == 0x306 {
        lemma_fields_306(c);
    } else if id == 0x307 {
        lemma_fields_307(c);
    } else if id == 0x308 {
        lemma_fields_308(c);
    } else if id == 0x309 {
        lemma_fields_309(c);
    } else if id == 0x30A {
        lemma_fields_30a(c);
    } else if id == 0x30B {
        lemma_fields_30b(c);
    } else if id == 0x30C {
        lemma_fields_30c(c);
    } else if id == 0x30D {
        lemma_fields_30d(c);
    } else if id == 0x30E {
        lemma_fields_30e(c);
    } else if id == 0x30F {
        lemma_fields_30f(c);
    } else if id == 0x310 {
        assert(scs_fields(c as int, id, scs_frame(c as int, id)));
    }
}

proof fn lemma_fields_300(c: u8)
    ensures
        scs_fields(c as int, 0x300, scs_frame(c as int, 0x300)),
{
    let c = c as int;
    let f = scs_frame(c, 0x300);
    let v0 = (if 2000 + 100 * c > 8000 { 8000 } else { 2000 + 100 * c });
    lemma_be_u16_value(v0);
    assert(f[0] == be_u16(v0)[0] && f[1] == be_u16(v0)[1]);
    let v4 = (if 1000 + 50 * c > 2000 { 2000 } else { 1000 + 50 * c });
    lemma_be_u16_value(twos16(v4));
    assert(f[4] == be_i16(v4)[0] && f[5] == be_i16(v4)[1]);
    let v6 = 100;
    lemma_be_u16_value(v6);
    assert(f[6] == be_u16(v6)[0] && f[7] == be_u16(v6)[1]);
}

proof fn lemma_fields_301(c: u8)
    ensures
        scs_fields(c as int, 0x301, scs_frame(c as int, 0x301)),
{
    let c = c as int;
    let f = scs_frame(c, 0x301);
    let v0 = 10 * c;
    lemma_be_u16_value(twos16(v0));
    assert(f[0] == be_i16(v0)[0] && f[1] == be_i16(v0)[1]);
    let v4 = 100 * c;
    lemma_be_u16_value(v4);
    assert(f[4] == be_u16(v4)[0] && f[5] == be_u16(v4)[1]);
    let v6 = 50 * c;
    lemma_be_u16_value(v6);
    assert(f[6] == be_u16(v6)[0] && f[7] == be_u16(v6)[1]);
}

proof fn lemma_fields_302(c: u8)
    ensures
        scs_fields(c as int, 0x302, scs_frame(c as int, 0x302)),
{
    let c = c as int;
    let f = scs_frame(c, 0x302);
    let v0 = (5 * c) % 300;
    lemma_be_u16_value(v0);
    assert(f[0] == be_u16(v0)[0] && f[1] == be_u16(v0)[1]);
    let v2 = 100 * c;
    lemma_be_u16_value(v2);
    assert(f[2] == be_u16(v2)[0] && f[3] == be_u16(v2)[1]);
    let v4 = 80 * c;
    lemma_be_u16_value(v4);
    assert(f[4] == be_u16(v4)[0] && f[5] == be_u16(v4)[1]);
}

proof fn lemma_fields_303(c: u8)
    ensures
        scs_fields(c as int, 0x303, scs_frame(c as int, 0x303)),
{
    let c = c as int;
    let f = scs_frame(c, 0x303);
    let v0 = (if 5 * c - 50 > 180 { 180 } else { 5 * c - 50 });
    lemma_be_u16_value(twos16(v0));
    assert(f[0] == be_i16(v0)[0] && f[1] == be_i16(v0)[1]);
    let v2 = (if 3 * c - 30 > 180 { 180 } else { 3 * c - 30 });
    lemma_be_u16_value(twos16(v2));
    assert(f[2] == be_i16(v2)[0] && f[3] == be_i16(v2)[1]);
    let v6 = (100 * c) % 1023;
    lemma_be_u16_value(v6);
    assert(f[6] == be_u16(v6)[0] && f[7] == be_u16(v6)[1]);
}

proof fn lemma_fields_304(c: u8)
    ensures
        scs_fields(c as int, 0x304, scs_frame(c as int, 0x304)),
{
    let c = c as int;
    let f = scs_frame(c, 0x304);
    let v0 = (1000 + 50 * c) % 10000;
    lemma_be_u16_value(v0);
    assert(f[0] == be_u16(v0)[0] && f[1] == be_u16(v0)[1]);
    let v2 = (900 + 40 * c) % 8000;
    lemma_be_u16_value(v2);
    assert(f[2] == be_u16(v2)[0] && f[3] == be_u16(v2)[1]);
    let v4 = 2 * c - 10;
    lemma_be_u16_value(twos16(v4));
    assert(f[4] == be_i16(v4)[0] && f[5] == be_i16(v4)[1]);
    let v6 = c - 5;
    lemma_be_u16_value(twos16(v6));
    assert(f[6] == be_i16(v6)[0] && f[7] == be_i16(v6)[1]);
}

proof fn lemma_fields_305(c: u8)
    ensures
        scs_fields(c as int, 0x305, scs_frame(c as int, 0x305)),
{
    let c = c as int;
    let f = scs_frame(c, 0x305);
    let v2 = (1000 + 60 * c) % 12000;
    lemma_be_u16_value(v2);
    assert(f[2] == be_u16(v2)[0] && f[3] == be_u16(v2)[1]);
    let v4 = 100 + 5 * c;
    lemma_be_u16_value(twos16(v4));
    assert(f[4] == be_i16(v4)[0] && f[5] == be_i16(v4)[1]);
    let v6 = 50 + 3 * c;
    lemma_be_u16_value(twos16(v6));
    assert(f[6] == be_i16(v6)[0] && f[7] == be_i16(v6)[1]);
}

proof fn lemma_fields_306(c: u8)
    ensures
        scs_fields(c as int, 0x306, scs_frame(c as int, 0x306)),
{
    let c = c as int;
    let f = scs_frame(c, 0x306);
    let v2 = 30 * c;
    lemma_be_u16_value(v2);
    assert(f[2] == be_u16(v2)[0] && f[3] == be_u16(v2)[1]);
    let v4 = 300 + 20 * c;
    lemma_be_u16_value(v4);
    assert(f[4] == be_u16(v4)[0] && f[5] == be_u16(v4)[1]);
    let v6 = 450 + 10 * c;
    lemma_be_u16_value(v6);
    assert(f[6] == be_u16(v6)[0] && f[7] == be_u16(v6)[1]);
}

proof fn lemma_fields_307(c: u8)
    ensures
        scs_fields(c as int, 0x307, scs_frame(c as int, 0x307)),
{
    let c = c as int;
    let f = scs_frame(c, 0x307);
    let v0 = (1013 + 5 * c) % 1100;
    lemma_be_u16_value(v0);
    assert(f[0] == be_u16(v0)[0] && f[1] == be_u16(v0)[1]);
    let v2 = 100 * c;
    lemma_be_u16_value(v2);
    assert(f[2] == be_u16(v2)[0] && f[3] == be_u16(v2)[1]);
    let v4 = 50 * c;
    lemma_be_u16_value(v4);
    assert(f[4] == be_u16(v4)[0] && f[5] == be_u16(v4)[1]);
    let v6 = 1000 + 20 * c;
    lemma_be_u16_value(v6);
    assert(f[6] == be_u16(v6)[0] && f[7] == be_u16(v6)[1]);
}

proof fn lemma_fields_308(c: u8)
    ensures
        scs_fields(c as int, 0x308, scs_frame(c as int, 0x308)),
{
    let c = c as int;
    let f = scs_frame(c, 0x308);
    let v0 = (if 666 + c > 1023 { 1023 } else { 666 + c });
    lemma_be_u16_value(v0);
    assert(f[0] == be_u16(v0)[0] && f[1] == be_u16(v0)[1]);
    let v2 = 10 * c;
    lemma_be_u16_value(v2);
    assert(f[2] == be_u16(v2)[0] && f[3] == be_u16(v2)[1]);
    let v6 = (if 3000 + 50 * c > 5000 { 5000 } else { 3000 + 50 * c });
    lemma_be_u16_value(v6);
    assert(f[6] == be_u16(v6)[0] && f[7] == be_u16(v6)[1]);
}

proof fn lemma_fields_309(c: u8)
    ensures
        scs_fields(c as int, 0x309, scs_frame(c as int, 0x309)),
{
    let c = c as int;
    let f = scs_frame(c, 0x309);
    let v0 = 50 * c;
    lemma_be_u16_value(v0);
    assert(f[0] == be_u16(v0)[0] && f[1] == be_u16(v0)[1]);
    let v2 = 45 * c;
    lemma_be_u16_value(v2);
    assert(f[2] == be_u16(v2)[0] && f[3] == be_u16(v2)[1]);
    let v4 = 42 * c;
    lemma_be_u16_value(v4);
    assert(f[4] == be_u16(v4)[0] && f[5] == be_u16(v4)[1]);
    let v6 = 60 * c;
    lemma_be_u16_value(v6);
    assert(f[6] == be_u16(v6)[0] && f[7] == be_u16(v6)[1]);
}

proof fn lemma_fields_30a(c: u8)
    ensures
        scs_fields(c as int, 0x30A, scs_frame(c as int, 0x30A)),
{
    let c = c as int;
    let f = scs_frame(c, 0x30A);
    let v0 = 55 * c;
    lemma_be_u16_value(v0);
    assert(f[0] == be_u16(v0)[0] && f[1] == be_u16(v0)[1]);
}

proof fn lemma_fields_30b(c: u8)
    ensures
        scs_fields(c as int, 0x30B, scs_frame(c as int, 0x30B)),
{
    let c = c as int;
    let f = scs_frame(c, 0x30B);
    let v4 = 40 * c;
    lemma_be_u16_value(v4);
    assert(f[4] == be_u16(v4)[0] && f[5] == be_u16(v4)[1]);
    let v6 = 38 * c;
    lemma_be_u16_value(v6);
    assert(f[6] == be_u16(v6)[0] && f[7] == be_u16(v6)[1]);
}

proof fn lemma_fields_30c(c: u8)
    ensures
        scs_fields(c as int, 0x30C, scs_frame(c as int, 0x30C)),
{
    let c = c as int;
    let f = scs_frame(c, 0x30C);
    let v0 = 100 * c;
    lemma_be_u16_value(v0);
    assert(f[0] == be_u16(v0)[0] && f[1] == be_u16(v0)[1]);
    let v2 = 35 * c;
    lemma_be_u16_value(v2);
    assert(f[2] == be_u16(v2)[0] && f[3] == be_u16(v2)[1]);
    let v4 = 42 * c;
    lemma_be_u16_value(v4);
    assert(f[4] == be_u16(v4)[0] && f[5] == be_u16(v4)[1]);
}

proof fn lemma_fields_30d(c: u8)
    ensures
        scs_fields(c as int, 0x30D, scs_frame(c as int, 0x30D)),
{
    let c = c as int;
    let f = scs_frame(c, 0x30D);
    let v0 = 10 * c;
    lemma_be_u16_value(v0);
    assert(f[0] == be_u16(v0)[0] && f[1] == be_u16(v0)[1]);
    let v4 = 3 * c - 20;
    lemma_be_u16_value(twos16(v4));
    assert(f[4] == be_i16(v4)[0] && f[5] == be_i16(v4)[1]);
    let v6 = (750 + 25 * c) % 2000;
    lemma_be_u16_value(v6);
    assert(f[6] == be_u16(v6)[0] && f[7] == be_u16(v6)[1]);
}

proof fn lemma_fields_30e(c: u8)
    ensures
        scs_fields(c as int, 0x30E, scs_frame(c as int, 0x30E)),
{
    let c = c as int;
    let f = scs_frame(c, 0x30E);
    let v0 = 5 * c;
    lemma_be_u16_value(v0);
    assert(f[0] == be_u16(v0)[0] && f[1] == be_u16(v0)[1]);
    let v2 = 4 * c;
    lemma_be_u16_value(v2);
    assert(f[2] == be_u16(v2)[0] && f[3] == be_u16(v2)[1]);
    let v4 = 6 * c;
    lemma_be_u16_value(v4);
    assert(f[4] == be_u16(v4)[0] && f[5] == be_u16(v4)[1]);
    let v6 = 5 * c;
    lemma_be_u16_value(v6);
    assert(f[6] == be_u16(v6)[0] && f[7] == be_u16(v6)[1]);
}

proof fn lemma_fields_30f(c: u8)
    ensures
        scs_fields(c as int, 0x30F, scs_frame(c as int, 0x30F)),
{
    let c = c as int;
    let f = scs_frame(c, 0x30F);
    let v0 = 100 + 2 * c;
    lemma_be_u16_value(twos16(v0));
    assert(f[0] == be_i16(v0)[0] && f[1] == be_i16(v0)[1]);
    let v4 = 1000 + 50 * c;
    lemma_be_u16_value(v4);
    assert(f[4] == be_u16(v4)[0] && f[5] == be_u16(v4)[1]);
}

/// Test data generator for SCS CAN messages.
#[derive(Copy, Clone, Debug)]
pub struct ScsTestGenerator {
    counter: u8,
    base_rpm: u16,
    base_temp: u8,
    base_boost: u16,
}

impl ScsTestGenerator {
    #[verifier::type_invariant]
    spec fn bases(self) -> bool {
        self.base_rpm == 2000 && self.base_temp == 20 && self.base_boost == 1000
    }

    /// The cycle counter.
    pub closed spec fn spec_counter(self) -> u8 {
        self.counter
    }

    /// A generator at counter 0.
    pub fn new() -> (r: Self)
        ensures
            r.spec_counter() == 0,
    {
        ScsTestGenerator { counter: 0, base_rpm: 2000, base_temp: 20, base_boost: 1000 }
    }

    /// A generator at the given counter.
    pub fn with_counter(counter: u8) -> (r: Self)
        ensures
            r.spec_counter() == counter,
    {
        ScsTestGenerator { counter, base_rpm: 2000, base_temp: 20, base_boost: 1000 }
    }

    /// Advances to the next cycle; the counter wraps from 255 to 0.
    pub fn next_cycle(&mut self)
        ensures
            final(self).spec_counter() == (old(self).spec_counter() + 1) % 256,
        no_unwind
    {
        proof {
            use_type_invariant(&*self);
        }
        self.counter = if self.counter == 255 { 0 } else { self.counter + 1 };
    }

    /// Current counter value.
    pub fn counter(&self) -> (r: u8)
        ensures
            r == self.spec_counter(),
    {
        self.counter
    }

    /// The frame for `msg_id`: the id itself and the generated 8 data bytes
    /// (zeros for an id outside the SCS range).
    pub fn generate_frame(&self, msg_id: u32) -> (r: (u32, [u8; 8]))
        ensures
            r.0 == msg_id,
            r.1@ == scs_frame(self.spec_counter() as int, msg_id),
            scs_fields(self.spec_counter() as int, msg_id, r.1@),
    {
        proof {
            use_type_invariant(self);
            lemma_scs_frame_fields(self.counter, msg_id);
        }
        let mut data = [0u8; 8];
        if msg_id == 0x300 {
            self.generate_msg300(&mut data);
        } else if msg_id == 0x301 {
            self.generate_msg301(&mut data);
        } else if msg_id == 0x302 {
            self.generate_msg302(&mut data);
        } else if msg_id == 0x303 {
            self.generate_msg303(&mut data);
        } else if msg_id == 0x304 {
            self.generate_msg304(&mut data);
        } else if msg_id == 0x305 {
            self.generate_msg305(&mut data);
        } else if msg_id == 0x306 {
            self.generate_msg306(&mut data);
        } else if msg_id == 0x307 {
            self.generate_msg307(&mut data);
        } else if msg_id == 0x308 {
            self.generate_msg308(&mut data);
        } else if msg_id == 0x309 {
            self.generate_msg309(&mut data);
        } else if msg_id == 0x30A {
            self.generate_msg30a(&mut data);
        } else if msg_id == 0x30B {
            self.generate_msg30b(&mut data);
        } else if msg_id == 0x30C {
            self.generate_msg30c(&mut data);
        } else if msg_id == 0x30D {
            self.generate_msg30d(&mut data);
        } else if msg_id == 0x30E {
            self.generate_msg30e(&mut data);
        } else if msg_id == 0x30F {
            self.generate_msg30f(&mut data);
        } else if msg_id == 0x310 {
            self.generate_msg310(&mut data);
        } else {
            assert(data@ =~= scs_frame(self.counter as int, msg_id));
        }
        (msg_id, data)
    }

    fn generate_msg300(&self, data: &mut [u8; 8])
        ensures
            final(data)@ == scs_frame(self.counter as int, 0x300),
    {
        proof {
            use_type_invariant(self);
        }
        let c = self.counter;
        let rpm_raw = self.base_rpm + (c as u16) * RPM_STEP;
        let rpm = if rpm_raw > RPM_MAX {
            RPM_MAX
        } else {
            rpm_raw
        };
        put_be_u16(data, 0, rpm);
        data[2] = TPS_BASE.saturating_add(c);
        data[3] = KFUEL_MAP_BASE.saturating_add(c);
        let map_raw = MAP_BASE + (c as i16) * MAP_STEP;
        let map = if map_raw < MAP_MIN {
            MAP_MIN
        } else if map_raw > MAP_MAX {
            MAP_MAX
        } else {
            map_raw
        };
        put_be_i16(data, 4, map);
        put_be_u16(data, 6, IDLE_LEARN_BASE);
        assert(data@ =~= scs_frame(c as int, 0x300));
    }

    fn generate_msg301(&self, data: &mut [u8; 8])
        ensures
            final(data)@ == scs_frame(self.counter as int, 0x301),
    {
        let c = self.counter;
        put_be_i16(data, 0, (c as i16) * 10);
        data[2] = 128u8.saturating_add(c);
        data[3] = 200u8.saturating_add(c);
        put_be_u16(data, 4, (c as u16) * 100);
        put_be_u16(data, 6, (c as u16) * 50);
        assert(data@ =~= scs_frame(c as int, 0x301));
    }

    fn generate_msg302(&self, data: &mut [u8; 8])
        ensures
            final(data)@ == scs_frame(self.counter as int, 0x302),
    {
        let c = self.counter;
        put_be_u16(data, 0, ((c as u16) * 5) % 300);
        put_be_u16(data, 2, (c as u16) * 100);
        put_be_u16(data, 4, (c as u16) * 80);
        data[6] = c.wrapping_mul(10);
        data[7] = c.wrapping_mul(15);
        assert(data@ =~= scs_frame(c as int, 0x302));
    }

    fn generate_msg303(&self, data: &mut [u8; 8])
        ensures
            final(data)@ == scs_frame(self.counter as int, 0x303),
    {
        let c = self.counter;
        put_be_i16(data, 0, clamp_i16(CAM_ANGLE_BASE + (c as i16) * 5, CAM_ANGLE_MIN, CAM_ANGLE_MAX));
        put_be_i16(data, 2, clamp_i16(-30i16 + (c as i16) * 3, CAM_ANGLE_MIN, CAM_ANGLE_MAX));
        data[4] = c.wrapping_mul(2);
        data[5] = c.wrapping_mul(3);
        put_be_u16(data, 6, ((c as u16) * 100) % 1023);
        assert(data@ =~= scs_frame(c as int, 0x303));
    }

    fn generate_msg304(&self, data: &mut [u8; 8])
        ensures
            final(data)@ == scs_frame(self.counter as int, 0x304),
    {
        let c = self.counter;
        put_be_u16(data, 0, (1000 + (c as u16) * 50) % 10000);
        put_be_u16(data, 2, (900 + (c as u16) * 40) % 8000);
        put_be_i16(data, 4, -10i16 + (c as i16) * 2);
        put_be_i16(data, 6, -5i16 + (c as i16));
        assert(data@ =~= scs_frame(c as int, 0x304));
    }

    fn generate_msg305(&self, data: &mut [u8; 8])
        ensures
            final(data)@ == scs_frame(self.counter as int, 0x305),
    {
        let c = self.counter;
        data[0] = 128u8.saturating_add(c);
        data[1] = 130u8.saturating_add(c);
        put_be_u16(data, 2, (1000 + (c as u16) * 60) % 12000);
        put_be_i16(data, 4, 100i16 + (c as i16) * 5);
        put_be_i16(data, 6, 50i16 + (c as i16) * 3);
        assert(data@ =~= scs_frame(c as int, 0x305));
    }

    fn generate_msg306(&self, data: &mut [u8; 8])
        ensures
            final(data)@ == scs_frame(self.counter as int, 0x306),
    {
        let c = self.counter;
        data[0] = c % 2;
        data[1] = 50u8.saturating_add(c);
        put_be_u16(data, 2, (c as u16) * 30);
        put_be_u16(data, 4, 300 + (c as u16) * 20);
        put_be_u16(data, 6, 450 + (c as u16) * 10);
        assert(data@ =~= scs_frame(c as int, 0x306));
    }

    fn generate_msg307(&self, data: &mut [u8; 8])
        ensures
            final(data)@ == scs_frame(self.counter as int, 0x307),
    {
        proof {
            use_type_invariant(self);
        }
        let c = self.counter;
        put_be_u16(data, 0, (1013 + (c as u16) * 5) % 1100);
        put_be_u16(data, 2, (c as u16) * 100);
        put_be_u16(data, 4, (c as u16) * 50);
        put_be_u16(data, 6, self.base_boost + (c as u16) * 20);
        assert(data@ =~= scs_frame(c as int, 0x307));
    }

    fn generate_msg308(&self, data: &mut [u8; 8])
        ensures
            final(data)@ == scs_frame(self.counter as int, 0x308),
    {
        let c = self.counter;
        put_be_u16(data, 0, clamp_u16(VBATT_BASE + c as u16, VBATT_MIN, VBATT_MAX));
        put_be_u16(data, 2, (c as u16) * 10);
        data[4] = c.wrapping_mul(5);
        data[5] = c / 2;
        put_be_u16(data, 6, clamp_u16(3000 + (c as u16) * 50, DWELL_MIN, DWELL_MAX));
        assert(data@ =~= scs_frame(c as int, 0x308));
    }

    fn generate_msg309(&self, data: &mut [u8; 8])
        ensures
            final(data)@ == scs_frame(self.counter as int, 0x309),
    {
        let c = self.counter;
        put_be_u16(data, 0, (c as u16) * 50);
        put_be_u16(data, 2, (c as u16) * 45);
        put_be_u16(data, 4, (c as u16) * 42);
        put_be_u16(data, 6, (c as u16) * 60);
        assert(data@ =~= scs_frame(c as int, 0x309));
    }

    fn generate_msg30a(&self, data: &mut [u8; 8])
        ensures
            final(data)@ == scs_frame(self.counter as int, 0x30A),
    {
        let c = self.counter;
        put_be_u16(data, 0, (c as u16) * 55);
        data[2] = c % 3;
        data[3] = 50u8.saturating_add(c);
        data[4] = 48u8.saturating_add(c);
        data[5] = 45u8.saturating_add(c);
        data[6] = 55u8.saturating_add(c);
        data[7] = 52u8.saturating_add(c);
        assert(data@ =~= scs_frame(c as int, 0x30A));
    }

    fn generate_msg30b(&self, data: &mut [u8; 8])
        ensures
            final(data)@ == scs_frame(self.counter as int, 0x30B),
    {
        proof {
            use_type_invariant(self);
        }
        let c = self.counter;
        data[0] = self.base_temp.saturating_add(c);
        data[1] = (self.base_temp + 5).saturating_add(c);
        data[2] = 100u8.saturating_add(c % 155);
        data[3] = 20u8.saturating_add(c);
        put_be_u16(data, 4, (c as u16) * 40);
        put_be_u16(data, 6, (c as u16) * 38);
        assert(data@ =~= scs_frame(c as int, 0x30B));
    }

    fn generate_msg30c(&self, data: &mut [u8; 8])
        ensures
            final(data)@ == scs_frame(self.counter as int, 0x30C),
    {
        let c = self.counter;
        put_be_u16(data, 0, (c as u16) * 100);
        put_be_u16(data, 2, (c as u16) * 35);
        put_be_u16(data, 4, (c as u16) * 42);
        data[6] = 120u8.saturating_add(c % 135);
        data[7] = 100u8.saturating_add(c % 100);
        assert(data@ =~= scs_frame(c as int, 0x30C));
    }

    fn generate_msg30d(&self, data: &mut [u8; 8])
        ensures
            final(data)@ == scs_frame(self.counter as int, 0x30D),
    {
        let c = self.counter;
        put_be_u16(data, 0, (c as u16) * 10);
        data[2] = 150u8.saturating_add(c % 105);
        data[3] = 140u8.saturating_add(c % 115);
        put_be_i16(data, 4, -20i16 + (c as i16) * 3);
        put_be_u16(data, 6, (750 + (c as u16) * 25) % 2000);
        assert(data@ =~= scs_frame(c as int, 0x30D));
    }

    fn generate_msg30e(&self, data: &mut [u8; 8])
        ensures
            final(data)@ == scs_frame(self.counter as int, 0x30E),
    {
        let c = self.counter;
        put_be_u16(data, 0, (c as u16) * 5);
        put_be_u16(data, 2, (c as u16) * 4);
        put_be_u16(data, 4, (c as u16) * 6);
        put_be_u16(data, 6, (c as u16) * 5);
        assert(data@ =~= scs_frame(c as int, 0x30E));
    }

    fn generate_msg30f(&self, data: &mut [u8; 8])
        ensures
            final(data)@ == scs_frame(self.counter as int, 0x30F),
    {
        let c = self.counter;
        put_be_i16(data, 0, 100i16 + (c as i16) * 2);
        data[2] = 75u8.saturating_add(c % 80);
        data[3] = 150u8.saturating_add(c);
        put_be_u16(data, 4, 1000 + (c as u16) * 50);
        data[6] = c.wrapping_mul(3);
        data[7] = c.wrapping_mul(5);
        assert(data@ =~= scs_frame(c as int, 0x30F));
    }

    fn generate_msg310(&self, data: &mut [u8; 8])
        ensures
            final(data)@ == scs_frame(self.counter as int, 0x310),
    {
        let c = self.counter;
        let mut i: usize = 0;
        while i < 8
            invariant
                i <= 8,
                c == self.counter,
                forall|j: int| 0 <= j < i ==> data@[j] == wrap_u8(c * (j + 1)),
            decreases 8 - i,
        {
            data[i] = c.wrapping_mul((i as u8) + 1);
            i = i + 1;
        }
        assert(data@ =~= scs_frame(c as int, 0x310));
    }
}

impl Default for ScsTestGenerator {
    fn default() -> (r: Self)
        ensures
            r.spec_counter() == 0,
    {
        Self::new()
    }
}

} // verus!
