//! Engine data frames for CAN transmission.
//!
//! Frame layout (8 bytes):
//! - bytes 0-1: RPM (big-endian)
//! - byte 2: throttle (0-100)
//! - bytes 3-4: MAP (big-endian)
//! - byte 5: lambda scaled (value / 100 = lambda)
//! - bytes 6-7: reserved (zero)

use vstd::prelude::*;

use crate::scs::be_u16;

verus! {

/// Engine sensor data.
#[derive(Clone, Copy, Debug, Default, PartialEq, Eq, Structural)]
pub struct EngineData {
    /// Engine RPM (0-8000)
    pub rpm: u16,
    /// Throttle position (0-100%)
    pub throttle: u8,
    /// Manifold absolute pressure (0-300 kPa)
    pub map: u16,
    /// Lambda scaled by 100
    pub lambda_scaled: u8,
}

/// CAN frame parsing errors.
#[derive(Clone, Copy, Debug, PartialEq, Eq, Structural)]
pub enum CanParseError {
    InvalidLength,
    InvalidThrottle(u8),
    ChecksumMismatch,
}

/// The 8 bytes of an engine data frame.
pub open spec fn engine_frame(e: EngineData) -> Seq<u8> {
    be_u16(e.rpm as int) + seq![e.throttle] + be_u16(e.map as int) + seq![e.lambda_scaled, 0u8, 0u8]
}

/// Decoding of an engine data frame: at least 6 bytes and a throttle of at
/// most 100.
pub open spec fn engine_from_frame(b: Seq<u8>) -> Result<EngineData, CanParseError> {
    if b.len() < 6 {
        Err(CanParseError::InvalidLength)
    } else if b[2] > 100 {
        Err(CanParseError::InvalidThrottle(b[2]))
    } else {
        Ok(
            EngineData {
                rpm: (b[0] * 256 + b[1]) as u16,
                throttle: b[2],
                map: (b[3] * 256 + b[4]) as u16,
                lambda_scaled: b[5],
            },
        )
    }
}

impl EngineData {
    /// Engine data with all fields zero.
    pub fn new() -> (r: Self)
        ensures
            r == (EngineData { rpm: 0, throttle: 0, map: 0, lambda_scaled: 0 }),
    {
        EngineData { rpm: 0, throttle: 0, map: 0, lambda_scaled: 0 }
    }

    /// Serialize to the 8-byte CAN frame format.
    pub fn to_can_frame(&self) -> (r: [u8; 8])
        ensures
            r@ == engine_frame(*self),
    {
        let mut data = [0u8; 8];
        data[0] = (self.rpm / 256) as u8;
        data[1] = (self.rpm % 256) as u8;
        data[2] = self.throttle;
        data[3] = (self.map / 256) as u8;
        data[4] = (self.map % 256) as u8;
        data[5] = self.lambda_scaled;
        assert(data@ =~= engine_frame(*self));
        data
    }

    /// Deserialize from a CAN frame, with validation.
    pub fn from_can_frame(frame_data: &[u8]) -> (r: Result<Self, CanParseError>)
        ensures
            r == engine_from_frame(frame_data@),
    {
        if frame_data.len() < 6 {
            return Err(CanParseError::InvalidLength);
        }
        let rpm = (frame_data[0] as u16) * 256 + frame_data[1] as u16;
        let throttle = frame_data[2];
        let map = (frame_data[3] as u16) * 256 + frame_data[4] as u16;
        let lambda_scaled = frame_data[5];
        if throttle > 100 {
            return Err(CanParseError::InvalidThrottle(throttle));
        }
        Ok(EngineData { rpm, throttle, map, lambda_scaled })
    }

    /// Simulated sensor reading: RPM rises by 50 per step from 1000.
    pub fn simulate_sensor_read(seq: u8) -> (r: Self)
        ensures
            r == (EngineData { rpm: (1000 + seq * 50) as u16, throttle: 50, map: 100, lambda_scaled: 100 }),
    {
        EngineData { rpm: 1000 + (seq as u16) * 50, throttle: 50, map: 100, lambda_scaled: 100 }
    }
}

/// The frame layout, byte by byte: RPM big-endian in bytes 0-1, throttle in
/// byte 2, MAP big-endian in bytes 3-4, lambda in byte 5, bytes 6-7 zero;
/// and reading a frame: fewer than 6 bytes is a length error, a throttle
/// byte above 100 is reported, anything else gives the fields back from the
/// same positions.
pub proof fn lemma_engine_frame_layout(e: EngineData, b: Seq<u8>)
    ensures
        ({
            let f = engine_frame(e);
            &&& f.len() == 8
            &&& f[0] * 256 + f[1] == e.rpm
            &&& f[2] == e.throttle
            &&& f[3] * 256 + f[4] == e.map
            &&& f[5] == e.lambda_scaled
            &&& f[6] == 0 && f[7] == 0
        }),
        b.len() < 6 ==> engine_from_frame(b) == Err::<EngineData, CanParseError>(
            CanParseError::InvalidLength,
        ),
        b.len() >= 6 && b[2] > 100 ==> engine_from_frame(b) == Err::<EngineData, CanParseError>(
            CanParseError::InvalidThrottle(b[2]),
        ),
        b.len() >= 6 && b[2] <= 100 ==> (engine_from_frame(b) matches Ok(d) && d.rpm == b[0] * 256
            + b[1] && d.throttle == b[2] && d.map == b[3] * 256 + b[4] && d.lambda_scaled == b[5]),
{
    let f = engine_frame(e);
    assert(f[0] * 256 + f[1] == e.rpm);
    assert(f[3] * 256 + f[4] == e.map);
}

/// Reading back a frame gives the data back exactly when the throttle is
/// valid (at most 100); otherwise the throttle is reported.
pub proof fn lemma_engine_frame_roundtrip(e: EngineData)
    ensures
        e.throttle <= 100 ==> engine_from_frame(engine_frame(e)) == Ok::<EngineData, CanParseError>(e),
        e.throttle > 100 ==> engine_from_frame(engine_frame(e)) == Err::<EngineData, CanParseError>(
            CanParseError::InvalidThrottle(e.throttle),
        ),
{
    let b = engine_frame(e);
    assert(b[0] * 256 + b[1] == e.rpm);
    assert(b[3] * 256 + b[4] == e.map);
}

} // verus!
