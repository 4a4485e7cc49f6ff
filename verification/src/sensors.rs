//! Sensor bookkeeping: ADC change detection, potentiometer readings and
//! button messages. Voltages are carried as IEEE-754 single precision bit
//! patterns; reading the hardware and the floating-point conversion happen
//! outside this crate.

use vstd::prelude::*;

use crate::messages::{Message, MessageModel, PotReading};

verus! {

/// Distance between two raw readings.
pub open spec fn raw_diff(a: u16, b: u16) -> int {
    if a > b {
        a - b
    } else {
        b - a
    }
}

/// `raw_diff` is the distance between two readings: never negative, and
/// equal to one of the two plain differences; it is the same either way
/// round, and it reaches a threshold exactly when one of the plain
/// differences does.
pub proof fn lemma_raw_diff_is_distance(a: u16, b: u16, t: u16)
    ensures
        raw_diff(a, b) >= 0,
        raw_diff(a, b) == a as int - b as int || raw_diff(a, b) == b as int - a as int,
        raw_diff(a, b) == raw_diff(b, a),
        raw_diff(a, b) >= t <==> (a as int - b as int >= t || b as int - a as int >= t),
{
}

fn raw_distance(a: u16, b: u16) -> (d: u16)
    ensures
        d as int == raw_diff(a, b),
{
    if a > b {
        a - b
    } else {
        b - a
    }
}

// ============================================================================
//                    FACTORY CALIBRATION
// ============================================================================

/// Holder of the factory VREFINT calibration value.
pub struct VoltageReader {
    vrefint_cal: u16,
}

impl VoltageReader {
    pub closed spec fn spec_vrefint_cal(&self) -> u16 {
        self.vrefint_cal
    }

    /// A reader using the given factory calibration value.
    pub fn new(vrefint_cal: u16) -> (r: Self)
        ensures
            r.spec_vrefint_cal() == vrefint_cal,
    {
        VoltageReader { vrefint_cal }
    }

    /// The calibration value.
    pub fn vrefint_cal(&self) -> (r: u16)
        ensures
            r == self.spec_vrefint_cal(),
    {
        self.vrefint_cal
    }
}

// ============================================================================
//                         ADC CONFIGURATION
// ============================================================================

/// Bits of 3.3 in IEEE-754 single precision.
pub const VREF_3V3_BITS: u32 = 0x4053_3333;

/// ADC reading configuration.
#[derive(Copy, Clone, Debug, PartialEq, Eq, Structural)]
pub struct AdcConfig {
    /// Sample interval in milliseconds
    pub sample_interval_ms: u64,
    /// Minimum change to trigger report
    pub threshold: u16,
    /// Reference voltage (typically 3.3V), as IEEE-754 bits
    pub vref_bits: u32,
    /// ADC resolution in bits (e.g., 14 for STM32H7)
    pub resolution_bits: u8,
    /// Sensor ID for identification in messages
    pub sensor_id: u8,
}

impl Default for AdcConfig {
    fn default() -> (r: Self)
        ensures
            r == (AdcConfig {
                sample_interval_ms: 100,
                threshold: 10,
                vref_bits: VREF_3V3_BITS,
                resolution_bits: 14,
                sensor_id: 0,
            }),
    {
        AdcConfig {
            sample_interval_ms: 100,
            threshold: 10,
            vref_bits: VREF_3V3_BITS,
            resolution_bits: 14,
            sensor_id: 0,
        }
    }
}

impl AdcConfig {
    /// Config for a specific sensor.
    pub fn for_sensor(id: u8, interval_ms: u64) -> (r: Self)
        ensures
            r == (AdcConfig {
                sample_interval_ms: interval_ms,
                threshold: 10,
                vref_bits: VREF_3V3_BITS,
                resolution_bits: 14,
                sensor_id: id,
            }),
    {
        AdcConfig {
            sample_interval_ms: interval_ms,
            threshold: 10,
            vref_bits: VREF_3V3_BITS,
            resolution_bits: 14,
            sensor_id: id,
        }
    }
}

/// ADC sensor state tracker: reports a reading when it moved by at least the
/// threshold since the last reported one.
pub struct AdcSensor {
    config: AdcConfig,
    last_raw: u16,
}

impl AdcSensor {
    pub closed spec fn spec_config(&self) -> AdcConfig {
        self.config
    }

    /// The last reported raw value.
    pub closed spec fn spec_last_raw(&self) -> u16 {
        self.last_raw
    }

    pub fn new(config: AdcConfig) -> (r: Self)
        ensures
            r.spec_config() == config,
            r.spec_last_raw() == 0,
    {
        AdcSensor { config, last_raw: 0 }
    }

    /// Processes a new raw reading (with its voltage): a Pot message when it
    /// differs from the last reported value by at least the threshold, which
    /// then becomes the last reported value; `None` and no change otherwise.
    pub fn process_reading(&mut self, raw: u16, voltage_bits: u32) -> (r: Option<Message>)
        ensures
            final(self).spec_config() == old(self).spec_config(),
            (r is Some) <==> (raw as int - old(self).spec_last_raw() as int >= old(self).spec_config().threshold
                || old(self).spec_last_raw() as int - raw as int >= old(self).spec_config().threshold),
            raw_diff(raw, old(self).spec_last_raw()) >= old(self).spec_config().threshold ==> {
                &&& final(self).spec_last_raw() == raw
                &&& r matches Some(m) && m@ == (MessageModel::Pot { measured: raw, voltage_bits })
            },
            raw_diff(raw, old(self).spec_last_raw()) < old(self).spec_config().threshold ==> {
                &&& final(self).spec_last_raw() == old(self).spec_last_raw()
                &&& r is None
            },
    {
        let diff = raw_distance(raw, self.last_raw);
        if diff >= self.config.threshold {
            self.last_raw = raw;
            Some(Message::Pot(PotReading::new(raw, voltage_bits)))
        } else {
            None
        }
    }

    /// A Pot message regardless of the threshold; `raw` becomes the last
    /// reported value.
    pub fn force_reading(&mut self, raw: u16, voltage_bits: u32) -> (m: Message)
        ensures
            final(self).spec_config() == old(self).spec_config(),
            final(self).spec_last_raw() == raw,
            m@ == (MessageModel::Pot { measured: raw, voltage_bits }),
    {
        self.last_raw = raw;
        Message::Pot(PotReading::new(raw, voltage_bits))
    }

    /// Sensor ID.
    pub fn sensor_id(&self) -> (r: u8)
        ensures
            r == self.spec_config().sensor_id,
    {
        self.config.sensor_id
    }

    /// The configuration.
    pub fn config(&self) -> (r: AdcConfig)
        ensures
            r == self.spec_config(),
    {
        self.config
    }
}

// ============================================================================
//                         BUTTON
// ============================================================================

/// Button event types.
#[derive(Copy, Clone, Debug, PartialEq, Eq, Structural)]
pub enum ButtonEvent {
    Pressed,
    Released,
    LongPress,
}

/// Configuration for button behavior.
#[derive(Copy, Clone, Debug)]
pub struct ButtonConfig {
    /// Debounce time in milliseconds
    pub debounce_ms: u64,
    /// Long press threshold in milliseconds (0 = disabled)
    pub long_press_ms: u64,
    /// Message to send on press (16 bytes)
    pub press_message: [u8; 16],
}

/// "button pressed  "
pub open spec fn default_press_message() -> Seq<u8> {
    seq![98u8, 117, 116, 116, 111, 110, 32, 112, 114, 101, 115, 115, 101, 100, 32, 32]
}

/// "button N pressed" with the digit byte `b'0' + num` at position 7.
pub open spec fn numbered_press_message(num: u8) -> Seq<u8> {
    seq![98u8, 117, 116, 116, 111, 110, 32, (48 + num) as u8, 32, 112, 114, 101, 115, 115, 101, 100]
}

impl Default for ButtonConfig {
    fn default() -> (r: Self)
        ensures
            r.debounce_ms == 20,
            r.long_press_ms == 0,
            r.press_message@ == default_press_message(),
    {
        let r = ButtonConfig {
            debounce_ms: 20,
            long_press_ms: 0,
            press_message: [98, 117, 116, 116, 111, 110, 32, 112, 114, 101, 115, 115, 101, 100, 32, 32],
        };
        assert(r.press_message@ =~= default_press_message());
        r
    }
}

impl ButtonConfig {
    /// Config with a custom message.
    pub fn with_message(msg: &[u8; 16]) -> (r: Self)
        ensures
            r.debounce_ms == 20,
            r.long_press_ms == 0,
            r.press_message == *msg,
    {
        ButtonConfig { debounce_ms: 20, long_press_ms: 0, press_message: *msg }
    }

    /// Config for a specific button number ("button N pressed"); the digit
    /// byte is `b'0' + num`, which overflows above 207.
    pub fn for_button(num: u8) -> (r: Self)
        requires
            num <= 207,
        ensures
            r.debounce_ms == 20,
            r.long_press_ms == 0,
            r.press_message@ == numbered_press_message(num),
    {
        let mut msg: [u8; 16] = [98, 117, 116, 116, 111, 110, 32, 88, 32, 112, 114, 101, 115, 115, 101, 100];
        msg[7] = 48 + num;
        assert(msg@ =~= numbered_press_message(num));
        ButtonConfig { debounce_ms: 20, long_press_ms: 0, press_message: msg }
    }
}

/// Button driver: the message for a press and the debounce time.
pub struct ButtonDriver {
    config: ButtonConfig,
}

impl ButtonDriver {
    pub closed spec fn spec_config(&self) -> ButtonConfig {
        self.config
    }

    pub fn new(config: ButtonConfig) -> (r: Self)
        ensures
            r.spec_config() == config,
    {
        ButtonDriver { config }
    }

    /// The message sent for a (debounced) press.
    pub fn press_message(&self) -> (m: Message)
        ensures
            m@ == MessageModel::Bytes(self.spec_config().press_message@),
    {
        Message::Bytes(self.config.press_message)
    }

    /// The debounce time in milliseconds (0: no debounce wait).
    pub fn debounce_ms(&self) -> (r: u64)
        ensures
            r == self.spec_config().debounce_ms,
    {
        self.config.debounce_ms
    }
}

// ============================================================================
//                         POTENTIOMETER
// ============================================================================

/// Potentiometer driver configuration.
#[derive(Copy, Clone, Debug, PartialEq, Eq, Structural)]
pub struct PotConfig {
    /// Sample interval in milliseconds
    pub sample_interval_ms: u64,
    /// Minimum change in raw value to trigger a new reading
    pub threshold: u16,
    /// Enable VREFINT calibration for accurate voltage
    pub use_vrefint: bool,
}

impl Default for PotConfig {
    fn default() -> (r: Self)
        ensures
            r == (PotConfig { sample_interval_ms: 100, threshold: 10, use_vrefint: true }),
    {
        PotConfig { sample_interval_ms: 100, threshold: 10, use_vrefint: true }
    }
}

/// Potentiometer driver state.
pub struct PotDriver {
    config: PotConfig,
    vrefint_cal: u16,
    last_raw: u16,
}

impl PotDriver {
    pub closed spec fn spec_config(&self) -> PotConfig {
        self.config
    }

    pub closed spec fn spec_vrefint_cal(&self) -> u16 {
        self.vrefint_cal
    }

    /// The raw value of the last reading.
    pub closed spec fn spec_last_raw(&self) -> u16 {
        self.last_raw
    }

    /// A driver using the given factory calibration value.
    pub fn new(config: PotConfig, vrefint_cal: u16) -> (r: Self)
        ensures
            r.spec_config() == config,
            r.spec_vrefint_cal() == vrefint_cal,
            r.spec_last_raw() == 0,
    {
        PotDriver { config, vrefint_cal, last_raw: 0 }
    }

    /// Records a new reading (raw value and voltage) as the last one.
    pub fn record_reading(&mut self, raw: u16, voltage_bits: u32) -> (r: PotReading)
        ensures
            final(self).spec_config() == old(self).spec_config(),
            final(self).spec_vrefint_cal() == old(self).spec_vrefint_cal(),
            final(self).spec_last_raw() == raw,
            r == (PotReading { measured: raw, voltage_bits }),
    {
        self.last_raw = raw;
        PotReading::new(raw, voltage_bits)
    }

    /// Whether the value moved by at least the threshold since the last reading.
    pub fn value_changed(&self, new_raw: u16) -> (r: bool)
        ensures
            r == (raw_diff(new_raw, self.spec_last_raw()) >= self.spec_config().threshold),
            r == (new_raw as int - self.spec_last_raw() as int >= self.spec_config().threshold
                || self.spec_last_raw() as int - new_raw as int >= self.spec_config().threshold),
    {
        let diff = raw_distance(new_raw, self.last_raw);
        diff >= self.config.threshold
    }

    /// A Message from a reading.
    pub fn to_message(&self, reading: PotReading) -> (m: Message)
        ensures
            m@ == (MessageModel::Pot { measured: reading.measured, voltage_bits: reading.voltage_bits }),
    {
        Message::Pot(reading)
    }

    /// The factory calibration value.
    pub fn vrefint_cal(&self) -> (r: u16)
        ensures
            r == self.spec_vrefint_cal(),
    {
        self.vrefint_cal
    }

    /// The sample interval in milliseconds.
    pub fn sample_interval_ms(&self) -> (r: u64)
        ensures
            r == self.spec_config().sample_interval_ms,
    {
        self.config.sample_interval_ms
    }
}

} // verus!
