//! Configuration: network constants, board addresses, CAN settings.

use vstd::prelude::*;

verus! {

// =============================================
//              NETWORK
// =============================================

/// Gateway address (10.42.0.1).
pub const NETWORK_GATEWAY_IP: [u8; 4] = [10, 42, 0, 1];
pub const NETWORK_SUBNET_PREFIX: u8 = 24;

/// RX buffer size - must be >= MAX_PACKET_SIZE
pub const RX_BUFFER_SIZE: usize = 2048;
/// TX buffer size - must be >= MAX_PACKET_SIZE
pub const TX_BUFFER_SIZE: usize = 2048;
/// Maximum UDP packet size (MTU - headers)
pub const MAX_PACKET_SIZE: usize = 1536;

pub const RX_METADATA_COUNT: usize = 32;
pub const TX_METADATA_COUNT: usize = 32;

/// Validation of the buffer sizes: both buffers hold a maximal packet.
pub fn validate_config()
    ensures
        RX_BUFFER_SIZE >= MAX_PACKET_SIZE,
        TX_BUFFER_SIZE >= MAX_PACKET_SIZE,
{
}

// =============================================
//              BOARDS
// =============================================

/// Configuration for a single board.
#[derive(Clone, Copy, Debug)]
pub struct BoardConfig {
    /// Local IPv4 address of this board (four octets)
    pub ip: [u8; 4],
    /// MAC address (last byte matches the IP's last octet)
    pub mac: [u8; 6],
    /// UDP port this board listens on
    pub listen_port: u16,
}

impl BoardConfig {
    /// Destination endpoint (address, port) for sending to this board.
    pub fn endpoint(&self) -> (r: ([u8; 4], u16))
        ensures
            r == (self.ip, self.listen_port),
    {
        (self.ip, self.listen_port)
    }
}

/// Nucleo 1 - sender board (10.42.0.61, port 4321).
pub fn nucleo_1() -> (b: BoardConfig)
    ensures
        b.ip@ == seq![10u8, 42, 0, 61],
        b.mac@ == seq![0x00u8, 0x00, 0xDE, 0xAD, 0xBE, 0x61],
        b.listen_port == 4321,
{
    let b = BoardConfig { ip: [10, 42, 0, 61], mac: [0x00, 0x00, 0xDE, 0xAD, 0xBE, 0x61], listen_port: 4321 };
    assert(b.ip@ =~= seq![10u8, 42, 0, 61]);
    assert(b.mac@ =~= seq![0x00u8, 0x00, 0xDE, 0xAD, 0xBE, 0x61]);
    b
}

/// Nucleo 2 - primary receiver board (10.42.0.60, port 12345).
pub fn nucleo_2() -> (b: BoardConfig)
    ensures
        b.ip@ == seq![10u8, 42, 0, 60],
        b.mac@ == seq![0x00u8, 0x00, 0xDE, 0xAD, 0xBE, 0x60],
        b.listen_port == 12345,
{
    let b = BoardConfig { ip: [10, 42, 0, 60], mac: [0x00, 0x00, 0xDE, 0xAD, 0xBE, 0x60], listen_port: 12345 };
    assert(b.ip@ =~= seq![10u8, 42, 0, 60]);
    assert(b.mac@ =~= seq![0x00u8, 0x00, 0xDE, 0xAD, 0xBE, 0x60]);
    b
}

/// Nucleo 3 - secondary receiver board (10.42.0.62, port 12346).
pub fn nucleo_3() -> (b: BoardConfig)
    ensures
        b.ip@ == seq![10u8, 42, 0, 62],
        b.mac@ == seq![0x00u8, 0x00, 0xDE, 0xAD, 0xBE, 0x62],
        b.listen_port == 12346,
{
    let b = BoardConfig { ip: [10, 42, 0, 62], mac: [0x00, 0x00, 0xDE, 0xAD, 0xBE, 0x62], listen_port: 12346 };
    assert(b.ip@ =~= seq![10u8, 42, 0, 62]);
    assert(b.mac@ =~= seq![0x00u8, 0x00, 0xDE, 0xAD, 0xBE, 0x62]);
    b
}

/// Default destination of Nucleo 1: Nucleo 2.
pub fn nucleo_1_destination() -> (r: ([u8; 4], u16))
    ensures
        r.0@ == seq![10u8, 42, 0, 60],
        r.1 == 12345,
{
    nucleo_2().endpoint()
}

/// Default destination of Nucleo 2: Nucleo 1.
pub fn nucleo_2_destination() -> (r: ([u8; 4], u16))
    ensures
        r.0@ == seq![10u8, 42, 0, 61],
        r.1 == 4321,
{
    nucleo_1().endpoint()
}

/// Default destination of Nucleo 3: Nucleo 1.
pub fn nucleo_3_destination() -> (r: ([u8; 4], u16))
    ensures
        r.0@ == seq![10u8, 42, 0, 61],
        r.1 == 4321,
{
    nucleo_1().endpoint()
}

// =============================================
//              CAN
// =============================================

/// Supported ECU protocol families.
#[derive(Clone, Copy, Debug, PartialEq, Eq, Structural)]
pub enum EcuType {
    ScsDelta,
    MaxxEcu,
}

impl EcuType {
    pub open spec fn spec_primary_can_id(self) -> u32 {
        match self {
            EcuType::ScsDelta => 0x300,
            EcuType::MaxxEcu => 0x520,
        }
    }

    /// The first CAN id of the family's frame set.
    pub fn primary_can_id(self) -> (r: u32)
        ensures
            r == self.spec_primary_can_id(),
    {
        match self {
            EcuType::ScsDelta => 0x300,
            EcuType::MaxxEcu => 0x520,
        }
    }
}

/// Default ECU selection for each board role.
pub const NUCLEO_1_ECU_MODE: EcuType = EcuType::MaxxEcu;
pub const NUCLEO_2_ECU_MODE: EcuType = EcuType::MaxxEcu;

/// Timing defaults for the ECU test setups.
pub const SCS_TEST_FRAME_INTERVAL_MS: u64 = 250;
pub const MAXX_TEST_FRAME_INTERVAL_MS: u64 = 100;
pub const DEFAULT_CAN_RX_TIMEOUT_MS: u64 = 200;

/// Configuration for CAN communication.
#[derive(Clone, Copy, Debug, PartialEq, Eq, Structural)]
pub struct CanConfig {
    /// Selected ECU protocol family.
    pub ecu_type: EcuType,
    /// CAN bitrate in Hz
    pub bitrate: u32,
    /// TX interval in milliseconds (for periodic senders)
    pub tx_interval_ms: u64,
    /// RX timeout in milliseconds (watchdog for reader)
    pub rx_timeout_ms: u64,
    /// Enable hardware CAN filtering
    pub enable_filtering: bool,
}

impl Default for CanConfig {
    fn default() -> (r: Self)
        ensures
            r == (CanConfig {
                ecu_type: NUCLEO_1_ECU_MODE,
                bitrate: 500_000,
                tx_interval_ms: SCS_TEST_FRAME_INTERVAL_MS,
                rx_timeout_ms: 5_000,
                enable_filtering: true,
            }),
    {
        CanConfig {
            ecu_type: NUCLEO_1_ECU_MODE,
            bitrate: 500_000,
            tx_interval_ms: SCS_TEST_FRAME_INTERVAL_MS,
            rx_timeout_ms: 5_000,
            enable_filtering: true,
        }
    }
}

impl CanConfig {
    /// Create a new CAN configuration (filtering enabled).
    pub fn new(ecu_type: EcuType, bitrate: u32, tx_interval_ms: u64, rx_timeout_ms: u64) -> (r: Self)
        ensures
            r == (CanConfig { ecu_type, bitrate, tx_interval_ms, rx_timeout_ms, enable_filtering: true }),
    {
        CanConfig { ecu_type, bitrate, tx_interval_ms, rx_timeout_ms, enable_filtering: true }
    }

    /// The primary CAN id of the selected ECU type.
    pub fn primary_can_id(&self) -> (r: u32)
        ensures
            r == self.ecu_type.spec_primary_can_id(),
    {
        self.ecu_type.primary_can_id()
    }
}

/// CAN statistics for diagnostics.
#[derive(Clone, Copy, Debug, PartialEq, Eq, Structural)]
pub struct CanStats {
    pub tx_count: u32,
    pub tx_errors: u32,
    pub rx_count: u32,
    pub rx_errors: u32,
    pub timeout_count: u32,
}

impl Default for CanStats {
    /// All counters at zero.
    fn default() -> (r: Self)
        ensures
            r == (CanStats { tx_count: 0, tx_errors: 0, rx_count: 0, rx_errors: 0, timeout_count: 0 }),
    {
        CanStats { tx_count: 0, tx_errors: 0, rx_count: 0, rx_errors: 0, timeout_count: 0 }
    }
}

// =============================================
//              CAN HARDWARE PARAMETERS
// =============================================

/// Standard CAN bitrate for ECU communication: 500 kbps.
pub const CAN_BITRATE_500K: u32 = 500_000;
pub const CAN_BITRATE_250K: u32 = 250_000;
pub const CAN_BITRATE_1M: u32 = 1_000_000;

/// Default bitrate used by all boards.
pub const CAN_BITRATE_DEFAULT: u32 = CAN_BITRATE_500K;

/// CAN read timeout in milliseconds.
pub const CAN_RX_TIMEOUT_MS: u32 = 200;

/// Pin assignments for FDCAN1.
pub const CAN_RX_PIN: &'static str = "PD0";
pub const CAN_TX_PIN: &'static str = "PD1";

/// CAN setup pattern for the binaries: create the configurator on FDCAN1
/// (PD0/PD1), set `CAN_BITRATE_DEFAULT`, enter normal mode. Holds no code.
pub fn setup_can_config_comment() {
}

} // verus!
