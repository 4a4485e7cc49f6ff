#![allow(non_upper_case_globals)]
//! Verified core of the Nucleo board communication library: CAN frame and
//! UDP message encodings, ECU protocol decoding and test-frame generation,
//! sensor bookkeeping and the CAN reader's decision logic.

pub mod text;
pub mod messages;
pub mod ecu;
pub mod maxx;
pub mod constants;
pub mod scs;
pub mod engine_data;
pub mod config;
pub mod sensors;
pub mod can_reader;
pub mod maxx_lengths;
pub mod bridge;
pub mod send_cycle;
