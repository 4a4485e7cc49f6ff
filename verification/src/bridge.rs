//! Decisions of the USB/UDP bridge firmware: USB command bytes, the UDP
//! discovery handshake, payload validation and send retries.

use vstd::prelude::*;

verus! {

/// USB command: switch the LED on.
pub const CMD_LED_ON: u8 = 0x01;
/// USB command: switch the LED off.
pub const CMD_LED_OFF: u8 = 0x02;

/// UDP port of the discovery responder (the sender binds the next port).
pub const DISCOVERY_PORT: u16 = 12345;
/// UDP port data is forwarded to.
pub const DATA_FORWARDING_PORT: u16 = 4321;

/// First byte of a discovery request.
pub const DISCOVERY_REQUEST: u8 = 0xA0;
/// First byte of a discovery response.
pub const DISCOVERY_RESPONSE: u8 = 0xA1;

/// What a packet read from USB asks for.
#[derive(Clone, Copy, Debug, PartialEq, Eq, Structural)]
pub enum UsbPacket {
    /// Nothing was read.
    Empty,
    /// First byte is `CMD_LED_ON`.
    LedOn,
    /// First byte is `CMD_LED_OFF`.
    LedOff,
    /// Any other data: forward it over UDP.
    Forward,
}

/// Classifies a packet read from the USB serial port.
pub fn classify_usb_packet(packet: &[u8]) -> (r: UsbPacket)
    ensures
        packet@.len() == 0 ==> r == UsbPacket::Empty,
        packet@.len() > 0 && packet@[0] == CMD_LED_ON ==> r == UsbPacket::LedOn,
        packet@.len() > 0 && packet@[0] == CMD_LED_OFF ==> r == UsbPacket::LedOff,
        packet@.len() > 0 && packet@[0] != CMD_LED_ON && packet@[0] != CMD_LED_OFF ==> r
            == UsbPacket::Forward,
{
    if packet.len() == 0 {
        UsbPacket::Empty
    } else if packet[0] == CMD_LED_ON {
        UsbPacket::LedOn
    } else if packet[0] == CMD_LED_OFF {
        UsbPacket::LedOff
    } else {
        UsbPacket::Forward
    }
}

/// The discovery request datagram.
pub fn discovery_request() -> (r: [u8; 1])
    ensures
        r@ == seq![DISCOVERY_REQUEST],
{
    let r = [DISCOVERY_REQUEST];
    assert(r@ =~= seq![DISCOVERY_REQUEST]);
    r
}

/// Whether the sender takes a datagram as a discovery response.
pub open spec fn accepted_as_response(payload: Seq<u8>) -> bool {
    payload.len() > 0 && payload[0] == DISCOVERY_RESPONSE
}

/// The responder's answer to a datagram: a response for a request, nothing
/// otherwise.
pub open spec fn reply_to(payload: Seq<u8>) -> Option<Seq<u8>> {
    if payload.len() > 0 && payload[0] == DISCOVERY_REQUEST {
        Some(seq![DISCOVERY_RESPONSE])
    } else {
        None
    }
}

/// Whether a received datagram answers a discovery request.
pub fn is_discovery_response(payload: &[u8]) -> (r: bool)
    ensures
        r == accepted_as_response(payload@),
        r == (payload@.len() > 0 && payload@[0] == 0xA1u8),
{
    payload.len() > 0 && payload[0] == DISCOVERY_RESPONSE
}

/// The answer of the discovery responder to a received datagram: a response
/// for a request, nothing otherwise.
pub fn discovery_reply(payload: &[u8]) -> (r: Option<[u8; 1]>)
    ensures
        match r {
            Some(a) => reply_to(payload@) == Some(a@),
            None => reply_to(payload@) is None,
        },
        r is Some <==> (payload@.len() > 0 && payload@[0] == 0xA0u8),
        r matches Some(a) ==> a@ =~= seq![0xA1u8],
{
    if payload.len() > 0 && payload[0] == DISCOVERY_REQUEST {
        let a = [DISCOVERY_RESPONSE];
        assert(a@ =~= seq![DISCOVERY_RESPONSE]);
        Some(a)
    } else {
        None
    }
}

/// The responder answers a datagram exactly when its first byte is the
/// request byte 0xA0, and then with the single response byte 0xA1; every
/// other datagram, empty ones included, gets no answer. The sender takes a
/// datagram as a response exactly when its first byte is 0xA1.
pub proof fn lemma_reply_only_to_requests(payload: Seq<u8>)
    ensures
        reply_to(payload) is Some <==> (payload.len() > 0 && payload[0] == 0xA0u8),
        reply_to(payload) matches Some(answer) ==> answer =~= seq![0xA1u8],
        accepted_as_response(payload) <==> (payload.len() > 0 && payload[0] == 0xA1u8),
{
}

/// The discovery handshake settles after one exchange: the sender's request
/// is answered, every answer is accepted by the sender as a response, and a
/// response is never answered in turn.
pub proof fn lemma_discovery_handshake(payload: Seq<u8>)
    ensures
        reply_to(seq![DISCOVERY_REQUEST]) is Some,
        reply_to(payload) matches Some(answer) ==> accepted_as_response(answer),
        accepted_as_response(payload) ==> reply_to(payload) is None,
{
}

/// Whether a chunk read from the USB pipe is forwarded: it is neither empty
/// nor longer than the chunk buffer.
pub fn forwardable_len(len: usize, chunk_size: usize) -> (r: bool)
    ensures
        r == (len != 0 && len <= chunk_size),
{
    !(len == 0 || len > chunk_size)
}

/// Number of UDP send attempts per chunk.
pub const UDP_SEND_ATTEMPTS: u32 = 3;

/// After failed UDP send attempt `attempt` (counting from 0): the pause in
/// milliseconds before the next attempt, or `None` when it was the last.
pub fn udp_retry_delay_ms(attempt: u32) -> (r: Option<u64>)
    ensures
        attempt + 1 < UDP_SEND_ATTEMPTS ==> r == Some((100 * (attempt + 1)) as u64),
        attempt + 1 >= UDP_SEND_ATTEMPTS ==> r is None,
{
    if attempt < UDP_SEND_ATTEMPTS - 1 {
        Some(100 * (attempt as u64 + 1))
    } else {
        None
    }
}

/// Number of USB write attempts per chunk.
pub const USB_WRITE_ATTEMPTS: u32 = 10;

/// After the `failures`-th failed USB write of a chunk: the backoff (in
/// units of the base delay) to wait, and whether to try again.
pub fn usb_write_backoff(failures: u32) -> (r: (u64, bool))
    ensures
        r == (failures as u64, failures < USB_WRITE_ATTEMPTS),
{
    (failures as u64, failures < USB_WRITE_ATTEMPTS)
}

} // verus!
