//! Messages exchanged between boards and broadcast over UDP.
//!
//! Wire format: one type byte followed by the payload:
//! - `0x01` Bytes: 16 raw bytes
//! - `0x02` Pot: the voltage as 4 big-endian bytes (IEEE-754 bits)
//! - `0x03` CanFrame: CAN id (4 bytes, big-endian), 8 data bytes, DLC
//! - `0x04` EcuJson: one length byte, then the JSON text

use vstd::prelude::*;
use vstd::string::StringSliceAdditionalSpecFns;
use vstd::utf8::valid_utf8;

use crate::text::{str_from_utf8, text_as_str, text_bytes, text_try_from_str};

verus! {

// ---------------------------------------------------------------------------
//  Byte helpers
// ---------------------------------------------------------------------------

/// Big-endian bytes of a 32-bit value.
pub open spec fn be32(v: u32) -> Seq<u8> {
    seq![
        (v / 0x1000000) as u8,
        ((v / 0x10000) % 0x100) as u8,
        ((v / 0x100) % 0x100) as u8,
        (v % 0x100) as u8,
    ]
}

/// The 32-bit value of four big-endian bytes.
pub open spec fn be32_value(b: Seq<u8>) -> u32 {
    (b[0] * 0x1000000 + b[1] * 0x10000 + b[2] * 0x100 + b[3]) as u32
}

/// `s` with the bytes from `start` on replaced by `src`.
pub open spec fn splice(s: Seq<u8>, start: int, src: Seq<u8>) -> Seq<u8> {
    s.subrange(0, start) + src + s.subrange(start + src.len(), s.len() as int)
}

/// Reading back the big-endian bytes of a value gives the value.
pub proof fn lemma_be32_roundtrip(v: u32)
    ensures
        be32(v).len() == 4,
        be32_value(be32(v)) == v,
{
    let b = be32(v);
    assert(b[0] * 0x1000000 + b[1] * 0x10000 + b[2] * 0x100 + b[3] == v) by (nonlinear_arith)
        requires
            b[0] == v / 0x1000000,
            b[1] == (v / 0x10000) % 0x100,
            b[2] == (v / 0x100) % 0x100,
            b[3] == v % 0x100,
    ;
}

fn u32_to_be(v: u32) -> (r: [u8; 4])
    ensures
        r@ == be32(v),
{
    let r = [
        (v / 0x1000000) as u8,
        ((v / 0x10000) % 0x100) as u8,
        ((v / 0x100) % 0x100) as u8,
        (v % 0x100) as u8,
    ];
    assert(r@ =~= be32(v));
    r
}

fn u32_from_be(b: &[u8], at: usize) -> (v: u32)
    requires
        at + 4 <= b@.len(),
    ensures
        v == be32_value(b@.subrange(at as int, at + 4)),
{
    let v = (b[at] as u32) * 0x1000000 + (b[at + 1] as u32) * 0x10000 + (b[at + 2] as u32) * 0x100
        + b[at + 3] as u32;
    v
}

/// Writes `src` into `buf` from position `start` on.
fn write_bytes(buf: &mut [u8], start: usize, src: &[u8])
    requires
        start + src@.len() <= old(buf)@.len(),
    ensures
        final(buf)@ == splice(old(buf)@, start as int, src@),
{
    let ghost orig = buf@;
    let blen = buf.len();
    let mut i: usize = 0;
    while i < src.len()
        invariant
            blen == orig.len(),
            i <= src@.len(),
            start + src@.len() <= orig.len(),
            buf@.len() == orig.len(),
            buf@ =~= orig.subrange(0, start as int) + src@.subrange(0, i as int) + orig.subrange(
                start + i,
                orig.len() as int,
            ),
        decreases src@.len() - i,
    {
        buf[start + i] = src[i];
        i = i + 1;
    }
    assert(src@.subrange(0, i as int) =~= src@);
}

/// Copies `n` bytes of `src` starting at `from` into a fresh array prefix.
fn copy_into<const N: usize>(dst: &mut [u8; N], src: &[u8], from: usize)
    requires
        from + N <= src@.len(),
    ensures
        final(dst)@ == src@.subrange(from as int, from + N),
{
    let slen = src.len();
    let mut i: usize = 0;
    while i < N
        invariant
            slen == src@.len(),
            i <= N,
            from + N <= src@.len(),
            dst@.len() == N,
            forall|j: int| 0 <= j < i ==> dst@[j] == src@[from + j],
        decreases N - i,
    {
        dst[i] = src[from + i];
        i = i + 1;
    }
    assert(dst@ =~= src@.subrange(from as int, from + N));
}

// ---------------------------------------------------------------------------
//  MessageType
// ---------------------------------------------------------------------------

/// Message type discriminator byte.
#[derive(Copy, Clone, Debug, PartialEq, Eq, Structural)]
pub enum MessageType {
    /// Raw byte message (16 bytes payload)
    Bytes,
    /// Potentiometer reading
    Pot,
    /// CAN frame data (8 byte payload + CAN ID)
    CanFrame,
    /// ECU JSON logging data
    EcuJson,
}

impl MessageType {
    /// The discriminator byte of each type on the wire.
    pub open spec fn spec_byte(self) -> u8 {
        match self {
            MessageType::Bytes => 0x01,
            MessageType::Pot => 0x02,
            MessageType::CanFrame => 0x03,
            MessageType::EcuJson => 0x04,
        }
    }

    pub open spec fn spec_from_byte(b: u8) -> Option<MessageType> {
        if b == 0x01 {
            Some(MessageType::Bytes)
        } else if b == 0x02 {
            Some(MessageType::Pot)
        } else if b == 0x03 {
            Some(MessageType::CanFrame)
        } else if b == 0x04 {
            Some(MessageType::EcuJson)
        } else {
            None
        }
    }

    /// Try to parse a message type from a byte.
    pub fn from_byte(b: u8) -> (r: Option<Self>)
        ensures
            r == Self::spec_from_byte(b),
    {
        match b {
            0x01 => Some(MessageType::Bytes),
            0x02 => Some(MessageType::Pot),
            0x03 => Some(MessageType::CanFrame),
            0x04 => Some(MessageType::EcuJson),
            _ => None,
        }
    }

    /// The discriminator byte of this type.
    pub fn to_byte(self) -> (b: u8)
        ensures
            b == self.spec_byte(),
    {
        match self {
            MessageType::Bytes => 0x01,
            MessageType::Pot => 0x02,
            MessageType::CanFrame => 0x03,
            MessageType::EcuJson => 0x04,
        }
    }
}

/// Reading a type back from its byte gives the type; only the four type
/// bytes are recognised.
pub proof fn lemma_message_type_byte(t: MessageType, b: u8)
    ensures
        MessageType::spec_from_byte(t.spec_byte()) == Some(t),
        MessageType::spec_from_byte(b) matches Some(u) ==> u.spec_byte() == b,
        MessageType::spec_from_byte(b) is Some <==> 1 <= b <= 4,
{
}

// ---------------------------------------------------------------------------
//  PotReading
// ---------------------------------------------------------------------------

/// Potentiometer/ADC reading. The voltage is carried as the bit pattern of
/// its IEEE-754 single precision value.
#[derive(Copy, Clone, Debug, PartialEq, Eq, Structural)]
pub struct PotReading {
    /// Raw ADC value (0-16383 for 14-bit ADC)
    pub measured: u16,
    /// Calculated voltage in volts, as `f32::to_bits`
    pub voltage_bits: u32,
}

/// Decoding of a Pot payload: the voltage bits; the raw value is not sent.
pub open spec fn pot_from_bytes(b: Seq<u8>) -> Option<PotReading> {
    if b.len() < 4 {
        None
    } else {
        Some(PotReading { measured: 0, voltage_bits: be32_value(b) })
    }
}

impl PotReading {
    /// Create a new reading.
    pub fn new(measured: u16, voltage_bits: u32) -> (r: Self)
        ensures
            r.measured == measured,
            r.voltage_bits == voltage_bits,
    {
        PotReading { measured, voltage_bits }
    }

    /// Serialize to bytes (4 bytes: voltage bits big-endian).
    pub fn to_bytes(&self) -> (r: [u8; 4])
        ensures
            r@ == be32(self.voltage_bits),
    {
        u32_to_be(self.voltage_bits)
    }

    /// Deserialize from bytes.
    pub fn from_bytes(bytes: &[u8]) -> (r: Option<Self>)
        ensures
            r == pot_from_bytes(bytes@),
    {
        if bytes.len() < 4 {
            return None;
        }
        let voltage_bits = u32_from_be(bytes, 0);
        Some(PotReading { measured: 0, voltage_bits })
    }
}

// ---------------------------------------------------------------------------
//  CanFrameData
// ---------------------------------------------------------------------------

/// CAN frame data for remote logging.
#[derive(Copy, Clone, Debug)]
pub struct CanFrameData {
    /// CAN identifier
    pub can_id: u32,
    /// Frame data (8 bytes)
    pub data: [u8; 8],
    /// Data length code (0-8)
    pub dlc: u8,
}

/// The 13 wire bytes of a CAN frame record: id, data, DLC.
pub open spec fn can_frame_bytes(can_id: u32, data: Seq<u8>, dlc: u8) -> Seq<u8> {
    be32(can_id) + data + seq![dlc]
}

/// Decoding of a CAN frame record: needs 13 bytes and a DLC of at most 8.
pub open spec fn can_frame_from_bytes(b: Seq<u8>) -> Option<(u32, Seq<u8>, u8)> {
    if b.len() < 13 {
        None
    } else if b[12] > 8 {
        None
    } else {
        Some((be32_value(b), b.subrange(4, 12), b[12]))
    }
}

impl CanFrameData {
    /// Create a new CAN frame data.
    pub fn new(can_id: u32, data: [u8; 8], dlc: u8) -> (r: Self)
        ensures
            r.can_id == can_id,
            r.data == data,
            r.dlc == dlc,
    {
        CanFrameData { can_id, data, dlc }
    }

    /// Serialize to bytes (13 bytes: 4 CAN ID + 8 data + 1 DLC).
    pub fn to_bytes(&self) -> (r: [u8; 13])
        ensures
            r@ == can_frame_bytes(self.can_id, self.data@, self.dlc),
    {
        let mut buf = [0u8; 13];
        let id = u32_to_be(self.can_id);
        write_bytes(&mut buf, 0, &id);
        write_bytes(&mut buf, 4, &self.data);
        buf[12] = self.dlc;
        assert(buf@ =~= can_frame_bytes(self.can_id, self.data@, self.dlc));
        buf
    }

    /// Deserialize from bytes.
    pub fn from_bytes(bytes: &[u8]) -> (r: Option<Self>)
        ensures
            match r {
                Some(c) => can_frame_from_bytes(bytes@) == Some((c.can_id, c.data@, c.dlc)),
                None => can_frame_from_bytes(bytes@) is None,
            },
    {
        if bytes.len() < 13 {
            return None;
        }
        let can_id = u32_from_be(bytes, 0);
        let mut data = [0u8; 8];
        copy_into(&mut data, bytes, 4);
        let dlc = bytes[12];
        if dlc > 8 {
            return None;
        }
        proof {
            assert(bytes@.subrange(0, 4)[0] == bytes@[0]);
            assert(be32_value(bytes@.subrange(0, 4)) == be32_value(bytes@));
        }
        Some(CanFrameData { can_id, data, dlc })
    }
}

// ---------------------------------------------------------------------------
//  EcuJsonData
// ---------------------------------------------------------------------------

/// ECU JSON data for remote logging (text of up to 256 bytes).
#[derive(Debug)]
pub struct EcuJsonData {
    /// JSON string (up to 256 bytes)
    pub json: heapless::String<256>,
}

impl View for EcuJsonData {
    type V = Seq<u8>;

    open spec fn view(&self) -> Seq<u8> {
        text_bytes(self.json)
    }
}

/// Wire form of a JSON record: the length (modulo 256) and the text.
pub open spec fn json_record(text: Seq<u8>) -> Seq<u8> {
    seq![(text.len() % 256) as u8] + text
}

/// Decoding of a JSON record: a length byte, that many bytes of UTF-8.
pub open spec fn json_from_bytes(b: Seq<u8>) -> Option<Seq<u8>> {
    if b.len() == 0 {
        None
    } else if b.len() < 1 + b[0] {
        None
    } else if !valid_utf8(b.subrange(1, 1 + b[0])) {
        None
    } else {
        Some(b.subrange(1, 1 + b[0]))
    }
}

impl Clone for EcuJsonData {
    /// A copy holding the same text.
    fn clone(&self) -> (r: Self)
        ensures
            r@ == self@,
    {
        let s = text_as_str(&self.json);
        match text_try_from_str(s) {
            Some(json) => EcuJsonData { json },
            None => EcuJsonData { json: crate::text::text_new() },
        }
    }
}

impl EcuJsonData {
    /// Create new ECU JSON data.
    pub fn new(json: heapless::String<256>) -> (r: Self)
        ensures
            r.json == json,
            r@ == text_bytes(json),
    {
        EcuJsonData { json }
    }

    /// Writes the record at `start`; 0 and nothing written when it does not fit.
    fn write_at(&self, buf: &mut [u8], start: usize) -> (n: usize)
        requires
            start <= old(buf)@.len(),
        ensures
            self@.len() <= 256,
            start + 1 + self@.len() <= old(buf)@.len() ==> n == 1 + self@.len() && final(buf)@
                == splice(old(buf)@, start as int, json_record(self@)),
            start + 1 + self@.len() > old(buf)@.len() ==> n == 0 && final(buf)@ == old(buf)@,
    {
        let s = text_as_str(&self.json);
        let json_bytes = s.as_bytes();
        if buf.len() - start < 1 + json_bytes.len() {
            return 0;
        }
        let ghost orig = buf@;
        buf[start] = (json_bytes.len() % 256) as u8;
        write_bytes(buf, start + 1, json_bytes);
        assert(buf@ =~= splice(orig, start as int, json_record(self@)));
        1 + json_bytes.len()
    }

    /// Serialize to bytes (1 byte length + JSON data); 0 when `buf` is too small.
    pub fn to_bytes(&self, buf: &mut [u8]) -> (n: usize)
        ensures
            1 + self@.len() <= old(buf)@.len() ==> n == 1 + self@.len() && final(buf)@ == splice(
                old(buf)@,
                0,
                json_record(self@),
            ),
            1 + self@.len() > old(buf)@.len() ==> n == 0 && final(buf)@ == old(buf)@,
    {
        self.write_at(buf, 0)
    }

    /// Deserialize from bytes.
    pub fn from_bytes(bytes: &[u8]) -> (r: Option<Self>)
        ensures
            match r {
                Some(e) => json_from_bytes(bytes@) == Some(e@),
                None => json_from_bytes(bytes@) is None,
            },
    {
        if bytes.len() == 0 {
            return None;
        }
        let len = bytes[0] as usize;
        if bytes.len() < 1 + len {
            return None;
        }
        let body = vstd::slice::slice_subrange(bytes, 1, 1 + len);
        match str_from_utf8(body) {
            None => None,
            Some(s) => match text_try_from_str(s) {
                Some(json) => Some(EcuJsonData { json }),
                None => None,
            },
        }
    }
}

// ---------------------------------------------------------------------------
//  Message
// ---------------------------------------------------------------------------

/// Message variants for channel communication.
#[derive(Clone, Debug)]
pub enum Message {
    /// Raw bytes (16 byte fixed payload)
    Bytes([u8; 16]),
    /// Potentiometer reading
    Pot(PotReading),
    /// CAN frame data for remote logging
    CanFrame(CanFrameData),
    /// ECU JSON logging data
    EcuJson(EcuJsonData),
}

/// What a message says, as plain values.
pub enum MessageModel {
    Bytes(Seq<u8>),
    Pot { measured: u16, voltage_bits: u32 },
    CanFrame { can_id: u32, data: Seq<u8>, dlc: u8 },
    EcuJson(Seq<u8>),
}

impl View for Message {
    type V = MessageModel;

    open spec fn view(&self) -> MessageModel {
        match self {
            Message::Bytes(d) => MessageModel::Bytes(d@),
            Message::Pot(p) => MessageModel::Pot { measured: p.measured, voltage_bits: p.voltage_bits },
            Message::CanFrame(c) => MessageModel::CanFrame { can_id: c.can_id, data: c.data@, dlc: c.dlc },
            Message::EcuJson(e) => MessageModel::EcuJson(e@),
        }
    }
}

/// The complete wire encoding of a message: type byte, then payload.
pub open spec fn encode(m: MessageModel) -> Seq<u8> {
    match m {
        MessageModel::Bytes(d) => seq![0x01u8] + d,
        MessageModel::Pot { measured, voltage_bits } => seq![0x02u8] + be32(voltage_bits),
        MessageModel::CanFrame { can_id, data, dlc } => seq![0x03u8] + can_frame_bytes(can_id, data, dlc),
        MessageModel::EcuJson(text) => seq![0x04u8] + json_record(text),
    }
}

/// Decoding of a received buffer.
pub open spec fn decode(b: Seq<u8>) -> Option<MessageModel> {
    if b.len() == 0 {
        None
    } else {
        let rest = b.subrange(1, b.len() as int);
        match MessageType::spec_from_byte(b[0]) {
            None => None,
            Some(MessageType::Bytes) => if b.len() < 17 {
                None
            } else {
                Some(MessageModel::Bytes(b.subrange(1, 17)))
            },
            Some(MessageType::Pot) => match pot_from_bytes(rest) {
                Some(p) => Some(MessageModel::Pot { measured: p.measured, voltage_bits: p.voltage_bits }),
                None => None,
            },
            Some(MessageType::CanFrame) => match can_frame_from_bytes(rest) {
                Some((can_id, data, dlc)) => Some(MessageModel::CanFrame { can_id, data, dlc }),
                None => None,
            },
            Some(MessageType::EcuJson) => match json_from_bytes(rest) {
                Some(text) => Some(MessageModel::EcuJson(text)),
                None => None,
            },
        }
    }
}

/// Messages whose wire form carries everything they hold: a Pot reading
/// without a raw value, a frame whose DLC is at most 8, a UTF-8 text of at
/// most 255 bytes (the length byte cannot count higher).
pub open spec fn wire_exact(m: MessageModel) -> bool {
    match m {
        MessageModel::Bytes(d) => d.len() == 16,
        MessageModel::Pot { measured, voltage_bits } => measured == 0,
        MessageModel::CanFrame { can_id, data, dlc } => data.len() == 8 && dlc <= 8,
        MessageModel::EcuJson(text) => text.len() <= 255 && valid_utf8(text),
    }
}

/// The wire layout, byte by byte. A Bytes message is type byte 0x01 and its
/// 16 bytes; a Pot message is 0x02 and the voltage bits big-endian; a CAN
/// frame is 0x03, the id big-endian, the 8 data bytes and the DLC; a JSON
/// message is 0x04, the text length (modulo 256) and the text.
pub proof fn lemma_wire_layout(m: MessageModel)
    ensures
        m matches MessageModel::Bytes(d) ==> {
            &&& encode(m).len() == 1 + d.len()
            &&& encode(m)[0] == 0x01
            &&& forall|i: int| 0 <= i < d.len() ==> #[trigger] encode(m)[1 + i] == d[i]
        },
        m matches MessageModel::Pot { voltage_bits, .. } ==> {
            &&& encode(m).len() == 5
            &&& encode(m)[0] == 0x02
            &&& encode(m)[1] * 0x1000000 + encode(m)[2] * 0x10000 + encode(m)[3] * 0x100 + encode(m)[4]
                == voltage_bits
        },
        m matches MessageModel::CanFrame { can_id, data, dlc } ==> {
            &&& encode(m).len() == 6 + data.len()
            &&& encode(m)[0] == 0x03
            &&& encode(m)[1] * 0x1000000 + encode(m)[2] * 0x10000 + encode(m)[3] * 0x100 + encode(m)[4]
                == can_id
            &&& forall|i: int| 0 <= i < data.len() ==> #[trigger] encode(m)[5 + i] == data[i]
            &&& encode(m)[5 + data.len() as int] == dlc
        },
        m matches MessageModel::EcuJson(text) ==> {
            &&& encode(m).len() == 2 + text.len()
            &&& encode(m)[0] == 0x04
            &&& encode(m)[1] == text.len() % 256
            &&& forall|i: int| 0 <= i < text.len() ==> #[trigger] encode(m)[2 + i] == text[i]
        },
{
    match m {
        MessageModel::Pot { measured, voltage_bits } => {
            lemma_be32_digits(voltage_bits);
        },
        MessageModel::CanFrame { can_id, data, dlc } => {
            lemma_be32_digits(can_id);
        },
        _ => {},
    }
}

proof fn lemma_be32_digits(v: u32)
    ensures
        be32(v).len() == 4,
        be32(v)[0] * 0x1000000 + be32(v)[1] * 0x10000 + be32(v)[2] * 0x100 + be32(v)[3] == v,
{
    let b = be32(v);
    assert(b[0] * 0x1000000 + b[1] * 0x10000 + b[2] * 0x100 + b[3] == v) by (nonlinear_arith)
        requires
            b[0] == v / 0x1000000,
            b[1] == (v / 0x10000) % 0x100,
            b[2] == (v / 0x100) % 0x100,
            b[3] == v % 0x100,
    ;
}

/// What a received buffer decodes to, by its first byte: 0x01 needs 17
/// bytes and gives the 16 after the type byte; 0x02 needs 5 and gives a Pot
/// reading (raw value 0) with the big-endian voltage bits; 0x03 needs 14 and
/// a DLC of at most 8 and gives the big-endian id, the 8 data bytes and the
/// DLC; 0x04 needs the length byte and that many bytes of valid UTF-8 after
/// it. Every other buffer, empty ones included, decodes to nothing.
pub proof fn lemma_decode_rules(b: Seq<u8>)
    ensures
        b.len() == 0 || b[0] < 1 || b[0] > 4 ==> decode(b) is None,
        b.len() > 0 && b[0] == 1 ==> (decode(b) is Some <==> b.len() >= 17) && (b.len() >= 17
            ==> decode(b) == Some(MessageModel::Bytes(b.subrange(1, 17)))),
        b.len() > 0 && b[0] == 2 ==> (decode(b) is Some <==> b.len() >= 5) && (b.len() >= 5
            ==> decode(b) == Some(
            MessageModel::Pot {
                measured: 0,
                voltage_bits: (b[1] * 0x1000000 + b[2] * 0x10000 + b[3] * 0x100 + b[4]) as u32,
            },
        )),
        b.len() > 0 && b[0] == 3 ==> (decode(b) is Some <==> (b.len() >= 14 && b[13] <= 8)) && (
        b.len() >= 14 && b[13] <= 8 ==> decode(b) == Some(
            MessageModel::CanFrame {
                can_id: (b[1] * 0x1000000 + b[2] * 0x10000 + b[3] * 0x100 + b[4]) as u32,
                data: b.subrange(5, 13),
                dlc: b[13],
            },
        )),
        b.len() > 0 && b[0] == 4 ==> (decode(b) is Some <==> (b.len() >= 2 && b.len() >= 2 + b[1]
            && valid_utf8(b.subrange(2, 2 + b[1])))) && (b.len() >= 2 && b.len() >= 2 + b[1]
            && valid_utf8(b.subrange(2, 2 + b[1])) ==> decode(b) == Some(
            MessageModel::EcuJson(b.subrange(2, 2 + b[1])),
        )),
{
    if b.len() > 0 {
        let rest = b.subrange(1, b.len() as int);
        if b[0] == 3 && b.len() >= 14 {
            assert(rest.subrange(4, 12) =~= b.subrange(5, 13));
        }
        if b[0] == 4 && b.len() >= 2 && b.len() >= 2 + b[1] {
            assert(rest.subrange(1, 1 + rest[0]) =~= b.subrange(2, 2 + b[1]));
        }
    }
}

/// Decoding what was encoded gives the message back, for every message
/// whose wire form carries all it holds.
pub proof fn lemma_decode_encode(m: MessageModel)
    requires
        wire_exact(m),
    ensures
        decode(encode(m)) == Some(m),
{
    let b = encode(m);
    let rest = b.subrange(1, b.len() as int);
    match m {
        MessageModel::Bytes(d) => {
            assert(b.subrange(1, 17) =~= d);
        },
        MessageModel::Pot { measured, voltage_bits } => {
            lemma_be32_roundtrip(voltage_bits);
            assert(rest =~= be32(voltage_bits));
        },
        MessageModel::CanFrame { can_id, data, dlc } => {
            lemma_be32_roundtrip(can_id);
            assert(rest =~= can_frame_bytes(can_id, data, dlc));
            assert(rest.subrange(4, 12) =~= data);
            assert(rest.subrange(0, 4) =~= be32(can_id));
            assert(be32_value(rest) == be32_value(be32(can_id)));
        },
        MessageModel::EcuJson(text) => {
            assert(rest =~= json_record(text));
            assert(rest.subrange(1, 1 + rest[0]) =~= text);
        },
    }
}

impl Message {
    /// The message type of this message.
    pub fn message_type(&self) -> (t: MessageType)
        ensures
            t.spec_byte() == encode(self@)[0],
    {
        match self {
            Message::Bytes(_) => MessageType::Bytes,
            Message::Pot(_) => MessageType::Pot,
            Message::CanFrame(_) => MessageType::CanFrame,
            Message::EcuJson(_) => MessageType::EcuJson,
        }
    }

    /// Serializes the message into `buf` and returns the number of bytes
    /// written: the whole encoding when it fits, otherwise 0 with `buf`
    /// untouched, except for a JSON message and a buffer of at least 2 bytes,
    /// where only the type byte is written and 1 is returned.
    pub fn serialize(&self, buf: &mut [u8]) -> (n: usize)
        ensures
            encode(self@).len() <= old(buf)@.len() ==> n == encode(self@).len() && final(buf)@
                == splice(old(buf)@, 0, encode(self@)),
            encode(self@).len() > old(buf)@.len() ==> {
                if self is EcuJson && old(buf)@.len() >= 2 {
                    n == 1 && final(buf)@ == old(buf)@.update(0, 0x04u8)
                } else {
                    n == 0 && final(buf)@ == old(buf)@
                }
            },
    {
        let ghost orig = buf@;
        match self {
            Message::Bytes(data) => {
                if buf.len() < 17 {
                    return 0;
                }
                buf[0] = MessageType::Bytes.to_byte();
                write_bytes(buf, 1, data);
                assert(buf@ =~= splice(orig, 0, encode(self@)));
                17
            },
            Message::Pot(reading) => {
                if buf.len() < 5 {
                    return 0;
                }
                buf[0] = MessageType::Pot.to_byte();
                let bytes = reading.to_bytes();
                write_bytes(buf, 1, &bytes);
                assert(buf@ =~= splice(orig, 0, encode(self@)));
                5
            },
            Message::CanFrame(can_data) => {
                if buf.len() < 14 {
                    return 0;
                }
                buf[0] = MessageType::CanFrame.to_byte();
                let bytes = can_data.to_bytes();
                write_bytes(buf, 1, &bytes);
                assert(buf@ =~= splice(orig, 0, encode(self@)));
                14
            },
            Message::EcuJson(ecu_data) => {
                if buf.len() < 2 {
                    return 0;
                }
                buf[0] = MessageType::EcuJson.to_byte();
                let n = ecu_data.write_at(buf, 1);
                proof {
                    if n > 0 {
                        assert(buf@ =~= splice(orig, 0, encode(self@)));
                    } else {
                        assert(buf@ =~= orig.update(0, 0x04u8));
                    }
                }
                n + 1
            },
        }
    }

    /// Deserializes a received buffer.
    pub fn deserialize(buf: &[u8]) -> (r: Option<Self>)
        ensures
            match r {
                Some(m) => decode(buf@) == Some(m@),
                None => decode(buf@) is None,
            },
    {
        if buf.len() == 0 {
            return None;
        }
        let rest = vstd::slice::slice_subrange(buf, 1, buf.len());
        match MessageType::from_byte(buf[0]) {
            None => None,
            Some(MessageType::Bytes) => {
                if buf.len() < 17 {
                    return None;
                }
                let mut data = [0u8; 16];
                copy_into(&mut data, buf, 1);
                Some(Message::Bytes(data))
            },
            Some(MessageType::Pot) => match PotReading::from_bytes(rest) {
                Some(reading) => Some(Message::Pot(reading)),
                None => None,
            },
            Some(MessageType::CanFrame) => match CanFrameData::from_bytes(rest) {
                Some(can_data) => Some(Message::CanFrame(can_data)),
                None => None,
            },
            Some(MessageType::EcuJson) => match EcuJsonData::from_bytes(rest) {
                Some(ecu_data) => Some(Message::EcuJson(ecu_data)),
                None => None,
            },
        }
    }
}

} // verus!
