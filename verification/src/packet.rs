//! Bit-exact wire formats of the three ranging frames.
//!
//! A Poll frame is 48 bits: a 4-bit packet type, a 4-bit reserved nibble and
//! a 40-bit transmit timestamp, packed little-endian into 6 bytes. A Response
//! frame is the 8-bit header alone. A Final frame is 21 bytes: the header
//! byte, three 40-bit receive timestamps and one 40-bit transmit timestamp,
//! each timestamp a fixed 5-byte little-endian field.

use vstd::prelude::*;

verus! {

/// One past the largest value a 40-bit device timestamp can hold.
pub const TIMESTAMP_LIMIT: u64 = 0x100_0000_0000;

/// A decoder was handed a buffer whose length does not match the frame.
#[derive(Clone, Copy, PartialEq, Eq, Structural, Debug)]
pub enum DecodeError {
    BadLength,
}

/// The 4-bit frame type carried in the low nibble of every header byte.
///
/// Any nibble outside the three known types decodes to `Reserved`, so an
/// unknown frame never fails to decode; the caller decides what to do with
/// a reserved frame.
#[derive(Clone, Copy, PartialEq, Eq, Structural, Debug)]
pub enum PacketType {
    Poll,
    Response,
    Final,
    Reserved,
}

impl PacketType {
    /// The nibble this type is written as on the wire.
    pub open spec fn spec_bits(self) -> u8 {
        match self {
            PacketType::Poll => 0,
            PacketType::Response => 1,
            PacketType::Final => 2,
            PacketType::Reserved => 3,
        }
    }

    /// The type a wire nibble is read as; every value above `Final` is
    /// `Reserved`.
    pub open spec fn spec_from_bits(b: u8) -> PacketType {
        if b == 0 {
            PacketType::Poll
        } else if b == 1 {
            PacketType::Response
        } else if b == 2 {
            PacketType::Final
        } else {
            PacketType::Reserved
        }
    }

    pub fn to_bits(self) -> (r: u8)
        ensures
            r == self.spec_bits(),
    {
        match self {
            PacketType::Poll => 0,
            PacketType::Response => 1,
            PacketType::Final => 2,
            PacketType::Reserved => 3,
        }
    }

    pub fn from_bits(b: u8) -> (r: PacketType)
        ensures
            r == PacketType::spec_from_bits(b),
    {
        if b == 0 {
            PacketType::Poll
        } else if b == 1 {
            PacketType::Response
        } else if b == 2 {
            PacketType::Final
        } else {
            PacketType::Reserved
        }
    }
}

/// The five little-endian bytes of a 40-bit timestamp.
pub open spec fn spec_ts_bytes(ts: u64) -> Seq<u8> {
    seq![
        (ts & 0xff) as u8,
        ((ts >> 8) & 0xff) as u8,
        ((ts >> 16) & 0xff) as u8,
        ((ts >> 24) & 0xff) as u8,
        ((ts >> 32) & 0xff) as u8,
    ]
}

/// The 40-bit timestamp read from five little-endian bytes.
pub open spec fn spec_ts_value(b: Seq<u8>) -> u64
    recommends
        b.len() == 5,
{
    ((b[0] as u64) | ((b[1] as u64) << 8) | ((b[2] as u64) << 16) | ((b[3] as u64) << 24) | (
    (b[4] as u64) << 32)) as u64
}

/// Writing a 40-bit timestamp to its five wire bytes and reading them back
/// returns the timestamp.
pub proof fn lemma_ts_round_trip(ts: u64)
    requires
        ts < TIMESTAMP_LIMIT,
    ensures
        spec_ts_value(spec_ts_bytes(ts)) == ts,
{
    assert(ts < 0x100_0000_0000 ==> ((((ts & 0xff) as u8 as u64) | ((((ts >> 8) & 0xff) as u8
        as u64) << 8) | ((((ts >> 16) & 0xff) as u8 as u64) << 16) | ((((ts >> 24) & 0xff) as u8
        as u64) << 24) | ((((ts >> 32) & 0xff) as u8 as u64) << 32)) as u64) == ts)
        by (bit_vector);
}

/// Every timestamp read from five bytes fits in 40 bits.
pub proof fn lemma_ts_value_fits(b: Seq<u8>)
    requires
        b.len() == 5,
    ensures
        spec_ts_value(b) < TIMESTAMP_LIMIT,
{
    let x0 = b[0];
    let x1 = b[1];
    let x2 = b[2];
    let x3 = b[3];
    let x4 = b[4];
    assert((((x0 as u64) | ((x1 as u64) << 8) | ((x2 as u64) << 16) | ((x3 as u64) << 24) | ((
    x4 as u64) << 32)) as u64) < 0x100_0000_0000) by (bit_vector);
}

/// A 40-bit timestamp held in the 5-byte little-endian form that the ranging
/// radio's timestamp registers use.
#[derive(Clone, Copy, Debug)]
pub struct DeviceTimestamp {
    pub bytes: [u8; 5],
}

impl DeviceTimestamp {
    pub fn new(timestamp: u64) -> (r: DeviceTimestamp)
        requires
            timestamp < TIMESTAMP_LIMIT,
        ensures
            r.bytes@ == spec_ts_bytes(timestamp),
    {
        let b0 = (timestamp & 0xff) as u8;
        let b1 = ((timestamp >> 8) & 0xff) as u8;
        let b2 = ((timestamp >> 16) & 0xff) as u8;
        let b3 = ((timestamp >> 24) & 0xff) as u8;
        let b4 = ((timestamp >> 32) & 0xff) as u8;
        let r = DeviceTimestamp { bytes: [b0, b1, b2, b3, b4] };
        proof {
            assert(r.bytes@ =~= spec_ts_bytes(timestamp));
        }
        r
    }

    pub fn value(&self) -> (r: u64)
        ensures
            r == spec_ts_value(self.bytes@),
            r < TIMESTAMP_LIMIT,
    {
        let r = (self.bytes[0] as u64) | ((self.bytes[1] as u64) << 8) | ((self.bytes[2]
            as u64) << 16) | ((self.bytes[3] as u64) << 24) | ((self.bytes[4] as u64) << 32);
        proof {
            lemma_ts_value_fits(self.bytes@);
        }
        r
    }
}

impl PartialEq for DeviceTimestamp {
    fn eq(&self, other: &DeviceTimestamp) -> (r: bool) {
        self.bytes[0] == other.bytes[0] && self.bytes[1] == other.bytes[1] && self.bytes[2]
            == other.bytes[2] && self.bytes[3] == other.bytes[3] && self.bytes[4] == other.bytes[4]
    }
}

impl vstd::std_specs::cmp::PartialEqSpecImpl for DeviceTimestamp {
    open spec fn obeys_eq_spec() -> bool {
        true
    }

    open spec fn eq_spec(&self, other: &DeviceTimestamp) -> bool {
        self.bytes@ =~= other.bytes@
    }
}

/// The header byte: the type nibble below the reserved nibble.
pub open spec fn spec_header_byte(packet_type: PacketType, resv: u8) -> u8 {
    packet_type.spec_bits() | (resv << 4)
}

/// Packing a type and a reserved nibble into a header byte and pulling the
/// two nibbles back out returns them unchanged.
pub proof fn lemma_header_byte_round_trip(packet_type: PacketType, resv: u8)
    requires
        resv < 16,
    ensures
        PacketType::spec_from_bits(spec_header_byte(packet_type, resv) & 0xf) == packet_type,
        spec_header_byte(packet_type, resv) >> 4 == resv,
{
    let t = packet_type.spec_bits();
    assert((t < 16 && resv < 16) ==> ((t | (resv << 4)) & 0xf) == t && ((t | (resv << 4)) >> 4)
        == resv) by (bit_vector);
}

/// The shared frame header: the 4-bit type and the 4-bit reserved field.
#[derive(Clone, Copy, PartialEq, Eq, Structural, Debug)]
pub struct PacketHeader {
    pub packet_type: PacketType,
    pub resv: u8,
}

/// The header read from a header byte.
pub open spec fn spec_header_from_byte(b: u8) -> PacketHeader {
    PacketHeader { packet_type: PacketType::spec_from_bits(b & 0xf), resv: b >> 4 }
}

impl PacketHeader {
    pub open spec fn wf(self) -> bool {
        self.resv < 16
    }

    pub fn new(packet_type: PacketType, resv: u8) -> (r: PacketHeader)
        requires
            resv < 16,
        ensures
            r == (PacketHeader { packet_type, resv }),
    {
        PacketHeader { packet_type, resv }
    }

    pub fn to_byte(&self) -> (r: u8)
        requires
            self.wf(),
        ensures
            r == spec_header_byte(self.packet_type, self.resv),
    {
        self.packet_type.to_bits() | (self.resv << 4)
    }

    pub fn from_byte(b: u8) -> (r: PacketHeader)
        ensures
            r == spec_header_from_byte(b),
            r.wf(),
    {
        let r = PacketHeader { packet_type: PacketType::from_bits(b & 0xf), resv: b >> 4 };
        proof {
            assert(b >> 4 < 16) by (bit_vector);
        }
        r
    }
}

/// The 48-bit Poll frame: header byte, then the anchor's 40-bit Poll
/// transmit timestamp, little-endian.
#[derive(Clone, Copy, PartialEq, Eq, Structural, Debug)]
pub struct PollPacket {
    pub packet_type: PacketType,
    pub resv: u8,
    pub tx_timestamp: u64,
}

/// The six wire bytes of a Poll frame.
pub open spec fn spec_poll_bytes(p: PollPacket) -> Seq<u8> {
    seq![spec_header_byte(p.packet_type, p.resv)] + spec_ts_bytes(p.tx_timestamp)
}

/// The Poll frame read from six wire bytes.
pub open spec fn spec_poll_decode(b: Seq<u8>) -> PollPacket
    recommends
        b.len() == 6,
{
    PollPacket {
        packet_type: PacketType::spec_from_bits(b[0] & 0xf),
        resv: b[0] >> 4,
        tx_timestamp: spec_ts_value(b.subrange(1, 6)),
    }
}

impl PollPacket {
    pub open spec fn wf(self) -> bool {
        self.resv < 16 && self.tx_timestamp < TIMESTAMP_LIMIT
    }

    pub fn new(packet_type: PacketType, resv: u8, tx_timestamp: u64) -> (r: PollPacket)
        requires
            resv < 16,
            tx_timestamp < TIMESTAMP_LIMIT,
        ensures
            r == (PollPacket { packet_type, resv, tx_timestamp }),
            r.wf(),
    {
        PollPacket { packet_type, resv, tx_timestamp }
    }

    pub fn encode(&self) -> (r: Vec<u8>)
        requires
            self.wf(),
        ensures
            r@ == spec_poll_bytes(*self),
            r@.len() == 6,
    {
        let mut out: Vec<u8> = Vec::new();
        out.push(self.packet_type.to_bits() | (self.resv << 4));
        let dt = DeviceTimestamp::new(self.tx_timestamp);
        out.push(dt.bytes[0]);
        out.push(dt.bytes[1]);
        out.push(dt.bytes[2]);
        out.push(dt.bytes[3]);
        out.push(dt.bytes[4]);
        proof {
            assert(out@ =~= spec_poll_bytes(*self));
        }
        out
    }

    pub fn decode(bytes: &[u8]) -> (r: Result<PollPacket, DecodeError>)
        ensures
            bytes@.len() == 6 ==> r == Ok::<PollPacket, DecodeError>(spec_poll_decode(bytes@))
                && spec_poll_decode(bytes@).wf(),
            bytes@.len() != 6 ==> r == Err::<PollPacket, DecodeError>(DecodeError::BadLength),
    {
        if bytes.len() != 6 {
            return Err(DecodeError::BadLength);
        }
        let b0 = bytes[0];
        let dt = DeviceTimestamp {
            bytes: [bytes[1], bytes[2], bytes[3], bytes[4], bytes[5]],
        };
        proof {
            assert(dt.bytes@ =~= bytes@.subrange(1, 6));
            assert(b0 >> 4 < 16) by (bit_vector);
        }
        let p = PollPacket {
            packet_type: PacketType::from_bits(b0 & 0xf),
            resv: b0 >> 4,
            tx_timestamp: dt.value(),
        };
        Ok(p)
    }
}

/// Reading back the six wire bytes of any well-formed Poll frame returns
/// the frame unchanged.
pub proof fn lemma_poll_round_trip(p: PollPacket)
    requires
        p.wf(),
    ensures
        spec_poll_decode(spec_poll_bytes(p)) == p,
{
    lemma_header_byte_round_trip(p.packet_type, p.resv);
    assert(spec_poll_bytes(p).subrange(1, 6) =~= spec_ts_bytes(p.tx_timestamp));
    lemma_ts_round_trip(p.tx_timestamp);
}

/// The 8-bit Response frame: the header byte alone.
#[derive(Clone, Copy, PartialEq, Eq, Structural, Debug)]
pub struct ResponsePacket {
    pub packet_type: PacketType,
    pub resv: u8,
}

/// The wire byte of a Response frame.
pub open spec fn spec_response_byte(p: ResponsePacket) -> u8 {
    spec_header_byte(p.packet_type, p.resv)
}

/// The Response frame read from its wire byte.
pub open spec fn spec_response_from_byte(b: u8) -> ResponsePacket {
    ResponsePacket { packet_type: PacketType::spec_from_bits(b & 0xf), resv: b >> 4 }
}

impl ResponsePacket {
    pub open spec fn wf(self) -> bool {
        self.resv < 16
    }

    pub fn new(packet_type: PacketType, resv: u8) -> (r: ResponsePacket)
        requires
            resv < 16,
        ensures
            r == (ResponsePacket { packet_type, resv }),
            r.wf(),
    {
        ResponsePacket { packet_type, resv }
    }

    pub fn to_byte(&self) -> (r: u8)
        requires
            self.wf(),
        ensures
            r == spec_response_byte(*self),
    {
        self.packet_type.to_bits() | (self.resv << 4)
    }

    pub fn from_byte(b: u8) -> (r: ResponsePacket)
        ensures
            r == spec_response_from_byte(b),
            r.wf(),
    {
        proof {
            assert(b >> 4 < 16) by (bit_vector);
        }
        ResponsePacket { packet_type: PacketType::from_bits(b & 0xf), resv: b >> 4 }
    }

    pub fn encode(&self) -> (r: Vec<u8>)
        requires
            self.wf(),
        ensures
            r@ == seq![spec_response_byte(*self)],
    {
        let mut out: Vec<u8> = Vec::new();
        out.push(self.to_byte());
        proof {
            assert(out@ =~= seq![spec_response_byte(*self)]);
        }
        out
    }

    pub fn decode(bytes: &[u8]) -> (r: Result<ResponsePacket, DecodeError>)
        ensures
            bytes@.len() == 1 ==> r == Ok::<ResponsePacket, DecodeError>(
                spec_response_from_byte(bytes@[0]),
            ),
            bytes@.len() != 1 ==> r == Err::<ResponsePacket, DecodeError>(DecodeError::BadLength),
    {
        if bytes.len() != 1 {
            return Err(DecodeError::BadLength);
        }
        Ok(Self::from_byte(bytes[0]))
    }
}

/// Reading back the wire byte of any well-formed Response frame returns the
/// frame unchanged.
pub proof fn lemma_response_round_trip(p: ResponsePacket)
    requires
        p.wf(),
    ensures
        spec_response_from_byte(spec_response_byte(p)) == p,
{
    lemma_header_byte_round_trip(p.packet_type, p.resv);
}

/// The 21-byte Final frame: header byte, three per-tag 40-bit Response
/// receive timestamps, then the anchor's 40-bit Final transmit timestamp.
#[derive(Clone, Copy, Debug)]
pub struct FinalPacket {
    pub header_byte: u8,
    pub rx_timestamps: [DeviceTimestamp; 3],
    pub tx_timestamp: DeviceTimestamp,
}

/// The 21 wire bytes of a Final frame.
pub open spec fn spec_final_bytes(p: FinalPacket) -> Seq<u8> {
    seq![p.header_byte] + p.rx_timestamps[0].bytes@ + p.rx_timestamps[1].bytes@
        + p.rx_timestamps[2].bytes@ + p.tx_timestamp.bytes@
}

impl FinalPacket {
    pub fn new(packet_type: PacketType, resv: u8, rx_timestamps: [u64; 3], tx_timestamp: u64) -> (r:
        FinalPacket)
        requires
            resv < 16,
            forall|i: int| 0 <= i < 3 ==> rx_timestamps[i] < TIMESTAMP_LIMIT,
            tx_timestamp < TIMESTAMP_LIMIT,
        ensures
            r.header_byte == spec_header_byte(packet_type, resv),
            forall|i: int| 0 <= i < 3 ==> r.rx_timestamps[i].bytes@ == spec_ts_bytes(
                rx_timestamps[i],
            ),
            r.tx_timestamp.bytes@ == spec_ts_bytes(tx_timestamp),
    {
        FinalPacket {
            header_byte: PacketHeader::new(packet_type, resv).to_byte(),
            rx_timestamps: [
                DeviceTimestamp::new(rx_timestamps[0]),
                DeviceTimestamp::new(rx_timestamps[1]),
                DeviceTimestamp::new(rx_timestamps[2]),
            ],
            tx_timestamp: DeviceTimestamp::new(tx_timestamp),
        }
    }

    /// The shared header, read from the first byte without touching the
    /// timestamp bytes.
    pub fn header(&self) -> (r: PacketHeader)
        ensures
            r == spec_header_from_byte(self.header_byte),
            r.wf(),
    {
        PacketHeader::from_byte(self.header_byte)
    }

    pub fn encode(&self) -> (r: Vec<u8>)
        ensures
            r@ == spec_final_bytes(*self),
            r@.len() == 21,
    {
        let mut out: Vec<u8> = Vec::new();
        out.push(self.header_byte);
        push_ts(&mut out, &self.rx_timestamps[0]);
        push_ts(&mut out, &self.rx_timestamps[1]);
        push_ts(&mut out, &self.rx_timestamps[2]);
        push_ts(&mut out, &self.tx_timestamp);
        proof {
            assert(out@ =~= spec_final_bytes(*self));
        }
        out
    }

    pub fn decode(bytes: &[u8]) -> (r: Result<FinalPacket, DecodeError>)
        ensures
            bytes@.len() == 21 ==> r is Ok && spec_final_bytes(r.unwrap()) == bytes@,
            bytes@.len() != 21 ==> r == Err::<FinalPacket, DecodeError>(DecodeError::BadLength),
    {
        if bytes.len() != 21 {
            return Err(DecodeError::BadLength);
        }
        let p = FinalPacket {
            header_byte: bytes[0],
            rx_timestamps: [
                DeviceTimestamp { bytes: [bytes[1], bytes[2], bytes[3], bytes[4], bytes[5]] },
                DeviceTimestamp { bytes: [bytes[6], bytes[7], bytes[8], bytes[9], bytes[10]] },
                DeviceTimestamp { bytes: [bytes[11], bytes[12], bytes[13], bytes[14], bytes[15]] },
            ],
            tx_timestamp: DeviceTimestamp {
                bytes: [bytes[16], bytes[17], bytes[18], bytes[19], bytes[20]],
            },
        };
        proof {
            assert(spec_final_bytes(p) =~= bytes@);
        }
        Ok(p)
    }
}

/// Appends the five bytes of one timestamp field.
fn push_ts(out: &mut Vec<u8>, dt: &DeviceTimestamp)
    ensures
        final(out)@ == old(out)@ + dt.bytes@,
{
    out.push(dt.bytes[0]);
    out.push(dt.bytes[1]);
    out.push(dt.bytes[2]);
    out.push(dt.bytes[3]);
    out.push(dt.bytes[4]);
    proof {
        assert(final(out)@ =~= old(out)@ + dt.bytes@);
    }
}

/// The 21 wire bytes determine the Final frame: two frames with the same
/// encoding are the same frame, so reading an encoding back always returns
/// the frame that was written.
pub proof fn lemma_final_round_trip(p: FinalPacket, q: FinalPacket)
    requires
        spec_final_bytes(q) == spec_final_bytes(p),
    ensures
        q == p,
{
    let bp = spec_final_bytes(p);
    assert(p.header_byte == bp[0]);
    assert(q.header_byte == spec_final_bytes(q)[0]);
    assert(p.rx_timestamps[0].bytes@ =~= bp.subrange(1, 6));
    assert(p.rx_timestamps[1].bytes@ =~= bp.subrange(6, 11));
    assert(p.rx_timestamps[2].bytes@ =~= bp.subrange(11, 16));
    assert(p.tx_timestamp.bytes@ =~= bp.subrange(16, 21));
    assert(q.rx_timestamps[0].bytes@ =~= bp.subrange(1, 6));
    assert(q.rx_timestamps[1].bytes@ =~= bp.subrange(6, 11));
    assert(q.rx_timestamps[2].bytes@ =~= bp.subrange(11, 16));
    assert(q.tx_timestamp.bytes@ =~= bp.subrange(16, 21));
    assert(q.rx_timestamps[0].bytes =~= p.rx_timestamps[0].bytes);
    assert(q.rx_timestamps[1].bytes =~= p.rx_timestamps[1].bytes);
    assert(q.rx_timestamps[2].bytes =~= p.rx_timestamps[2].bytes);
    assert(q.tx_timestamp.bytes =~= p.tx_timestamp.bytes);
    assert(q.rx_timestamps =~= p.rx_timestamps);
}

impl PartialEq for FinalPacket {
    fn eq(&self, other: &FinalPacket) -> (r: bool) {
        self.header_byte == other.header_byte && self.rx_timestamps[0] == other.rx_timestamps[0]
            && self.rx_timestamps[1] == other.rx_timestamps[1] && self.rx_timestamps[2]
            == other.rx_timestamps[2] && self.tx_timestamp == other.tx_timestamp
    }
}

impl vstd::std_specs::cmp::PartialEqSpecImpl for FinalPacket {
    open spec fn obeys_eq_spec() -> bool {
        true
    }

    open spec fn eq_spec(&self, other: &FinalPacket) -> bool {
        self.header_byte == other.header_byte && self.rx_timestamps[0].bytes@
            =~= other.rx_timestamps[0].bytes@ && self.rx_timestamps[1].bytes@
            =~= other.rx_timestamps[1].bytes@ && self.rx_timestamps[2].bytes@
            =~= other.rx_timestamps[2].bytes@ && self.tx_timestamp.bytes@
            =~= other.tx_timestamp.bytes@
    }
}

} // verus!
