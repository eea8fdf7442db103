//! The packet envelope: magic byte, checksum, type tag and body.

use crate::bytes::{append_bytes, high_byte, join_bytes, lemma_split_join, low_byte};
use crate::checksum::{calc_checksum, checksum_of, lemma_corruption_changes_checksum, window_len};
use crate::error::CherryRgbError;
use crate::hexcode::{encode_hex, hex_text};
use crate::payload::{
    lemma_payload_round_trip,
    parse_payload,
    Payload,
    PayloadReadWrite,
    PayloadType,
    PayloadView,
    ToVec,
};
use vstd::prelude::*;
use vstd::slice::slice_subrange;

verus! {

/// The first byte of every packet.
pub const MAGIC: u8 = 0x04;

/// Bytes of a packet before its body: magic, checksum (two bytes), type tag.
pub const PACKET_HEADER_LEN: usize = 4;

/// Size of the USB report that carries one packet.
pub const REPORT_LEN: usize = 64;

/// Why bytes could not be read as a packet.
#[derive(Clone, Copy, Debug, PartialEq, Eq, Structural)]
pub enum DecodeError {
    /// The bytes end before the packet header does.
    UnexpectedEnd,
    /// The first byte is not the magic byte.
    BadMagic { found: u8 },
    /// The body cannot be read under the type tag.
    BadPayload,
}

/// One packet: a payload with the checksum that came or goes with it.
#[derive(Clone, Debug)]
pub struct Packet<T: PayloadReadWrite> {
    checksum: u16,
    inner: T,
}

/// The bytes of a packet with the given checksum, type tag and body.
pub open spec fn packet_bytes(checksum: u16, tag: u8, body: Seq<u8>) -> Seq<u8> {
    seq![MAGIC, low_byte(checksum), high_byte(checksum), tag] + body
}

/// Whether `bytes` start with a whole packet header.
pub open spec fn holds_header(bytes: Seq<u8>) -> bool {
    bytes.len() >= 4 && bytes[0] == MAGIC
}

/// The error that refuses `bytes` for their header, if the header is at
/// fault: the magic byte is looked at first.
pub open spec fn header_fault(bytes: Seq<u8>) -> Option<DecodeError> {
    if bytes.len() == 0 {
        Some(DecodeError::UnexpectedEnd)
    } else if bytes[0] != MAGIC {
        Some(DecodeError::BadMagic { found: bytes[0] })
    } else if bytes.len() < 4 {
        Some(DecodeError::UnexpectedEnd)
    } else {
        None
    }
}

/// The report that carries `bytes`: exactly 64 bytes, cut or filled with
/// zeros at the end.
pub open spec fn report_of(bytes: Seq<u8>) -> Seq<u8> {
    Seq::new(
        64,
        |i: int|
            if i < bytes.len() {
                bytes[i]
            } else {
                0u8
            },
    )
}

impl<T: PayloadReadWrite> Packet<T> {
    /// The checksum that the packet holds.
    pub closed spec fn stored_checksum(&self) -> u16 {
        self.checksum
    }

    /// The payload that the packet holds.
    pub closed spec fn inner(&self) -> T {
        self.inner
    }

    /// The checksum that the payload's type tag and bytes give.
    pub open spec fn computed_checksum(&self) -> int {
        checksum_of(self.inner().tag(), self.inner().wire())
    }

    /// Whether the stored checksum is the one that the payload gives.
    pub open spec fn valid(&self) -> bool {
        self.stored_checksum() as int == self.computed_checksum()
    }

    /// Wrap a payload, with the checksum that it gives.
    pub fn new(inner: T) -> (packet: Self)
        ensures
            packet.inner() == inner,
            packet.valid(),
    {
        let body = inner.to_vec();
        let checksum = calc_checksum(inner.payload_type(), body.as_slice());
        Packet { checksum, inner }
    }

    pub fn checksum(&self) -> (checksum: u16)
        ensures
            checksum == self.stored_checksum(),
    {
        self.checksum
    }

    pub fn payload(&self) -> (payload: &T)
        ensures
            *payload == self.inner(),
    {
        &self.inner
    }

    /// Verify the stored checksum against the payload. A mismatch is
    /// reported with both values and the payload's bytes in hexadecimal.
    pub fn verify_checksum(&self) -> (r: Result<(), CherryRgbError>)
        ensures
            self.valid() <==> r is Ok,
            !self.valid() ==> (r matches Err(
                CherryRgbError::ChecksumError { calculated, expected, data },
            ) && expected == self.stored_checksum() && calculated as int
                == self.computed_checksum() && data@ == hex_text(self.inner().wire())),
    {
        let payload = self.inner.to_vec();
        let calculated = calc_checksum(self.inner.payload_type(), payload.as_slice());
        if calculated == self.checksum {
            Ok(())
        } else {
            Err(
                CherryRgbError::ChecksumError {
                    expected: self.checksum,
                    calculated,
                    data: encode_hex(payload.as_slice()),
                },
            )
        }
    }

    /// Read a packet from `bytes`: the magic byte, the checksum in
    /// little-endian order, the type tag, and the payload from all bytes
    /// after the tag. The checksum is stored as read, not verified.
    pub fn from_bytes(bytes: &[u8]) -> (r: Result<Self, DecodeError>)
        ensures
            match r {
                Ok(packet) => {
                    &&& holds_header(bytes@)
                    &&& packet.stored_checksum() == join_bytes(bytes@[1], bytes@[2])
                    &&& T::reads_as(bytes@[3], bytes@.skip(4), Some(packet.inner()))
                },
                Err(DecodeError::BadPayload) => {
                    &&& holds_header(bytes@)
                    &&& T::reads_as(bytes@[3], bytes@.skip(4), None)
                },
                Err(fault) => header_fault(bytes@) == Some(fault),
            },
    {
        if bytes.len() == 0 {
            return Err(DecodeError::UnexpectedEnd);
        }
        if bytes[0] != MAGIC {
            return Err(DecodeError::BadMagic { found: bytes[0] });
        }
        if bytes.len() < PACKET_HEADER_LEN {
            return Err(DecodeError::UnexpectedEnd);
        }
        let checksum: u16 = bytes[1] as u16 + 256 * (bytes[2] as u16);
        let body = slice_subrange(bytes, PACKET_HEADER_LEN, bytes.len());
        assert(body@ =~= bytes@.skip(4));
        match T::read(bytes[3], body) {
            Some(inner) => Ok(Packet { checksum, inner }),
            None => Err(DecodeError::BadPayload),
        }
    }

    /// The packet as one USB report: its bytes, cut or filled with zeros to
    /// 64 bytes.
    pub fn to_report(&self) -> (report: Vec<u8>)
        ensures
            report@ == report_of(self.wire()),
    {
        let bytes = self.to_vec();
        pad_report(bytes.as_slice())
    }
}

impl<T: PayloadReadWrite> ToVec for Packet<T> {
    open spec fn wire(&self) -> Seq<u8> {
        packet_bytes(self.stored_checksum(), self.inner().tag(), self.inner().wire())
    }

    fn to_vec(&self) -> (bytes: Vec<u8>) {
        let body = self.inner.to_vec();
        frame(self.checksum, self.inner.payload_type(), body.as_slice())
    }
}

/// Write a packet: magic byte, checksum in little-endian order, type tag,
/// body.
pub fn frame(checksum: u16, tag: u8, body: &[u8]) -> (bytes: Vec<u8>)
    ensures
        bytes@ == packet_bytes(checksum, tag, body@),
{
    let mut bytes: Vec<u8> = Vec::new();
    bytes.push(MAGIC);
    bytes.push((checksum % 256) as u8);
    bytes.push((checksum / 256) as u8);
    bytes.push(tag);
    append_bytes(&mut bytes, body);
    assert(bytes@ =~= packet_bytes(checksum, tag, body@));
    bytes
}

/// Cut `bytes` to 64 bytes, or fill them up to 64 with zeros.
pub fn pad_report(bytes: &[u8]) -> (report: Vec<u8>)
    ensures
        report@ == report_of(bytes@),
{
    let mut report: Vec<u8> = Vec::new();
    let mut i: usize = 0;
    while i < REPORT_LEN
        invariant
            i <= REPORT_LEN,
            report@.len() == i,
            forall|k: int| 0 <= k < i ==> report@[k] == report_of(bytes@)[k],
        decreases REPORT_LEN - i,
    {
        if i < bytes.len() {
            report.push(bytes[i]);
        } else {
            report.push(0);
        }
        i += 1;
    }
    assert(report@ =~= report_of(bytes@));
    report
}

/// The checksum and payload that `bytes` hold as a packet of this protocol,
/// `None` where the header is at fault.
pub open spec fn parse_packet(bytes: Seq<u8>) -> Option<(u16, PayloadView)> {
    if holds_header(bytes) {
        Some((join_bytes(bytes[1], bytes[2]), parse_payload(bytes[3], bytes.skip(4))))
    } else {
        None
    }
}

/// Read the packet that a received frame holds, if it holds one. The
/// checksum is stored as read, not verified.
pub fn parse_response(frame: &[u8]) -> (packet: Option<Packet<Payload>>)
    ensures
        match packet {
            Some(p) => parse_packet(frame@) == Some((p.stored_checksum(), p.inner()@)),
            None => parse_packet(frame@) is None,
        },
{
    match Packet::<Payload>::from_bytes(frame) {
        Ok(packet) => Some(packet),
        Err(_) => None,
    }
}

/// A packet with a consistent payload is read back from its own bytes, with
/// the checksum it was written with. For a payload of known type this holds
/// whatever bytes follow the packet's own.
pub proof fn lemma_packet_round_trip(checksum: u16, payload: PayloadView, rest: Seq<u8>)
    requires
        payload.consistent(),
        payload is Unhandled ==> rest.len() == 0,
    ensures
        parse_packet(packet_bytes(checksum, payload.tag(), payload.body()) + rest) == Some(
            (checksum, payload),
        ),
{
    let bytes = packet_bytes(checksum, payload.tag(), payload.body()) + rest;
    lemma_split_join(checksum, 0, 0);
    assert(bytes.skip(4) =~= payload.body() + rest);
    lemma_payload_round_trip(payload, rest);
}

/// A packet that fits one report and holds a consistent payload of known
/// type is read back from the report.
pub proof fn lemma_report_round_trip(checksum: u16, payload: PayloadView)
    requires
        payload.consistent(),
        !(payload is Unhandled),
        payload.body().len() + 4 <= 64,
    ensures
        parse_packet(report_of(packet_bytes(checksum, payload.tag(), payload.body()))) == Some(
            (checksum, payload),
        ),
{
    let bytes = packet_bytes(checksum, payload.tag(), payload.body());
    let fill = Seq::new((64 - bytes.len()) as nat, |i: int| 0u8);
    assert(report_of(bytes) =~= bytes + fill);
    lemma_packet_round_trip(checksum, payload, fill);
}

/// A packet that differs from a valid one in a single byte of its payload
/// bytes, inside the checksum window, is not valid: verification reports it.
pub proof fn lemma_corrupted_packet_is_invalid<T: PayloadReadWrite>(
    good: Packet<T>,
    bad: Packet<T>,
    index: int,
    byte: u8,
)
    requires
        good.valid(),
        bad.stored_checksum() == good.stored_checksum(),
        bad.inner().tag() == good.inner().tag(),
        0 <= index < window_len(good.inner().tag(), good.inner().wire().len()),
        byte != good.inner().wire()[index],
        bad.inner().wire() == good.inner().wire().update(index, byte),
    ensures
        !bad.valid(),
{
    lemma_corruption_changes_checksum(good.inner().tag(), good.inner().wire(), index, byte);
}

/// A packet whose stored checksum was changed is not valid either.
pub proof fn lemma_corrupted_checksum_is_invalid<T: PayloadReadWrite>(good: Packet<T>, bad: Packet<T>)
    requires
        good.valid(),
        bad.stored_checksum() != good.stored_checksum(),
        bad.inner().tag() == good.inner().tag(),
        bad.inner().wire() == good.inner().wire(),
    ensures
        !bad.valid(),
{
}

} // verus!
