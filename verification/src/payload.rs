//! The payloads of the protocol and their wire format.

use crate::bytes::{append_bytes, copy_range, high_byte, join_bytes, lemma_split_join, low_byte};
use crate::checksum::{TAG_GET_KEYMAP, TAG_GET_KEY_INDEXES};
use crate::color::OwnRGB8;
use crate::models::{Brightness, LightingMode, Speed};
use vstd::prelude::*;

verus! {

pub const TAG_TRANSACTION_START: u8 = 0x01;

pub const TAG_TRANSACTION_END: u8 = 0x02;

pub const TAG_UNKNOWN3: u8 = 0x03;

pub const TAG_UNKNOWN5: u8 = 0x05;

pub const TAG_SET_ANIMATION: u8 = 0x06;

pub const TAG_SET_CUSTOM_LED: u8 = 0x0B;

/// The tag reported for a payload of no known type.
pub const TAG_UNHANDLED: u8 = 0xFF;

/// Length of the header that precedes the data of a chunk: length, offset
/// (two bytes) and padding.
pub const CHUNK_HEADER_LEN: usize = 4;

/// Length of the body of an animation payload.
pub const ANIMATION_LEN: usize = 13;

/// A value that has a type tag on the wire.
pub trait PayloadType {
    /// The type tag of the value.
    spec fn tag(&self) -> u8;

    fn payload_type(&self) -> (tag: u8)
        ensures
            tag == self.tag(),
    ;
}

/// A value that can be written as bytes.
pub trait ToVec {
    /// The bytes the value is written as.
    spec fn wire(&self) -> Seq<u8>;

    fn to_vec(&self) -> (bytes: Vec<u8>)
        ensures
            bytes@ == self.wire(),
    ;
}

/// A value that a packet can carry: it has a type tag, is written as bytes,
/// and is read from bytes once the tag is known.
pub trait PayloadReadWrite: PayloadType + ToVec + Sized {
    /// Whether reading `bytes` under `tag` gives `payload`; `None` stands for
    /// bytes that cannot be read.
    spec fn reads_as(tag: u8, bytes: Seq<u8>, payload: Option<Self>) -> bool;

    fn read(tag: u8, bytes: &[u8]) -> (payload: Option<Self>)
        ensures
            Self::reads_as(tag, bytes@, payload),
    ;
}

/// A command or response body.
#[derive(Clone, Debug, PartialEq, Eq)]
pub enum Payload {
    TransactionStart,
    TransactionEnd,
    Unknown3 { unk: u8 },
    Unknown5 { unk: u8 },
    GetKeymap { data_len: u8, data_offset: u16, padding: u8, keymap: Vec<u8> },
    SetAnimation {
        unknown: [u8; 5],
        mode: LightingMode,
        brightness: Brightness,
        speed: Speed,
        pad: u8,
        rainbow: u8,
        color: OwnRGB8,
    },
    SetCustomLED { data_offset: u16, padding: u8, key_leds_data: Vec<u8> },
    GetKeyIndexes { data_len: u8, data_offset: u16, padding: u8, key_data: Vec<u8> },
    /// Any payload whose type tag is not known, with its bytes as received.
    Unhandled { data: Vec<u8> },
}

/// The mathematical value of a [`Payload`].
pub enum PayloadView {
    TransactionStart,
    TransactionEnd,
    Unknown3 { unk: u8 },
    Unknown5 { unk: u8 },
    GetKeymap { data_len: u8, data_offset: u16, padding: u8, keymap: Seq<u8> },
    SetAnimation {
        unknown: Seq<u8>,
        mode: LightingMode,
        brightness: Brightness,
        speed: Speed,
        pad: u8,
        rainbow: u8,
        color: OwnRGB8,
    },
    SetCustomLED { data_offset: u16, padding: u8, key_leds_data: Seq<u8> },
    GetKeyIndexes { data_len: u8, data_offset: u16, padding: u8, key_data: Seq<u8> },
    Unhandled { data: Seq<u8> },
}

/// The header of a chunk: data length, offset in little-endian order, padding.
pub open spec fn chunk_header(data_len: u8, data_offset: u16, padding: u8) -> Seq<u8> {
    seq![data_len, low_byte(data_offset), high_byte(data_offset), padding]
}

/// Whether `bytes` hold a chunk header and the data that it announces.
pub open spec fn holds_chunk(bytes: Seq<u8>) -> bool {
    bytes.len() >= 4 && bytes.len() >= 4 + bytes[0]
}

/// Whether `bytes` hold the body of an animation payload.
pub open spec fn holds_animation(bytes: Seq<u8>) -> bool {
    &&& bytes.len() >= 13
    &&& LightingMode::of_byte(bytes[5]) is Some
    &&& Brightness::of_byte(bytes[6]) is Some
    &&& Speed::of_byte(bytes[7]) is Some
}

impl PayloadView {
    /// The type tag that the payload is sent under.
    pub open spec fn tag(self) -> u8 {
        match self {
            PayloadView::TransactionStart => TAG_TRANSACTION_START,
            PayloadView::TransactionEnd => TAG_TRANSACTION_END,
            PayloadView::Unknown3 { .. } => TAG_UNKNOWN3,
            PayloadView::Unknown5 { .. } => TAG_UNKNOWN5,
            PayloadView::GetKeymap { .. } => TAG_GET_KEYMAP,
            PayloadView::SetAnimation { .. } => TAG_SET_ANIMATION,
            PayloadView::SetCustomLED { .. } => TAG_SET_CUSTOM_LED,
            PayloadView::GetKeyIndexes { .. } => TAG_GET_KEY_INDEXES,
            PayloadView::Unhandled { .. } => TAG_UNHANDLED,
        }
    }

    /// The bytes of the payload on the wire. The length byte of a custom LED
    /// chunk is taken from its data.
    pub open spec fn body(self) -> Seq<u8> {
        match self {
            PayloadView::TransactionStart => Seq::empty(),
            PayloadView::TransactionEnd => Seq::empty(),
            PayloadView::Unknown3 { unk } => seq![unk],
            PayloadView::Unknown5 { unk } => seq![unk],
            PayloadView::GetKeymap { data_len, data_offset, padding, keymap } => chunk_header(
                data_len,
                data_offset,
                padding,
            ) + keymap,
            PayloadView::SetAnimation { unknown, mode, brightness, speed, pad, rainbow, color } => {
                unknown + seq![mode.byte(), brightness.byte(), speed.byte(), pad, rainbow]
                    + color.bytes()
            },
            PayloadView::SetCustomLED { data_offset, padding, key_leds_data } => chunk_header(
                (key_leds_data.len() % 256) as u8,
                data_offset,
                padding,
            ) + key_leds_data,
            PayloadView::GetKeyIndexes { data_len, data_offset, padding, key_data } => chunk_header(
                data_len,
                data_offset,
                padding,
            ) + key_data,
            PayloadView::Unhandled { data } => data,
        }
    }

    /// Whether the payload is read back from its own bytes: a length byte
    /// equals the length of the data it announces, custom LED data fits a
    /// length byte, and the animation prefix has five bytes.
    pub open spec fn consistent(self) -> bool {
        match self {
            PayloadView::GetKeymap { data_len, keymap, .. } => keymap.len() == data_len,
            PayloadView::GetKeyIndexes { data_len, key_data, .. } => key_data.len() == data_len,
            PayloadView::SetCustomLED { key_leds_data, .. } => key_leds_data.len() <= 255,
            PayloadView::SetAnimation { unknown, .. } => unknown.len() == 5,
            _ => true,
        }
    }
}

/// The payload that `bytes` hold under the type tag `tag`. Bytes under a tag
/// that is not known, and bytes too short or otherwise unfit for their tag,
/// are an `Unhandled` payload that holds all of them. Bytes after the end of
/// a payload of known type are ignored.
pub open spec fn parse_payload(tag: u8, bytes: Seq<u8>) -> PayloadView {
    if tag == TAG_TRANSACTION_START {
        PayloadView::TransactionStart
    } else if tag == TAG_TRANSACTION_END {
        PayloadView::TransactionEnd
    } else if tag == TAG_UNKNOWN3 && bytes.len() >= 1 {
        PayloadView::Unknown3 { unk: bytes[0] }
    } else if tag == TAG_UNKNOWN5 && bytes.len() >= 1 {
        PayloadView::Unknown5 { unk: bytes[0] }
    } else if tag == TAG_GET_KEYMAP && holds_chunk(bytes) {
        PayloadView::GetKeymap {
            data_len: bytes[0],
            data_offset: join_bytes(bytes[1], bytes[2]),
            padding: bytes[3],
            keymap: bytes.subrange(4, 4 + bytes[0]),
        }
    } else if tag == TAG_SET_ANIMATION && holds_animation(bytes) {
        PayloadView::SetAnimation {
            unknown: bytes.subrange(0, 5),
            mode: LightingMode::of_byte(bytes[5]).unwrap(),
            brightness: Brightness::of_byte(bytes[6]).unwrap(),
            speed: Speed::of_byte(bytes[7]).unwrap(),
            pad: bytes[8],
            rainbow: bytes[9],
            color: OwnRGB8 { r: bytes[10], g: bytes[11], b: bytes[12] },
        }
    } else if tag == TAG_SET_CUSTOM_LED && holds_chunk(bytes) {
        PayloadView::SetCustomLED {
            data_offset: join_bytes(bytes[1], bytes[2]),
            padding: bytes[3],
            key_leds_data: bytes.subrange(4, 4 + bytes[0]),
        }
    } else if tag == TAG_GET_KEY_INDEXES && holds_chunk(bytes) {
        PayloadView::GetKeyIndexes {
            data_len: bytes[0],
            data_offset: join_bytes(bytes[1], bytes[2]),
            padding: bytes[3],
            key_data: bytes.subrange(4, 4 + bytes[0]),
        }
    } else {
        PayloadView::Unhandled { data: bytes }
    }
}

impl View for Payload {
    type V = PayloadView;

    open spec fn view(&self) -> PayloadView {
        match self {
            Payload::TransactionStart => PayloadView::TransactionStart,
            Payload::TransactionEnd => PayloadView::TransactionEnd,
            Payload::Unknown3 { unk } => PayloadView::Unknown3 { unk: *unk },
            Payload::Unknown5 { unk } => PayloadView::Unknown5 { unk: *unk },
            Payload::GetKeymap { data_len, data_offset, padding, keymap } => PayloadView::GetKeymap {
                data_len: *data_len,
                data_offset: *data_offset,
                padding: *padding,
                keymap: keymap@,
            },
            Payload::SetAnimation { unknown, mode, brightness, speed, pad, rainbow, color } => {
                PayloadView::SetAnimation {
                    unknown: unknown@,
                    mode: *mode,
                    brightness: *brightness,
                    speed: *speed,
                    pad: *pad,
                    rainbow: *rainbow,
                    color: *color,
                }
            },
            Payload::SetCustomLED { data_offset, padding, key_leds_data } => {
                PayloadView::SetCustomLED {
                    data_offset: *data_offset,
                    padding: *padding,
                    key_leds_data: key_leds_data@,
                }
            },
            Payload::GetKeyIndexes { data_len, data_offset, padding, key_data } => {
                PayloadView::GetKeyIndexes {
                    data_len: *data_len,
                    data_offset: *data_offset,
                    padding: *padding,
                    key_data: key_data@,
                }
            },
            Payload::Unhandled { data } => PayloadView::Unhandled { data: data@ },
        }
    }
}

impl PayloadType for Payload {
    open spec fn tag(&self) -> u8 {
        self@.tag()
    }

    fn payload_type(&self) -> (tag: u8) {
        match self {
            Payload::TransactionStart => TAG_TRANSACTION_START,
            Payload::TransactionEnd => TAG_TRANSACTION_END,
            Payload::Unknown3 { .. } => TAG_UNKNOWN3,
            Payload::Unknown5 { .. } => TAG_UNKNOWN5,
            Payload::GetKeymap { .. } => TAG_GET_KEYMAP,
            Payload::SetAnimation { .. } => TAG_SET_ANIMATION,
            Payload::SetCustomLED { .. } => TAG_SET_CUSTOM_LED,
            Payload::GetKeyIndexes { .. } => TAG_GET_KEY_INDEXES,
            Payload::Unhandled { .. } => TAG_UNHANDLED,
        }
    }
}

/// Write a chunk header and the chunk's data.
fn write_chunk(data_len: u8, data_offset: u16, padding: u8, data: &Vec<u8>) -> (bytes: Vec<u8>)
    ensures
        bytes@ == chunk_header(data_len, data_offset, padding) + data@,
{
    let mut bytes: Vec<u8> = Vec::new();
    bytes.push(data_len);
    bytes.push((data_offset % 256) as u8);
    bytes.push((data_offset / 256) as u8);
    bytes.push(padding);
    assert(bytes@ =~= chunk_header(data_len, data_offset, padding));
    append_bytes(&mut bytes, data.as_slice());
    bytes
}

impl ToVec for Payload {
    open spec fn wire(&self) -> Seq<u8> {
        self@.body()
    }

    fn to_vec(&self) -> (bytes: Vec<u8>) {
        match self {
            Payload::TransactionStart => Vec::new(),
            Payload::TransactionEnd => Vec::new(),
            Payload::Unknown3 { unk } => {
                let mut bytes: Vec<u8> = Vec::new();
                bytes.push(*unk);
                assert(bytes@ =~= seq![*unk]);
                bytes
            },
            Payload::Unknown5 { unk } => {
                let mut bytes: Vec<u8> = Vec::new();
                bytes.push(*unk);
                assert(bytes@ =~= seq![*unk]);
                bytes
            },
            Payload::GetKeymap { data_len, data_offset, padding, keymap } => write_chunk(
                *data_len,
                *data_offset,
                *padding,
                keymap,
            ),
            Payload::SetAnimation { unknown, mode, brightness, speed, pad, rainbow, color } => {
                let mut bytes: Vec<u8> = Vec::new();
                append_bytes(&mut bytes, unknown.as_slice());
                bytes.push(mode.to_byte());
                bytes.push(brightness.to_byte());
                bytes.push(speed.to_byte());
                bytes.push(*pad);
                bytes.push(*rainbow);
                bytes.push(color.r);
                bytes.push(color.g);
                bytes.push(color.b);
                assert(bytes@ =~= self@.body());
                bytes
            },
            Payload::SetCustomLED { data_offset, padding, key_leds_data } => write_chunk(
                (key_leds_data.len() % 256) as u8,
                *data_offset,
                *padding,
                key_leds_data,
            ),
            Payload::GetKeyIndexes { data_len, data_offset, padding, key_data } => write_chunk(
                *data_len,
                *data_offset,
                *padding,
                key_data,
            ),
            Payload::Unhandled { data } => {
                let mut bytes: Vec<u8> = Vec::new();
                append_bytes(&mut bytes, data.as_slice());
                assert(bytes@ =~= data@);
                bytes
            },
        }
    }
}

/// The data of the chunk that `bytes` hold, if they hold one.
fn read_chunk(bytes: &[u8]) -> (data: Option<Vec<u8>>)
    ensures
        data is Some <==> holds_chunk(bytes@),
        data matches Some(d) ==> d@ == bytes@.subrange(4, 4 + bytes@[0]),
{
    if bytes.len() < CHUNK_HEADER_LEN {
        return None;
    }
    let data_len: usize = bytes[0] as usize;
    if bytes.len() - CHUNK_HEADER_LEN < data_len {
        return None;
    }
    Some(copy_range(bytes, CHUNK_HEADER_LEN, CHUNK_HEADER_LEN + data_len))
}

/// The animation payload that `bytes` hold, if they hold one.
fn read_animation(bytes: &[u8]) -> (payload: Option<Payload>)
    ensures
        payload is Some <==> holds_animation(bytes@),
        payload matches Some(p) ==> p@ == parse_payload(TAG_SET_ANIMATION, bytes@),
{
    if bytes.len() < ANIMATION_LEN {
        return None;
    }
    let mode = LightingMode::from_byte(bytes[5]);
    let brightness = Brightness::from_byte(bytes[6]);
    let speed = Speed::from_byte(bytes[7]);
    match (mode, brightness, speed) {
        (Some(mode), Some(brightness), Some(speed)) => {
            let unknown: [u8; 5] = [bytes[0], bytes[1], bytes[2], bytes[3], bytes[4]];
            assert(unknown@ =~= bytes@.subrange(0, 5));
            Some(
                Payload::SetAnimation {
                    unknown,
                    mode,
                    brightness,
                    speed,
                    pad: bytes[8],
                    rainbow: bytes[9],
                    color: OwnRGB8 { r: bytes[10], g: bytes[11], b: bytes[12] },
                },
            )
        },
        _ => None,
    }
}

/// The payload that `bytes` hold under `tag`, if it is of a known type and
/// the bytes fit it.
fn read_known(tag: u8, bytes: &[u8]) -> (payload: Option<Payload>)
    ensures
        payload is Some <==> !(parse_payload(tag, bytes@) is Unhandled),
        payload matches Some(p) ==> p@ == parse_payload(tag, bytes@),
{
    if tag == TAG_TRANSACTION_START {
        Some(Payload::TransactionStart)
    } else if tag == TAG_TRANSACTION_END {
        Some(Payload::TransactionEnd)
    } else if tag == TAG_UNKNOWN3 {
        if bytes.len() >= 1 {
            Some(Payload::Unknown3 { unk: bytes[0] })
        } else {
            None
        }
    } else if tag == TAG_UNKNOWN5 {
        if bytes.len() >= 1 {
            Some(Payload::Unknown5 { unk: bytes[0] })
        } else {
            None
        }
    } else if tag == TAG_GET_KEYMAP {
        match read_chunk(bytes) {
            Some(keymap) => Some(
                Payload::GetKeymap {
                    data_len: bytes[0],
                    data_offset: bytes[1] as u16 + 256 * (bytes[2] as u16),
                    padding: bytes[3],
                    keymap,
                },
            ),
            None => None,
        }
    } else if tag == TAG_SET_ANIMATION {
        read_animation(bytes)
    } else if tag == TAG_SET_CUSTOM_LED {
        match read_chunk(bytes) {
            Some(key_leds_data) => Some(
                Payload::SetCustomLED {
                    data_offset: bytes[1] as u16 + 256 * (bytes[2] as u16),
                    padding: bytes[3],
                    key_leds_data,
                },
            ),
            None => None,
        }
    } else if tag == TAG_GET_KEY_INDEXES {
        match read_chunk(bytes) {
            Some(key_data) => Some(
                Payload::GetKeyIndexes {
                    data_len: bytes[0],
                    data_offset: bytes[1] as u16 + 256 * (bytes[2] as u16),
                    padding: bytes[3],
                    key_data,
                },
            ),
            None => None,
        }
    } else {
        None
    }
}

impl Payload {
    /// Read the payload that `bytes` hold under `tag`. Every input gives a
    /// payload: what fits no known type is kept as `Unhandled`.
    pub fn decode(tag: u8, bytes: &[u8]) -> (payload: Payload)
        ensures
            payload@ == parse_payload(tag, bytes@),
    {
        match read_known(tag, bytes) {
            Some(payload) => payload,
            None => {
                let data = copy_range(bytes, 0, bytes.len());
                assert(data@ =~= bytes@);
                Payload::Unhandled { data }
            },
        }
    }
}

impl PayloadReadWrite for Payload {
    open spec fn reads_as(tag: u8, bytes: Seq<u8>, payload: Option<Self>) -> bool {
        payload matches Some(p) && p@ == parse_payload(tag, bytes)
    }

    fn read(tag: u8, bytes: &[u8]) -> (payload: Option<Self>) {
        Some(Payload::decode(tag, bytes))
    }
}

/// A consistent payload is read back from the bytes it is written as. For a
/// payload of known type this holds whatever bytes follow its own.
pub proof fn lemma_payload_round_trip(payload: PayloadView, rest: Seq<u8>)
    requires
        payload.consistent(),
        payload is Unhandled ==> rest.len() == 0,
    ensures
        parse_payload(payload.tag(), payload.body() + rest) == payload,
{
    let bytes = payload.body() + rest;
    match payload {
        PayloadView::GetKeymap { data_len, data_offset, padding, keymap } => {
            lemma_split_join(data_offset, 0, 0);
            assert(bytes.subrange(4, 4 + bytes[0]) =~= keymap);
        },
        PayloadView::GetKeyIndexes { data_len, data_offset, padding, key_data } => {
            lemma_split_join(data_offset, 0, 0);
            assert(bytes.subrange(4, 4 + bytes[0]) =~= key_data);
        },
        PayloadView::SetCustomLED { data_offset, padding, key_leds_data } => {
            lemma_split_join(data_offset, 0, 0);
            assert(bytes.subrange(4, 4 + bytes[0]) =~= key_leds_data);
        },
        PayloadView::SetAnimation { unknown, mode, brightness, speed, pad, rainbow, color } => {
            LightingMode::lemma_byte_round_trip(mode, 0);
            Brightness::lemma_byte_round_trip(brightness, 0);
            Speed::lemma_byte_round_trip(speed, 0);
            assert(bytes.subrange(0, 5) =~= unknown);
        },
        PayloadView::Unhandled { data } => {
            assert(bytes =~= data);
        },
        _ => {},
    }
}

/// What is read from any bytes is consistent, and unless it is `Unhandled`
/// its own bytes are the leading bytes that it was read from; an `Unhandled`
/// payload holds all of them.
pub proof fn lemma_parse_keeps_bytes(tag: u8, bytes: Seq<u8>)
    ensures
        parse_payload(tag, bytes).consistent(),
        parse_payload(tag, bytes).body().is_prefix_of(bytes),
        parse_payload(tag, bytes) is Unhandled ==> parse_payload(tag, bytes).body() == bytes,
        !(parse_payload(tag, bytes) is Unhandled) ==> parse_payload(tag, bytes).tag() == tag,
{
    let payload = parse_payload(tag, bytes);
    match payload {
        PayloadView::GetKeymap { data_len, data_offset, padding, keymap } => {
            lemma_split_join(0, bytes[1], bytes[2]);
            assert(payload.body() =~= bytes.subrange(0, 4 + bytes[0]));
        },
        PayloadView::GetKeyIndexes { data_len, data_offset, padding, key_data } => {
            lemma_split_join(0, bytes[1], bytes[2]);
            assert(payload.body() =~= bytes.subrange(0, 4 + bytes[0]));
        },
        PayloadView::SetCustomLED { data_offset, padding, key_leds_data } => {
            lemma_split_join(0, bytes[1], bytes[2]);
            assert(payload.body() =~= bytes.subrange(0, 4 + bytes[0]));
        },
        PayloadView::SetAnimation { unknown, mode, brightness, speed, pad, rainbow, color } => {
            LightingMode::lemma_byte_round_trip(mode, bytes[5]);
            Brightness::lemma_byte_round_trip(brightness, bytes[6]);
            Speed::lemma_byte_round_trip(speed, bytes[7]);
            assert(payload.body() =~= bytes.subrange(0, 13));
        },
        PayloadView::Unknown3 { unk } => {
            assert(payload.body() =~= bytes.subrange(0, 1));
        },
        PayloadView::Unknown5 { unk } => {
            assert(payload.body() =~= bytes.subrange(0, 1));
        },
        PayloadView::TransactionStart => {
            assert(payload.body() =~= bytes.subrange(0, 0));
        },
        PayloadView::TransactionEnd => {
            assert(payload.body() =~= bytes.subrange(0, 0));
        },
        PayloadView::Unhandled { data } => {},
    }
}

/// Whether `tag` is the type tag of one of the known payloads.
pub open spec fn is_known_tag(tag: u8) -> bool {
    ||| tag == TAG_TRANSACTION_START
    ||| tag == TAG_TRANSACTION_END
    ||| tag == TAG_UNKNOWN3
    ||| tag == TAG_UNKNOWN5
    ||| tag == TAG_SET_ANIMATION
    ||| tag == TAG_GET_KEYMAP
    ||| tag == TAG_SET_CUSTOM_LED
    ||| tag == TAG_GET_KEY_INDEXES
}

/// Bytes under a type tag that is not known are an `Unhandled` payload that
/// holds all of them unchanged and reports the type tag `0xFF`.
pub proof fn lemma_unknown_tag_is_unhandled(tag: u8, bytes: Seq<u8>)
    requires
        !is_known_tag(tag),
    ensures
        parse_payload(tag, bytes) == (PayloadView::Unhandled { data: bytes }),
        parse_payload(tag, bytes).tag() == TAG_UNHANDLED,
{
}

/// Every kind of payload has a type tag of its own: the tag of a payload of
/// known type is a known tag, that of an `Unhandled` payload is not, and two
/// payloads with the same tag are of the same kind.
pub proof fn lemma_tag_tells_kind(a: PayloadView, b: PayloadView)
    ensures
        is_known_tag(a.tag()) <==> !(a is Unhandled),
        a.tag() == b.tag() ==> {
            &&& a is TransactionStart <==> b is TransactionStart
            &&& a is TransactionEnd <==> b is TransactionEnd
            &&& a is Unknown3 <==> b is Unknown3
            &&& a is Unknown5 <==> b is Unknown5
            &&& a is GetKeymap <==> b is GetKeymap
            &&& a is SetAnimation <==> b is SetAnimation
            &&& a is SetCustomLED <==> b is SetCustomLED
            &&& a is GetKeyIndexes <==> b is GetKeyIndexes
            &&& a is Unhandled <==> b is Unhandled
        },
{
}

} // verus!
