//! Reads that span several packets: the requests to send and the
//! reassembly of what came back.

use crate::bytes::append_bytes;
use crate::error::CherryRgbError;
use crate::leds::{CHUNK_SIZE, TABLE_BYTES, TOTAL_KEYS};
use crate::models::Keymap;
use crate::packet::Packet;
use crate::payload::{Payload, PayloadView};
use vstd::prelude::*;
use vstd::string::*;

verus! {

/// What one request/response round trip gave: an error of the transport, no
/// packet where the response could not be read, or the packet.
pub type SendResult = Result<Option<Packet<Payload>>, CherryRgbError>;

/// The two collections that are read in several packets.
#[derive(Clone, Copy, Debug, PartialEq, Eq, Structural)]
pub enum ReadKind {
    /// The keymap: three bytes for each key slot.
    Keymap,
    /// The key-index table: one byte for each key slot.
    KeyIndexes,
}

impl ReadKind {
    /// Number of bytes of the whole collection.
    pub open spec fn total(self) -> nat {
        match self {
            ReadKind::Keymap => TABLE_BYTES as nat,
            ReadKind::KeyIndexes => TOTAL_KEYS as nat,
        }
    }

    /// Number of requests that read the whole collection.
    pub open spec fn request_count(self) -> nat {
        match self {
            ReadKind::Keymap => 7,
            ReadKind::KeyIndexes => 3,
        }
    }

    pub fn total_size(&self) -> (total: usize)
        ensures
            total == self.total(),
    {
        match self {
            ReadKind::Keymap => TABLE_BYTES,
            ReadKind::KeyIndexes => TOTAL_KEYS,
        }
    }
}

/// Request `index` of the read of a collection: it asks for the bytes from
/// offset `56 * index` on, 56 of them or as many as are left.
pub open spec fn read_request(kind: ReadKind, index: int) -> PayloadView {
    let offset = index * CHUNK_SIZE;
    let len = if kind.total() - offset < CHUNK_SIZE {
        kind.total() - offset
    } else {
        CHUNK_SIZE as int
    };
    match kind {
        ReadKind::Keymap => PayloadView::GetKeymap {
            data_len: len as u8,
            data_offset: offset as u16,
            padding: 0,
            keymap: Seq::empty(),
        },
        ReadKind::KeyIndexes => PayloadView::GetKeyIndexes {
            data_len: len as u8,
            data_offset: offset as u16,
            padding: 0,
            key_data: Seq::empty(),
        },
    }
}

/// The requests that read a whole collection, in the order in which they
/// are sent.
pub open spec fn read_plan(kind: ReadKind) -> Seq<PayloadView> {
    Seq::new(kind.request_count(), |i: int| read_request(kind, i))
}

/// The requests that read a whole collection, in the order in which they
/// are to be sent.
pub fn read_requests(kind: ReadKind) -> (requests: Vec<Payload>)
    ensures
        requests@.len() == kind.request_count(),
        forall|i: int|
            0 <= i < requests@.len() ==> (#[trigger] requests@[i])@ == read_request(kind, i),
{
    let total = kind.total_size();
    let mut requests: Vec<Payload> = Vec::new();
    let mut offset: usize = 0;
    while offset < total
        invariant
            total == kind.total(),
            offset == requests@.len() * CHUNK_SIZE,
            offset < total + CHUNK_SIZE,
            forall|i: int|
                0 <= i < requests@.len() ==> (#[trigger] requests@[i])@ == read_request(kind, i),
        decreases total + CHUNK_SIZE - offset,
    {
        let len: usize = if total - offset < CHUNK_SIZE {
            total - offset
        } else {
            CHUNK_SIZE
        };
        let request = match kind {
            ReadKind::Keymap => Payload::GetKeymap {
                data_len: len as u8,
                data_offset: offset as u16,
                padding: 0,
                keymap: Vec::new(),
            },
            ReadKind::KeyIndexes => Payload::GetKeyIndexes {
                data_len: len as u8,
                data_offset: offset as u16,
                padding: 0,
                key_data: Vec::new(),
            },
        };
        assert(request@ == read_request(kind, requests@.len() as int));
        requests.push(request);
        offset += CHUNK_SIZE;
    }
    requests
}

/// The data that one response adds to a read: the data of a payload of the
/// kind that was asked for, nothing where no packet could be read, and
/// `None` where the round trip failed or a payload of another kind came.
pub open spec fn response_data(kind: ReadKind, response: SendResult) -> Option<Seq<u8>> {
    match response {
        Err(_) => None,
        Ok(None) => Some(Seq::empty()),
        Ok(Some(packet)) => match (kind, packet.inner()@) {
            (ReadKind::Keymap, PayloadView::GetKeymap { keymap, .. }) => Some(keymap),
            (ReadKind::KeyIndexes, PayloadView::GetKeyIndexes { key_data, .. }) => Some(key_data),
            _ => None,
        },
    }
}

/// Whether each of the first `count` responses adds data to the read.
pub open spec fn all_usable(kind: ReadKind, responses: Seq<SendResult>, count: int) -> bool {
    forall|i: int| 0 <= i < count ==> response_data(kind, #[trigger] responses[i]) is Some
}

/// The data of the first `count` responses, joined in the order of the
/// requests.
pub open spec fn gathered(kind: ReadKind, responses: Seq<SendResult>, count: int) -> Seq<u8>
    decreases count,
{
    if count <= 0 {
        Seq::empty()
    } else {
        gathered(kind, responses, count - 1) + response_data(
            kind,
            responses[count - 1],
        ).unwrap_or(Seq::empty())
    }
}

/// The message of the error that a failed read of `kind` reports.
pub open spec fn read_error_text(kind: ReadKind) -> Seq<char> {
    match kind {
        ReadKind::Keymap => "GetKeymap received unexpected response(s)"@,
        ReadKind::KeyIndexes => "GetKeyIndexes received unexpected response(s)"@,
    }
}

/// Join the data of the responses to the requests of one read, in request
/// order. If any round trip failed or brought a payload of another kind, the
/// read fails as a whole and nothing of the other responses is returned.
pub fn gather(kind: ReadKind, responses: &[SendResult]) -> (r: Result<Vec<u8>, CherryRgbError>)
    ensures
        all_usable(kind, responses@, responses@.len() as int) ==> (r matches Ok(data) && data@
            == gathered(kind, responses@, responses@.len() as int)),
        !all_usable(kind, responses@, responses@.len() as int) ==> (r matches Err(
            CherryRgbError::ProtocolError(text),
        ) && text@ == read_error_text(kind)),
{
    let mut data: Vec<u8> = Vec::new();
    let mut usable = true;
    let mut i: usize = 0;
    while i < responses.len()
        invariant
            i <= responses@.len(),
            usable == all_usable(kind, responses@, i as int),
            usable ==> data@ == gathered(kind, responses@, i as int),
        decreases responses@.len() - i,
    {
        match &responses[i] {
            Err(_) => {
                usable = false;
            },
            Ok(None) => {
                assert(data@ + Seq::<u8>::empty() =~= data@);
            },
            Ok(Some(packet)) => match (kind, packet.payload()) {
                (ReadKind::Keymap, Payload::GetKeymap { keymap, .. }) => {
                    append_bytes(&mut data, keymap.as_slice());
                },
                (ReadKind::KeyIndexes, Payload::GetKeyIndexes { key_data, .. }) => {
                    append_bytes(&mut data, key_data.as_slice());
                },
                _ => {
                    usable = false;
                },
            },
        }
        proof {
            if !usable {
                assert(response_data(kind, responses@[i as int]) is None || !all_usable(
                    kind,
                    responses@,
                    i as int,
                ));
            }
        }
        i += 1;
    }
    if usable {
        Ok(data)
    } else {
        let text = match kind {
            ReadKind::Keymap => "GetKeymap received unexpected response(s)",
            ReadKind::KeyIndexes => "GetKeyIndexes received unexpected response(s)",
        };
        Err(CherryRgbError::ProtocolError(String::from_str(text)))
    }
}

/// The keymap entries that a flat byte stream holds: one for each group of
/// three bytes, and an absent one for a shorter group at the end.
pub open spec fn keymap_entries(data: Seq<u8>) -> Seq<Option<Keymap>> {
    Seq::new(
        ((data.len() + 2) / 3) as nat,
        |i: int|
            if 3 * i + 3 <= data.len() {
                Some(
                    Keymap { modifier: data[3 * i], unk: data[3 * i + 1], keycode: data[3 * i + 2] },
                )
            } else {
                None
            },
    )
}

/// Regroup a flat byte stream into keymap entries of three bytes each; a
/// shorter group at the end gives an absent entry.
pub fn regroup_keymap(data: &[u8]) -> (entries: Vec<Option<Keymap>>)
    ensures
        entries@ == keymap_entries(data@),
{
    let mut entries: Vec<Option<Keymap>> = Vec::new();
    let mut at: usize = 0;
    while at < data.len()
        invariant
            at == 3 * entries@.len(),
            at < data@.len() + 3,
            forall|i: int| 0 <= i < entries@.len() ==> entries@[i] == keymap_entries(data@)[i],
        decreases data@.len() + 3 - at,
    {
        if data.len() - at >= 3 {
            entries.push(
                Some(Keymap { modifier: data[at], unk: data[at + 1], keycode: data[at + 2] }),
            );
        } else {
            entries.push(None);
        }
        at += 3;
    }
    assert(entries@ =~= keymap_entries(data@));
    entries
}

/// Whether `r` is the outcome of the keymap read with these responses: the
/// entries of the joined data, or a protocol error if any response is not
/// usable.
pub open spec fn is_keymap_of(
    responses: Seq<SendResult>,
    r: Result<Vec<Option<Keymap>>, CherryRgbError>,
) -> bool {
    if all_usable(ReadKind::Keymap, responses, responses.len() as int) {
        r matches Ok(entries) && entries@ == keymap_entries(
            gathered(ReadKind::Keymap, responses, responses.len() as int),
        )
    } else {
        r matches Err(CherryRgbError::ProtocolError(text)) && text@ == read_error_text(
            ReadKind::Keymap,
        )
    }
}

/// Whether `r` is the outcome of the key-index read with these responses:
/// the joined data if every response is usable and the data hold one byte
/// for each of the 126 key slots, else a protocol error that says which of
/// the two failed.
pub open spec fn is_key_indexes_of(
    responses: Seq<SendResult>,
    r: Result<Vec<u8>, CherryRgbError>,
) -> bool {
    let count = responses.len() as int;
    if !all_usable(ReadKind::KeyIndexes, responses, count) {
        r matches Err(CherryRgbError::ProtocolError(text)) && text@ == read_error_text(
            ReadKind::KeyIndexes,
        )
    } else if gathered(ReadKind::KeyIndexes, responses, count).len() != TOTAL_KEYS {
        r matches Err(CherryRgbError::ProtocolError(text)) && text@
            == "Gathering of key indexes failed"@
    } else {
        r matches Ok(data) && data@ == gathered(ReadKind::KeyIndexes, responses, count)
    }
}

/// The keymap that the responses to its requests hold.
pub fn assemble_keymap(responses: &[SendResult]) -> (r: Result<Vec<Option<Keymap>>, CherryRgbError>)
    ensures
        is_keymap_of(responses@, r),
{
    match gather(ReadKind::Keymap, responses) {
        Ok(data) => Ok(regroup_keymap(data.as_slice())),
        Err(e) => Err(e),
    }
}

/// The key-index table that the responses to its requests hold. It is
/// refused unless it holds one byte for each of the 126 key slots.
pub fn assemble_key_indexes(responses: &[SendResult]) -> (r: Result<Vec<u8>, CherryRgbError>)
    ensures
        is_key_indexes_of(responses@, r),
{
    match gather(ReadKind::KeyIndexes, responses) {
        Ok(data) => {
            if data.len() != TOTAL_KEYS {
                return Err(
                    CherryRgbError::ProtocolError(
                        String::from_str("Gathering of key indexes failed"),
                    ),
                );
            }
            Ok(data)
        },
        Err(e) => Err(e),
    }
}

/// A read in which one round trip failed, or brought a payload of another
/// kind, fails as a whole, whatever the other responses hold.
pub proof fn lemma_one_failure_fails_read(kind: ReadKind, responses: Seq<SendResult>, index: int)
    requires
        0 <= index < responses.len(),
        response_data(kind, responses[index]) is None,
    ensures
        !all_usable(kind, responses, responses.len() as int),
        forall|r: Result<Vec<Option<Keymap>>, CherryRgbError>|
            kind == ReadKind::Keymap && is_keymap_of(responses, r) ==> r is Err,
        forall|r: Result<Vec<u8>, CherryRgbError>|
            kind == ReadKind::KeyIndexes && is_key_indexes_of(responses, r) ==> r is Err,
{
}

} // verus!
