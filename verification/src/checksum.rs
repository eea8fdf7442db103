//! The 16-bit packet checksum.

use vstd::prelude::*;

verus! {

/// Type tag of the keymap read request.
pub const TAG_GET_KEYMAP: u8 = 0x07;

/// Type tag of the key-index read request.
pub const TAG_GET_KEY_INDEXES: u8 = 0x1B;

/// Number of leading body bytes that enter the checksum of a read request.
pub const READ_WINDOW: usize = 4;

/// Sum of the byte values of `bytes`, as a mathematical integer.
pub open spec fn byte_sum(bytes: Seq<u8>) -> int
    decreases bytes.len(),
{
    if bytes.len() == 0 {
        0
    } else {
        byte_sum(bytes.drop_last()) + bytes.last() as int
    }
}

/// Number of leading body bytes the checksum covers: the first four for the
/// two multi-packet read requests, the whole body for every other type.
pub open spec fn window_len(payload_type: u8, len: nat) -> nat {
    if payload_type == TAG_GET_KEYMAP || payload_type == TAG_GET_KEY_INDEXES {
        if len < 4 {
            len
        } else {
            4
        }
    } else {
        len
    }
}

/// The checksum of a body under a type tag: the window's byte sum plus the
/// tag, reduced to 16 bits.
pub open spec fn checksum_of(payload_type: u8, body: Seq<u8>) -> int {
    (byte_sum(body.take(window_len(payload_type, body.len()) as int)) + payload_type as int)
        % 0x1_0000
}

/// Calculate the packet checksum of `data` under `payload_type`.
pub fn calc_checksum(payload_type: u8, data: &[u8]) -> (sum: u16)
    ensures
        sum as int == checksum_of(payload_type, data@),
{
    let to_hash: usize = if payload_type == TAG_GET_KEYMAP || payload_type == TAG_GET_KEY_INDEXES {
        if data.len() < READ_WINDOW {
            data.len()
        } else {
            READ_WINDOW
        }
    } else {
        data.len()
    };
    let mut sum: u16 = 0;
    let mut i: usize = 0;
    while i < to_hash
        invariant
            i <= to_hash <= data.len(),
            sum as int == byte_sum(data@.take(i as int)) % 0x1_0000,
        decreases to_hash - i,
    {
        proof {
            assert(data@.take(i + 1).drop_last() =~= data@.take(i as int));
        }
        sum = sum.wrapping_add(data[i] as u16);
        i += 1;
    }
    sum.wrapping_add(payload_type as u16)
}

/// Replacing one byte moves the byte sum by the difference of the two bytes.
proof fn lemma_byte_sum_update(bytes: Seq<u8>, index: int, byte: u8)
    requires
        0 <= index < bytes.len(),
    ensures
        byte_sum(bytes.update(index, byte)) == byte_sum(bytes) - bytes[index] + byte,
    decreases bytes.len(),
{
    let changed = bytes.update(index, byte);
    if index == bytes.len() - 1 {
        assert(changed.drop_last() =~= bytes.drop_last());
    } else {
        assert(changed.drop_last() =~= bytes.drop_last().update(index, byte));
        lemma_byte_sum_update(bytes.drop_last(), index, byte);
    }
}

/// A body in which one byte inside the checksum window was replaced by a
/// different byte has a different checksum. For the two read requests the
/// window ends after the fourth byte: a change behind it leaves the checksum
/// as it was.
pub proof fn lemma_corruption_changes_checksum(payload_type: u8, body: Seq<u8>, index: int, byte: u8)
    requires
        0 <= index < window_len(payload_type, body.len()),
        byte != body[index],
    ensures
        checksum_of(payload_type, body.update(index, byte)) != checksum_of(payload_type, body),
{
    let n = window_len(payload_type, body.len()) as int;
    assert(body.update(index, byte).take(n) =~= body.take(n).update(index, byte));
    lemma_byte_sum_update(body.take(n), index, byte);
    let before = byte_sum(body.take(n)) + payload_type as int;
    let after = byte_sum(body.update(index, byte).take(n)) + payload_type as int;
    assert(after - before == byte - body[index]);
    assert(before % 0x1_0000 != after % 0x1_0000) by (nonlinear_arith)
        requires
            before != after,
            -256 < after - before < 256,
    ;
}

/// A change behind the checksum window of a read request leaves the
/// checksum as it was.
pub proof fn lemma_checksum_ignores_read_data(payload_type: u8, body: Seq<u8>, index: int, byte: u8)
    requires
        window_len(payload_type, body.len()) <= index < body.len(),
    ensures
        checksum_of(payload_type, body.update(index, byte)) == checksum_of(payload_type, body),
{
    let n = window_len(payload_type, body.len()) as int;
    assert(body.update(index, byte).take(n) =~= body.take(n));
}

} // verus!
