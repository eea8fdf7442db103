//! The per-key color table and its transfer in chunks.

use crate::color::OwnRGB8;
use crate::error::CherryRgbError;
use crate::bytes::copy_range;
use crate::payload::{Payload, PayloadView, ToVec};
use crate::text::{decimal_text, usize_to_string};
use vstd::prelude::*;
use vstd::string::*;

verus! {

/// Data bytes that fit one packet: a 64-byte report less the packet header
/// and the chunk header, four bytes each.
pub const CHUNK_SIZE: usize = 56;

/// Number of key slots of the keyboard.
pub const TOTAL_KEYS: usize = 126;

/// Bytes of the whole color table: three per key.
pub const TABLE_BYTES: usize = 378;

/// A key slot and the color it is to get, as a color profile gives it.
#[derive(Clone, Copy, Debug, PartialEq, Eq, Structural)]
pub struct ProfileKey {
    pub key_index: usize,
    pub rgb_value: OwnRGB8,
}

impl ProfileKey {
    pub fn new(index: usize, rgb: OwnRGB8) -> (key: Self)
        ensures
            key == (ProfileKey { key_index: index, rgb_value: rgb }),
    {
        ProfileKey { key_index: index, rgb_value: rgb }
    }
}

/// The colors of all keys: always one color for each of the 126 key slots.
#[derive(Debug)]
pub struct CustomKeyLeds {
    key_leds: Vec<OwnRGB8>,
}

/// The table in which every key is off.
pub open spec fn all_black() -> Seq<OwnRGB8> {
    Seq::new(TOTAL_KEYS as nat, |i: int| OwnRGB8::black())
}

/// The table that starts with `colors` and is black from there on.
pub open spec fn filled_up(colors: Seq<OwnRGB8>) -> Seq<OwnRGB8> {
    Seq::new(
        TOTAL_KEYS as nat,
        |i: int|
            if i < colors.len() {
                colors[i]
            } else {
                OwnRGB8::black()
            },
    )
}

/// The colors as a flat buffer: red, green and blue of each key in turn.
pub open spec fn flat_bytes(colors: Seq<OwnRGB8>) -> Seq<u8> {
    Seq::new(
        3 * colors.len(),
        |i: int|
            if i % 3 == 0 {
                colors[i / 3].r
            } else if i % 3 == 1 {
                colors[i / 3].g
            } else {
                colors[i / 3].b
            },
    )
}

/// Number of chunks that `len` bytes are sent in.
pub open spec fn chunk_count(len: nat) -> nat {
    (len + CHUNK_SIZE - 1) as nat / (CHUNK_SIZE as nat)
}

/// The bytes of chunk `index` of `data`: at most 56, fewer only in the last.
pub open spec fn chunk_data(data: Seq<u8>, index: int) -> Seq<u8> {
    data.subrange(
        index * CHUNK_SIZE,
        if (index + 1) * CHUNK_SIZE < data.len() {
            (index + 1) * CHUNK_SIZE
        } else {
            data.len() as int
        },
    )
}

/// The payload that sends chunk `index` of `data`: its offset is the number
/// of bytes in the chunks before it.
pub open spec fn led_chunk(data: Seq<u8>, index: int) -> PayloadView {
    PayloadView::SetCustomLED {
        data_offset: (index * CHUNK_SIZE) as u16,
        padding: 0,
        key_leds_data: chunk_data(data, index),
    }
}

/// The table after the first `count` entries of `keys` were set in turn on a
/// table with every key off. A later entry for the same key wins.
pub open spec fn profile_table(keys: Seq<ProfileKey>, count: int) -> Seq<OwnRGB8>
    decreases count,
{
    if count <= 0 {
        all_black()
    } else {
        profile_table(keys, count - 1).update(
            keys[count - 1].key_index as int,
            keys[count - 1].rgb_value,
        )
    }
}

/// Whether every entry of `keys` names one of the 126 key slots.
pub open spec fn keys_in_range(keys: Seq<ProfileKey>) -> bool {
    forall|i: int| 0 <= i < keys.len() ==> (#[trigger] keys[i]).key_index < TOTAL_KEYS
}

/// Whether `index` is the place of the first entry of `keys` that names a key
/// slot that does not exist.
pub open spec fn first_bad_key(keys: Seq<ProfileKey>, index: int) -> bool {
    &&& 0 <= index < keys.len()
    &&& keys[index].key_index >= TOTAL_KEYS
    &&& forall|i: int| 0 <= i < index ==> (#[trigger] keys[i]).key_index < TOTAL_KEYS
}

impl View for CustomKeyLeds {
    type V = Seq<OwnRGB8>;

    closed spec fn view(&self) -> Seq<OwnRGB8> {
        self.key_leds@
    }
}

impl CustomKeyLeds {
    #[verifier::type_invariant]
    spec fn well_formed(self) -> bool {
        self.key_leds@.len() == TOTAL_KEYS
    }

    /// A table with every key off.
    pub fn new() -> (table: Self)
        ensures
            table@ == all_black(),
    {
        let mut key_leds: Vec<OwnRGB8> = Vec::new();
        while key_leds.len() < TOTAL_KEYS
            invariant
                key_leds@.len() <= TOTAL_KEYS,
                forall|i: int| 0 <= i < key_leds@.len() ==> key_leds@[i] == OwnRGB8::black(),
            decreases TOTAL_KEYS - key_leds@.len(),
        {
            key_leds.push(OwnRGB8 { r: 0, g: 0, b: 0 });
        }
        assert(key_leds@ =~= all_black());
        CustomKeyLeds { key_leds }
    }

    /// The number of key slots, which is always 126.
    pub fn len(&self) -> (len: usize)
        ensures
            len == TOTAL_KEYS,
            self@.len() == TOTAL_KEYS,
    {
        proof {
            use_type_invariant(self);
        }
        self.key_leds.len()
    }

    /// The color of the key at `key_index`, if there is such a key.
    pub fn get_led(&self, key_index: usize) -> (color: Option<OwnRGB8>)
        ensures
            self@.len() == TOTAL_KEYS,
            key_index < TOTAL_KEYS ==> color == Some(self@[key_index as int]),
            key_index >= TOTAL_KEYS ==> color is None,
    {
        proof {
            use_type_invariant(self);
        }
        if key_index < self.key_leds.len() {
            Some(self.key_leds[key_index])
        } else {
            None
        }
    }

    /// A table from the colors of the first keys; the keys after them are
    /// off. More than 126 colors are refused.
    pub fn from_leds(key_leds: Vec<OwnRGB8>) -> (r: Result<Self, CherryRgbError>)
        ensures
            key_leds@.len() <= TOTAL_KEYS ==> (r matches Ok(table) && table@ == filled_up(
                key_leds@,
            )),
            key_leds@.len() > TOTAL_KEYS ==> (r matches Err(
                CherryRgbError::InvalidArgument(what, value),
            ) && what@ == "Invalid number of key leds"@ && value@ == decimal_text(
                key_leds@.len(),
            )),
    {
        if key_leds.len() > TOTAL_KEYS {
            return Err(
                CherryRgbError::InvalidArgument(
                    String::from_str("Invalid number of key leds"),
                    usize_to_string(key_leds.len()),
                ),
            );
        }
        let ghost given = key_leds@;
        let mut key_leds = key_leds;
        while key_leds.len() < TOTAL_KEYS
            invariant
                given.len() <= key_leds@.len() <= TOTAL_KEYS,
                forall|i: int| 0 <= i < given.len() ==> key_leds@[i] == given[i],
                forall|i: int|
                    given.len() <= i < key_leds@.len() ==> key_leds@[i] == OwnRGB8::black(),
            decreases TOTAL_KEYS - key_leds@.len(),
        {
            key_leds.push(OwnRGB8 { r: 0, g: 0, b: 0 });
        }
        assert(key_leds@ =~= filled_up(given));
        Ok(CustomKeyLeds { key_leds })
    }

    /// Set the color of the key at `key_index`. An index of 126 or above is
    /// refused and leaves the table as it was.
    pub fn set_led(&mut self, key_index: usize, key: OwnRGB8) -> (r: Result<(), CherryRgbError>)
        ensures
            final(self)@.len() == TOTAL_KEYS,
            key_index < TOTAL_KEYS ==> r is Ok && final(self)@ == old(self)@.update(
                key_index as int,
                key,
            ),
            key_index >= TOTAL_KEYS ==> final(self)@ == old(self)@ && (r matches Err(
                CherryRgbError::InvalidArgument(what, value),
            ) && what@ == "Key index out of bounds"@ && value@ == decimal_text(key_index as nat)),
    {
        proof {
            use_type_invariant(&*self);
        }
        if key_index >= self.key_leds.len() {
            return Err(
                CherryRgbError::InvalidArgument(
                    String::from_str("Key index out of bounds"),
                    usize_to_string(key_index),
                ),
            );
        }
        self.key_leds[key_index] = key;
        Ok(())
    }

    /// A table from a color profile: every key is off but those that the
    /// profile names. The first entry that names a key slot of 126 or above
    /// is refused.
    pub fn from_profile(keys: Vec<ProfileKey>) -> (r: Result<Self, CherryRgbError>)
        ensures
            keys_in_range(keys@) ==> (r matches Ok(table) && table@ == profile_table(
                keys@,
                keys@.len() as int,
            )),
            forall|index: int|
                first_bad_key(keys@, index) ==> (r matches Err(
                    CherryRgbError::InvalidArgument(what, value),
                ) && what@ == "Key index out of bounds"@ && value@ == decimal_text(
                    keys@[index].key_index as nat,
                )),
    {
        let mut custom_keys = CustomKeyLeds::new();
        let mut i: usize = 0;
        while i < keys.len()
            invariant
                i <= keys@.len(),
                custom_keys@ == profile_table(keys@, i as int),
                custom_keys@.len() == TOTAL_KEYS,
                forall|k: int| 0 <= k < i ==> (#[trigger] keys@[k]).key_index < TOTAL_KEYS,
            decreases keys@.len() - i,
        {
            let key = keys[i];
            match custom_keys.set_led(key.key_index, key.rgb_value) {
                Ok(()) => {},
                Err(e) => {
                    assert(first_bad_key(keys@, i as int));
                    assert forall|index: int| first_bad_key(keys@, index) implies index == i by {
                        if index < i {
                            assert(keys@[index].key_index < TOTAL_KEYS);
                        } else if index > i {
                            assert(keys@[i as int].key_index < TOTAL_KEYS);
                        }
                    }
                    return Err(e);
                },
            }
            i += 1;
        }
        assert forall|index: int| !first_bad_key(keys@, index) by {
            if 0 <= index < keys@.len() {
                assert(keys@[index].key_index < TOTAL_KEYS);
            }
        }
        Ok(custom_keys)
    }

    /// The payloads that send the table: its flat bytes in chunks of at most
    /// 56, in order, each with the offset of its first byte.
    pub fn get_payloads(self) -> (r: Result<Vec<Payload>, CherryRgbError>)
        ensures
            r matches Ok(payloads) && payloads@.len() == 7 && forall|i: int|
                0 <= i < 7 ==> (#[trigger] payloads@[i])@ == led_chunk(flat_bytes(self@), i),
    {
        let key_data = self.to_vec();
        Ok(chunk_payloads(key_data.as_slice()))
    }
}

impl ToVec for CustomKeyLeds {
    open spec fn wire(&self) -> Seq<u8> {
        flat_bytes(self@)
    }

    fn to_vec(&self) -> (bytes: Vec<u8>)
        ensures
            bytes@.len() == TABLE_BYTES,
    {
        proof {
            use_type_invariant(self);
        }
        let mut bytes: Vec<u8> = Vec::new();
        let mut i: usize = 0;
        while i < self.key_leds.len()
            invariant
                i <= self.key_leds@.len(),
                self.key_leds@.len() == TOTAL_KEYS,
                bytes@.len() == 3 * i,
                forall|k: int| 0 <= k < 3 * i ==> bytes@[k] == flat_bytes(self.key_leds@)[k],
            decreases self.key_leds@.len() - i,
        {
            let color = self.key_leds[i];
            bytes.push(color.r);
            bytes.push(color.g);
            bytes.push(color.b);
            i += 1;
        }
        assert(bytes@ =~= flat_bytes(self@));
        bytes
    }
}

/// Split `data` into the payloads that send it: chunks of at most 56 bytes,
/// in order, each with the offset of its first byte.
pub fn chunk_payloads(data: &[u8]) -> (payloads: Vec<Payload>)
    requires
        data@.len() <= 0x1_0000,
    ensures
        payloads@.len() == chunk_count(data@.len()),
        forall|i: int|
            0 <= i < payloads@.len() ==> (#[trigger] payloads@[i])@ == led_chunk(data@, i),
{
    let mut payloads: Vec<Payload> = Vec::new();
    let mut offset: usize = 0;
    while offset < data.len()
        invariant
            data@.len() <= 0x1_0000,
            offset == payloads@.len() * CHUNK_SIZE,
            offset < data@.len() + CHUNK_SIZE,
            forall|i: int|
                0 <= i < payloads@.len() ==> (#[trigger] payloads@[i])@ == led_chunk(data@, i),
        decreases data@.len() + CHUNK_SIZE - offset,
    {
        let end: usize = if data.len() - offset > CHUNK_SIZE {
            offset + CHUNK_SIZE
        } else {
            data.len()
        };
        let chunk = copy_range(data, offset, end);
        let payload = Payload::SetCustomLED {
            data_offset: offset as u16,
            padding: 0x00,
            key_leds_data: chunk,
        };
        assert(payload@ == led_chunk(data@, payloads@.len() as int));
        payloads.push(payload);
        offset += CHUNK_SIZE;
    }
    payloads
}

/// The chunks of `data` hold every byte of it once and in order: byte `k`
/// is byte `k % 56` of chunk `k / 56`. Every chunk but the last holds 56
/// bytes, no chunk is empty, and the offset of a chunk is the number of bytes
/// in the chunks before it.
pub proof fn lemma_chunks_cover(data: Seq<u8>, k: int)
    requires
        0 <= k < data.len(),
    ensures
        k / 56 < chunk_count(data.len()),
        chunk_data(data, k / 56)[k % 56] == data[k],
        1 <= chunk_data(data, k / 56).len() <= 56,
        k / 56 + 1 < chunk_count(data.len()) ==> chunk_data(data, k / 56).len() == 56,
{
}

impl TryFrom<Vec<ProfileKey>> for CustomKeyLeds {
    type Error = CherryRgbError;

    /// The same as [`CustomKeyLeds::from_profile`].
    fn try_from(value: Vec<ProfileKey>) -> (r: Result<Self, CherryRgbError>)
        ensures
            keys_in_range(value@) ==> (r matches Ok(table) && table@ == profile_table(
                value@,
                value@.len() as int,
            )),
            forall|index: int|
                first_bad_key(value@, index) ==> (r matches Err(
                    CherryRgbError::InvalidArgument(what, text),
                ) && what@ == "Key index out of bounds"@ && text@ == decimal_text(
                    value@[index].key_index as nat,
                )),
    {
        CustomKeyLeds::from_profile(value)
    }
}

/// The conversion is specified by the contract of `try_from` itself: what it
/// returns holds text, which no specification function can build.
impl vstd::std_specs::convert::TryFromSpecImpl<Vec<ProfileKey>> for CustomKeyLeds {
    open spec fn obeys_try_from_spec() -> bool {
        false
    }

    open spec fn try_from_spec(v: Vec<ProfileKey>) -> Result<Self, CherryRgbError> {
        arbitrary()
    }
}

impl Default for CustomKeyLeds {
    fn default() -> (table: Self)
        ensures
            table@ == all_black(),
    {
        CustomKeyLeds::new()
    }
}

/// Setting the color of one key changes the three bytes of that key in the
/// flat buffer to the color, and no other byte.
pub proof fn lemma_set_led_in_flat_bytes(colors: Seq<OwnRGB8>, key_index: int, key: OwnRGB8, k: int)
    requires
        0 <= key_index < colors.len(),
        0 <= k < 3 * colors.len(),
    ensures
        flat_bytes(colors.update(key_index, key)).len() == flat_bytes(colors).len(),
        flat_bytes(colors.update(key_index, key)).subrange(3 * key_index, 3 * key_index + 3)
            == key.bytes(),
        k / 3 != key_index ==> flat_bytes(colors.update(key_index, key))[k] == flat_bytes(colors)[k],
{
    assert(flat_bytes(colors.update(key_index, key)).subrange(3 * key_index, 3 * key_index + 3)
        =~= key.bytes());
}

} // verus!
