//! Color profiles: a JSON object that maps key indexes to colors.

use crate::color::{color_of, color_text_error, OwnRGB8};
use crate::error::CherryRgbError;
use crate::leds::ProfileKey;
use crate::text::{
    all_digits,
    decimal_text,
    decimal_value,
    digit_value,
    lemma_decimal_round_trip,
    usize_to_string,
};
use vstd::prelude::*;
use vstd::string::*;

verus! {

/// Why a text is no key index.
#[derive(Clone, Copy, Debug, PartialEq, Eq, Structural)]
pub enum IndexFault {
    /// The text is empty.
    Empty,
    /// After an optional plus sign the text holds no digit at all, or a
    /// character that is no decimal digit behind digits that fit a `usize`.
    InvalidDigit,
    /// The digits that the text begins with spell a number that does not
    /// fit a `usize`.
    TooLarge,
}

/// The digits of a key index: the text without a plus sign in front.
pub open spec fn index_digits(key: Seq<char>) -> Seq<char> {
    if key.len() > 0 && key[0] == '+' {
        key.skip(1)
    } else {
        key
    }
}

/// Number of decimal digits that `text` begins with.
pub open spec fn digit_run(text: Seq<char>) -> nat
    decreases text.len(),
{
    if text.len() == 0 || digit_value(text[0]) is None {
        0
    } else {
        1 + digit_run(text.skip(1))
    }
}

/// The key index that a text spells: decimal digits, with or without a plus
/// sign in front, of a number that fits a `usize`. The text is read from
/// the left: digits that spell too large a number are refused as too large
/// whatever follows them, and a character that is no digit is refused where
/// the digits before it still fit.
pub open spec fn index_of(key: Seq<char>) -> Result<usize, IndexFault> {
    let digits = index_digits(key);
    let run = digits.take(digit_run(digits) as int);
    if key.len() == 0 {
        Err(IndexFault::Empty)
    } else if digits.len() == 0 {
        Err(IndexFault::InvalidDigit)
    } else if decimal_value(run) > usize::MAX {
        Err(IndexFault::TooLarge)
    } else if run.len() < digits.len() {
        Err(IndexFault::InvalidDigit)
    } else {
        Ok(decimal_value(digits) as usize)
    }
}

/// The digits that `text` begins with end at `end` if all characters before
/// it are digits and the one at `end`, if there is one, is none.
pub proof fn lemma_digit_run(text: Seq<char>, end: int)
    requires
        0 <= end <= text.len(),
        all_digits(text.take(end)),
        end < text.len() ==> digit_value(text[end]) is None,
    ensures
        digit_run(text) == end,
    decreases end,
{
    if end == 0 {
    } else {
        assert(text.take(end)[0] == text[0]);
        let rest = text.skip(1);
        assert forall|i: int| 0 <= i < rest.take(end - 1).len() implies digit_value(
            #[trigger] rest.take(end - 1)[i],
        ) is Some by {
            assert(text.take(end)[i + 1] == rest.take(end - 1)[i]);
        }
        lemma_digit_run(rest, end - 1);
    }
}

/// The words for a fault of a key index.
pub open spec fn fault_text(fault: IndexFault) -> Seq<char> {
    match fault {
        IndexFault::Empty => "cannot parse integer from empty string"@,
        IndexFault::InvalidDigit => "invalid digit found in string"@,
        IndexFault::TooLarge => "number too large to fit in target type"@,
    }
}

/// The message of the error that refuses `key` as a key index.
pub open spec fn index_error(key: Seq<char>, fault: IndexFault) -> Seq<char> {
    "parsing key index "@ + key + ", err="@ + fault_text(fault)
}

/// The decimal digit that `c` shows, if it shows one.
fn digit_of(c: char) -> (digit: Option<usize>)
    ensures
        match digit {
            Some(d) => digit_value(c) == Some(d as int),
            None => digit_value(c) is None,
        },
{
    if c == '0' {
        Some(0)
    } else if c == '1' {
        Some(1)
    } else if c == '2' {
        Some(2)
    } else if c == '3' {
        Some(3)
    } else if c == '4' {
        Some(4)
    } else if c == '5' {
        Some(5)
    } else if c == '6' {
        Some(6)
    } else if c == '7' {
        Some(7)
    } else if c == '8' {
        Some(8)
    } else if c == '9' {
        Some(9)
    } else {
        None
    }
}

/// Read a key index from its decimal text.
pub fn parse_index(key: &str) -> (r: Result<usize, IndexFault>)
    ensures
        r == index_of(key@),
{
    let len = key.unicode_len();
    if len == 0 {
        return Err(IndexFault::Empty);
    }
    let start: usize = if key.get_char(0) == '+' {
        1
    } else {
        0
    };
    if start == len {
        return Err(IndexFault::InvalidDigit);
    }
    let ghost digits = index_digits(key@);
    let mut value: usize = 0;
    let mut too_large = false;
    let mut i: usize = start;
    proof {
        assert(digits.take(0) =~= Seq::<char>::empty());
    }
    while i < len
        invariant
            start <= i <= len,
            len == key@.len(),
            digits == index_digits(key@),
            digits.len() == len - start,
            forall|k: int| 0 <= k < digits.len() ==> digits[k] == key@[k + start],
            all_digits(digits.take(i - start)),
            !too_large ==> value == decimal_value(digits.take(i - start)),
            too_large ==> decimal_value(digits.take(i - start)) > usize::MAX,
        decreases len - i,
    {
        let c = key.get_char(i);
        proof {
            assert(digits.take(i + 1 - start).drop_last() =~= digits.take(i - start));
            assert(digits.take(i + 1 - start).last() == c);
        }
        match digit_of(c) {
            None => {
                proof {
                    lemma_digit_run(digits, i - start);
                }
                if too_large {
                    return Err(IndexFault::TooLarge);
                }
                return Err(IndexFault::InvalidDigit);
            },
            Some(d) => {
                if !too_large {
                    if value > (usize::MAX - d) / 10 {
                        too_large = true;
                    } else {
                        value = value * 10 + d;
                    }
                }
                assert forall|k: int| 0 <= k < digits.take(i + 1 - start).len() implies digit_value(
                    #[trigger] digits.take(i + 1 - start)[k],
                ) is Some by {
                    if k < i - start {
                        assert(digits.take(i - start)[k] == digits[k]);
                    }
                }
            },
        }
        i += 1;
    }
    proof {
        lemma_digit_run(digits, len - start);
        assert(digits.take(len - start) =~= digits);
    }
    if too_large {
        Err(IndexFault::TooLarge)
    } else {
        Ok(value)
    }
}

/// One member of a JSON object: its name and, where its value is a string,
/// that string.
pub type Member = (String, Option<String>);

/// The mathematical value of a [`Member`].
pub type MemberView = (Seq<char>, Option<Seq<char>>);

/// The views of the members of an object.
pub open spec fn member_views(members: Seq<Member>) -> Seq<MemberView> {
    Seq::new(
        members.len(),
        |i: int|
            (
                members[i].0@,
                match members[i].1 {
                    Some(text) => Some(text@),
                    None => None,
                },
            ),
    )
}

/// What the JSON parser makes of a text: `None` where the text is not JSON,
/// `Some(None)` where it is JSON but no object, and else the members of the
/// object in the order in which the parser hands them out.
pub uninterp spec fn json_members(text: Seq<char>) -> Option<Option<Seq<MemberView>>>;

/// Calls `serde_json::from_str` for a `Value`, then `Value::as_object`,
/// `Map::iter` and `Value::as_str`. The outcome is a function of the text
/// alone and is known by the name `json_members`; nothing more is claimed
/// of it.
#[verifier::external_body]
pub(crate) fn parse_members(text: &str) -> (r: Result<Option<Vec<Member>>, serde_json::Error>)
    ensures
        match r {
            Err(_) => json_members(text@) is None,
            Ok(None) => json_members(text@) == Some(None::<Seq<MemberView>>),
            Ok(Some(members)) => json_members(text@) == Some(Some(member_views(members@))),
        },
{
    let value: serde_json::Value = serde_json::from_str(text)?;
    Ok(
        value.as_object().map(
            |root| root.iter().map(|(k, v)| (k.clone(), v.as_str().map(String::from))).collect(),
        ),
    )
}

/// What one member of a profile gives: the key and its color, or the
/// message of the error that refuses it. The name is looked at first, then
/// whether the value is a string, then the string.
pub open spec fn profile_entry(member: MemberView) -> Result<ProfileKey, Seq<char>> {
    match index_of(member.0) {
        Err(fault) => Err(index_error(member.0, fault)),
        Ok(key_index) => match member.1 {
            None => Err("Invalid color for key with index "@ + decimal_text(key_index as nat)),
            Some(text) => match color_of(text) {
                Some(rgb_value) => Ok(ProfileKey { key_index, rgb_value }),
                None => Err(color_text_error(text)),
            },
        },
    }
}

/// Whether `index` is the place of the first member that is refused.
pub open spec fn first_bad_member(members: Seq<MemberView>, index: int) -> bool {
    &&& 0 <= index < members.len()
    &&& profile_entry(members[index]) is Err
    &&& forall|i: int| 0 <= i < index ==> profile_entry(#[trigger] members[i]) is Ok
}

/// Whether every member gives a key and its color.
pub open spec fn all_entries_good(members: Seq<MemberView>) -> bool {
    forall|i: int| 0 <= i < members.len() ==> profile_entry(#[trigger] members[i]) is Ok
}

/// Whether `r` is the profile that the members give: one key for each
/// member, in their order, or the error of the first member that is
/// refused.
pub open spec fn is_profile_of(
    members: Seq<MemberView>,
    r: Result<Vec<ProfileKey>, CherryRgbError>,
) -> bool {
    if all_entries_good(members) {
        r matches Ok(keys) && keys@ == Seq::new(
            members.len(),
            |i: int| profile_entry(members[i])->Ok_0,
        )
    } else {
        r matches Err(CherryRgbError::ParseError(message)) && forall|index: int|
            first_bad_member(members, index) ==> message@ == profile_entry(members[index])->Err_0
    }
}

/// Read one member of a profile.
fn read_entry(member: &Member) -> (r: Result<ProfileKey, CherryRgbError>)
    ensures
        match profile_entry(member_views(seq![*member])[0]) {
            Ok(key) => r == Ok::<ProfileKey, CherryRgbError>(key),
            Err(text) => r matches Err(CherryRgbError::ParseError(message)) && message@ == text,
        },
{
    let key = member.0.as_str();
    let key_index = match parse_index(key) {
        Ok(key_index) => key_index,
        Err(fault) => {
            let reason = match fault {
                IndexFault::Empty => "cannot parse integer from empty string",
                IndexFault::InvalidDigit => "invalid digit found in string",
                IndexFault::TooLarge => "number too large to fit in target type",
            };
            let message = String::from_str("parsing key index ").concat(key).concat(
                ", err=",
            ).concat(reason);
            return Err(CherryRgbError::ParseError(message));
        },
    };
    match &member.1 {
        None => {
            let message = String::from_str("Invalid color for key with index ").concat(
                usize_to_string(key_index).as_str(),
            );
            Err(CherryRgbError::ParseError(message))
        },
        Some(text) => match OwnRGB8::from_hex(text.as_str()) {
            Ok(color) => Ok(ProfileKey::new(key_index, color)),
            Err(e) => Err(e),
        },
    }
}

/// The keys of a color profile from the members of its JSON object. The
/// name of a member is the decimal index of a key, its value a string of
/// six hexadecimal digits. The first member that is malformed is refused,
/// with an error that names its index or its color.
pub fn profile_keys(members: &Vec<Member>) -> (r: Result<Vec<ProfileKey>, CherryRgbError>)
    ensures
        is_profile_of(member_views(members@), r),
{
    let ghost views = member_views(members@);
    let mut keys: Vec<ProfileKey> = Vec::new();
    let mut i: usize = 0;
    while i < members.len()
        invariant
            i <= members@.len(),
            views == member_views(members@),
            keys@.len() == i,
            forall|k: int| 0 <= k < i ==> profile_entry(#[trigger] views[k]) is Ok,
            forall|k: int| 0 <= k < i ==> keys@[k] == profile_entry(views[k])->Ok_0,
        decreases members@.len() - i,
    {
        assert(member_views(seq![members@[i as int]])[0] == views[i as int]);
        match read_entry(&members[i]) {
            Ok(key) => {
                keys.push(key);
            },
            Err(e) => {
                assert(first_bad_member(views, i as int));
                assert forall|index: int| first_bad_member(views, index) implies index == i by {
                    if index < i {
                        assert(profile_entry(views[index]) is Ok);
                    } else if index > i {
                        assert(profile_entry(views[i as int]) is Ok);
                    }
                }
                return Err(e);
            },
        }
        i += 1;
    }
    assert(keys@ =~= Seq::new(views.len(), |i: int| profile_entry(views[i])->Ok_0));
    Ok(keys)
}

/// Whether `r` is what reading a color profile from `text` gives: a JSON
/// error where the text is not JSON, a parse error where it is no object,
/// and else the profile of the object's members.
pub open spec fn is_color_profile_of(text: Seq<char>, r: Result<Vec<ProfileKey>, CherryRgbError>) -> bool {
    match json_members(text) {
        None => r matches Err(CherryRgbError::JsonParseError(_)),
        Some(None) => r matches Err(CherryRgbError::ParseError(message)) && message@
            == "No valid colors found in color profile."@,
        Some(Some(members)) => is_profile_of(members, r),
    }
}

/// Reads the given color profile and returns its keys.
pub fn read_color_profile(color_profile: &str) -> (r: Result<Vec<ProfileKey>, CherryRgbError>)
    ensures
        is_color_profile_of(color_profile@, r),
{
    match parse_members(color_profile) {
        Err(e) => Err(CherryRgbError::JsonParseError(e)),
        Ok(None) => Err(
            CherryRgbError::ParseError(String::from_str("No valid colors found in color profile.")),
        ),
        Ok(Some(members)) => profile_keys(&members),
    }
}

/// The decimal text of a key index is read back as that index.
pub proof fn lemma_index_round_trip(key_index: usize)
    ensures
        index_of(decimal_text(key_index as nat)) == Ok::<usize, IndexFault>(key_index),
{
    let text = decimal_text(key_index as nat);
    lemma_decimal_round_trip(key_index as nat);
    assert(digit_value(text[0]) is Some);
    assert(text.take(text.len() as int) =~= text);
    lemma_digit_run(text, text.len() as int);
}

} // verus!
