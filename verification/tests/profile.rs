use cherryrgb::profile::{parse_index, IndexFault};
use cherryrgb::text::usize_to_string;
use cherryrgb::{profile_keys, read_color_profile, CherryRgbError, OwnRGB8, ProfileKey};
use std::str::FromStr;

fn parse_error(r: Result<Vec<ProfileKey>, CherryRgbError>) -> String {
    match r {
        Err(CherryRgbError::ParseError(message)) => message,
        other => panic!("unexpected result {:?}", other),
    }
}

#[test]
fn deserialize_color_profile() {
    let color_profile = r#"
            {
                "0": "ff0000",
                "1": "00ff00",
                "2": "0000ff"
            }
        "#;

    let match_this: Vec<ProfileKey> = vec![
        ProfileKey::new(0, OwnRGB8::new(255, 0, 0)),
        ProfileKey::new(1, OwnRGB8::new(0, 255, 0)),
        ProfileKey::new(2, OwnRGB8::new(0, 0, 255)),
    ];

    let profile_keys = read_color_profile(color_profile).expect("Failed reading color profile");
    assert_eq!(match_this, profile_keys);
}

#[test]
fn color_profile_in_another_order() {
    let profile = r#"{"2":"0000ff","0":"ff0000","1":"00ff00"}"#;
    let mut keys = read_color_profile(profile).expect("Failed reading color profile");
    keys.sort_by_key(|key| key.key_index);
    assert_eq!(
        keys,
        vec![
            ProfileKey::new(0, OwnRGB8::new(255, 0, 0)),
            ProfileKey::new(1, OwnRGB8::new(0, 255, 0)),
            ProfileKey::new(2, OwnRGB8::new(0, 0, 255)),
        ]
    );
}

#[test]
fn color_profile_that_is_no_json() {
    match read_color_profile("{\"0\": ") {
        Err(CherryRgbError::JsonParseError(_)) => {}
        other => panic!("unexpected result {:?}", other),
    }
}

#[test]
fn color_profile_that_is_no_object() {
    assert_eq!(
        parse_error(read_color_profile("[\"ff0000\"]")),
        "No valid colors found in color profile."
    );
    assert_eq!(parse_error(read_color_profile("12")), "No valid colors found in color profile.");
}

#[test]
fn empty_color_profile() {
    assert_eq!(read_color_profile("{}").unwrap(), vec![]);
}

#[test]
fn color_profile_with_bad_index() {
    assert_eq!(
        parse_error(read_color_profile(r#"{"x1": "ff0000"}"#)),
        "parsing key index x1, err=invalid digit found in string"
    );
    assert_eq!(
        parse_error(read_color_profile(r#"{"": "ff0000"}"#)),
        "parsing key index , err=cannot parse integer from empty string"
    );
    assert_eq!(
        parse_error(read_color_profile(r#"{"-1": "ff0000"}"#)),
        "parsing key index -1, err=invalid digit found in string"
    );
    assert_eq!(
        parse_error(read_color_profile(r#"{"99999999999999999999999999": "ff0000"}"#)),
        "parsing key index 99999999999999999999999999, err=number too large to fit in target type"
    );
    assert_eq!(
        parse_error(read_color_profile(r#"{"99999999999999999999999999x": "ff0000"}"#)),
        "parsing key index 99999999999999999999999999x, err=number too large to fit in target type"
    );
}

#[test]
fn color_profile_with_color_that_is_no_string() {
    assert_eq!(
        parse_error(read_color_profile(r#"{"7": 255}"#)),
        "Invalid color for key with index 7"
    );
    assert_eq!(
        parse_error(read_color_profile(r#"{"12": null}"#)),
        "Invalid color for key with index 12"
    );
}

#[test]
fn color_profile_with_bad_color() {
    assert_eq!(
        parse_error(read_color_profile(r#"{"3": "ff00zz"}"#)),
        "Failed parsing hex color 'ff00zz', err: Invalid character"
    );
    assert_eq!(
        parse_error(read_color_profile(r#"{"3": "ff000"}"#)),
        "Failed parsing hex color 'ff000', err: Odd number of digits"
    );
    assert_eq!(
        parse_error(read_color_profile(r#"{"3": "ff0000ff"}"#)),
        "Failed parsing hex color 'ff0000ff', err: Invalid string length"
    );
}

#[test]
fn first_malformed_member_is_reported() {
    let members = vec![
        ("1".to_string(), Some("010203".to_string())),
        ("two".to_string(), Some("010203".to_string())),
        ("3".to_string(), None),
    ];
    assert_eq!(
        parse_error(profile_keys(&members)),
        "parsing key index two, err=invalid digit found in string"
    );
    let members = vec![
        ("1".to_string(), Some("010203".to_string())),
        ("+5".to_string(), Some("A0b0C0".to_string())),
    ];
    assert_eq!(
        profile_keys(&members).unwrap(),
        vec![
            ProfileKey::new(1, OwnRGB8::new(1, 2, 3)),
            ProfileKey::new(5, OwnRGB8::new(0xA0, 0xB0, 0xC0)),
        ]
    );
}

#[test]
fn key_index_from_text() {
    assert_eq!(parse_index("0"), Ok(0));
    assert_eq!(parse_index("125"), Ok(125));
    assert_eq!(parse_index("+17"), Ok(17));
    assert_eq!(parse_index("007"), Ok(7));
    assert_eq!(parse_index(&usize::MAX.to_string()), Ok(usize::MAX));
    assert_eq!(parse_index(""), Err(IndexFault::Empty));
    assert_eq!(parse_index("+"), Err(IndexFault::InvalidDigit));
    assert_eq!(parse_index("-"), Err(IndexFault::InvalidDigit));
    assert_eq!(parse_index("1 "), Err(IndexFault::InvalidDigit));
    assert_eq!(parse_index("１"), Err(IndexFault::InvalidDigit));
    assert_eq!(parse_index("18446744073709551616"), Err(IndexFault::TooLarge));
}

#[test]
fn key_index_is_read_from_the_left() {
    // the digits overflow before the character that is no digit is reached
    assert_eq!(parse_index("99999999999999999999999999x"), Err(IndexFault::TooLarge));
    assert_eq!(parse_index("+18446744073709551616 "), Err(IndexFault::TooLarge));
    // the digits before the character that is no digit still fit
    assert_eq!(parse_index("18446744073709551615x"), Err(IndexFault::InvalidDigit));
    assert_eq!(parse_index("x99999999999999999999999999"), Err(IndexFault::InvalidDigit));
    assert_eq!(parse_index("1844674407370955161x6"), Err(IndexFault::InvalidDigit));
}

#[test]
fn key_index_agrees_with_the_standard_parser() {
    let texts = [
        "0",
        "125",
        "+17",
        "007",
        "",
        "+",
        "-",
        "1 ",
        " 1",
        "++1",
        "+-1",
        "-1",
        "18446744073709551615",
        "18446744073709551616",
        "000000000000000000000000000001",
        "99999999999999999999999999x",
        "18446744073709551615x",
        "x99999999999999999999999999",
        "12a",
        "１",
    ];
    for text in texts {
        let expected = match text.parse::<usize>() {
            Ok(value) => Ok(value),
            Err(err) => Err(match err.kind() {
                std::num::IntErrorKind::Empty => IndexFault::Empty,
                std::num::IntErrorKind::InvalidDigit => IndexFault::InvalidDigit,
                std::num::IntErrorKind::PosOverflow => IndexFault::TooLarge,
                other => panic!("unexpected kind {:?} for {:?}", other, text),
            }),
        };
        assert_eq!(parse_index(text), expected, "for {:?}", text);
    }
}

#[test]
fn color_from_hex_text() {
    assert_eq!(OwnRGB8::from_hex("ff8000").unwrap(), OwnRGB8::new(255, 128, 0));
    assert_eq!(OwnRGB8::from_hex("FF8000").unwrap(), OwnRGB8::new(255, 128, 0));
    assert_eq!(OwnRGB8::from_str("0a0B0c").unwrap(), OwnRGB8::new(10, 11, 12));
    assert!(OwnRGB8::from_hex("").is_err());
    assert!(OwnRGB8::from_hex("ff80").is_err());
    assert!(OwnRGB8::from_hex("ff800g").is_err());
    assert!(OwnRGB8::from_hex("äöü").is_err());
    assert_eq!(OwnRGB8::default(), OwnRGB8::new(0, 0, 0));
}

#[test]
fn numbers_as_decimal_text() {
    assert_eq!(usize_to_string(0), "0");
    assert_eq!(usize_to_string(9), "9");
    assert_eq!(usize_to_string(10), "10");
    assert_eq!(usize_to_string(126), "126");
    assert_eq!(usize_to_string(1234567890), "1234567890");
    assert_eq!(usize_to_string(usize::MAX), usize::MAX.to_string());
}
