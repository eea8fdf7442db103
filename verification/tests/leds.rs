use cherryrgb::{
    chunk_payloads, CherryRgbError, CustomKeyLeds, OwnRGB8, Payload, ProfileKey, ToVec,
    CHUNK_SIZE, TOTAL_KEYS,
};

fn invalid_argument(r: Result<(), CherryRgbError>) -> (String, String) {
    match r {
        Err(CherryRgbError::InvalidArgument(what, value)) => (what, value),
        other => panic!("unexpected result {:?}", other),
    }
}

#[test]
fn new_table_is_all_black() {
    let table = CustomKeyLeds::new();
    assert_eq!(table.len(), 126);
    assert_eq!(TOTAL_KEYS, 126);
    assert_eq!(table.to_vec(), vec![0u8; 378]);
    assert_eq!(CustomKeyLeds::default().to_vec(), vec![0u8; 378]);
    assert_eq!(table.get_led(0), Some(OwnRGB8::new(0, 0, 0)));
    assert_eq!(table.get_led(125), Some(OwnRGB8::new(0, 0, 0)));
    assert_eq!(table.get_led(126), None);
}

#[test]
fn set_led_is_reflected_in_serialization() {
    let mut table = CustomKeyLeds::new();
    table.set_led(0, OwnRGB8::new(1, 2, 3)).unwrap();
    table.set_led(42, OwnRGB8::new(0, 0xff, 0)).unwrap();
    table.set_led(125, OwnRGB8::new(7, 8, 9)).unwrap();
    let bytes = table.to_vec();
    let mut expected = vec![0u8; 378];
    expected[0] = 1;
    expected[1] = 2;
    expected[2] = 3;
    expected[127] = 0xff;
    expected[375] = 7;
    expected[376] = 8;
    expected[377] = 9;
    assert_eq!(bytes, expected);
    assert_eq!(table.len(), 126);
    assert_eq!(table.get_led(42), Some(OwnRGB8::new(0, 0xff, 0)));
}

#[test]
fn set_led_out_of_range_is_invalid_argument() {
    let mut table = CustomKeyLeds::new();
    table.set_led(5, OwnRGB8::new(5, 5, 5)).unwrap();
    let before = table.to_vec();
    let (what, value) = invalid_argument(table.set_led(126, OwnRGB8::new(1, 1, 1)));
    assert_eq!(what, "Key index out of bounds");
    assert_eq!(value, "126");
    let (_, value) = invalid_argument(table.set_led(usize::MAX, OwnRGB8::new(1, 1, 1)));
    assert_eq!(value, usize::MAX.to_string());
    assert_eq!(table.to_vec(), before);
    assert_eq!(table.len(), 126);
}

#[test]
fn from_leds_fills_up_with_black() {
    let table =
        CustomKeyLeds::from_leds(vec![OwnRGB8::new(1, 2, 3), OwnRGB8::new(4, 5, 6)]).unwrap();
    assert_eq!(table.len(), 126);
    let mut expected = vec![0u8; 378];
    expected[..6].copy_from_slice(&[1, 2, 3, 4, 5, 6]);
    assert_eq!(table.to_vec(), expected);

    let full = CustomKeyLeds::from_leds(vec![OwnRGB8::new(9, 9, 9); 126]).unwrap();
    assert_eq!(full.to_vec(), vec![9u8; 378]);
    let empty = CustomKeyLeds::from_leds(vec![]).unwrap();
    assert_eq!(empty.to_vec(), vec![0u8; 378]);
}

#[test]
fn from_leds_refuses_too_many() {
    match CustomKeyLeds::from_leds(vec![OwnRGB8::new(0, 0, 0); 127]) {
        Err(CherryRgbError::InvalidArgument(what, value)) => {
            assert_eq!(what, "Invalid number of key leds");
            assert_eq!(value, "127");
        }
        other => panic!("unexpected result {:?}", other),
    }
}

#[test]
fn payloads_of_the_table_are_seven_chunks() {
    let mut table = CustomKeyLeds::new();
    for index in 0..126 {
        table.set_led(index, OwnRGB8::new(index as u8, 0x80, 0xff - index as u8)).unwrap();
    }
    let flat = table.to_vec();
    let payloads = table.get_payloads().unwrap();
    assert_eq!(payloads.len(), 7);
    let mut joined: Vec<u8> = vec![];
    for (index, payload) in payloads.iter().enumerate() {
        match payload {
            Payload::SetCustomLED { data_offset, padding, key_leds_data } => {
                assert_eq!(*data_offset as usize, index * CHUNK_SIZE);
                assert_eq!(*data_offset as usize, joined.len());
                assert_eq!(*padding, 0);
                assert_eq!(key_leds_data.len(), if index < 6 { 56 } else { 42 });
                joined.extend_from_slice(key_leds_data);
            }
            other => panic!("unexpected payload {:?}", other),
        }
    }
    assert_eq!(joined, flat);
    // the header of the last chunk on the wire
    assert_eq!(payloads[6].to_vec()[..4], [0x2a, 0x50, 0x01, 0x00]);
    assert_eq!(payloads[5].to_vec()[..4], [0x38, 0x18, 0x01, 0x00]);
}

#[test]
fn chunks_of_other_lengths() {
    assert_eq!(chunk_payloads(&[]), vec![]);
    assert_eq!(
        chunk_payloads(&[1, 2, 3]),
        vec![Payload::SetCustomLED { data_offset: 0, padding: 0, key_leds_data: vec![1, 2, 3] }]
    );
    let data: Vec<u8> = (0..112).collect();
    let chunks = chunk_payloads(&data);
    assert_eq!(
        chunks,
        vec![
            Payload::SetCustomLED {
                data_offset: 0,
                padding: 0,
                key_leds_data: (0..56).collect()
            },
            Payload::SetCustomLED {
                data_offset: 56,
                padding: 0,
                key_leds_data: (56..112).collect()
            },
        ]
    );
    let data: Vec<u8> = (0..57).collect();
    let chunks = chunk_payloads(&data);
    assert_eq!(chunks.len(), 2);
    assert_eq!(
        chunks[1],
        Payload::SetCustomLED { data_offset: 56, padding: 0, key_leds_data: vec![56] }
    );
}

#[test]
fn table_from_profile() {
    let keys = vec![
        ProfileKey::new(0, OwnRGB8::new(255, 0, 0)),
        ProfileKey::new(2, OwnRGB8::new(0, 0, 255)),
        ProfileKey::new(0, OwnRGB8::new(1, 1, 1)),
    ];
    let table = CustomKeyLeds::from_profile(keys).unwrap();
    assert_eq!(table.get_led(0), Some(OwnRGB8::new(1, 1, 1)));
    assert_eq!(table.get_led(1), Some(OwnRGB8::new(0, 0, 0)));
    assert_eq!(table.get_led(2), Some(OwnRGB8::new(0, 0, 255)));
    assert_eq!(table.len(), 126);
}

#[test]
fn table_from_profile_refuses_first_bad_key() {
    let keys = vec![
        ProfileKey::new(1, OwnRGB8::new(255, 0, 0)),
        ProfileKey::new(300, OwnRGB8::new(0, 0, 255)),
        ProfileKey::new(126, OwnRGB8::new(1, 1, 1)),
    ];
    match CustomKeyLeds::from_profile(keys) {
        Err(CherryRgbError::InvalidArgument(what, value)) => {
            assert_eq!(what, "Key index out of bounds");
            assert_eq!(value, "300");
        }
        other => panic!("unexpected result {:?}", other),
    }
}

#[test]
fn profile_key_holds_its_fields() {
    let key = ProfileKey::new(17, OwnRGB8::new(1, 2, 3));
    assert_eq!(key.key_index, 17);
    assert_eq!(key.rgb_value, OwnRGB8 { r: 1, g: 2, b: 3 });
    assert_eq!(key, ProfileKey { key_index: 17, rgb_value: OwnRGB8::new(1, 2, 3) });
}
