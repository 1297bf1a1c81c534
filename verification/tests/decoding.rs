use bunk::Checksum;
use bunk::InvalidData;
use bunk::decode_with_settings;

#[test]
fn outliers() {
    let test = |input| {
        decode_with_settings(input, Checksum::Disabled).unwrap();
    };
    test("uuuuuuuuuuu");
    test("u  u  u  u  u  u  u  u  u  u  u  ");
    test("sive123sive@tive  😀😀😀😀 son👀");
}

#[test]
fn syllable_err() {
    let test = |input| {
        let result = decode_with_settings(input, Checksum::Disabled);
        assert_eq!(result, Err(InvalidData::Syllable));
    };
    test("😀");
    test("b");
    test("siv");
    test("faevlesa");
}

#[test]
fn too_short_err() {
    let test = |input, checksum| {
        let result = decode_with_settings(input, checksum);
        assert_eq!(result, Err(InvalidData::TooShort));
    };
    test("", Checksum::Length1);
    test("sive", Checksum::Length2);
    test("uu", Checksum::Length3);
}

#[test]
fn stray_characters_are_skipped() {
    let noisy = decode_with_settings("sive123sive@tive  😀😀😀😀 son👀", Checksum::Disabled);
    let stripped = decode_with_settings("sivesivetiveson", Checksum::Disabled);
    assert_eq!(noisy, stripped);
    assert_eq!(noisy, Ok(vec![254, 89, 177, 88]));
}

#[test]
fn empty_string_decodes_by_setting() {
    assert_eq!(decode_with_settings("", Checksum::Disabled), Ok(vec![]));
    assert_eq!(decode_with_settings("", Checksum::Length1), Err(InvalidData::TooShort));
    assert_eq!(decode_with_settings("", Checksum::Length2), Err(InvalidData::TooShort));
    assert_eq!(decode_with_settings("", Checksum::Length3), Err(InvalidData::TooShort));
    assert_eq!(decode_with_settings("", Checksum::Length4), Err(InvalidData::TooShort));
}

#[test]
fn checksum_mismatch_err() {
    // two syllables whose trailing byte is not the digest of the leading one
    assert_eq!(decode_with_settings("uu", Checksum::Length1), Err(InvalidData::Checksum));
    // a corrupted letter inside a payload syllable
    let corrupt = "zuxunhu monkosyu ninsizesu tungesrin pojuncos";
    assert_eq!(decode_with_settings(corrupt, Checksum::Length4), Err(InvalidData::Checksum));
    // a corrupted first letter
    let corrupt = "yuxunhu monkosyu ninsivesu tungesrin pojuncos";
    assert_eq!(decode_with_settings(corrupt, Checksum::Length4), Err(InvalidData::Checksum));
}

#[test]
fn checksum_catches_corpus_corruption() {
    let corpus: [&[u8]; 4] = [b"hello world", b"a", &[0, 1, 2, 3, 4, 5, 6, 7], &[255, 0, 128]];
    for data in corpus {
        let settings = bunk::Settings {
            checksum: Checksum::Length4,
            ..Default::default()
        };
        let encoded = bunk::encode_with_settings(data, settings);
        for (i, ch) in encoded.char_indices() {
            if !ch.is_ascii_alphabetic() {
                continue;
            }
            let replacement = if ch == 'z' { 'y' } else { 'z' };
            let mut corrupted: Vec<char> = encoded.chars().collect();
            corrupted[i] = replacement;
            let corrupted: String = corrupted.into_iter().collect();
            let result = decode_with_settings(&corrupted, Checksum::Length4);
            assert!(result.is_err(), "{corrupted} decoded to {result:?}");
        }
    }
}
