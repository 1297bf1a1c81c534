use bunk::Checksum;
use bunk::Settings;
use bunk::encode;
use bunk::encode_with_settings;
use bunk::decode_with_settings;
use bunk::syllables::char_follows;
use bunk::syllables::get;
use bunk::decode::longest_prefix_of;

fn no_checksum() -> Settings {
    Settings {
        checksum: Checksum::Disabled,
        ..Default::default()
    }
}

#[test]
fn empty_input_encodes_to_empty_string() {
    assert_eq!(encode_with_settings(&[], no_checksum()), "");
}

#[test]
fn entropy_transform_is_engaged() {
    // all-zero input must not encode as the first syllable repeated
    let encoded = encode_with_settings(&[0, 0, 0, 0], no_checksum());
    let repeated: String = std::iter::repeat("a").take(4).collect();
    assert_ne!(encoded, repeated);
    assert_eq!(encoded, "arinto las");
}

#[test]
fn known_encodings() {
    assert_eq!(encode(b"aftersun"), "yixonno kunjoslo nuntivenin");
    assert_eq!(encode_with_settings(&[1, 2, 3], Settings::default()), "eranti sen");
    let settings = Settings {
        checksum: Checksum::Length4,
        ..Default::default()
    };
    assert_eq!(
        encode_with_settings(b"hello world", settings),
        "zuxunhu monkosyu ninsivesu tungesrin pojuncos",
    );
}

#[test]
fn decorated_encoding() {
    let data: Vec<u8> = (0..20).collect();
    let settings = Settings {
        checksum: Checksum::Length4,
        decorate: true,
        ..Default::default()
    };
    let encoded = encode_with_settings(&data, settings);
    assert_eq!(
        encoded,
        "Arente lesminsa, jesmanlo, cuskanjo desdonku yonyebe, sindone mo, nufan.",
    );
    let decoded = decode_with_settings(&encoded, Checksum::Length4);
    assert_eq!(decoded, Ok(data));
}

#[test]
fn every_byte_has_its_own_syllable() {
    // each single byte encodes as one syllable that decodes back to it,
    // and no two bytes share a syllable
    let mut seen: Vec<String> = Vec::new();
    for b in 0..=255u8 {
        let encoded = encode_with_settings(&[b], no_checksum());
        assert_eq!(decode_with_settings(&encoded, Checksum::Disabled), Ok(vec![b]));
        assert!(!seen.contains(&encoded), "{encoded} stands for two bytes");
        seen.push(encoded);
    }
}

#[test]
fn syllable_lookup() {
    assert_eq!(get(0), b"a".to_vec());
    assert_eq!(get(4), b"u".to_vec());
    assert_eq!(get(173), b"son".to_vec());
    assert_eq!(get(254), b"sive".to_vec());
    assert_eq!(get(255), b"tive".to_vec());
}

#[test]
fn longest_prefix_lookup() {
    assert_eq!(longest_prefix_of("sive"), Some((254, 4)));
    // case folds, and the walk stops at the first failing letter
    assert_eq!(longest_prefix_of("Sivexx"), Some((254, 4)));
    assert_eq!(longest_prefix_of("siv"), None);
    assert_eq!(longest_prefix_of(""), None);
}

#[test]
fn continuation_check() {
    // 'v' continues "si" towards "sive"; nothing continues the leaf "u"
    assert!(char_follows(b'v', b"si"));
    assert!(!char_follows(b'x', b"u"));
    assert!(!char_follows(b'u', b"u"));
}
