use rand::RngCore;
use rand::SeedableRng;
use rand::rngs::SmallRng;
use bunk::Checksum;
use bunk::Settings;

fn round_trip(data: &[u8], settings: Settings) {
    let encoded = bunk::encode_with_settings(data, settings);
    let decoded = bunk::decode_with_settings(&encoded, settings.checksum);
    assert_eq!(decoded.as_deref(), Ok(data), "{data:?}, {settings:?}");
}

const CHECKSUMS: [Checksum; 5] = [
    Checksum::Disabled,
    Checksum::Length1,
    Checksum::Length2,
    Checksum::Length3,
    Checksum::Length4,
];

fn stress(n: usize) {
    let max_words = [None, Some(1), Some(2), Some(3), Some(10), Some(11)];
    let decorates = [true, false];
    let sizes = [0, 1, 2, 3, 10, 16, 30, 31, 32, 64, 100, 250, 509, 510];

    let stress_settings = |data: &[u8]| {
        for checksum in CHECKSUMS {
            for max_word in max_words {
                for decorate in decorates {
                    let settings = Settings {
                        checksum,
                        word_len: max_word,
                        decorate,
                    };
                    round_trip(data, settings);
                }
            }
        }
    };
    let mut rng = SmallRng::seed_from_u64(7502546294857623797);

    for size in sizes {
        for _ in 0..n {
            let mut data = vec![0; size];
            rng.fill_bytes(&mut data);

            stress_settings(&data);
        }
    }
}

#[test]
fn stress_medium() {
    stress(500);
}

#[test]
fn round_trips_across_settings() {
    let mut rng = SmallRng::seed_from_u64(42);
    for size in [0usize, 1, 2, 3, 10, 16, 32, 100, 250] {
        let mut data = vec![0; size];
        rng.fill_bytes(&mut data);
        for checksum in CHECKSUMS {
            for word_len in [None, Some(1), Some(3), Some(255)] {
                for decorate in [false, true] {
                    let settings = Settings {
                        checksum,
                        word_len,
                        decorate,
                    };
                    round_trip(&data, settings);
                }
            }
        }
    }
}

#[test]
fn low_entropy_round_trips() {
    for byte in [0u8, 1, 97, 255] {
        for len in [1usize, 2, 255, 256, 257] {
            let data = vec![byte; len];
            round_trip(&data, Settings::default());
        }
    }
}
