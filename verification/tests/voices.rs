use formant_tts::voice::decode_words;
use formant_tts::voice::default_embedding;
use formant_tts::voice::derive_parameters;
use formant_tts::voice::resolve_voice;
use formant_tts::voice::derive_voice_parameters;
use formant_tts::voice::Voice;
use formant_tts::voice::VoiceParameters;

fn voice(id: &str, embedding: Vec<i32>) -> Voice {
    Voice { id: id.to_string(), embedding }
}

fn table() -> Vec<Voice> {
    vec![
        voice("bm_george", vec![100_000, 200_000, 300_000, 400_000]),
        voice("af", vec![1_000_000, 1_000_000, 1_000_000, 1_000_000]),
        voice("af_sarah_v2", vec![0, 0, 0, 0]),
        voice("af_sky", vec![-250_000, -500_000, -700_000, -20_000]),
    ]
}

#[test]
fn exact_identifier_wins() {
    assert_eq!(resolve_voice(&table(), "af"), Some(1));
    assert_eq!(resolve_voice(&table(), "af_sky"), Some(3));
    assert_eq!(resolve_voice(&table(), "bm_george"), Some(0));
}

#[test]
fn unknown_identifier_containing_a_known_one() {
    assert_eq!(resolve_voice(&table(), "af_sarah"), Some(1));
    let only = vec![voice("zz", vec![]), voice("af", vec![])];
    assert_eq!(resolve_voice(&only, "af_sarah"), Some(1));
}

#[test]
fn unknown_identifier_contained_in_a_known_one() {
    assert_eq!(resolve_voice(&table(), "george"), Some(0));
    assert_eq!(resolve_voice(&table(), "sarah_v"), Some(2));
    assert_eq!(resolve_voice(&table(), ""), Some(0));
}

#[test]
fn unrelated_identifier_takes_the_first_voice() {
    assert_eq!(resolve_voice(&table(), "xyz"), Some(0));
    let only = vec![voice("zz", vec![]), voice("af", vec![])];
    assert_eq!(resolve_voice(&only, "q"), Some(0));
}

#[test]
fn empty_table_resolves_to_nothing() {
    assert_eq!(resolve_voice(&Vec::new(), "af"), None);
}

#[test]
fn resolution_is_repeatable() {
    let voices = table();
    for id in ["af", "af_sarah", "george", "xyz", ""] {
        assert_eq!(resolve_voice(&voices, id), resolve_voice(&voices, id));
        assert_eq!(derive_voice_parameters(id, &voices), derive_voice_parameters(id, &voices));
    }
}

#[test]
fn parameters_of_the_half_embedding() {
    let mut embedding = vec![500_000, 500_000, 300_000, 100_000];
    embedding.resize(256, 0);
    let p = derive_parameters(&embedding);
    assert_eq!(p.base_frequency, 180_000_000);
    assert_eq!(p.formant_shift, 1_100_000);
    assert_eq!(p.breathiness, 300_000);
    assert_eq!(p.vibrato_rate, 500_000);
}

#[test]
fn parameters_take_magnitudes() {
    let p = derive_parameters(&vec![-250_000, -500_000, -700_000, -20_000]);
    assert_eq!(
        p,
        VoiceParameters {
            base_frequency: 130_000_000,
            formant_shift: 1_100_000,
            breathiness: 500_000,
            vibrato_rate: 100_000,
        }
    );
}

#[test]
fn parameters_of_short_embeddings_use_defaults() {
    let defaults = VoiceParameters {
        base_frequency: 180_000_000,
        formant_shift: 1_100_000,
        breathiness: 300_000,
        vibrato_rate: 500_000,
    };
    assert_eq!(derive_parameters(&Vec::new()), defaults);
    let p = derive_parameters(&vec![1_000_000, 0]);
    assert_eq!(p.base_frequency, 280_000_000);
    assert_eq!(p.formant_shift, 800_000);
    assert_eq!(p.breathiness, 300_000);
    assert_eq!(p.vibrato_rate, 500_000);
}

#[test]
fn parameters_at_the_limits() {
    let p = derive_parameters(&vec![i32::MIN, i32::MAX, i32::MIN, i32::MAX]);
    assert_eq!(p.base_frequency, 80_000_000 + 2_147_483_648 * 200);
    assert_eq!(p.formant_shift, 800_000 + 2_147_483_647 * 6 / 10);
    assert_eq!(p.breathiness, 500_000);
    assert_eq!(p.vibrato_rate, 2_147_483_647 * 5);
    let q = derive_parameters(&vec![0, 333_333, 499_999, 1]);
    assert_eq!(q.base_frequency, 80_000_000);
    assert_eq!(q.formant_shift, 999_999);
    assert_eq!(q.breathiness, 499_999);
    assert_eq!(q.vibrato_rate, 5);
}

#[test]
fn default_embedding_is_all_halves() {
    let embedding = default_embedding();
    assert_eq!(embedding, vec![500_000; 256]);
}

#[test]
fn voice_parameters_follow_the_resolution() {
    let voices = table();
    assert_eq!(derive_voice_parameters("af", &voices).base_frequency, 280_000_000);
    assert_eq!(derive_voice_parameters("af_sarah", &voices).base_frequency, 280_000_000);
    assert_eq!(derive_voice_parameters("sarah", &voices).base_frequency, 80_000_000);
    assert_eq!(derive_voice_parameters("xyz", &voices).base_frequency, 100_000_000);
    assert_eq!(
        derive_voice_parameters("af", &Vec::new()),
        VoiceParameters {
            base_frequency: 180_000_000,
            formant_shift: 1_100_000,
            breathiness: 500_000,
            vibrato_rate: 2_500_000,
        }
    );
}

#[test]
fn words_are_little_endian() {
    assert_eq!(decode_words(&vec![1, 2, 3, 4]), vec![0x0403_0201]);
    assert_eq!(decode_words(&vec![0, 0, 0, 0x3f]), vec![0.5f32.to_bits()]);
    assert_eq!(
        decode_words(&vec![0xff, 0xff, 0xff, 0xff, 0, 0, 0x80, 0x3f, 9, 9, 9]),
        vec![u32::MAX, 1.0f32.to_bits()]
    );
    assert_eq!(decode_words(&vec![1, 2, 3]), Vec::<u32>::new());
    assert_eq!(decode_words(&Vec::new()), Vec::<u32>::new());
}

#[test]
fn words_agree_with_std() {
    let bytes: Vec<u8> = (0..=255u8).rev().collect();
    let expected: Vec<u32> = bytes
        .chunks_exact(4)
        .map(|c| u32::from_le_bytes([c[0], c[1], c[2], c[3]]))
        .collect();
    assert_eq!(decode_words(&bytes), expected);
}

#[test]
fn exact_match_does_not_depend_on_position() {
    let mut voices = table();
    voices.reverse();
    assert_eq!(resolve_voice(&voices, "af"), Some(2));
    assert_eq!(derive_voice_parameters("af", &voices), derive_voice_parameters("af", &table()));
}
