use formant_tts::phoneme::Phoneme;
use formant_tts::render::noise_at;
use formant_tts::render::quantize;
use formant_tts::render::recipe_for;
use formant_tts::render::vibrato_enabled;
use formant_tts::render::Recipe;
use formant_tts::render::Resonance;
use formant_tts::voice::VoiceParameters;

#[test]
fn vowel_recipe() {
    assert_eq!(
        recipe_for(Phoneme::Vowel { f1: 730, f2: 1090, f3: 2440 }),
        Recipe::Voiced {
            first: Resonance { freq: 730, gain_tenths: 8 },
            second: Resonance { freq: 1090, gain_tenths: 6 },
            third: Some(Resonance { freq: 2440, gain_tenths: 4 }),
            scale_tenths: 10,
            breathy: true,
        }
    );
}

#[test]
fn other_voiced_recipes() {
    assert_eq!(
        recipe_for(Phoneme::Nasal { f1: 280, f2: 1650 }),
        Recipe::Voiced {
            first: Resonance { freq: 280, gain_tenths: 6 },
            second: Resonance { freq: 1650, gain_tenths: 4 },
            third: None,
            scale_tenths: 8,
            breathy: false,
        }
    );
    assert_eq!(
        recipe_for(Phoneme::Liquid { f1: 400, f2: 1200, f3: 2600 }),
        Recipe::Voiced {
            first: Resonance { freq: 400, gain_tenths: 7 },
            second: Resonance { freq: 1200, gain_tenths: 5 },
            third: Some(Resonance { freq: 2600, gain_tenths: 3 }),
            scale_tenths: 7,
            breathy: false,
        }
    );
    assert_eq!(
        recipe_for(Phoneme::Glide { f1: 300, f2: 610, f3: 2200 }),
        Recipe::Voiced {
            first: Resonance { freq: 300, gain_tenths: 6 },
            second: Resonance { freq: 610, gain_tenths: 4 },
            third: Some(Resonance { freq: 2200, gain_tenths: 3 }),
            scale_tenths: 6,
            breathy: false,
        }
    );
}

#[test]
fn noise_recipes() {
    assert_eq!(
        recipe_for(Phoneme::Fricative { freq: 6000, intensity_tenths: 7 }),
        Recipe::Noise { center: 6000, gain_hundredths: 35 }
    );
    assert_eq!(
        recipe_for(Phoneme::Fricative { freq: 1, intensity_tenths: u32::MAX }),
        Recipe::Noise { center: 1, gain_hundredths: 21_474_836_475 }
    );
    assert_eq!(
        recipe_for(Phoneme::Stop { burst_freq: 2500, duration_ms: 40 }),
        Recipe::Noise { center: 2500, gain_hundredths: 70 }
    );
    assert_eq!(
        recipe_for(Phoneme::Consonant { freq: 1500 }),
        Recipe::Noise { center: 1500, gain_hundredths: 40 }
    );
}

#[test]
fn silent_recipes() {
    assert_eq!(recipe_for(Phoneme::Silence), Recipe::Silent);
    assert_eq!(recipe_for(Phoneme::Pause), Recipe::Silent);
    assert_eq!(recipe_for(Phoneme::ShortPause), Recipe::Silent);
    assert_eq!(recipe_for(Phoneme::Transition), Recipe::Silent);
}

#[test]
fn vibrato_needs_a_rate_above_a_tenth() {
    let mut p = VoiceParameters {
        base_frequency: 180_000_000,
        formant_shift: 1_100_000,
        breathiness: 300_000,
        vibrato_rate: 100_000,
    };
    assert!(!vibrato_enabled(&p));
    p.vibrato_rate = 100_001;
    assert!(vibrato_enabled(&p));
    p.vibrato_rate = 0;
    assert!(!vibrato_enabled(&p));
}

#[test]
fn noise_values() {
    assert_eq!(noise_at(0), -65537);
    assert_eq!(noise_at(1), -65533);
    assert_eq!(noise_at(32768), 65535);
    assert_eq!(noise_at(32769), -65535);
    assert_eq!(noise_at(65537), -65537);
    assert_eq!(noise_at(65537 + 12345), noise_at(12345));
    assert_eq!(noise_at(usize::MAX), 2 * ((2 * (usize::MAX as u128)) % 65537) as i64 - 65537);
}

#[test]
fn quantize_clamps() {
    assert_eq!(quantize(0), 0);
    assert_eq!(quantize(123), 123);
    assert_eq!(quantize(-123), -123);
    assert_eq!(quantize(32767), 32767);
    assert_eq!(quantize(32768), 32767);
    assert_eq!(quantize(-32768), -32768);
    assert_eq!(quantize(-32769), -32768);
    assert_eq!(quantize(i64::MAX), 32767);
    assert_eq!(quantize(i64::MIN), -32768);
}
