use formant_tts::phoneme::is_whitespace_char;
use formant_tts::phoneme::phoneme_for_char;
use formant_tts::phoneme::transcribe;
use formant_tts::phoneme::transcribe_lowered;
use formant_tts::phoneme::Phoneme;

#[test]
fn transcribe_empty_text_is_empty() {
    assert_eq!(transcribe(""), Vec::<Phoneme>::new());
    assert_eq!(transcribe_lowered(""), Vec::<Phoneme>::new());
}

#[test]
fn transcribe_hi_with_full_stop() {
    let expected = vec![
        Phoneme::Fricative { freq: 2000, intensity_tenths: 4 },
        Phoneme::Transition,
        Phoneme::Vowel { f1: 390, f2: 1990, f3: 2550 },
        Phoneme::Transition,
        Phoneme::Pause,
    ];
    assert_eq!(transcribe("hi."), expected);
}

#[test]
fn transcribe_ignores_case() {
    assert_eq!(transcribe("HI."), transcribe("hi."));
    assert_eq!(
        transcribe("A"),
        vec![Phoneme::Vowel { f1: 730, f2: 1090, f3: 2440 }, Phoneme::Transition]
    );
}

#[test]
fn transcribe_lowered_does_not_fold_case() {
    assert_eq!(
        transcribe_lowered("A"),
        vec![Phoneme::Consonant { freq: 1500 }, Phoneme::Transition]
    );
}

#[test]
fn breaks_take_no_transition() {
    assert_eq!(
        transcribe("a, b!"),
        vec![
            Phoneme::Vowel { f1: 730, f2: 1090, f3: 2440 },
            Phoneme::Transition,
            Phoneme::ShortPause,
            Phoneme::Silence,
            Phoneme::Stop { burst_freq: 1500, duration_ms: 50 },
            Phoneme::Transition,
            Phoneme::Pause,
        ]
    );
    assert_eq!(transcribe("?"), vec![Phoneme::Pause]);
}

#[test]
fn every_whitespace_is_silence() {
    assert_eq!(
        transcribe(" \t\n\u{a0}\u{3000}"),
        vec![Phoneme::Silence; 5]
    );
    assert!(is_whitespace_char('\u{2003}'));
    assert!(!is_whitespace_char('\u{200b}'));
    assert!(!is_whitespace_char('a'));
}

#[test]
fn whitespace_agrees_with_std_on_every_char() {
    let mut code: u32 = 0;
    while code <= 0x10ffff {
        if let Some(c) = char::from_u32(code) {
            assert_eq!(is_whitespace_char(c), c.is_whitespace());
        }
        code += 1;
    }
}

#[test]
fn symbol_table() {
    assert_eq!(phoneme_for_char('e'), Phoneme::Vowel { f1: 270, f2: 2290, f3: 3010 });
    assert_eq!(phoneme_for_char('o'), Phoneme::Vowel { f1: 570, f2: 840, f3: 2410 });
    assert_eq!(phoneme_for_char('u'), Phoneme::Vowel { f1: 440, f2: 1020, f3: 2240 });
    assert_eq!(phoneme_for_char('p'), Phoneme::Stop { burst_freq: 1500, duration_ms: 50 });
    assert_eq!(phoneme_for_char('d'), Phoneme::Stop { burst_freq: 2500, duration_ms: 40 });
    assert_eq!(phoneme_for_char('t'), Phoneme::Stop { burst_freq: 2500, duration_ms: 40 });
    assert_eq!(phoneme_for_char('g'), Phoneme::Stop { burst_freq: 3000, duration_ms: 60 });
    assert_eq!(phoneme_for_char('k'), Phoneme::Stop { burst_freq: 3000, duration_ms: 60 });
    assert_eq!(phoneme_for_char('s'), Phoneme::Fricative { freq: 6000, intensity_tenths: 7 });
    assert_eq!(phoneme_for_char('f'), Phoneme::Fricative { freq: 4000, intensity_tenths: 6 });
    assert_eq!(phoneme_for_char('z'), Phoneme::Fricative { freq: 5500, intensity_tenths: 6 });
    assert_eq!(phoneme_for_char('n'), Phoneme::Nasal { f1: 280, f2: 1650 });
    assert_eq!(phoneme_for_char('m'), Phoneme::Nasal { f1: 250, f2: 1100 });
    assert_eq!(phoneme_for_char('l'), Phoneme::Liquid { f1: 400, f2: 1200, f3: 2600 });
    assert_eq!(phoneme_for_char('r'), Phoneme::Liquid { f1: 300, f2: 1300, f3: 1600 });
    assert_eq!(phoneme_for_char('w'), Phoneme::Glide { f1: 300, f2: 610, f3: 2200 });
    assert_eq!(phoneme_for_char('y'), Phoneme::Glide { f1: 235, f2: 2100, f3: 3200 });
    assert_eq!(phoneme_for_char('c'), Phoneme::Consonant { freq: 1500 });
    assert_eq!(phoneme_for_char('7'), Phoneme::Consonant { freq: 1500 });
    assert_eq!(phoneme_for_char('-'), Phoneme::Consonant { freq: 1500 });
}

#[test]
fn silent_symbols() {
    assert!(Phoneme::Silence.is_break());
    assert!(Phoneme::Pause.is_break());
    assert!(Phoneme::ShortPause.is_break());
    assert!(!Phoneme::Transition.is_break());
    assert!(Phoneme::Transition.is_silent());
    assert!(!Phoneme::Consonant { freq: 1500 }.is_silent());
}

#[test]
fn transcription_length_bounds() {
    let text = "the quick brown fox, jumps!";
    let n = text.chars().count();
    let len = transcribe(text).len();
    assert!(n <= len && len <= 2 * n);
    assert_eq!(len, 48);
}

#[test]
fn transcription_of_concatenation() {
    let mut joined = transcribe("hello, ");
    joined.extend(transcribe("world."));
    assert_eq!(transcribe("hello, world."), joined);
}
