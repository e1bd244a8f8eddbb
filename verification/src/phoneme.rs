//! Phonetic symbols and the transcription of text into them.

use vstd::prelude::*;
use vstd::std_specs::iter::IteratorSpec;

verus! {

/// One unit of the synthesis timeline, with the resonance or noise
/// parameters that rendering needs. Frequencies are in hertz.
#[derive(Clone, Copy, Debug, PartialEq, Eq, Structural)]
pub enum Phoneme {
    Vowel { f1: u32, f2: u32, f3: u32 },
    /// `intensity_tenths` is the noise intensity in tenths.
    Fricative { freq: u32, intensity_tenths: u32 },
    /// `duration_ms` is the burst duration in milliseconds.
    Stop { burst_freq: u32, duration_ms: u32 },
    Nasal { f1: u32, f2: u32 },
    Liquid { f1: u32, f2: u32, f3: u32 },
    Glide { f1: u32, f2: u32, f3: u32 },
    Consonant { freq: u32 },
    Silence,
    Pause,
    ShortPause,
    Transition,
}

/// The characters with the Unicode property `White_Space`.
pub open spec fn is_whitespace(c: char) -> bool {
    ||| '\u{9}' <= c <= '\u{d}'
    ||| c == ' '
    ||| c == '\u{85}'
    ||| c == '\u{a0}'
    ||| c == '\u{1680}'
    ||| '\u{2000}' <= c <= '\u{200a}'
    ||| c == '\u{2028}'
    ||| c == '\u{2029}'
    ||| c == '\u{202f}'
    ||| c == '\u{205f}'
    ||| c == '\u{3000}'
}

/// The symbol that one lower-case character stands for.
pub open spec fn symbol_of(c: char) -> Phoneme {
    if c == 'a' {
        Phoneme::Vowel { f1: 730, f2: 1090, f3: 2440 }
    } else if c == 'e' {
        Phoneme::Vowel { f1: 270, f2: 2290, f3: 3010 }
    } else if c == 'i' {
        Phoneme::Vowel { f1: 390, f2: 1990, f3: 2550 }
    } else if c == 'o' {
        Phoneme::Vowel { f1: 570, f2: 840, f3: 2410 }
    } else if c == 'u' {
        Phoneme::Vowel { f1: 440, f2: 1020, f3: 2240 }
    } else if c == 'b' || c == 'p' {
        Phoneme::Stop { burst_freq: 1500, duration_ms: 50 }
    } else if c == 'd' || c == 't' {
        Phoneme::Stop { burst_freq: 2500, duration_ms: 40 }
    } else if c == 'g' || c == 'k' {
        Phoneme::Stop { burst_freq: 3000, duration_ms: 60 }
    } else if c == 's' {
        Phoneme::Fricative { freq: 6000, intensity_tenths: 7 }
    } else if c == 'f' {
        Phoneme::Fricative { freq: 4000, intensity_tenths: 6 }
    } else if c == 'h' {
        Phoneme::Fricative { freq: 2000, intensity_tenths: 4 }
    } else if c == 'z' {
        Phoneme::Fricative { freq: 5500, intensity_tenths: 6 }
    } else if c == 'n' {
        Phoneme::Nasal { f1: 280, f2: 1650 }
    } else if c == 'm' {
        Phoneme::Nasal { f1: 250, f2: 1100 }
    } else if c == 'l' {
        Phoneme::Liquid { f1: 400, f2: 1200, f3: 2600 }
    } else if c == 'r' {
        Phoneme::Liquid { f1: 300, f2: 1300, f3: 1600 }
    } else if c == 'w' {
        Phoneme::Glide { f1: 300, f2: 610, f3: 2200 }
    } else if c == 'y' {
        Phoneme::Glide { f1: 235, f2: 2100, f3: 3200 }
    } else if is_whitespace(c) {
        Phoneme::Silence
    } else if c == '.' || c == '!' || c == '?' {
        Phoneme::Pause
    } else if c == ',' {
        Phoneme::ShortPause
    } else {
        Phoneme::Consonant { freq: 1500 }
    }
}

/// The symbols after which no transition is inserted.
pub open spec fn is_break(p: Phoneme) -> bool {
    p is Silence || p is Pause || p is ShortPause
}

/// What one character contributes to a phoneme sequence: its symbol, and
/// a transition behind it unless the symbol is a break.
pub open spec fn symbols_of(c: char) -> Seq<Phoneme> {
    if is_break(symbol_of(c)) {
        seq![symbol_of(c)]
    } else {
        seq![symbol_of(c), Phoneme::Transition]
    }
}

/// The phoneme sequence of a lower-case text, character by character.
pub open spec fn transcription(chars: Seq<char>) -> Seq<Phoneme>
    decreases chars.len(),
{
    if chars.len() == 0 {
        Seq::empty()
    } else {
        transcription(chars.drop_last()) + symbols_of(chars.last())
    }
}

/// The lower-case form of a text, as `str::to_lowercase` gives it.
pub uninterp spec fn lowercase_of(text: Seq<char>) -> Seq<char>;

impl Phoneme {
    /// Whether the symbol is a break: silence or one of the two pauses.
    pub fn is_break(&self) -> (b: bool)
        ensures
            b == is_break(*self),
    {
        match self {
            Phoneme::Silence => true,
            Phoneme::Pause => true,
            Phoneme::ShortPause => true,
            _ => false,
        }
    }

    /// Whether rendering the symbol gives exactly zero amplitude.
    pub fn is_silent(&self) -> (b: bool)
        ensures
            b == (is_break(*self) || *self is Transition),
    {
        match self {
            Phoneme::Silence => true,
            Phoneme::Pause => true,
            Phoneme::ShortPause => true,
            Phoneme::Transition => true,
            _ => false,
        }
    }
}

/// Tells whether a character has the Unicode property `White_Space`.
pub fn is_whitespace_char(c: char) -> (b: bool)
    ensures
        b == is_whitespace(c),
{
    ('\u{9}' <= c && c <= '\u{d}') || c == ' ' || c == '\u{85}' || c == '\u{a0}' || c == '\u{1680}'
        || ('\u{2000}' <= c && c <= '\u{200a}') || c == '\u{2028}' || c == '\u{2029}' || c
        == '\u{202f}' || c == '\u{205f}' || c == '\u{3000}'
}

/// Maps one lower-case character to its symbol.
pub fn phoneme_for_char(c: char) -> (p: Phoneme)
    ensures
        p == symbol_of(c),
{
    match c {
        'a' => Phoneme::Vowel { f1: 730, f2: 1090, f3: 2440 },
        'e' => Phoneme::Vowel { f1: 270, f2: 2290, f3: 3010 },
        'i' => Phoneme::Vowel { f1: 390, f2: 1990, f3: 2550 },
        'o' => Phoneme::Vowel { f1: 570, f2: 840, f3: 2410 },
        'u' => Phoneme::Vowel { f1: 440, f2: 1020, f3: 2240 },
        'b' | 'p' => Phoneme::Stop { burst_freq: 1500, duration_ms: 50 },
        'd' | 't' => Phoneme::Stop { burst_freq: 2500, duration_ms: 40 },
        'g' | 'k' => Phoneme::Stop { burst_freq: 3000, duration_ms: 60 },
        's' => Phoneme::Fricative { freq: 6000, intensity_tenths: 7 },
        'f' => Phoneme::Fricative { freq: 4000, intensity_tenths: 6 },
        'h' => Phoneme::Fricative { freq: 2000, intensity_tenths: 4 },
        'z' => Phoneme::Fricative { freq: 5500, intensity_tenths: 6 },
        'n' => Phoneme::Nasal { f1: 280, f2: 1650 },
        'm' => Phoneme::Nasal { f1: 250, f2: 1100 },
        'l' => Phoneme::Liquid { f1: 400, f2: 1200, f3: 2600 },
        'r' => Phoneme::Liquid { f1: 300, f2: 1300, f3: 1600 },
        'w' => Phoneme::Glide { f1: 300, f2: 610, f3: 2200 },
        'y' => Phoneme::Glide { f1: 235, f2: 2100, f3: 3200 },
        '.' | '!' | '?' => Phoneme::Pause,
        ',' => Phoneme::ShortPause,
        _ => {
            if is_whitespace_char(c) {
                Phoneme::Silence
            } else {
                Phoneme::Consonant { freq: 1500 }
            }
        },
    }
}

/// Calls `str::to_lowercase`. The result is the lower-case form of the
/// text; the empty text stays empty.
#[verifier::external_body]
fn lowercase(text: &str) -> (lowered: String)
    ensures
        lowered@ == lowercase_of(text@),
        text@.len() == 0 ==> lowered@.len() == 0,
{
    text.to_lowercase()
}

/// Transcribes a text that is already in lower case.
pub fn transcribe_lowered(lowered: &str) -> (phonemes: Vec<Phoneme>)
    ensures
        phonemes@ == transcription(lowered@),
{
    broadcast use vstd::string::group_string_axioms;

    let mut phonemes: Vec<Phoneme> = Vec::new();
    let mut chars = lowered.chars();
    let ghost mut done: int = 0;
    loop
        invariant
            0 <= done <= lowered@.len(),
            chars.obeys_prophetic_iter_laws(),
            chars.remaining() == lowered@.skip(done),
            phonemes@ == transcription(lowered@.take(done)),
        ensures
            phonemes@ == transcription(lowered@),
        decreases lowered@.len() - done,
    {
        let next: Option<char> = chars.next();
        match next {
            Some(c) => {
                let p: Phoneme = phoneme_for_char(c);
                proof {
                    let upto = lowered@.take(done + 1);
                    assert(upto.drop_last() == lowered@.take(done));
                    assert(upto.last() == c);
                    assert(lowered@.skip(done).drop_first() == lowered@.skip(done + 1));
                }
                phonemes.push(p);
                if !p.is_break() {
                    phonemes.push(Phoneme::Transition);
                }
                assert(phonemes@ == transcription(lowered@.take(done)) + symbols_of(c));
                proof {
                    done = done + 1;
                }
            },
            None => {
                assert(lowered@.take(done) == lowered@);
                break ;
            },
        }
    }
    phonemes
}

/// Transcribes a text: lower-cases it, then maps it character by character.
pub fn transcribe(text: &str) -> (phonemes: Vec<Phoneme>)
    ensures
        phonemes@ == transcription(lowercase_of(text@)),
        text@.len() == 0 ==> phonemes@.len() == 0,
{
    let lowered: String = lowercase(text);
    transcribe_lowered(lowered.as_str())
}

/// A phoneme sequence has at least one symbol and at most two for each
/// character of the lower-case text.
pub proof fn lemma_transcription_len(chars: Seq<char>)
    ensures
        chars.len() <= transcription(chars).len() <= 2 * chars.len(),
    decreases chars.len(),
{
    if chars.len() > 0 {
        lemma_transcription_len(chars.drop_last());
    }
}

/// Transcribing one text after another gives the two phoneme sequences one
/// after the other.
pub proof fn lemma_transcription_concat(a: Seq<char>, b: Seq<char>)
    ensures
        transcription(a + b) == transcription(a) + transcription(b),
    decreases b.len(),
{
    if b.len() == 0 {
        assert(a + b == a);
        assert(transcription(a) + transcription(b) == transcription(a));
    } else {
        lemma_transcription_concat(a, b.drop_last());
        assert((a + b).drop_last() == a + b.drop_last());
        assert((a + b).last() == b.last());
        assert(transcription(a + b) == (transcription(a) + transcription(b.drop_last()))
            + symbols_of(b.last()));
        assert((transcription(a) + transcription(b.drop_last())) + symbols_of(b.last())
            == transcription(a) + (transcription(b.drop_last()) + symbols_of(b.last())));
    }
}

} // verus!
