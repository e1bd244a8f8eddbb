//! What rendering a phoneme takes: the recipe of each kind of phoneme, the
//! repeatable noise source, and the quantization of a finished sample.
//!
//! The oscillators themselves are left to the caller; everything here is
//! an exact integer or a ratio of integers.

use vstd::prelude::*;
use crate::phoneme::Phoneme;
use crate::voice::VoiceParameters;

verus! {

/// Number of harmonics that a resonance sums over; harmonic `h` has the
/// strength one over the square root of `h`.
pub const HARMONIC_ORDERS: u32 = 5;

/// How far the harmonics move a resonance, in tenths.
pub const RESONANCE_DEPTH_TENTHS: u32 = 3;

/// Depth of the vibrato, in hundredths.
pub const VIBRATO_DEPTH_HUNDREDTHS: u32 = 3;

/// A vibrato is applied where the rate, in millionths of a hertz, is above
/// this.
pub const VIBRATO_THRESHOLD: u64 = 100_000;

/// Share of the noise that breathiness lets into a vowel, in tenths.
pub const BREATH_NOISE_TENTHS: u32 = 1;

/// Gain of the band-pass that every noise recipe goes through, in tenths.
pub const BAND_PASS_GAIN_TENTHS: u32 = 5;

/// The noise source repeats after this many steps.
pub const NOISE_PERIOD: u64 = 65537;

/// One resonance of a voiced phoneme: its frequency in hertz and its
/// weight in the sum, in tenths.
#[derive(Clone, Copy, Debug, PartialEq, Eq, Structural)]
pub struct Resonance {
    pub freq: u32,
    pub gain_tenths: u32,
}

/// How a phoneme is rendered.
#[derive(Clone, Copy, Debug, PartialEq, Eq)]
pub enum Recipe {
    /// A fundamental with vibrato, passed through two or three resonances;
    /// their weighted sum is scaled by `scale_tenths`. A breathy sound
    /// also takes in noise.
    Voiced {
        first: Resonance,
        second: Resonance,
        third: Option<Resonance>,
        scale_tenths: u32,
        breathy: bool,
    },
    /// Noise through a band-pass at `center` hertz, its output scaled by
    /// `gain_hundredths`: half the intensity of a fricative, 0.7 for a
    /// stop, 0.4 for any other consonant.
    Noise { center: u32, gain_hundredths: u64 },
    /// Zero amplitude.
    Silent,
}

/// The recipe of each phoneme.
pub open spec fn recipe_of(p: Phoneme) -> Recipe {
    match p {
        Phoneme::Vowel { f1, f2, f3 } => Recipe::Voiced {
            first: Resonance { freq: f1, gain_tenths: 8 },
            second: Resonance { freq: f2, gain_tenths: 6 },
            third: Some(Resonance { freq: f3, gain_tenths: 4 }),
            scale_tenths: 10,
            breathy: true,
        },
        Phoneme::Nasal { f1, f2 } => Recipe::Voiced {
            first: Resonance { freq: f1, gain_tenths: 6 },
            second: Resonance { freq: f2, gain_tenths: 4 },
            third: None,
            scale_tenths: 8,
            breathy: false,
        },
        Phoneme::Liquid { f1, f2, f3 } => Recipe::Voiced {
            first: Resonance { freq: f1, gain_tenths: 7 },
            second: Resonance { freq: f2, gain_tenths: 5 },
            third: Some(Resonance { freq: f3, gain_tenths: 3 }),
            scale_tenths: 7,
            breathy: false,
        },
        Phoneme::Glide { f1, f2, f3 } => Recipe::Voiced {
            first: Resonance { freq: f1, gain_tenths: 6 },
            second: Resonance { freq: f2, gain_tenths: 4 },
            third: Some(Resonance { freq: f3, gain_tenths: 3 }),
            scale_tenths: 6,
            breathy: false,
        },
        Phoneme::Fricative { freq, intensity_tenths } => Recipe::Noise {
            center: freq,
            gain_hundredths: (intensity_tenths * 5) as u64,
        },
        Phoneme::Stop { burst_freq, duration_ms } => Recipe::Noise {
            center: burst_freq,
            gain_hundredths: 70,
        },
        Phoneme::Consonant { freq } => Recipe::Noise { center: freq, gain_hundredths: 40 },
        Phoneme::Silence => Recipe::Silent,
        Phoneme::Pause => Recipe::Silent,
        Phoneme::ShortPause => Recipe::Silent,
        Phoneme::Transition => Recipe::Silent,
    }
}

/// Numerator of the noise at sample `i`, over the denominator
/// `2 * NOISE_PERIOD`: the noise is `((2 * i) mod 65537) / 65537 - 1/2`,
/// where `2 * i` is the sample's time in units of `1 / 44100` seconds.
pub open spec fn noise_num(i: nat) -> int {
    2 * ((2 * i) % 65537) - 65537
}

/// A sample scaled to the 16-bit range and rounded, then clamped into it.
pub open spec fn quantized(scaled: int) -> int {
    if scaled < -32768 {
        -32768
    } else if scaled > 32767 {
        32767
    } else {
        scaled
    }
}

/// Gives the recipe of a phoneme.
pub fn recipe_for(p: Phoneme) -> (r: Recipe)
    ensures
        r == recipe_of(p),
{
    match p {
        Phoneme::Vowel { f1, f2, f3 } => Recipe::Voiced {
            first: Resonance { freq: f1, gain_tenths: 8 },
            second: Resonance { freq: f2, gain_tenths: 6 },
            third: Some(Resonance { freq: f3, gain_tenths: 4 }),
            scale_tenths: 10,
            breathy: true,
        },
        Phoneme::Nasal { f1, f2 } => Recipe::Voiced {
            first: Resonance { freq: f1, gain_tenths: 6 },
            second: Resonance { freq: f2, gain_tenths: 4 },
            third: None,
            scale_tenths: 8,
            breathy: false,
        },
        Phoneme::Liquid { f1, f2, f3 } => Recipe::Voiced {
            first: Resonance { freq: f1, gain_tenths: 7 },
            second: Resonance { freq: f2, gain_tenths: 5 },
            third: Some(Resonance { freq: f3, gain_tenths: 3 }),
            scale_tenths: 7,
            breathy: false,
        },
        Phoneme::Glide { f1, f2, f3 } => Recipe::Voiced {
            first: Resonance { freq: f1, gain_tenths: 6 },
            second: Resonance { freq: f2, gain_tenths: 4 },
            third: Some(Resonance { freq: f3, gain_tenths: 3 }),
            scale_tenths: 6,
            breathy: false,
        },
        Phoneme::Fricative { freq, intensity_tenths } => Recipe::Noise {
            center: freq,
            gain_hundredths: (intensity_tenths as u64) * 5,
        },
        Phoneme::Stop { burst_freq, duration_ms: _ } => Recipe::Noise {
            center: burst_freq,
            gain_hundredths: 70,
        },
        Phoneme::Consonant { freq } => Recipe::Noise { center: freq, gain_hundredths: 40 },
        Phoneme::Silence => Recipe::Silent,
        Phoneme::Pause => Recipe::Silent,
        Phoneme::ShortPause => Recipe::Silent,
        Phoneme::Transition => Recipe::Silent,
    }
}

/// Whether a voice's fundamental gets a vibrato.
pub fn vibrato_enabled(parameters: &VoiceParameters) -> (on: bool)
    ensures
        on == (parameters.vibrato_rate > 100_000),
{
    parameters.vibrato_rate > VIBRATO_THRESHOLD
}

/// The numerator of the noise at sample `i`; the denominator is
/// `2 * NOISE_PERIOD`.
pub fn noise_at(i: usize) -> (num: i64)
    ensures
        num == noise_num(i as nat),
        -65537 <= num < 65537,
{
    let step: u128 = (2u128 * (i as u128)) % 65537u128;
    2 * (step as i64) - 65537
}

/// Clamps a scaled and rounded sample into the 16-bit range.
pub fn quantize(scaled: i64) -> (q: i16)
    ensures
        q == quantized(scaled as int),
        -32768 <= q <= 32767,
{
    if scaled < -32768 {
        -32768
    } else if scaled > 32767 {
        32767
    } else {
        scaled as i16
    }
}

/// A phoneme is rendered as silence exactly where it is a break or a
/// transition.
pub proof fn lemma_silent_recipe(p: Phoneme)
    ensures
        recipe_of(p) is Silent <==> (crate::phoneme::is_break(p) || p is Transition),
{
}

/// The noise lies between minus one half and one half, and it is the same
/// one period of samples later.
pub proof fn lemma_noise_periodic(i: nat)
    ensures
        -65537 <= noise_num(i) < 65537,
        noise_num(i + 65537) == noise_num(i),
{
    assert((2 * (i + 65537)) % 65537 == (2 * i) % 65537);
}

} // verus!
