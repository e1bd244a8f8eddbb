//! The sample timeline: how many samples a text takes at a given speed,
//! which phoneme sounds at each sample, and the amplitude envelope.
//!
//! Speed is given in thousandths, so `1000` is the normal speed. Every
//! quantity here is an exact integer or a ratio of two integers: with
//! `SAMPLE_RATE` samples per second and `CHAR_MILLIS` milliseconds per
//! character, a text of `n` characters at speed `s / 1000` lasts
//! `120 * n / s` seconds, sample `i` lies at `i / 22050` seconds, and
//! multiplying both by `22050 * s` compares `i * s` with `2646000 * n`.

use vstd::prelude::*;
use vstd::arithmetic::div_mod::lemma_fundamental_div_mod;
use vstd::arithmetic::div_mod::lemma_fundamental_div_mod_converse;
use crate::phoneme::Phoneme;

verus! {

/// Output samples per second.
pub const SAMPLE_RATE: u32 = 22050;

/// Milliseconds that one character takes at normal speed.
pub const CHAR_MILLIS: u32 = 120;

/// The speed, in thousandths, at which a character takes `CHAR_MILLIS`.
pub const NORMAL_SPEED: u32 = 1000;

/// Length of the fade-in and of the fade-out, in milliseconds.
pub const FADE_MILLIS: u32 = 50;

/// The master gain applied to every sample is
/// `MASTER_GAIN_NUM / MASTER_GAIN_DEN`.
pub const MASTER_GAIN_NUM: u32 = 3;

pub const MASTER_GAIN_DEN: u32 = 10;

/// Why no timeline was produced.
#[derive(Clone, Copy, Debug, PartialEq, Eq, Structural)]
pub enum SynthesisError {
    /// The speed is zero.
    InvalidSpeed,
    /// The number of samples does not fit in `usize`.
    TooLong,
}

/// A non-negative ratio `num / den`.
#[derive(Clone, Copy, Debug, PartialEq, Eq, Structural)]
pub struct Gain {
    pub num: u64,
    pub den: u64,
}

/// What one output sample is made from: the phoneme that sounds and the
/// envelope that scales it.
#[derive(Clone, Copy, Debug, PartialEq, Eq, Structural)]
pub struct Frame {
    pub phoneme: Phoneme,
    pub envelope: Gain,
}

/// `a / b` rounded to the nearest integer, halves upwards.
pub open spec fn round_div(a: nat, b: nat) -> nat
    recommends
        b > 0,
{
    (2 * a + b) / (2 * b)
}

/// The duration of a text of `chars` characters at normal speed, in units
/// of one sample at one thousandth of the normal speed:
/// `SAMPLE_RATE * CHAR_MILLIS * chars`.
pub open spec fn span(chars: nat) -> nat {
    2_646_000 * chars
}

/// Number of samples: `22050 * chars * 0.12 / (speed_milli / 1000)`,
/// rounded to the nearest integer.
pub open spec fn sample_count_spec(chars: nat, speed_milli: nat) -> nat
    recommends
        speed_milli > 0,
{
    round_div(span(chars), speed_milli)
}

/// Index of the phoneme that sounds at sample `i`: the fraction
/// `i * speed_milli / span(chars)` of the duration that has passed, times
/// the number of phonemes, rounded down.
pub open spec fn active_index(i: nat, chars: nat, speed_milli: nat, phoneme_count: nat) -> nat
    recommends
        chars > 0,
{
    (i * speed_milli * phoneme_count) / span(chars)
}

/// The phoneme that sounds at sample `i`; silence where the index falls
/// outside the sequence.
pub open spec fn active_phoneme(
    phonemes: Seq<Phoneme>,
    i: nat,
    chars: nat,
    speed_milli: nat,
) -> Phoneme {
    let k = active_index(i, chars, speed_milli, phonemes.len());
    if k < phonemes.len() {
        phonemes[k as int]
    } else {
        Phoneme::Silence
    }
}

/// Whether sample `i` lies in the first `FADE_MILLIS` of the timeline.
pub open spec fn in_fade_in(i: nat) -> bool {
    2 * i < 2205
}

/// Whether sample `i` lies after the fade-in and in the last `FADE_MILLIS`
/// of the timeline.
pub open spec fn in_fade_out(i: nat, chars: nat, speed_milli: nat) -> bool {
    !in_fade_in(i) && 2 * i * speed_milli + 2205 * speed_milli > 2 * span(chars)
}

/// Numerator of the envelope at sample `i`.
pub open spec fn envelope_num(i: nat, chars: nat, speed_milli: nat) -> int {
    if in_fade_in(i) {
        2 * (i as int)
    } else if in_fade_out(i, chars, speed_milli) {
        2 * (span(chars) - i * speed_milli)
    } else {
        1
    }
}

/// Denominator of the envelope at sample `i`.
pub open spec fn envelope_den(i: nat, chars: nat, speed_milli: nat) -> int {
    if in_fade_in(i) {
        2205
    } else if in_fade_out(i, chars, speed_milli) {
        2205 * (speed_milli as int)
    } else {
        1
    }
}

/// Whether `frame` is the frame of sample `i`.
pub open spec fn is_frame_at(
    frame: Frame,
    phonemes: Seq<Phoneme>,
    i: nat,
    chars: nat,
    speed_milli: nat,
) -> bool {
    &&& frame.phoneme == active_phoneme(phonemes, i, chars, speed_milli)
    &&& frame.envelope.num == envelope_num(i, chars, speed_milli)
    &&& frame.envelope.den == envelope_den(i, chars, speed_milli)
}

/// Whether `frames` is the whole timeline of `phonemes` spread over a text
/// of `chars` characters.
pub open spec fn is_timeline(
    frames: Seq<Frame>,
    phonemes: Seq<Phoneme>,
    chars: nat,
    speed_milli: nat,
) -> bool {
    &&& frames.len() == sample_count_spec(chars, speed_milli)
    &&& forall|i: int|
        0 <= i < frames.len() ==> is_frame_at(
            #[trigger] frames[i],
            phonemes,
            i as nat,
            chars,
            speed_milli,
        )
}

/// What `assemble` owes for its arguments.
pub open spec fn assembled(
    result: Result<Vec<Frame>, SynthesisError>,
    phonemes: Seq<Phoneme>,
    chars: nat,
    speed_milli: nat,
) -> bool {
    if speed_milli == 0 {
        result == Err::<Vec<Frame>, SynthesisError>(SynthesisError::InvalidSpeed)
    } else if sample_count_spec(chars, speed_milli) > usize::MAX {
        result == Err::<Vec<Frame>, SynthesisError>(SynthesisError::TooLong)
    } else {
        &&& result is Ok
        &&& is_timeline(result->Ok_0@, phonemes, chars, speed_milli)
    }
}

/// Every sample lies before the end of the text's duration, by at least
/// half a sample.
pub proof fn lemma_sample_before_end(i: nat, chars: nat, speed_milli: nat)
    requires
        speed_milli > 0,
        i < sample_count_spec(chars, speed_milli),
    ensures
        2 * i * speed_milli + speed_milli <= 2 * span(chars),
        i * speed_milli < span(chars),
{
    let a = 2 * span(chars) + speed_milli;
    let b = 2 * speed_milli;
    let c = sample_count_spec(chars, speed_milli);
    assert(c == a / b);
    assert(c * b <= a) by (nonlinear_arith)
        requires
            c == a / b,
            b > 0,
    ;
    assert((i + 1) * b <= c * b) by (nonlinear_arith)
        requires
            i + 1 <= c,
            b > 0,
    ;
    assert((i + 1) * b == 2 * i * speed_milli + 2 * speed_milli) by (nonlinear_arith)
        requires
            b == 2 * speed_milli,
    ;
    assert(2 * i * speed_milli == 2 * (i * speed_milli)) by (nonlinear_arith);
}

/// At every sample the active index lies inside a non-empty phoneme
/// sequence: silence is never substituted for a phoneme.
pub proof fn lemma_active_index_in_range(
    i: nat,
    chars: nat,
    speed_milli: nat,
    phoneme_count: nat,
)
    requires
        speed_milli > 0,
        phoneme_count > 0,
        i < sample_count_spec(chars, speed_milli),
    ensures
        active_index(i, chars, speed_milli, phoneme_count) < phoneme_count,
{
    lemma_sample_before_end(i, chars, speed_milli);
    let e = i * speed_milli;
    let s = span(chars);
    assert(e * phoneme_count < s * phoneme_count) by (nonlinear_arith)
        requires
            e < s,
            phoneme_count > 0,
    ;
    assert((e * phoneme_count) / s < phoneme_count) by (nonlinear_arith)
        requires
            e * phoneme_count < s * phoneme_count,
            s > 0,
    ;
}

/// The phoneme sequence is consumed from left to right: a later sample
/// never sounds an earlier phoneme.
pub proof fn lemma_active_index_monotonic(
    i: nat,
    j: nat,
    chars: nat,
    speed_milli: nat,
    phoneme_count: nat,
)
    requires
        chars > 0,
        i <= j,
    ensures
        active_index(i, chars, speed_milli, phoneme_count) <= active_index(
            j,
            chars,
            speed_milli,
            phoneme_count,
        ),
{
    let a = i * speed_milli * phoneme_count;
    let b = j * speed_milli * phoneme_count;
    assert(a <= b) by (nonlinear_arith)
        requires
            a == i * speed_milli * phoneme_count,
            b == j * speed_milli * phoneme_count,
            i <= j,
    ;
    vstd::arithmetic::div_mod::lemma_div_is_ordered(a as int, b as int, span(chars) as int);
}

/// The envelope is a ratio between zero and one, and it is positive from
/// the second sample on.
pub proof fn lemma_envelope_bounds(i: nat, chars: nat, speed_milli: nat)
    requires
        speed_milli > 0,
        i < sample_count_spec(chars, speed_milli),
    ensures
        0 <= envelope_num(i, chars, speed_milli) <= envelope_den(i, chars, speed_milli),
        envelope_den(i, chars, speed_milli) > 0,
        envelope_den(i, chars, speed_milli) <= 2205 * speed_milli,
        i > 0 ==> envelope_num(i, chars, speed_milli) > 0,
{
    lemma_sample_before_end(i, chars, speed_milli);
    assert(2 * i * speed_milli == 2 * (i * speed_milli)) by (nonlinear_arith);
    assert(2205 * speed_milli >= 2205) by (nonlinear_arith)
        requires
            speed_milli >= 1,
    ;
}

/// During the fade-in, that is while the time `i / 22050` of a sample is
/// under `0.05`, the envelope equals that time divided by `0.05`.
pub proof fn lemma_fade_in(i: nat, chars: nat, speed_milli: nat)
    requires
        20 * i < 22050,
    ensures
        envelope_num(i, chars, speed_milli) * 22050 == 20 * i * envelope_den(
            i,
            chars,
            speed_milli,
        ),
{
}

/// During the fade-out, that is from `0.05` on and while the time
/// `i / 22050` of a sample is within `0.05` of the duration
/// `120 * chars / speed_milli`, the envelope equals the time that is left
/// divided by `0.05`; between the two fades the envelope is one.
pub proof fn lemma_fade_out(i: nat, chars: nat, speed_milli: nat)
    requires
        speed_milli > 0,
        20 * i >= 22050,
    ensures
        20 * (i * speed_milli) + 22050 * speed_milli > 20 * (120 * chars * 22050) ==> envelope_num(
            i,
            chars,
            speed_milli,
        ) * (22050 * speed_milli) == 20 * (120 * chars * 22050 - i * speed_milli) * envelope_den(
            i,
            chars,
            speed_milli,
        ),
        20 * (i * speed_milli) + 22050 * speed_milli <= 20 * (120 * chars * 22050) ==> envelope_num(
            i,
            chars,
            speed_milli,
        ) == envelope_den(i, chars, speed_milli),
{
    let e = i * speed_milli;
    let s = span(chars);
    assert(2 * i * speed_milli == 2 * e) by (nonlinear_arith)
        requires
            e == i * speed_milli,
    ;
    assert(120 * chars * 22050 == s);
    if in_fade_out(i, chars, speed_milli) {
        assert((2 * (s - e)) * (22050 * speed_milli) == 20 * (s - e) * (2205 * speed_milli))
            by (nonlinear_arith);
    }
}

/// At twice the speed a text takes half the samples, to within one.
pub proof fn lemma_double_speed(chars: nat, speed_milli: nat)
    requires
        speed_milli > 0,
    ensures
        sample_count_spec(chars, speed_milli) - 1 <= 2 * sample_count_spec(chars, 2 * speed_milli)
            <= sample_count_spec(chars, speed_milli) + 1,
{
    let a = span(chars);
    let s = speed_milli;
    let c1 = (2 * a + s) / (2 * s);
    let c2 = (2 * a + 2 * s) / (4 * s);
    assert(round_div(a, 2 * s) == c2);
    assert(c1 * (2 * s) <= 2 * a + s < (c1 + 1) * (2 * s)) by (nonlinear_arith)
        requires
            c1 == (2 * a + s) / (2 * s),
            s > 0,
    ;
    assert(c2 * (4 * s) <= 2 * a + 2 * s < (c2 + 1) * (4 * s)) by (nonlinear_arith)
        requires
            c2 == (2 * a + 2 * s) / (4 * s),
            s > 0,
    ;
    assert(2 * c2 <= c1 + 1 && c1 - 1 <= 2 * c2) by (nonlinear_arith)
        requires
            c1 * (2 * s) <= 2 * a + s < (c1 + 1) * (2 * s),
            c2 * (4 * s) <= 2 * a + 2 * s < (c2 + 1) * (4 * s),
            s > 0,
    ;
}

/// The number of samples of a text of `chars` characters at the given
/// speed.
pub fn sample_count(chars: usize, speed_milli: u32) -> (r: Result<usize, SynthesisError>)
    ensures
        speed_milli == 0 ==> r == Err::<usize, SynthesisError>(SynthesisError::InvalidSpeed),
        speed_milli > 0 && sample_count_spec(chars as nat, speed_milli as nat) > usize::MAX ==> r
            == Err::<usize, SynthesisError>(SynthesisError::TooLong),
        speed_milli > 0 && sample_count_spec(chars as nat, speed_milli as nat) <= usize::MAX ==> r
            == Ok::<usize, SynthesisError>(
            sample_count_spec(chars as nat, speed_milli as nat) as usize,
        ),
{
    if speed_milli == 0 {
        return Err(SynthesisError::InvalidSpeed);
    }
    let doubled: u128 = 5_292_000u128 * (chars as u128) + (speed_milli as u128);
    let count: u128 = doubled / (2u128 * (speed_milli as u128));
    if count > usize::MAX as u128 {
        Err(SynthesisError::TooLong)
    } else {
        Ok(count as usize)
    }
}

/// The envelope at sample `i` of the timeline.
pub fn envelope_at(i: usize, chars: usize, speed_milli: u32) -> (g: Gain)
    requires
        speed_milli > 0,
        i < sample_count_spec(chars as nat, speed_milli as nat),
    ensures
        g.num == envelope_num(i as nat, chars as nat, speed_milli as nat),
        g.den == envelope_den(i as nat, chars as nat, speed_milli as nat),
        g.num <= g.den,
        g.den > 0,
{
    proof {
        lemma_sample_before_end(i as nat, chars as nat, speed_milli as nat);
        lemma_envelope_bounds(i as nat, chars as nat, speed_milli as nat);
        assert(2 * i * speed_milli == 2 * (i * speed_milli)) by (nonlinear_arith);
        assert(i * speed_milli <= 0xffff_ffff_ffff_ffff * 0xffff_ffff) by (nonlinear_arith)
            requires
                i <= 0xffff_ffff_ffff_ffff,
                speed_milli <= 0xffff_ffff,
        ;
    }
    if i < 1103 {
        return Gain { num: 2 * (i as u64), den: 2205 };
    }
    let elapsed: u128 = (i as u128) * (speed_milli as u128);
    let whole: u128 = 2_646_000u128 * (chars as u128);
    let fade: u128 = 2205u128 * (speed_milli as u128);
    if 2 * elapsed + fade > 2 * whole {
        Gain { num: (2 * (whole - elapsed)) as u64, den: fade as u64 }
    } else {
        Gain { num: 1, den: 1 }
    }
}

/// One step of the running division that follows the active index: from
/// `index * whole + rest == i * pace` to the same for `i + 1`.
proof fn lemma_index_step(index: int, rest: int, whole: int, pace: int, i: int)
    requires
        whole > 0,
        0 <= rest < whole,
        0 <= pace,
        index * whole + rest == i * pace,
    ensures
        (index + (rest + pace) / whole) * whole + (rest + pace) % whole == (i + 1) * pace,
        0 <= (rest + pace) % whole < whole,
        0 <= (rest + pace) / whole <= rest + pace,
{
    let moved = rest + pace;
    let q = moved / whole;
    let r = moved % whole;
    lemma_fundamental_div_mod(moved, whole);
    assert(moved == whole * q + r);
    assert((index + q) * whole + r == index * whole + (whole * q + r)) by (nonlinear_arith);
    assert((i + 1) * pace == i * pace + pace) by (nonlinear_arith);
    assert(0 <= q <= moved) by (nonlinear_arith)
        requires
            moved == whole * q + r,
            0 <= r < whole,
            whole > 0,
            moved >= 0,
    ;
}

/// Spreads a phoneme sequence over the samples of a text of `chars`
/// characters: one frame for each sample, in order.
pub fn assemble(phonemes: &Vec<Phoneme>, chars: usize, speed_milli: u32) -> (r: Result<
    Vec<Frame>,
    SynthesisError,
>)
    ensures
        assembled(r, phonemes@, chars as nat, speed_milli as nat),
{
    let count: usize = match sample_count(chars, speed_milli) {
        Ok(c) => c,
        Err(e) => {
            return Err(e);
        },
    };
    let mut frames: Vec<Frame> = Vec::new();
    if chars == 0 {
        assert(sample_count_spec(0, speed_milli as nat) == 0) by (nonlinear_arith)
            requires
                speed_milli > 0,
        ;
        return Ok(frames);
    }
    let whole: u128 = 2_646_000u128 * (chars as u128);
    let ghost sm: nat = speed_milli as nat;
    let ghost pc: nat = phonemes.len() as nat;
    assert(sm * pc <= 0xffff_ffff * 0xffff_ffff_ffff_ffff) by (nonlinear_arith)
        requires
            sm <= 0xffff_ffff,
            pc <= 0xffff_ffff_ffff_ffff,
    ;
    let pace: u128 = (speed_milli as u128) * (phonemes.len() as u128);
    let mut index: u128 = 0;
    let mut rest: u128 = 0;
    let mut i: usize = 0;
    assert(0 * whole + 0 == 0 * pace) by (nonlinear_arith);
    while i < count
        invariant
            speed_milli > 0,
            chars > 0,
            sm == speed_milli,
            pc == phonemes@.len(),
            count == sample_count_spec(chars as nat, sm),
            i <= count,
            whole == span(chars as nat),
            pace == sm * pc,
            pace <= 0xffff_ffff * 0xffff_ffff_ffff_ffff,
            rest < whole,
            index * whole + rest == i * pace,
            frames@.len() == i,
            forall|j: int|
                0 <= j < i ==> is_frame_at(
                    #[trigger] frames@[j],
                    phonemes@,
                    j as nat,
                    chars as nat,
                    sm,
                ),
        decreases count - i,
    {
        proof {
            assert(i * pace == i * sm * pc) by (nonlinear_arith)
                requires
                    pace == sm * pc,
            ;
            lemma_fundamental_div_mod_converse(
                i * pace,
                whole as int,
                index as int,
                rest as int,
            );
            assert(index == active_index(i as nat, chars as nat, sm, pc));
            if pc > 0 {
                lemma_active_index_in_range(i as nat, chars as nat, sm, pc);
            } else {
                assert(i * sm * pc == 0) by (nonlinear_arith)
                    requires
                        pc == 0,
                ;
            }
            assert(index <= pc);
            lemma_index_step(index as int, rest as int, whole as int, pace as int, i as int);
        }
        let phoneme: Phoneme = if index < phonemes.len() as u128 {
            phonemes[index as usize]
        } else {
            Phoneme::Silence
        };
        let envelope: Gain = envelope_at(i, chars, speed_milli);
        frames.push(Frame { phoneme, envelope });
        let moved: u128 = rest + pace;
        index = index + moved / whole;
        rest = moved % whole;
        i = i + 1;
    }
    Ok(frames)
}

} // verus!
