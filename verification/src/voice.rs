//! Voices: the table of known voices, the resolution of a requested
//! identifier against it, and the acoustic parameters of a voice.
//!
//! Embedding values and parameters are fixed-point numbers in millionths:
//! `500_000` stands for one half, and a base frequency of `180_000_000`
//! for 180 Hz.

use vstd::prelude::*;

verus! {

/// Number of values in the embedding that stands in when no voice is known.
pub const DEFAULT_EMBEDDING_LEN: usize = 256;

/// Every value of that embedding: one half.
pub const DEFAULT_EMBEDDING_VALUE: i32 = 500_000;

/// A voice of the table: its identifier and its embedding in millionths.
#[derive(Debug)]
pub struct Voice {
    pub id: String,
    pub embedding: Vec<i32>,
}

/// The acoustic parameters of a voice, each in millionths.
#[derive(Clone, Copy, Debug, PartialEq, Eq, Structural)]
pub struct VoiceParameters {
    /// Fundamental frequency, in millionths of a hertz.
    pub base_frequency: u64,
    /// Factor on the formant frequencies.
    pub formant_shift: u64,
    /// Share of noise in vowels.
    pub breathiness: u64,
    /// Vibrato rate, in millionths of a hertz.
    pub vibrato_rate: u64,
}

/// Whether `needle` occurs in `hay` as a contiguous run of characters.
pub open spec fn is_substring(needle: Seq<char>, hay: Seq<char>) -> bool {
    exists|at: int|
        0 <= at && at + needle.len() <= hay.len() && #[trigger] hay.subrange(
            at,
            at + needle.len(),
        ) == needle
}

/// Whether one of the two identifiers occurs in the other.
pub open spec fn related(id: Seq<char>, requested: Seq<char>) -> bool {
    is_substring(requested, id) || is_substring(id, requested)
}

/// The identifiers of a table, in its order.
pub open spec fn ids_of(voices: Seq<Voice>) -> Seq<Seq<char>> {
    Seq::new(voices.len(), |i: int| voices[i].id@)
}

/// No identifier before position `end` equals the requested one.
pub open spec fn no_exact_before(ids: Seq<Seq<char>>, requested: Seq<char>, end: int) -> bool {
    forall|j: int| 0 <= j < end ==> #[trigger] ids[j] != requested
}

/// No identifier before position `end` is related to the requested one.
pub open spec fn no_related_before(ids: Seq<Seq<char>>, requested: Seq<char>, end: int) -> bool {
    forall|j: int| 0 <= j < end ==> !related(#[trigger] ids[j], requested)
}

/// No identifier occurs twice in the table.
pub open spec fn distinct_ids(ids: Seq<Seq<char>>) -> bool {
    forall|i: int, j: int| 0 <= i < j < ids.len() ==> #[trigger] ids[i] != #[trigger] ids[j]
}

/// Whether a request resolves to `choice`: the first voice with exactly
/// the requested identifier; if there is none, the first related voice; if
/// there is none either, the first voice of the table; and no voice only
/// where the table is empty.
pub open spec fn resolves_to(
    ids: Seq<Seq<char>>,
    requested: Seq<char>,
    choice: Option<usize>,
) -> bool {
    match choice {
        Some(k) => {
            &&& k < ids.len()
            &&& {
                ||| ids[k as int] == requested && no_exact_before(ids, requested, k as int)
                ||| no_exact_before(ids, requested, ids.len() as int) && related(
                    ids[k as int],
                    requested,
                ) && no_related_before(ids, requested, k as int)
                ||| no_exact_before(ids, requested, ids.len() as int) && no_related_before(
                    ids,
                    requested,
                    ids.len() as int,
                ) && k == 0
            }
        },
        None => ids.len() == 0,
    }
}

/// The magnitude of an embedding value.
pub open spec fn magnitude(value: i32) -> nat {
    if value < 0 {
        (-value) as nat
    } else {
        value as nat
    }
}

/// The magnitude of the value at position `k`, or `default` where the
/// embedding is shorter.
pub open spec fn component(embedding: Seq<i32>, k: int, default: nat) -> nat {
    if 0 <= k < embedding.len() {
        magnitude(embedding[k])
    } else {
        default
    }
}

/// The parameters that an embedding gives.
pub open spec fn parameters_of(embedding: Seq<i32>) -> VoiceParameters {
    let breath = component(embedding, 2, 300_000);
    VoiceParameters {
        base_frequency: (80_000_000 + component(embedding, 0, 500_000) * 200) as u64,
        formant_shift: (800_000 + component(embedding, 1, 500_000) * 6 / 10) as u64,
        breathiness: (if breath < 500_000 {
            breath
        } else {
            500_000
        }) as u64,
        vibrato_rate: (component(embedding, 3, 100_000) * 5) as u64,
    }
}

/// The embedding that stands in when the table is empty.
pub open spec fn default_embedding_spec() -> Seq<i32> {
    Seq::new(256, |i: int| 500_000i32)
}

/// The embedding that a resolution selects.
pub open spec fn chosen_embedding(voices: Seq<Voice>, choice: Option<usize>) -> Seq<i32> {
    match choice {
        Some(k) => voices[k as int].embedding@,
        None => default_embedding_spec(),
    }
}

/// The 32-bit word that four bytes spell, the lowest byte first.
pub open spec fn word_of(b0: u8, b1: u8, b2: u8, b3: u8) -> nat {
    (b0 + 256 * b1 + 65_536 * b2 + 16_777_216 * b3) as nat
}

/// The words of a blob of bytes, four bytes to a word; bytes left over at
/// the end belong to no word.
pub open spec fn words_of(bytes: Seq<u8>) -> Seq<u32> {
    Seq::new(
        bytes.len() / 4,
        |i: int| word_of(bytes[4 * i], bytes[4 * i + 1], bytes[4 * i + 2], bytes[4 * i + 3]) as u32,
    )
}

/// Calls `str::contains` with a string pattern: tells whether `needle`
/// occurs in `hay`.
#[verifier::external_body]
fn contains_text(hay: &str, needle: &str) -> (found: bool)
    ensures
        found == is_substring(needle@, hay@),
{
    hay.contains(needle)
}

/// Calls `==` on two string slices: tells whether they hold the same
/// characters.
#[verifier::external_body]
fn same_text(a: &str, b: &str) -> (same: bool)
    ensures
        same == (a@ == b@),
{
    a == b
}

/// Resolves a requested identifier against the table.
pub fn resolve_voice(voices: &Vec<Voice>, requested: &str) -> (choice: Option<usize>)
    ensures
        resolves_to(ids_of(voices@), requested@, choice),
{
    let ghost ids = ids_of(voices@);
    let n: usize = voices.len();
    let mut i: usize = 0;
    while i < n
        invariant
            n == voices@.len(),
            ids == ids_of(voices@),
            i <= n,
            no_exact_before(ids, requested@, i as int),
        decreases n - i,
    {
        if same_text(voices[i].id.as_str(), requested) {
            return Some(i);
        }
        i = i + 1;
    }
    let mut k: usize = 0;
    while k < n
        invariant
            n == voices@.len(),
            ids == ids_of(voices@),
            k <= n,
            no_exact_before(ids, requested@, n as int),
            no_related_before(ids, requested@, k as int),
        decreases n - k,
    {
        let id: &str = voices[k].id.as_str();
        if contains_text(id, requested) || contains_text(requested, id) {
            return Some(k);
        }
        k = k + 1;
    }
    if n > 0 {
        Some(0)
    } else {
        None
    }
}

/// Splits a blob of bytes into little-endian 32-bit words: the bit
/// patterns of the values of an embedding.
pub fn decode_words(bytes: &Vec<u8>) -> (words: Vec<u32>)
    ensures
        words@ == words_of(bytes@),
{
    let len: usize = bytes.len();
    let count: usize = len / 4;
    let mut words: Vec<u32> = Vec::new();
    let mut i: usize = 0;
    while i < count
        invariant
            count == bytes@.len() / 4,
            len == bytes@.len(),
            4 * count <= len,
            i <= count,
            words@.len() == i,
            forall|j: int| 0 <= j < i ==> words@[j] == words_of(bytes@)[j],
        decreases count - i,
    {
        let b0: u32 = bytes[4 * i] as u32;
        let b1: u32 = bytes[4 * i + 1] as u32;
        let b2: u32 = bytes[4 * i + 2] as u32;
        let b3: u32 = bytes[4 * i + 3] as u32;
        words.push(b0 + 256 * b1 + 65_536 * b2 + 16_777_216 * b3);
        i = i + 1;
    }
    assert(words@ =~= words_of(bytes@));
    words
}

/// The magnitude of one embedding value.
fn magnitude_of(value: i32) -> (m: u64)
    ensures
        m == magnitude(value),
        m <= 0x8000_0000,
{
    if value < 0 {
        (-(value as i64)) as u64
    } else {
        value as u64
    }
}

/// The magnitude of the value at position `k`, or `default`.
fn component_of(embedding: &Vec<i32>, k: usize, default: u64) -> (m: u64)
    requires
        default <= 0x8000_0000,
    ensures
        m == component(embedding@, k as int, default as nat),
        m <= 0x8000_0000,
{
    if k < embedding.len() {
        magnitude_of(embedding[k])
    } else {
        default
    }
}

/// Derives the acoustic parameters from an embedding.
pub fn derive_parameters(embedding: &Vec<i32>) -> (p: VoiceParameters)
    ensures
        p == parameters_of(embedding@),
        80_000_000 <= p.base_frequency,
        800_000 <= p.formant_shift,
        p.breathiness <= 500_000,
{
    let v0: u64 = component_of(embedding, 0, 500_000);
    let v1: u64 = component_of(embedding, 1, 500_000);
    let v2: u64 = component_of(embedding, 2, 300_000);
    let v3: u64 = component_of(embedding, 3, 100_000);
    VoiceParameters {
        base_frequency: 80_000_000 + v0 * 200,
        formant_shift: 800_000 + v1 * 6 / 10,
        breathiness: if v2 < 500_000 {
            v2
        } else {
            500_000
        },
        vibrato_rate: v3 * 5,
    }
}

/// The embedding that stands in when the table is empty.
pub fn default_embedding() -> (embedding: Vec<i32>)
    ensures
        embedding@ == default_embedding_spec(),
{
    let mut embedding: Vec<i32> = Vec::new();
    let mut i: usize = 0;
    while i < DEFAULT_EMBEDDING_LEN
        invariant
            i <= DEFAULT_EMBEDDING_LEN,
            embedding@.len() == i,
            forall|j: int| 0 <= j < i ==> embedding@[j] == 500_000i32,
        decreases DEFAULT_EMBEDDING_LEN - i,
    {
        embedding.push(DEFAULT_EMBEDDING_VALUE);
        i = i + 1;
    }
    assert(embedding@ =~= default_embedding_spec());
    embedding
}

/// The acoustic parameters for a requested identifier: those of the voice
/// that the request resolves to, or of the default embedding where the
/// table is empty.
pub fn derive_voice_parameters(requested: &str, voices: &Vec<Voice>) -> (p: VoiceParameters)
    ensures
        exists|choice: Option<usize>| #[trigger]
            resolves_to(ids_of(voices@), requested@, choice) && p == parameters_of(
                chosen_embedding(voices@, choice),
            ),
{
    let choice: Option<usize> = resolve_voice(voices, requested);
    match choice {
        Some(k) => derive_parameters(&voices[k].embedding),
        None => {
            let embedding: Vec<i32> = default_embedding();
            derive_parameters(&embedding)
        },
    }
}

/// A request resolves to one choice only: the same identifier and table
/// always select the same voice.
pub proof fn lemma_resolution_unique(
    ids: Seq<Seq<char>>,
    requested: Seq<char>,
    first: Option<usize>,
    second: Option<usize>,
)
    requires
        resolves_to(ids, requested, first),
        resolves_to(ids, requested, second),
    ensures
        first == second,
{
}

/// In a table without repeated identifiers, a request for a known
/// identifier resolves to the one voice that has it, wherever it stands.
pub proof fn lemma_exact_match(
    ids: Seq<Seq<char>>,
    requested: Seq<char>,
    k: int,
    choice: Option<usize>,
)
    requires
        distinct_ids(ids),
        0 <= k < ids.len(),
        ids[k] == requested,
        resolves_to(ids, requested, choice),
    ensures
        choice is Some,
        choice->Some_0 == k,
{
}

/// Where no voice has exactly the requested identifier but some voice is
/// related to it, the request resolves to a related voice, whichever
/// voice stands first in the table.
pub proof fn lemma_related_preferred(
    ids: Seq<Seq<char>>,
    requested: Seq<char>,
    witness: int,
    choice: Option<usize>,
)
    requires
        no_exact_before(ids, requested, ids.len() as int),
        0 <= witness < ids.len(),
        related(ids[witness], requested),
        resolves_to(ids, requested, choice),
    ensures
        choice is Some,
        related(ids[choice->Some_0 as int], requested),
        choice->Some_0 <= witness,
{
}

/// Where the first four values of an embedding have a magnitude of at most
/// one, the base frequency lies between 80 and 280 Hz, the formant shift
/// between 0.8 and 1.4, the breathiness is at most one half and the vibrato
/// rate at most 5 Hz.
pub proof fn lemma_parameter_ranges(embedding: Seq<i32>)
    requires
        forall|k: int| 0 <= k < 4 ==> component(embedding, k, 0) <= 1_000_000,
    ensures
        80_000_000 <= parameters_of(embedding).base_frequency <= 280_000_000,
        800_000 <= parameters_of(embedding).formant_shift <= 1_400_000,
        parameters_of(embedding).breathiness <= 500_000,
        parameters_of(embedding).vibrato_rate <= 5_000_000,
{
    assert(component(embedding, 0, 0) <= 1_000_000);
    assert(component(embedding, 1, 0) <= 1_000_000);
    assert(component(embedding, 2, 0) <= 1_000_000);
    assert(component(embedding, 3, 0) <= 1_000_000);
}

/// The parameters of the default embedding, in which every value is one
/// half.
pub proof fn lemma_default_parameters()
    ensures
        parameters_of(default_embedding_spec()) == (VoiceParameters {
            base_frequency: 180_000_000,
            formant_shift: 1_100_000,
            breathiness: 500_000,
            vibrato_rate: 2_500_000,
        }),
{
    let e = default_embedding_spec();
    assert(e.len() == 256);
    assert(e[0] == 500_000i32 && e[1] == 500_000i32 && e[2] == 500_000i32 && e[3] == 500_000i32);
}

/// The parameters of an embedding without values: each is made from its
/// own default.
pub proof fn lemma_empty_parameters()
    ensures
        parameters_of(Seq::<i32>::empty()) == (VoiceParameters {
            base_frequency: 180_000_000,
            formant_shift: 1_100_000,
            breathiness: 300_000,
            vibrato_rate: 500_000,
        }),
{
}

} // verus!
