//! The mathematical model of the generator: the state vector as a sequence of
//! words, the seeding recurrences, the twist, the tempering and one draw.
use vstd::prelude::*;
use vstd::wrapping::u32_specs::{wrapping_add, wrapping_mul, wrapping_sub};

verus! {

/// Length of the state vector.
pub const N: usize = 624;

/// Distance of the tap used by the twist.
pub const M: usize = 397;

/// Multiplier of the scalar seeding recurrence.
pub const SCALAR_MULT: u32 = 1812433253;

/// Multiplier of the key-mixing pass of array seeding.
pub const KEY_MULT: u32 = 1664525;

/// Multiplier of the pass that erases the initial seeding bias.
pub const BIAS_MULT: u32 = 1566083941;

/// Scalar seed used as the starting point of array seeding.
pub const ARRAY_BASE_SEED: u32 = 19650218;

/// The word that array seeding writes into the first slot.
pub const TOP_BIT: u32 = 0x8000_0000;

/// Lower 31 bits of a word.
pub const LOWER_MASK: u32 = 0x7fff_ffff;

/// The twist matrix's last row.
pub const MATRIX_A: u32 = 0x9908_b0df;

/// The state of a generator: its words and the position of the next word to
/// extract (624 meaning that the words must be regenerated first).
pub ghost struct MtState {
    pub words: Seq<u32>,
    pub index: int,
}

pub open spec fn well_formed(m: MtState) -> bool {
    m.words.len() == N && 0 <= m.index <= N
}

/// A freshly seeded state: the words are recurrence seeds, not output yet.
pub open spec fn seeded(words: Seq<u32>) -> MtState {
    MtState { words, index: N as int }
}

/// One step of the scalar seeding recurrence, giving word `i` from word `i - 1`.
pub open spec fn scalar_next(prev: u32, i: int) -> u32 {
    wrapping_add(wrapping_mul(SCALAR_MULT, prev ^ (prev >> 30u32)), i as u32)
}

/// Word `i` of the state vector seeded from `seed`.
pub open spec fn scalar_word(seed: u32, i: nat) -> u32
    decreases i,
{
    if i == 0 {
        seed
    } else {
        scalar_next(scalar_word(seed, (i - 1) as nat), i as int)
    }
}

/// The state vector seeded from a single word.
pub open spec fn scalar_words(seed: u32) -> Seq<u32> {
    Seq::new(N as nat, |i: int| scalar_word(seed, i as nat))
}

/// The generator state right after seeding from a single word.
pub open spec fn seeded_scalar(seed: u32) -> MtState {
    seeded(scalar_words(seed))
}

/// Where the mixing passes go after slot `i`: the next slot, or back to slot 1
/// with the last word copied into slot 0.
pub open spec fn advance(s: Seq<u32>, i: int) -> (Seq<u32>, int) {
    if i + 1 >= N {
        (s.update(0, s[N - 1]), 1)
    } else {
        (s, i + 1)
    }
}

/// The new word of slot `i` in the key-mixing pass, with key word `j`.
pub open spec fn key_mix(s: Seq<u32>, i: int, j: int, key: Seq<u32>) -> u32 {
    let prev = s[i - 1];
    wrapping_add(
        wrapping_add(s[i] ^ wrapping_mul(prev ^ (prev >> 30u32), KEY_MULT), key[j]),
        j as u32,
    )
}

/// The key-mixing pass: `k` more steps from slot `i` and key position `j`.
/// Gives the words and the slot where the pass stops.
pub open spec fn key_pass(s: Seq<u32>, i: int, j: int, key: Seq<u32>, k: nat) -> (Seq<u32>, int)
    decreases k,
{
    if k == 0 {
        (s, i)
    } else {
        let next = advance(s.update(i, key_mix(s, i, j, key)), i);
        let j2 = if j + 1 >= key.len() { 0 } else { j + 1 };
        key_pass(next.0, next.1, j2, key, (k - 1) as nat)
    }
}

/// The new word of slot `i` in the pass that erases the seeding bias.
pub open spec fn bias_mix(s: Seq<u32>, i: int) -> u32 {
    let prev = s[i - 1];
    wrapping_sub(s[i] ^ wrapping_mul(prev ^ (prev >> 30u32), BIAS_MULT), i as u32)
}

/// The bias-erasing pass: `k` more steps from slot `i`.
pub open spec fn bias_pass(s: Seq<u32>, i: int, k: nat) -> Seq<u32>
    decreases k,
{
    if k == 0 {
        s
    } else {
        let next = advance(s.update(i, bias_mix(s, i)), i);
        bias_pass(next.0, next.1, (k - 1) as nat)
    }
}

/// Number of key-mixing steps: the longer of the state and the key.
pub open spec fn key_steps(key: Seq<u32>) -> nat {
    if key.len() > N { key.len() } else { N as nat }
}

/// The state vector seeded from a non-empty array of words.
pub open spec fn array_words(key: Seq<u32>) -> Seq<u32> {
    let mixed = key_pass(scalar_words(ARRAY_BASE_SEED), 1, 0, key, key_steps(key));
    bias_pass(mixed.0, mixed.1, (N - 1) as nat).update(0, TOP_BIT)
}

/// The generator state right after seeding from an array of words.
pub open spec fn seeded_array(key: Seq<u32>) -> MtState {
    seeded(array_words(key))
}

/// The new word of slot `i` in the twist: the top bit of word `i` joined with
/// the lower bits of the next word, shifted, and folded into the tapped word.
pub open spec fn twist_word(s: Seq<u32>, i: int) -> u32 {
    let y = (s[i] & TOP_BIT) | (s[(i + 1) % (N as int)] & LOWER_MASK);
    let mag = if y & 1u32 == 1u32 { MATRIX_A } else { 0u32 };
    s[(i + M) % (N as int)] ^ (y >> 1u32) ^ mag
}

/// The words after the twist has rewritten slots `0 .. k` in order.
pub open spec fn twist_prefix(s: Seq<u32>, k: nat) -> Seq<u32>
    decreases k,
{
    if k == 0 {
        s
    } else {
        let t = twist_prefix(s, (k - 1) as nat);
        t.update(k - 1, twist_word(t, k - 1))
    }
}

/// The regeneration of the whole state vector.
pub open spec fn twist(s: Seq<u32>) -> Seq<u32> {
    twist_prefix(s, N as nat)
}

/// The output transformation of a raw state word.
pub open spec fn temper(y0: u32) -> u32 {
    let y1 = y0 ^ (y0 >> 11u32);
    let y2 = y1 ^ ((y1 << 7u32) & 0x9d2c_5680u32);
    let y3 = y2 ^ ((y2 << 15u32) & 0xefc6_0000u32);
    y3 ^ (y3 >> 18u32)
}

/// Whether the next draw from `m` regenerates the words first.
pub open spec fn regenerates(m: MtState) -> bool {
    m.index >= N
}

/// One draw of a 32-bit word: the word returned and the state after it.
pub open spec fn draw(m: MtState) -> (u32, MtState) {
    let words = if regenerates(m) { twist(m.words) } else { m.words };
    let i = if regenerates(m) { 0 } else { m.index };
    (temper(words[i]), MtState { words, index: i + 1 })
}

/// The state after `n` draws.
pub open spec fn after(m: MtState, n: nat) -> MtState
    decreases n,
{
    if n == 0 {
        m
    } else {
        after(draw(m).1, (n - 1) as nat)
    }
}

/// The first `n` words drawn from `m`, in order.
pub open spec fn outputs(m: MtState, n: nat) -> Seq<u32>
    decreases n,
{
    if n == 0 {
        Seq::empty()
    } else {
        seq![draw(m).0] + outputs(draw(m).1, (n - 1) as nat)
    }
}

/// The 53-bit integer made of two draws: the top 27 bits of the first word
/// above the top 26 bits of the second. Divided by 2^53 it is a double in [0, 1).
pub open spec fn res53_value(m: MtState) -> int {
    let a = draw(m).0;
    let b = draw(draw(m).1).0;
    (a >> 5u32) as int * 67108864 + (b >> 6u32) as int
}

} // verus!
