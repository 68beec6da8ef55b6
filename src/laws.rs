//! Properties of the generator that relate several operations.
use vstd::prelude::*;
use vstd::wrapping::u32_specs::{wrapping_add, wrapping_mul};
use crate::model::{
    advance, after, bias_mix, bias_pass, draw, key_mix, key_pass, key_steps, outputs,
    regenerates, res53_value, scalar_word, scalar_words, seeded, seeded_array, seeded_scalar,
    well_formed, MtState, ARRAY_BASE_SEED, N, SCALAR_MULT, TOP_BIT,
};
use crate::prng::Prng;

verus! {

proof fn lemma_key_pass_len(s: Seq<u32>, i: int, j: int, key: Seq<u32>, k: nat)
    requires
        s.len() == N,
        1 <= i < N,
        0 <= j < key.len(),
    ensures
        key_pass(s, i, j, key, k).0.len() == N,
        1 <= key_pass(s, i, j, key, k).1 < N,
    decreases k,
{
    if k > 0 {
        let next = advance(s.update(i, key_mix(s, i, j, key)), i);
        let j2 = if j + 1 >= key.len() { 0 } else { j + 1 };
        lemma_key_pass_len(next.0, next.1, j2, key, (k - 1) as nat);
    }
}

proof fn lemma_bias_pass_len(s: Seq<u32>, i: int, k: nat)
    requires
        s.len() == N,
        1 <= i < N,
    ensures
        bias_pass(s, i, k).len() == N,
    decreases k,
{
    if k > 0 {
        let next = advance(s.update(i, bias_mix(s, i)), i);
        lemma_bias_pass_len(next.0, next.1, (k - 1) as nat);
    }
}

/// Drawing `n + 1` words is drawing `n` words and then one more.
pub proof fn lemma_after_succ(m: MtState, n: nat)
    ensures
        after(m, n + 1) == draw(after(m, n)).1,
        outputs(m, n + 1) == outputs(m, n).push(draw(after(m, n)).0),
    decreases n,
{
    if n > 0 {
        lemma_after_succ(draw(m).1, (n - 1) as nat);
        assert(outputs(m, n + 1) =~= outputs(m, n).push(draw(after(m, n)).0));
    } else {
        assert(after(draw(m).1, 0) == draw(m).1);
        assert(outputs(draw(m).1, 0) =~= Seq::<u32>::empty());
        assert(outputs(m, 1) =~= outputs(m, 0).push(draw(after(m, 0)).0));
    }
}

/// Two generators seeded from the same word draw the same words, and the same
/// 53-bit values, however many draws are made.
pub proof fn lemma_scalar_seeding_deterministic(p: Prng, q: Prng, seed: u32, n: nat)
    requires
        p@ == seeded_scalar(seed),
        q@ == seeded_scalar(seed),
    ensures
        outputs(p@, n) == outputs(q@, n),
        after(p@, n) == after(q@, n),
        res53_value(after(p@, n)) == res53_value(after(q@, n)),
{
}

/// Two generators seeded from the same array draw the same words, and the same
/// 53-bit values, however many draws are made.
pub proof fn lemma_array_seeding_deterministic(p: Prng, q: Prng, key: Seq<u32>, n: nat)
    requires
        p@ == seeded_array(key),
        q@ == seeded_array(key),
    ensures
        outputs(p@, n) == outputs(q@, n),
        after(p@, n) == after(q@, n),
        res53_value(after(p@, n)) == res53_value(after(q@, n)),
{
}

/// Seeding from an array never leaves all 624 words zero: the first word is
/// always the top bit alone.
pub proof fn lemma_array_seeding_not_all_zero(key: Seq<u32>)
    requires
        key.len() > 0,
    ensures
        well_formed(seeded_array(key)),
        seeded_array(key).words[0] == TOP_BIT,
        exists|i: int| 0 <= i < N && seeded_array(key).words[i] != 0,
{
    let base = scalar_words(ARRAY_BASE_SEED);
    let mixed = key_pass(base, 1, 0, key, key_steps(key));
    lemma_key_pass_len(base, 1, 0, key, key_steps(key));
    lemma_bias_pass_len(mixed.0, mixed.1, (N - 1) as nat);
    assert(seeded_array(key).words[0] != 0);
}

/// Seeding from a single word never leaves all 624 words zero: either the
/// seed is not zero, or the second word is 1.
pub proof fn lemma_scalar_seeding_not_all_zero(seed: u32)
    ensures
        well_formed(seeded_scalar(seed)),
        exists|i: int| 0 <= i < N && seeded_scalar(seed).words[i] != 0,
{
    let w = seeded_scalar(seed).words;
    if seed == 0 {
        assert(scalar_word(0, 0) == 0u32);
        assert((0u32 ^ (0u32 >> 30u32)) == 0u32) by (bit_vector);
        assert(wrapping_mul(SCALAR_MULT, 0u32) == 0u32);
        assert(wrapping_add(0u32, 1u32) == 1u32);
        assert(w[1] == 1u32);
    } else {
        assert(w[0] == seed);
    }
}

/// Position of the next word after `k` draws from a freshly seeded state.
proof fn lemma_index_after(m: MtState, k: nat)
    requires
        m == seeded(m.words),
    ensures
        after(m, k).index == (if k == 0 { N as int } else { (k - 1) % (N as int) + 1 }),
    decreases k,
{
    if k > 0 {
        lemma_index_after(m, (k - 1) as nat);
        lemma_after_succ(m, (k - 1) as nat);
    }
}

/// Number of draws among the first `n` that regenerate the words.
pub open spec fn regenerations(m: MtState, n: nat) -> nat
    decreases n,
{
    if n == 0 {
        0
    } else {
        regenerations(m, (n - 1) as nat) + if regenerates(after(m, (n - 1) as nat)) {
            1nat
        } else {
            0nat
        }
    }
}

proof fn lemma_first_block(m: MtState, k: nat)
    requires
        m == seeded(m.words),
        1 <= k <= N,
    ensures
        regenerations(m, k) == 1,
    decreases k,
{
    lemma_index_after(m, (k - 1) as nat);
    assert(regenerations(m, 0) == 0);
    if k > 1 {
        lemma_first_block(m, (k - 1) as nat);
    }
}

/// After seeding, draw number `k` (counting from 0) regenerates the words
/// exactly when `k` is a multiple of 624: the first 624 draws regenerate once,
/// and the 625th draw regenerates a second time.
pub proof fn lemma_regeneration_boundary(m: MtState)
    requires
        m == seeded(m.words),
    ensures
        forall|k: nat| #[trigger] regenerates(after(m, k)) <==> k % (N as nat) == 0,
        regenerations(m, N as nat) == 1,
        regenerates(after(m, N as nat)),
        regenerations(m, (N + 1) as nat) == 2,
{
    assert forall|k: nat| #[trigger] regenerates(after(m, k)) <==> k % (N as nat) == 0 by {
        lemma_index_after(m, k);
    }
    lemma_first_block(m, N as nat);
    lemma_index_after(m, N as nat);
}

/// Re-seeding a generator, whatever it has drawn before, restarts its
/// sequence: it then draws what a freshly seeded generator draws.
pub proof fn lemma_reseed_restarts(reseeded: Prng, fresh: Prng, seed: u32, n: nat)
    requires
        reseeded@ == seeded_scalar(seed),
        fresh@ == seeded_scalar(seed),
    ensures
        reseeded@.index == N,
        outputs(reseeded@, n) == outputs(fresh@, n),
{
}

/// Re-seeding a generator from an array, whatever it has drawn before,
/// restarts its sequence: it then draws what a freshly seeded generator draws.
pub proof fn lemma_reseed_by_array_restarts(reseeded: Prng, fresh: Prng, key: Seq<u32>, n: nat)
    requires
        reseeded@ == seeded_array(key),
        fresh@ == seeded_array(key),
    ensures
        reseeded@.index == N,
        outputs(reseeded@, n) == outputs(fresh@, n),
{
}

} // verus!
