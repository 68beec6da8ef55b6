//! The generator itself.
use vstd::prelude::*;
use crate::model::{
    array_words, bias_mix, bias_pass, draw, key_mix, key_pass, key_steps, res53_value,
    scalar_word, scalar_words, seeded_array, seeded_scalar, temper, twist, twist_prefix,
    twist_word, well_formed, MtState, ARRAY_BASE_SEED, BIAS_MULT, KEY_MULT, LOWER_MASK, M,
    MATRIX_A, N, SCALAR_MULT, TOP_BIT,
};

verus! {

/// An MT19937 generator: 624 words of state and the position of the next one.
#[derive(Debug)]
pub struct Prng {
    index: usize,
    state: Vec<u32>,
}

impl View for Prng {
    type V = MtState;

    closed spec fn view(&self) -> MtState {
        MtState { words: self.state@, index: self.index as int }
    }
}

/// The state vector seeded from `seed` by the scalar recurrence.
fn scalar_state(seed: u32) -> (v: Vec<u32>)
    ensures
        v@ == scalar_words(seed),
        v@.len() == N,
{
    let mut v: Vec<u32> = Vec::with_capacity(N);
    v.push(seed);
    let mut i: usize = 1;
    while i < N
        invariant
            1 <= i <= N,
            v@.len() == i,
            forall|k: int| 0 <= k < i ==> v@[k] == scalar_word(seed, k as nat),
        decreases N - i,
    {
        let prev = v[i - 1];
        v.push(SCALAR_MULT.wrapping_mul(prev ^ (prev >> 30u32)).wrapping_add(i as u32));
        i = i + 1;
    }
    assert(v@ =~= scalar_words(seed));
    v
}

/// The output transformation of a raw state word.
fn temper_word(y0: u32) -> (r: u32)
    ensures
        r == temper(y0),
{
    let y1 = y0 ^ (y0 >> 11u32);
    let y2 = y1 ^ ((y1 << 7u32) & 0x9d2c_5680u32);
    let y3 = y2 ^ ((y2 << 15u32) & 0xefc6_0000u32);
    y3 ^ (y3 >> 18u32)
}

/// The state vector seeded from a non-empty array of words.
fn array_state(key: &[u32]) -> (v: Vec<u32>)
    requires
        key@.len() > 0,
    ensures
        v@ == array_words(key@),
        v@.len() == N,
{
    let mut s = scalar_state(ARRAY_BASE_SEED);
    let ghost target = key_pass(s@, 1, 0, key@, key_steps(key@));
    let mut i: usize = 1;
    let mut j: usize = 0;
    let mut k: usize = if key.len() > N { key.len() } else { N };
    while k > 0
        invariant
            s@.len() == N,
            1 <= i < N,
            j < key@.len(),
            key_pass(s@, i as int, j as int, key@, k as nat) == target,
        decreases k,
    {
        let prev = s[i - 1];
        let mixed = (s[i] ^ (prev ^ (prev >> 30u32)).wrapping_mul(KEY_MULT)).wrapping_add(
            key[j],
        ).wrapping_add(j as u32);
        assert(mixed == key_mix(s@, i as int, j as int, key@));
        s.set(i, mixed);
        i = i + 1;
        j = j + 1;
        if i >= N {
            let last = s[N - 1];
            s.set(0, last);
            i = 1;
        }
        if j >= key.len() {
            j = 0;
        }
        k = k - 1;
    }
    let ghost target = bias_pass(s@, i as int, (N - 1) as nat);
    let mut k: usize = N - 1;
    while k > 0
        invariant
            s@.len() == N,
            1 <= i < N,
            bias_pass(s@, i as int, k as nat) == target,
        decreases k,
    {
        let prev = s[i - 1];
        let mixed = (s[i] ^ (prev ^ (prev >> 30u32)).wrapping_mul(BIAS_MULT)).wrapping_sub(
            i as u32,
        );
        assert(mixed == bias_mix(s@, i as int));
        s.set(i, mixed);
        i = i + 1;
        if i >= N {
            let last = s[N - 1];
            s.set(0, last);
            i = 1;
        }
        k = k - 1;
    }
    s.set(0, TOP_BIT);
    s
}

impl Prng {
    /// The state holds 624 words and the position is at most 624.
    pub open spec fn wf(&self) -> bool {
        well_formed(self@)
    }

    /// A generator seeded from a single word.
    pub fn new_init_genrand(seed: u32) -> (p: Prng)
        ensures
            p.wf(),
            p@ == seeded_scalar(seed),
    {
        Prng { index: N, state: scalar_state(seed) }
    }

    /// A generator seeded from a non-empty array of words.
    pub fn new_init_by_array(init_key: &[u32]) -> (p: Prng)
        requires
            init_key@.len() > 0,
        ensures
            p.wf(),
            p@ == seeded_array(init_key@),
    {
        Prng { index: N, state: array_state(init_key) }
    }

    /// A generator seeded from an array of words, or `None` when the array is
    /// empty, which gives no words to mix into the state.
    pub fn try_new_init_by_array(init_key: &[u32]) -> (r: Option<Prng>)
        ensures
            init_key@.len() == 0 <==> r is None,
            r matches Some(p) ==> p.wf() && p@ == seeded_array(init_key@),
    {
        if init_key.len() == 0 {
            None
        } else {
            Some(Prng::new_init_by_array(init_key))
        }
    }

    /// Re-seeds from a single word, forgetting all earlier state.
    pub fn init_genrand(&mut self, seed: u32)
        ensures
            final(self).wf(),
            final(self)@ == seeded_scalar(seed),
    {
        self.state = scalar_state(seed);
        self.index = N;
    }

    /// Re-seeds from a non-empty array of words, forgetting all earlier state.
    pub fn init_by_array(&mut self, seed: &[u32])
        requires
            seed@.len() > 0,
        ensures
            final(self).wf(),
            final(self)@ == seeded_array(seed@),
    {
        self.state = array_state(seed);
        self.index = N;
    }

    /// Regenerates all 624 words in slot order.
    fn regenerate(&mut self)
        requires
            old(self).wf(),
        ensures
            final(self).state@ == twist(old(self).state@),
            final(self).state@.len() == N,
            final(self).index == old(self).index,
    {
        let ghost start = self.state@;
        let mut i: usize = 0;
        while i < N
            invariant
                0 <= i <= N,
                self.state@ == twist_prefix(start, i as nat),
                self.state@.len() == N,
                start.len() == N,
                self.index == old(self).index,
            decreases N - i,
        {
            let y = (self.state[i] & TOP_BIT) | (self.state[(i + 1) % N] & LOWER_MASK);
            let mag = if y & 1u32 == 1u32 { MATRIX_A } else { 0u32 };
            let w = self.state[(i + M) % N] ^ (y >> 1u32) ^ mag;
            assert(w == twist_word(self.state@, i as int));
            self.state.set(i, w);
            i = i + 1;
        }
    }

    /// The next 32-bit word of the sequence, regenerating the words first when
    /// all 624 have been used.
    pub fn genrand_uint32(&mut self) -> (r: u32)
        requires
            old(self).wf(),
        ensures
            final(self).wf(),
            (r, final(self)@) == draw(old(self)@),
    {
        if self.index >= N {
            self.regenerate();
            self.index = 0;
        }
        let y = self.state[self.index];
        self.index = self.index + 1;
        temper_word(y)
    }

    /// The integer `a * 2^26 + b` where `a` is the next word shifted right by 5
    /// and `b` the word after it shifted right by 6: divided by 2^53 it gives a
    /// double in [0, 1) with 53 bits of precision.
    pub fn genrand_int53(&mut self) -> (r: u64)
        requires
            old(self).wf(),
        ensures
            final(self).wf(),
            r as int == res53_value(old(self)@),
            r < 0x20_0000_0000_0000,
            final(self)@ == draw(draw(old(self)@).1).1,
    {
        let x = self.genrand_uint32();
        let y = self.genrand_uint32();
        let a = x >> 5u32;
        let b = y >> 6u32;
        assert(x >> 5u32 <= 0x7ff_ffff) by (bit_vector);
        assert(y >> 6u32 <= 0x3ff_ffff) by (bit_vector);
        (a as u64) * 67108864 + (b as u64)
    }
}

} // verus!
