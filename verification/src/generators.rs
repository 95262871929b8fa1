//! Pseudorandom word engines: deterministic generators with a fixed-size
//! unsigned 64-bit state that advance in place and combine their state into
//! one raw 64-bit word per step. The state must never be all zero — that is
//! the degenerate fixed point which would emit zero words forever — so every
//! construction path either rules an all-zero seed out or reports it.

use vstd::prelude::*;
use vstd::string::StringSliceAdditionalSpecFns;
use crate::entropy::{os_nonzero_words, EntropyError};
use crate::float::{
    canonical_bits_f32,
    canonical_bits_f64,
    exp_field_f64,
    exponent_bits_f32,
    exponent_bits_f64,
    exponent_spec_f32,
    exponent_spec_f64,
    mantissa_f64,
    noncanonical_bits_f32,
    noncanonical_bits_f64,
    sign_bit_f64,
    u32_from_u64,
    with_params_bits_f32,
    with_params_bits_f64,
    with_params_spec_f32,
    with_params_spec_f64,
    Sign,
};

verus! {

/// A source of raw pseudorandom 64-bit words. Both engines satisfy it, and a
/// caller may adapt any other generator to it, so the shaping layer does not
/// depend on one particular engine. The trait itself promises nothing about
/// the words; the engines' own methods carry the exact contracts.
pub trait WordSource {
    /// Advances the source once and returns the resulting word.
    fn next_word(&mut self) -> u64;
}

/// One advance of the xorshift-add recurrence on a two-word state.
pub open spec fn clock128_spec(s: (u64, u64)) -> (u64, u64) {
    let t0 = s.0 ^ (s.0 << 23u32);
    let t1 = t0 ^ (t0 >> 18u32);
    let t2 = t1 ^ s.1 ^ (s.1 >> 5u32);
    (s.1, t2)
}

/// The word a two-word state combines into: the wrapping sum of its halves.
pub open spec fn word128_spec(s: (u64, u64)) -> u64 {
    s.0.wrapping_add(s.1)
}

/// The two-word state after `n` advances.
pub open spec fn clock128_iter(s: (u64, u64), n: nat) -> (u64, u64)
    decreases n,
{
    if n == 0 {
        s
    } else {
        clock128_spec(clock128_iter(s, (n - 1) as nat))
    }
}

/// The `n`-th word drawn from initial state `s`: each draw advances the
/// state once and then combines it, so the `n`-th draw advances past `n`
/// earlier draws first.
pub open spec fn nth_word128(s: (u64, u64), n: nat) -> u64 {
    word128_spec(clock128_spec(clock128_iter(s, n)))
}

/// The xorshift-add seed folded from a byte string: byte `i` XORs into word
/// `(i/8) mod 2` of an all-ones two-word buffer, at bit offset `(i mod 8)*8`.
/// `k` is how many leading bytes have been folded in.
pub open spec fn fold128(bytes: Seq<u8>, k: int) -> (u64, u64)
    decreases k,
{
    if k <= 0 {
        (u64::MAX, u64::MAX)
    } else {
        let prev = fold128(bytes, k - 1);
        let i = k - 1;
        let shifted = (bytes[i] as u64) << (((i % 8) * 8) as u32);
        if (i / 8) % 2 == 0 {
            (prev.0 ^ shifted, prev.1)
        } else {
            (prev.0, prev.1 ^ shifted)
        }
    }
}

/// The seed the whole byte string folds to.
pub open spec fn str_seed128(bytes: Seq<u8>) -> (u64, u64) {
    fold128(bytes, bytes.len() as int)
}

/// The byte of a nonempty seed slice that lands at position `i` when the
/// slice is repeated cyclically.
pub open spec fn cyclic_byte(seed: Seq<u8>, i: int) -> u64 {
    seed[i % (seed.len() as int)] as u64
}

/// The word packed little-endian from eight cyclically repeated seed bytes
/// starting at position `base`.
pub open spec fn bytes_word(seed: Seq<u8>, base: int) -> u64 {
    cyclic_byte(seed, base) | (cyclic_byte(seed, base + 1) << 8u32) | (cyclic_byte(seed, base + 2)
        << 16u32) | (cyclic_byte(seed, base + 3) << 24u32) | (cyclic_byte(seed, base + 4) << 32u32)
        | (cyclic_byte(seed, base + 5) << 40u32) | (cyclic_byte(seed, base + 6) << 48u32) | (
    cyclic_byte(seed, base + 7) << 56u32)
}

/// Packs eight bytes of the cyclically repeated seed slice, starting at
/// `base`, into one little-endian word.
fn word_from_bytes(seed: &[u8], base: usize) -> (r: u64)
    requires
        seed@.len() > 0,
        base <= 24,
    ensures
        r == bytes_word(seed@, base as int),
{
    let len = seed.len();
    (seed[base % len] as u64) | ((seed[(base + 1) % len] as u64) << 8u32) | ((seed[(base + 2)
        % len] as u64) << 16u32) | ((seed[(base + 3) % len] as u64) << 24u32) | ((seed[(base + 4)
        % len] as u64) << 32u32) | ((seed[(base + 5) % len] as u64) << 40u32) | ((seed[(base + 6)
        % len] as u64) << 48u32) | ((seed[(base + 7) % len] as u64) << 56u32)
}

/// Two engines with equal states emit the same word at every position: the
/// whole output sequence is a function of the initial state alone.
pub proof fn lemma_stream_deterministic128(s: (u64, u64), t: (u64, u64))
    requires
        s == t,
    ensures
        forall|n: nat| nth_word128(s, n) == nth_word128(t, n),
{
}

/// Advancing before iterating lands on the same state as iterating before
/// advancing: the advances of a run can be regrouped freely.
pub proof fn lemma_clock_iter_shift128(s: (u64, u64), n: nat)
    ensures
        clock128_iter(clock128_spec(s), n) == clock128_spec(clock128_iter(s, n)),
    decreases n,
{
    if n > 0 {
        lemma_clock_iter_shift128(s, (n - 1) as nat);
    }
}

/// One draw advances the state once, and the stream of the advanced state
/// is the old stream shifted by one: drawing words one method call at a
/// time walks `nth_word128` in order.
pub proof fn lemma_draw_shifts_stream128(s: (u64, u64), n: nat)
    ensures
        nth_word128(clock128_spec(s), n) == nth_word128(s, n + 1),
{
    lemma_clock_iter_shift128(s, n);
}

/// The xorshift-add engine: a 128-bit state held as two words `[a, b]`.
/// Each advance shifts-and-XORs `a` into a fresh low word while `b` moves up,
/// and the emitted word is the wrapping sum of the two.
pub struct Xorshift128p {
    pub state: [u64; 2],
}

impl Xorshift128p {
    /// The state as a pair, the form the specifications speak of.
    pub open spec fn key(self) -> (u64, u64) {
        (self.state[0], self.state[1])
    }

    /// A usable engine never holds the all-zero state, the degenerate fixed
    /// point that would emit zero words forever.
    pub open spec fn wf(self) -> bool {
        self.key() != (0u64, 0u64)
    }

    /// Creates the engine in its default state: both words all ones.
    pub fn new() -> (r: Self)
        ensures
            r.key() == (u64::MAX, u64::MAX),
            r.wf(),
    {
        Self { state: [u64::MAX, u64::MAX] }
    }

    /// Creates the engine from operating-system entropy, retrying each word
    /// until it is nonzero: on success every state word is nonzero, so the
    /// state is never all zero. Fails only when the entropy source does.
    pub fn new_random() -> (r: Result<Self, EntropyError>)
        ensures
            r matches Ok(e) ==> e.state[0] != 0 && e.state[1] != 0,
            r matches Ok(e) ==> e.wf(),
    {
        let words = os_nonzero_words(2)?;
        Ok(Self { state: [words[0], words[1]] })
    }

    /// Creates the engine from two explicit words. The caller must rule out
    /// the all-zero seed; `checked_from_seed` reports it instead.
    pub fn new_from_seed(seed: &[u64; 2]) -> (r: Self)
        requires
            seed[0] != 0 || seed[1] != 0,
        ensures
            r.key() == (seed[0], seed[1]),
            r.wf(),
    {
        Self { state: [seed[0], seed[1]] }
    }

    /// Creates the engine from two explicit words, or reports an all-zero
    /// seed: the result is `None` exactly when both words are zero.
    pub fn checked_from_seed(seed: &[u64; 2]) -> (r: Option<Self>)
        ensures
            r matches Some(e) ==> e.key() == (seed[0], seed[1]) && e.wf(),
            r is None <==> seed[0] == 0 && seed[1] == 0,
    {
        if seed[0] != 0 || seed[1] != 0 {
            Some(Self { state: [seed[0], seed[1]] })
        } else {
            None
        }
    }

    /// Creates the engine by folding the bytes of a string into an all-ones
    /// two-word buffer. The caller must rule out input that folds to the
    /// all-zero state; `checked_from_str` reports it instead.
    pub fn new_from_str(input: &str) -> (r: Self)
        requires
            str_seed128(input.spec_bytes()) != (0u64, 0u64),
        ensures
            r.key() == str_seed128(input.spec_bytes()),
            r.wf(),
    {
        let (a, b) = fold_str128(input);
        Self { state: [a, b] }
    }

    /// Creates the engine by folding the bytes of a string, or reports a
    /// fold to the all-zero state: the result is `None` exactly then.
    pub fn checked_from_str(input: &str) -> (r: Option<Self>)
        ensures
            r matches Some(e) ==> e.key() == str_seed128(input.spec_bytes()) && e.wf(),
            r is None <==> str_seed128(input.spec_bytes()) == (0u64, 0u64),
    {
        let (a, b) = fold_str128(input);
        if a != 0 || b != 0 {
            Some(Self { state: [a, b] })
        } else {
            None
        }
    }

    /// Creates the engine from a nonempty byte slice, repeated cyclically to
    /// 16 bytes and packed little-endian into the two state words. The caller
    /// must rule out input that packs to the all-zero state;
    /// `checked_from_bytes` reports it instead.
    pub fn new_from_bytes(seed: &[u8]) -> (r: Self)
        requires
            seed@.len() > 0,
            bytes_word(seed@, 0) != 0 || bytes_word(seed@, 8) != 0,
        ensures
            r.key() == (bytes_word(seed@, 0), bytes_word(seed@, 8)),
            r.wf(),
    {
        let a = word_from_bytes(seed, 0);
        let b = word_from_bytes(seed, 8);
        Self { state: [a, b] }
    }

    /// Creates the engine from a byte slice, or reports input that cannot
    /// seed it: the result is `None` exactly when the slice is empty or
    /// packs to the all-zero state.
    pub fn checked_from_bytes(seed: &[u8]) -> (r: Option<Self>)
        ensures
            r matches Some(e) ==> e.key() == (bytes_word(seed@, 0), bytes_word(seed@, 8))
                && e.wf(),
            r is None <==> seed@.len() == 0 || (bytes_word(seed@, 0) == 0 && bytes_word(seed@, 8)
                == 0),
    {
        if seed.len() == 0 {
            return None;
        }
        let a = word_from_bytes(seed, 0);
        let b = word_from_bytes(seed, 8);
        if a != 0 || b != 0 {
            Some(Self { state: [a, b] })
        } else {
            None
        }
    }

    /// One advance of the recurrence. A nonzero state stays nonzero: the
    /// transition is invertible and fixes only the all-zero state.
    fn clock(&mut self)
        ensures
            final(self).key() == clock128_spec(old(self).key()),
            old(self).wf() ==> final(self).wf(),
    {
        let mut t = self.state[0];
        let s = self.state[1];
        self.state[0] = s;
        t = t ^ (t << 23u32);
        t = t ^ (t >> 18u32);
        t = t ^ s ^ (s >> 5u32);
        self.state[1] = t;
        proof {
            let a = old(self).key().0;
            let b = old(self).key().1;
            assert(({
                let t0 = a ^ (a << 23u32);
                let t1 = t0 ^ (t0 >> 18u32);
                let t2 = t1 ^ b ^ (b >> 5u32);
                (a != 0 || b != 0) ==> (b != 0 || t2 != 0)
            })) by (bit_vector);
        }
    }

    /// The word the current state combines into.
    fn sum(&self) -> (r: u64)
        ensures
            r == word128_spec(self.key()),
    {
        self.state[0].wrapping_add(self.state[1])
    }

    /// Advances the engine `n` times without emitting words; used to move
    /// the state away from a possibly low-entropy seed before first output.
    pub fn init(&mut self, n: usize)
        ensures
            final(self).key() == clock128_iter(old(self).key(), n as nat),
            old(self).wf() ==> final(self).wf(),
    {
        let ghost start: (u64, u64) = self.key();
        let mut i: usize = 0;
        while i < n
            invariant
                i <= n,
                self.key() == clock128_iter(start, i as nat),
                start != (0u64, 0u64) ==> self.key() != (0u64, 0u64),
            decreases n - i,
        {
            self.clock();
            i = i + 1;
        }
    }

    /// Advances once and returns the canonical 53-bit draw of the new word.
    pub fn canonical_bits(&mut self) -> (r: u64)
        ensures
            final(self).key() == clock128_spec(old(self).key()),
            r == nth_word128(old(self).key(), 0) >> 11u32,
            r < 0x20_0000_0000_0000u64,
            old(self).wf() ==> final(self).wf(),
    {
        self.clock();
        canonical_bits_f64(self.sum())
    }

    /// Advances once and shapes the new word under the non-canonical policy.
    pub fn noncanonical_bits(&mut self) -> (r: u64)
        ensures
            final(self).key() == clock128_spec(old(self).key()),
            r == with_params_spec_f64(nth_word128(old(self).key(), 0), 56, Sign::Unsigned),
            sign_bit_f64(r) == 0,
            0x3f0 <= exp_field_f64(r) <= 0x3fe,
            old(self).wf() ==> final(self).wf(),
    {
        self.clock();
        noncanonical_bits_f64(self.sum())
    }

    /// Advances once and shapes the new word under the parameterized policy
    /// with the given (saturating) shift and sign selector.
    pub fn with_params_bits(&mut self, left_shift: i8, sign: Sign) -> (r: u64)
        ensures
            final(self).key() == clock128_spec(old(self).key()),
            r == with_params_spec_f64(nth_word128(old(self).key(), 0), left_shift, sign),
            old(self).wf() ==> final(self).wf(),
    {
        self.clock();
        with_params_bits_f64(self.sum(), left_shift, sign)
    }

    /// Advances once and shapes the new word under the explicit-exponent
    /// policy: pseudorandom mantissa, the low 11 bits of `exponent` as the
    /// exponent field, and a pseudorandom sign exactly when `Signed`.
    pub fn exp_bits(&mut self, exponent: u16, sign: Sign) -> (r: u64)
        ensures
            final(self).key() == clock128_spec(old(self).key()),
            r == exponent_spec_f64(nth_word128(old(self).key(), 0), exponent, sign),
            mantissa_f64(r) == mantissa_f64(nth_word128(old(self).key(), 0)),
            exp_field_f64(r) == (exponent & 0x7ff) as u64,
            exponent < 0x800 ==> exp_field_f64(r) == exponent as u64,
            old(self).wf() ==> final(self).wf(),
    {
        self.clock();
        exponent_bits_f64(self.sum(), exponent, sign)
    }

    /// Advances once and returns the new word unshaped; reinterpreted as a
    /// double it may be anything, `NaN` and the infinities included.
    pub fn wild_bits(&mut self) -> (r: u64)
        ensures
            final(self).key() == clock128_spec(old(self).key()),
            r == nth_word128(old(self).key(), 0),
            old(self).wf() ==> final(self).wf(),
    {
        self.clock();
        self.sum()
    }

    /// Advances once and returns the canonical 23-bit draw of each 32-bit
    /// lane of the new word, low lane first.
    pub fn tuple_canonical_bits(&mut self) -> (r: (u32, u32))
        ensures
            final(self).key() == clock128_spec(old(self).key()),
            r.0 == (nth_word128(old(self).key(), 0) as u32) >> 9u32,
            r.1 == (nth_word128(old(self).key(), 0) >> 32u32) as u32 >> 9u32,
            r.0 < 0x80_0000u32 && r.1 < 0x80_0000u32,
            old(self).wf() ==> final(self).wf(),
    {
        self.clock();
        let (lo, hi) = u32_from_u64(self.sum());
        (canonical_bits_f32(lo), canonical_bits_f32(hi))
    }

    /// Advances once and shapes each lane of the new word under the
    /// non-canonical single-precision policy, low lane first.
    pub fn tuple_noncanonical_bits(&mut self) -> (r: (u32, u32))
        ensures
            final(self).key() == clock128_spec(old(self).key()),
            r.0 == with_params_spec_f32(nth_word128(old(self).key(), 0) as u32, 26, Sign::Unsigned),
            r.1 == with_params_spec_f32(
                (nth_word128(old(self).key(), 0) >> 32u32) as u32,
                26,
                Sign::Unsigned,
            ),
            old(self).wf() ==> final(self).wf(),
    {
        self.clock();
        let (lo, hi) = u32_from_u64(self.sum());
        (noncanonical_bits_f32(lo), noncanonical_bits_f32(hi))
    }

    /// Advances once and shapes each lane of the new word under the
    /// parameterized single-precision policy, low lane first.
    pub fn tuple_with_params_bits(&mut self, left_shift: i8, sign: Sign) -> (r: (u32, u32))
        ensures
            final(self).key() == clock128_spec(old(self).key()),
            r.0 == with_params_spec_f32(nth_word128(old(self).key(), 0) as u32, left_shift, sign),
            r.1 == with_params_spec_f32(
                (nth_word128(old(self).key(), 0) >> 32u32) as u32,
                left_shift,
                sign,
            ),
            old(self).wf() ==> final(self).wf(),
    {
        self.clock();
        let (lo, hi) = u32_from_u64(self.sum());
        (with_params_bits_f32(lo, left_shift, sign), with_params_bits_f32(hi, left_shift, sign))
    }

    /// Advances once and returns the two unshaped lanes of the new word, low
    /// lane first; reinterpreted as singles they may be anything.
    pub fn tuple_wild_bits(&mut self) -> (r: (u32, u32))
        ensures
            final(self).key() == clock128_spec(old(self).key()),
            r.0 == nth_word128(old(self).key(), 0) as u32,
            r.1 == (nth_word128(old(self).key(), 0) >> 32u32) as u32,
            old(self).wf() ==> final(self).wf(),
    {
        self.clock();
        u32_from_u64(self.sum())
    }

    /// Advances once and shapes each lane of the new word under the
    /// explicit-exponent single-precision policy, low lane first.
    pub fn tuple_exp_bits(&mut self, exponent: u8, sign: Sign) -> (r: (u32, u32))
        ensures
            final(self).key() == clock128_spec(old(self).key()),
            r.0 == exponent_spec_f32(nth_word128(old(self).key(), 0) as u32, exponent, sign),
            r.1 == exponent_spec_f32(
                (nth_word128(old(self).key(), 0) >> 32u32) as u32,
                exponent,
                sign,
            ),
            old(self).wf() ==> final(self).wf(),
    {
        self.clock();
        let (lo, hi) = u32_from_u64(self.sum());
        (exponent_bits_f32(lo, exponent, sign), exponent_bits_f32(hi, exponent, sign))
    }
}

impl WordSource for Xorshift128p {
    fn next_word(&mut self) -> u64 {
        self.clock();
        self.sum()
    }
}

/// A left rotation of a word by `k` bits, for `k` strictly between 0 and 64.
pub open spec fn rotl64(x: u64, k: u32) -> u64 {
    (x << k) | (x >> ((64 - k) as u32))
}

/// One advance of the xoroshiro-rotate-add recurrence on a four-word state.
pub open spec fn clock256_spec(s: (u64, u64, u64, u64)) -> (u64, u64, u64, u64) {
    let t = s.1 << 17u32;
    let s2a = s.2 ^ s.0;
    let s3a = s.3 ^ s.1;
    let s1a = s.1 ^ s2a;
    let s0a = s.0 ^ s3a;
    let s2b = s2a ^ t;
    let s3b = rotl64(s3a, 45);
    (s0a, s1a, s2b, s3b)
}

/// The word a four-word state combines into: rotate the wrapping sum of the
/// outer words left by 23 and add the first word again, wrapping.
pub open spec fn word256_spec(s: (u64, u64, u64, u64)) -> u64 {
    rotl64(s.0.wrapping_add(s.3), 23).wrapping_add(s.0)
}

/// The four-word state after `n` advances.
pub open spec fn clock256_iter(s: (u64, u64, u64, u64), n: nat) -> (u64, u64, u64, u64)
    decreases n,
{
    if n == 0 {
        s
    } else {
        clock256_spec(clock256_iter(s, (n - 1) as nat))
    }
}

/// The `n`-th word drawn from initial state `s`: each draw advances the
/// state once and then combines it.
pub open spec fn nth_word256(s: (u64, u64, u64, u64), n: nat) -> u64 {
    word256_spec(clock256_spec(clock256_iter(s, n)))
}

/// The xoroshiro-rotate-add seed folded from a byte string: byte `i` XORs
/// into word `(i/8) mod 4` of an all-ones four-word buffer, at bit offset
/// `(i mod 8)*8`. `k` is how many leading bytes have been folded in.
pub open spec fn fold256(bytes: Seq<u8>, k: int) -> (u64, u64, u64, u64)
    decreases k,
{
    if k <= 0 {
        (u64::MAX, u64::MAX, u64::MAX, u64::MAX)
    } else {
        let prev = fold256(bytes, k - 1);
        let i = k - 1;
        let shifted = (bytes[i] as u64) << (((i % 8) * 8) as u32);
        if (i / 8) % 4 == 0 {
            (prev.0 ^ shifted, prev.1, prev.2, prev.3)
        } else if (i / 8) % 4 == 1 {
            (prev.0, prev.1 ^ shifted, prev.2, prev.3)
        } else if (i / 8) % 4 == 2 {
            (prev.0, prev.1, prev.2 ^ shifted, prev.3)
        } else {
            (prev.0, prev.1, prev.2, prev.3 ^ shifted)
        }
    }
}

/// The seed the whole byte string folds to.
pub open spec fn str_seed256(bytes: Seq<u8>) -> (u64, u64, u64, u64) {
    fold256(bytes, bytes.len() as int)
}

/// Two engines with equal states emit the same word at every position.
pub proof fn lemma_stream_deterministic256(s: (u64, u64, u64, u64), t: (u64, u64, u64, u64))
    requires
        s == t,
    ensures
        forall|n: nat| nth_word256(s, n) == nth_word256(t, n),
{
}

/// Advancing before iterating lands on the same state as iterating before
/// advancing.
pub proof fn lemma_clock_iter_shift256(s: (u64, u64, u64, u64), n: nat)
    ensures
        clock256_iter(clock256_spec(s), n) == clock256_spec(clock256_iter(s, n)),
    decreases n,
{
    if n > 0 {
        lemma_clock_iter_shift256(s, (n - 1) as nat);
    }
}

/// One draw advances the state once, and the stream of the advanced state
/// is the old stream shifted by one.
pub proof fn lemma_draw_shifts_stream256(s: (u64, u64, u64, u64), n: nat)
    ensures
        nth_word256(clock256_spec(s), n) == nth_word256(s, n + 1),
{
    lemma_clock_iter_shift256(s, n);
}

/// The xoroshiro-rotate-add engine: a 256-bit state held as four words.
/// Each advance XOR-mixes the words, folds a shifted copy of the second word
/// back in, and rotates the last word; the emitted word rotate-adds the
/// outer words.
pub struct Xoroshiro256pp {
    pub state: [u64; 4],
}

impl Xoroshiro256pp {
    /// The state as a quadruple, the form the specifications speak of.
    pub open spec fn key(self) -> (u64, u64, u64, u64) {
        (self.state[0], self.state[1], self.state[2], self.state[3])
    }

    /// A usable engine never holds the all-zero state.
    pub open spec fn wf(self) -> bool {
        self.key() != (0u64, 0u64, 0u64, 0u64)
    }

    /// Creates the engine in its default state: all four words all ones.
    pub fn new() -> (r: Self)
        ensures
            r.key() == (u64::MAX, u64::MAX, u64::MAX, u64::MAX),
            r.wf(),
    {
        Self { state: [u64::MAX, u64::MAX, u64::MAX, u64::MAX] }
    }

    /// Creates the engine from operating-system entropy, retrying each word
    /// until it is nonzero: on success every state word is nonzero, so the
    /// state is never all zero. Fails only when the entropy source does.
    pub fn new_random() -> (r: Result<Self, EntropyError>)
        ensures
            r matches Ok(e) ==> e.state[0] != 0 && e.state[1] != 0 && e.state[2] != 0
                && e.state[3] != 0,
            r matches Ok(e) ==> e.wf(),
    {
        let words = os_nonzero_words(4)?;
        Ok(Self { state: [words[0], words[1], words[2], words[3]] })
    }

    /// Creates the engine from four explicit words. The caller must rule out
    /// the all-zero seed; `checked_from_seed` reports it instead.
    pub fn new_from_seed(seed: &[u64; 4]) -> (r: Self)
        requires
            seed[0] != 0 || seed[1] != 0 || seed[2] != 0 || seed[3] != 0,
        ensures
            r.key() == (seed[0], seed[1], seed[2], seed[3]),
            r.wf(),
    {
        Self { state: [seed[0], seed[1], seed[2], seed[3]] }
    }

    /// Creates the engine from four explicit words, or reports an all-zero
    /// seed: the result is `None` exactly when all four words are zero.
    pub fn checked_from_seed(seed: &[u64; 4]) -> (r: Option<Self>)
        ensures
            r matches Some(e) ==> e.key() == (seed[0], seed[1], seed[2], seed[3]) && e.wf(),
            r is None <==> seed[0] == 0 && seed[1] == 0 && seed[2] == 0 && seed[3] == 0,
    {
        if seed[0] != 0 || seed[1] != 0 || seed[2] != 0 || seed[3] != 0 {
            Some(Self { state: [seed[0], seed[1], seed[2], seed[3]] })
        } else {
            None
        }
    }

    /// Creates the engine by folding the bytes of a string into an all-ones
    /// four-word buffer. The caller must rule out input that folds to the
    /// all-zero state; `checked_from_str` reports it instead.
    pub fn new_from_str(input: &str) -> (r: Self)
        requires
            str_seed256(input.spec_bytes()) != (0u64, 0u64, 0u64, 0u64),
        ensures
            r.key() == str_seed256(input.spec_bytes()),
            r.wf(),
    {
        let (a, b, c, d) = fold_str256(input);
        Self { state: [a, b, c, d] }
    }

    /// Creates the engine by folding the bytes of a string, or reports a
    /// fold to the all-zero state: the result is `None` exactly then.
    pub fn checked_from_str(input: &str) -> (r: Option<Self>)
        ensures
            r matches Some(e) ==> e.key() == str_seed256(input.spec_bytes()) && e.wf(),
            r is None <==> str_seed256(input.spec_bytes()) == (0u64, 0u64, 0u64, 0u64),
    {
        let (a, b, c, d) = fold_str256(input);
        if a != 0 || b != 0 || c != 0 || d != 0 {
            Some(Self { state: [a, b, c, d] })
        } else {
            None
        }
    }

    /// Creates the engine from a nonempty byte slice, repeated cyclically to
    /// 32 bytes and packed little-endian into the four state words. The
    /// caller must rule out input that packs to the all-zero state;
    /// `checked_from_bytes` reports it instead.
    pub fn new_from_bytes(seed: &[u8]) -> (r: Self)
        requires
            seed@.len() > 0,
            bytes_word(seed@, 0) != 0 || bytes_word(seed@, 8) != 0 || bytes_word(seed@, 16) != 0
                || bytes_word(seed@, 24) != 0,
        ensures
            r.key() == (
                bytes_word(seed@, 0),
                bytes_word(seed@, 8),
                bytes_word(seed@, 16),
                bytes_word(seed@, 24),
            ),
            r.wf(),
    {
        let a = word_from_bytes(seed, 0);
        let b = word_from_bytes(seed, 8);
        let c = word_from_bytes(seed, 16);
        let d = word_from_bytes(seed, 24);
        Self { state: [a, b, c, d] }
    }

    /// Creates the engine from a byte slice, or reports input that cannot
    /// seed it: the result is `None` exactly when the slice is empty or
    /// packs to the all-zero state.
    pub fn checked_from_bytes(seed: &[u8]) -> (r: Option<Self>)
        ensures
            r matches Some(e) ==> e.key() == (
                bytes_word(seed@, 0),
                bytes_word(seed@, 8),
                bytes_word(seed@, 16),
                bytes_word(seed@, 24),
            ) && e.wf(),
            r is None <==> seed@.len() == 0 || (bytes_word(seed@, 0) == 0 && bytes_word(seed@, 8)
                == 0 && bytes_word(seed@, 16) == 0 && bytes_word(seed@, 24) == 0),
    {
        if seed.len() == 0 {
            return None;
        }
        let a = word_from_bytes(seed, 0);
        let b = word_from_bytes(seed, 8);
        let c = word_from_bytes(seed, 16);
        let d = word_from_bytes(seed, 24);
        if a != 0 || b != 0 || c != 0 || d != 0 {
            Some(Self { state: [a, b, c, d] })
        } else {
            None
        }
    }

    /// One advance of the recurrence. A nonzero state stays nonzero: the
    /// transition is invertible and fixes only the all-zero state.
    fn clock(&mut self)
        ensures
            final(self).key() == clock256_spec(old(self).key()),
            old(self).wf() ==> final(self).wf(),
    {
        let t: u64 = self.state[1] << 17u32;
        self.state[2] = self.state[2] ^ self.state[0];
        self.state[3] = self.state[3] ^ self.state[1];
        self.state[1] = self.state[1] ^ self.state[2];
        self.state[0] = self.state[0] ^ self.state[3];
        self.state[2] = self.state[2] ^ t;
        self.state[3] = (self.state[3] << 45u32) | (self.state[3] >> 19u32);
        proof {
            let a = old(self).key().0;
            let b = old(self).key().1;
            let c = old(self).key().2;
            let d = old(self).key().3;
            assert(({
                let t = b << 17u32;
                let c1 = c ^ a;
                let d1 = d ^ b;
                let b1 = b ^ c1;
                let a1 = a ^ d1;
                let c2 = c1 ^ t;
                let d2 = (d1 << 45u32) | (d1 >> 19u32);
                (a != 0 || b != 0 || c != 0 || d != 0) ==> (a1 != 0 || b1 != 0 || c2 != 0 || d2
                    != 0)
            })) by (bit_vector);
        }
    }

    /// The word the current state combines into.
    fn sum(&self) -> (r: u64)
        ensures
            r == word256_spec(self.key()),
    {
        let x = self.state[0].wrapping_add(self.state[3]);
        ((x << 23u32) | (x >> 41u32)).wrapping_add(self.state[0])
    }

    /// Advances the engine `n` times without emitting words.
    pub fn init(&mut self, n: usize)
        ensures
            final(self).key() == clock256_iter(old(self).key(), n as nat),
            old(self).wf() ==> final(self).wf(),
    {
        let ghost start: (u64, u64, u64, u64) = self.key();
        let mut i: usize = 0;
        while i < n
            invariant
                i <= n,
                self.key() == clock256_iter(start, i as nat),
                start != (0u64, 0u64, 0u64, 0u64) ==> self.key() != (0u64, 0u64, 0u64, 0u64),
            decreases n - i,
        {
            self.clock();
            i = i + 1;
        }
    }

    /// Advances once and returns the canonical 53-bit draw of the new word.
    pub fn canonical_bits(&mut self) -> (r: u64)
        ensures
            final(self).key() == clock256_spec(old(self).key()),
            r == nth_word256(old(self).key(), 0) >> 11u32,
            r < 0x20_0000_0000_0000u64,
            old(self).wf() ==> final(self).wf(),
    {
        self.clock();
        canonical_bits_f64(self.sum())
    }

    /// Advances once and shapes the new word under the non-canonical policy.
    pub fn noncanonical_bits(&mut self) -> (r: u64)
        ensures
            final(self).key() == clock256_spec(old(self).key()),
            r == with_params_spec_f64(nth_word256(old(self).key(), 0), 56, Sign::Unsigned),
            sign_bit_f64(r) == 0,
            0x3f0 <= exp_field_f64(r) <= 0x3fe,
            old(self).wf() ==> final(self).wf(),
    {
        self.clock();
        noncanonical_bits_f64(self.sum())
    }

    /// Advances once and shapes the new word under the parameterized policy
    /// with the given (saturating) shift and sign selector.
    pub fn with_params_bits(&mut self, left_shift: i8, sign: Sign) -> (r: u64)
        ensures
            final(self).key() == clock256_spec(old(self).key()),
            r == with_params_spec_f64(nth_word256(old(self).key(), 0), left_shift, sign),
            old(self).wf() ==> final(self).wf(),
    {
        self.clock();
        with_params_bits_f64(self.sum(), left_shift, sign)
    }

    /// Advances once and shapes the new word under the explicit-exponent
    /// policy.
    pub fn exp_bits(&mut self, exponent: u16, sign: Sign) -> (r: u64)
        ensures
            final(self).key() == clock256_spec(old(self).key()),
            r == exponent_spec_f64(nth_word256(old(self).key(), 0), exponent, sign),
            mantissa_f64(r) == mantissa_f64(nth_word256(old(self).key(), 0)),
            exp_field_f64(r) == (exponent & 0x7ff) as u64,
            exponent < 0x800 ==> exp_field_f64(r) == exponent as u64,
            old(self).wf() ==> final(self).wf(),
    {
        self.clock();
        exponent_bits_f64(self.sum(), exponent, sign)
    }

    /// Advances once and returns the new word unshaped.
    pub fn wild_bits(&mut self) -> (r: u64)
        ensures
            final(self).key() == clock256_spec(old(self).key()),
            r == nth_word256(old(self).key(), 0),
            old(self).wf() ==> final(self).wf(),
    {
        self.clock();
        self.sum()
    }

    /// Advances once and returns the canonical 23-bit draw of each 32-bit
    /// lane of the new word, low lane first.
    pub fn tuple_canonical_bits(&mut self) -> (r: (u32, u32))
        ensures
            final(self).key() == clock256_spec(old(self).key()),
            r.0 == (nth_word256(old(self).key(), 0) as u32) >> 9u32,
            r.1 == (nth_word256(old(self).key(), 0) >> 32u32) as u32 >> 9u32,
            r.0 < 0x80_0000u32 && r.1 < 0x80_0000u32,
            old(self).wf() ==> final(self).wf(),
    {
        self.clock();
        let (lo, hi) = u32_from_u64(self.sum());
        (canonical_bits_f32(lo), canonical_bits_f32(hi))
    }

    /// Advances once and shapes each lane of the new word under the
    /// non-canonical single-precision policy, low lane first.
    pub fn tuple_noncanonical_bits(&mut self) -> (r: (u32, u32))
        ensures
            final(self).key() == clock256_spec(old(self).key()),
            r.0 == with_params_spec_f32(nth_word256(old(self).key(), 0) as u32, 26, Sign::Unsigned),
            r.1 == with_params_spec_f32(
                (nth_word256(old(self).key(), 0) >> 32u32) as u32,
                26,
                Sign::Unsigned,
            ),
            old(self).wf() ==> final(self).wf(),
    {
        self.clock();
        let (lo, hi) = u32_from_u64(self.sum());
        (noncanonical_bits_f32(lo), noncanonical_bits_f32(hi))
    }

    /// Advances once and shapes each lane of the new word under the
    /// parameterized single-precision policy, low lane first.
    pub fn tuple_with_params_bits(&mut self, left_shift: i8, sign: Sign) -> (r: (u32, u32))
        ensures
            final(self).key() == clock256_spec(old(self).key()),
            r.0 == with_params_spec_f32(nth_word256(old(self).key(), 0) as u32, left_shift, sign),
            r.1 == with_params_spec_f32(
                (nth_word256(old(self).key(), 0) >> 32u32) as u32,
                left_shift,
                sign,
            ),
            old(self).wf() ==> final(self).wf(),
    {
        self.clock();
        let (lo, hi) = u32_from_u64(self.sum());
        (with_params_bits_f32(lo, left_shift, sign), with_params_bits_f32(hi, left_shift, sign))
    }

    /// Advances once and returns the two unshaped lanes of the new word, low
    /// lane first.
    pub fn tuple_wild_bits(&mut self) -> (r: (u32, u32))
        ensures
            final(self).key() == clock256_spec(old(self).key()),
            r.0 == nth_word256(old(self).key(), 0) as u32,
            r.1 == (nth_word256(old(self).key(), 0) >> 32u32) as u32,
            old(self).wf() ==> final(self).wf(),
    {
        self.clock();
        u32_from_u64(self.sum())
    }

    /// Advances once and shapes each lane of the new word under the
    /// explicit-exponent single-precision policy, low lane first.
    pub fn tuple_exp_bits(&mut self, exponent: u8, sign: Sign) -> (r: (u32, u32))
        ensures
            final(self).key() == clock256_spec(old(self).key()),
            r.0 == exponent_spec_f32(nth_word256(old(self).key(), 0) as u32, exponent, sign),
            r.1 == exponent_spec_f32(
                (nth_word256(old(self).key(), 0) >> 32u32) as u32,
                exponent,
                sign,
            ),
            old(self).wf() ==> final(self).wf(),
    {
        self.clock();
        let (lo, hi) = u32_from_u64(self.sum());
        (exponent_bits_f32(lo, exponent, sign), exponent_bits_f32(hi, exponent, sign))
    }
}

impl WordSource for Xoroshiro256pp {
    fn next_word(&mut self) -> u64 {
        self.clock();
        self.sum()
    }
}

/// Folds a string's bytes into an all-ones four-word buffer, as the
/// xoroshiro-rotate-add string seeding path does.
fn fold_str256(input: &str) -> (r: (u64, u64, u64, u64))
    ensures
        r == str_seed256(input.spec_bytes()),
{
    let bytes = input.as_bytes();
    let n = bytes.len();
    let mut a: u64 = u64::MAX;
    let mut b: u64 = u64::MAX;
    let mut c: u64 = u64::MAX;
    let mut d: u64 = u64::MAX;
    let mut i: usize = 0;
    while i < n
        invariant
            i <= n,
            n == bytes@.len(),
            (a, b, c, d) == fold256(bytes@, i as int),
        decreases n - i,
    {
        let byte = bytes[i];
        let shift: u32 = ((i % 8) * 8) as u32;
        let slot = (i / 8) % 4;
        if slot == 0 {
            a = a ^ ((byte as u64) << shift);
        } else if slot == 1 {
            b = b ^ ((byte as u64) << shift);
        } else if slot == 2 {
            c = c ^ ((byte as u64) << shift);
        } else {
            d = d ^ ((byte as u64) << shift);
        }
        i = i + 1;
    }
    (a, b, c, d)
}

/// Folds a string's bytes into an all-ones two-word buffer, as the
/// xorshift-add string seeding path does.
fn fold_str128(input: &str) -> (r: (u64, u64))
    ensures
        r == str_seed128(input.spec_bytes()),
{
    let bytes = input.as_bytes();
    let n = bytes.len();
    let mut a: u64 = u64::MAX;
    let mut b: u64 = u64::MAX;
    let mut i: usize = 0;
    while i < n
        invariant
            i <= n,
            n == bytes@.len(),
            (a, b) == fold128(bytes@, i as int),
        decreases n - i,
    {
        let byte = bytes[i];
        let shift: u32 = ((i % 8) * 8) as u32;
        if (i / 8) % 2 == 0 {
            a = a ^ ((byte as u64) << shift);
        } else {
            b = b ^ ((byte as u64) << shift);
        }
        i = i + 1;
    }
    (a, b)
}

} // verus!
