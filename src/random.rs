//! A random engine with two generators behind one interface: a general one
//! seeded from the host's entropy, and a Mersenne Twister seeded from an
//! integer, whose draws are reproducible.
use mt19937::MT19937;
use num_bigint::{BigInt, Sign};
use num_traits::Signed;
use rand::rngs::StdRng;
use rand::{RngCore, SeedableRng};
use vstd::prelude::*;

verus! {

#[verifier::external_type_specification]
#[verifier::external_body]
pub struct ExStdRng(StdRng);

#[verifier::external_type_specification]
#[verifier::external_body]
pub struct ExMT19937(MT19937);

#[verifier::external_type_specification]
#[verifier::external_body]
pub struct ExBigInt(BigInt);

/// The `n`-th word (from 0) that a Mersenne Twister seeded with `key` draws.
pub uninterp spec fn mt_word(key: Seq<u32>, n: nat) -> u32;

/// A Mersenne Twister with what it was seeded with and how many words it has
/// drawn since.
pub struct SeededMt {
    inner: MT19937,
    key: Ghost<Seq<u32>>,
    drawn: Ghost<nat>,
}

impl SeededMt {
    /// The key it was seeded with.
    pub closed spec fn key(&self) -> Seq<u32> {
        self.key@
    }

    /// The words drawn since seeding.
    pub closed spec fn drawn(&self) -> nat {
        self.drawn@
    }
}

/// Relies on `MT19937::new_with_slice_seed`: the generator's state, and so
/// every word it draws, follows from the key alone. The key must not be
/// empty: the seeding reads its first word.
#[verifier::external_body]
fn mt_seeded(key: &[u32]) -> (r: SeededMt)
    requires
        key@.len() > 0,
    ensures
        r.key() == key@,
        r.drawn() == 0,
{
    SeededMt { inner: MT19937::new_with_slice_seed(key), key: Ghost(key@), drawn: Ghost(0) }
}

/// Relies on `<MT19937 as RngCore>::next_u32`: draws the next word of the
/// generator's sequence.
#[verifier::external_body]
fn mt_next_u32(m: &mut SeededMt) -> (r: u32)
    ensures
        r == mt_word(old(m).key(), old(m).drawn()),
        final(m).key() == old(m).key(),
        final(m).drawn() == old(m).drawn() + 1,
{
    m.inner.next_u32()
}

/// Relies on `StdRng::from_entropy`: a generator seeded from the host's
/// entropy source, which panics only where that source fails.
#[verifier::external_body]
fn std_from_entropy() -> StdRng {
    StdRng::from_entropy()
}

/// Relies on `<StdRng as RngCore>::next_u32`: any word.
#[verifier::external_body]
fn std_next_u32(s: &mut StdRng) -> u32 {
    s.next_u32()
}

/// The absolute value of `n`.
pub uninterp spec fn abs_of(n: BigInt) -> BigInt;

/// The base 2^32 digits of `n`'s magnitude, least significant first.
pub uninterp spec fn u32_digits_of(n: BigInt) -> Seq<u32>;

/// The non-negative integer whose base 2^32 digits, least significant first,
/// are `w`.
pub uninterp spec fn bigint_from_digits(w: Seq<u32>) -> BigInt;

/// Relies on `Signed::abs` for `BigInt`: the absolute value.
#[verifier::external_body]
fn bigint_abs(n: &BigInt) -> (r: BigInt)
    ensures
        r == abs_of(*n),
{
    n.abs()
}

/// Relies on `BigInt::to_u32_digits`: the magnitude's base 2^32 digits,
/// least significant first; none for zero.
#[verifier::external_body]
fn bigint_u32_digits(n: &BigInt) -> (r: Vec<u32>)
    ensures
        r@ == u32_digits_of(*n),
{
    n.to_u32_digits().1
}

/// Relies on `BigInt::from_slice` with a plus sign: the non-negative integer
/// whose base 2^32 digits, least significant first, are `words`.
#[verifier::external_body]
fn bigint_from_words(words: &[u32]) -> (r: BigInt)
    ensures
        r == bigint_from_digits(words@),
{
    BigInt::from_slice(Sign::Plus, words)
}

/// The key that seeds the Mersenne Twister from the digits of a seed's
/// magnitude, least significant first: the digits themselves, or a single
/// zero for none.
pub open spec fn key_from_digits(digits: Seq<u32>) -> Seq<u32> {
    if digits.len() == 0 {
        seq![0u32]
    } else {
        digits
    }
}

/// The seeding key for a seed whose magnitude has the digits `digits`.
pub fn seed_key(digits: Vec<u32>) -> (r: Vec<u32>)
    ensures
        r@ == key_from_digits(digits@),
        r@.len() > 0,
{
    if digits.len() == 0 {
        let mut k: Vec<u32> = Vec::new();
        k.push(0);
        assert(k@ =~= seq![0u32]);
        k
    } else {
        digits
    }
}

/// The engine's generator.
pub enum PyRng {
    /// Seeded from the host's entropy; not reproducible.
    Std(Box<StdRng>),
    /// Seeded from an integer; reproducible.
    MT(Box<SeededMt>),
}

impl PyRng {
    /// Whether the generator is the seeded Mersenne Twister.
    pub open spec fn is_deterministic(&self) -> bool {
        self is MT
    }

    /// The Mersenne Twister's key; empty for the general generator.
    pub open spec fn key(&self) -> Seq<u32> {
        match self {
            PyRng::MT(m) => m.key(),
            PyRng::Std(_) => Seq::empty(),
        }
    }

    /// Words the Mersenne Twister has drawn since seeding; 0 for the general
    /// generator.
    pub open spec fn drawn(&self) -> nat {
        match self {
            PyRng::MT(m) => m.drawn(),
            PyRng::Std(_) => 0,
        }
    }

    /// A general generator seeded from the host's entropy.
    pub fn default() -> (r: Self)
        ensures
            !r.is_deterministic(),
    {
        PyRng::Std(Box::new(std_from_entropy()))
    }

    /// Draws one word from the active generator. The Mersenne Twister gives
    /// the next word of its key's sequence.
    pub fn next_u32(&mut self) -> (r: u32)
        ensures
            final(self).is_deterministic() == old(self).is_deterministic(),
            final(self).key() == old(self).key(),
            old(self).is_deterministic() ==> r == mt_word(old(self).key(), old(self).drawn())
                && final(self).drawn() == old(self).drawn() + 1,
    {
        match self {
            PyRng::Std(s) => std_next_u32(s),
            PyRng::MT(m) => mt_next_u32(m),
        }
    }
}

/// Words drawn for a request of `k` bits: one up to 32 bits, else one per
/// started 32 bits.
pub open spec fn word_count(k: nat) -> nat {
    if k <= 32 {
        1
    } else {
        (k + 31) / 32
    }
}

/// A drawn word cut to its top `bits` bits, shifted down: all of it from 32
/// bits on, nothing at 0 bits.
pub open spec fn shape(w: u32, bits: int) -> u32 {
    if bits >= 32 {
        w
    } else if bits <= 0 {
        0
    } else {
        ((w as u64) >> ((32 - bits) as u64)) as u32
    }
}

/// The draws `d` for a request of `k` bits, each cut to the bits left for its
/// place: 32 for all but the last, the rest for the last.
pub open spec fn shaped(d: Seq<u32>, k: nat) -> Seq<u32> {
    Seq::new(d.len(), |i: int| shape(d[i], k - 32 * i))
}

/// The `n` words a Mersenne Twister seeded with `key` draws after its first
/// `start`.
pub open spec fn mt_words(key: Seq<u32>, start: nat, n: nat) -> Seq<u32> {
    Seq::new(n, |i: int| mt_word(key, start + i as nat))
}

/// The number of words drawn for a request of `k` bits.
pub fn words_for_bits(k: usize) -> (r: usize)
    ensures
        r == word_count(k as nat),
        r >= 1,
{
    if k <= 32 {
        1
    } else {
        k / 32 + if k % 32 == 0 {
            0
        } else {
            1
        }
    }
}

/// `w` cut to its top `bits` bits, shifted down.
pub fn shape_word(w: u32, bits: usize) -> (r: u32)
    requires
        bits <= 32,
    ensures
        r == shape(w, bits as int),
        (r as u64) < (1u64 << (bits as u64)),
{
    if bits == 32 {
        assert((w as u64) < (1u64 << 32u64)) by (bit_vector);
        w
    } else if bits == 0 {
        assert(1u64 << 0u64 == 1) by (bit_vector);
        0
    } else {
        let b = bits as u64;
        let sh: u64 = 32 - b;
        let wide = w as u64;
        let r = (wide >> sh) as u32;
        assert((wide >> sh) < (1u64 << b)) by (bit_vector)
            requires
                wide < 0x1_0000_0000u64,
                0 < b < 32,
                sh == 32 - b,
        ;
        r
    }
}

/// A random engine: draws and reseeding take it by `&mut`, so they never
/// interleave.
pub struct PyRandom {
    pub rng: PyRng,
}

impl PyRandom {
    /// An engine on the general generator, seeded from the host's entropy.
    pub fn new() -> (r: Self)
        ensures
            !r.rng.is_deterministic(),
    {
        PyRandom { rng: PyRng::default() }
    }

    /// Replaces the generator with a Mersenne Twister seeded from the digits
    /// of a seed's magnitude, least significant first.
    pub fn seed_from_digits(&mut self, digits: Vec<u32>)
        ensures
            final(self).rng.is_deterministic(),
            final(self).rng.key() == key_from_digits(digits@),
            final(self).rng.drawn() == 0,
    {
        let key = seed_key(digits);
        self.rng = PyRng::MT(Box::new(mt_seeded(key.as_slice())));
    }

    /// Reseeds: from the host's entropy without a seed, else a Mersenne
    /// Twister from the seed's absolute value.
    pub fn seed(&mut self, n: Option<&BigInt>)
        ensures
            n is None ==> !final(self).rng.is_deterministic(),
            n is Some ==> final(self).rng.is_deterministic() && final(self).rng.drawn() == 0
                && final(self).rng.key() == key_from_digits(u32_digits_of(abs_of(*n->0))),
    {
        match n {
            None => {
                self.rng = PyRng::default();
            },
            Some(n) => {
                let digits = bigint_u32_digits(&bigint_abs(n));
                self.seed_from_digits(digits);
            },
        }
    }

    /// Draws one word from the active generator.
    pub fn next_u32(&mut self) -> (r: u32)
        ensures
            final(self).rng.is_deterministic() == old(self).rng.is_deterministic(),
            final(self).rng.key() == old(self).rng.key(),
            old(self).rng.is_deterministic() ==> r == mt_word(
                old(self).rng.key(),
                old(self).rng.drawn(),
            ) && final(self).rng.drawn() == old(self).rng.drawn() + 1,
    {
        self.rng.next_u32()
    }

    /// The base 2^32 digits of `k` random bits, least significant first, one
    /// per word drawn, in draw order. Each drawn word keeps its top bits: 32
    /// for all but the last, what is left of `k` for the last.
    pub fn getrandbits_words(&mut self, k: usize) -> (r: Vec<u32>)
        ensures
            r@.len() == word_count(k as nat),
            k <= 32 ==> (r@[0] as u64) < (1u64 << (k as u64)),
            exists|d: Seq<u32>| d.len() == word_count(k as nat) && r@ == shaped(d, k as nat),
            final(self).rng.is_deterministic() == old(self).rng.is_deterministic(),
            final(self).rng.key() == old(self).rng.key(),
            old(self).rng.is_deterministic() ==> r@ == shaped(
                mt_words(old(self).rng.key(), old(self).rng.drawn(), word_count(k as nat)),
                k as nat,
            ) && final(self).rng.drawn() == old(self).rng.drawn() + word_count(k as nat),
    {
        let n = words_for_bits(k);
        let mut words: Vec<u32> = Vec::new();
        let mut left: usize = k;
        let mut i: usize = 0;
        let ghost d: Seq<u32> = Seq::empty();
        while i < n
            invariant
                n == word_count(k as nat),
                i <= n,
                words@.len() == i,
                d.len() == i,
                i < n ==> left == k - 32 * i,
                words@ == shaped(d, k as nat),
                k <= 32 && i > 0 ==> (words@[0] as u64) < (1u64 << (k as u64)),
                self.rng.is_deterministic() == old(self).rng.is_deterministic(),
                self.rng.key() == old(self).rng.key(),
                old(self).rng.is_deterministic() ==> d == mt_words(
                    old(self).rng.key(),
                    old(self).rng.drawn(),
                    i as nat,
                ) && self.rng.drawn() == old(self).rng.drawn() + i,
            decreases n - i,
        {
            let bits: usize = if left >= 32 {
                32
            } else {
                left
            };
            let w = self.rng.next_u32();
            let s = shape_word(w, bits);
            proof {
                assert(shape(w, bits as int) == shape(w, k - 32 * i));
                d = d.push(w);
            }
            words.push(s);
            left = left - bits;
            i = i + 1;
            assert(words@ =~= shaped(d, k as nat));
            proof {
                if old(self).rng.is_deterministic() {
                    assert(d =~= mt_words(old(self).rng.key(), old(self).rng.drawn(), i as nat));
                }
            }
        }
        assert(d.len() == word_count(k as nat) && words@ == shaped(d, k as nat));
        words
    }

    /// `k` random bits as a non-negative integer whose base 2^32 digits are
    /// those of `getrandbits_words`.
    pub fn getrandbits(&mut self, k: usize) -> (r: BigInt)
        ensures
            exists|d: Seq<u32>| d.len() == word_count(k as nat) && r == bigint_from_digits(
                shaped(d, k as nat),
            ),
            final(self).rng.is_deterministic() == old(self).rng.is_deterministic(),
            final(self).rng.key() == old(self).rng.key(),
            old(self).rng.is_deterministic() ==> r == bigint_from_digits(
                shaped(
                    mt_words(old(self).rng.key(), old(self).rng.drawn(), word_count(k as nat)),
                    k as nat,
                ),
            ) && final(self).rng.drawn() == old(self).rng.drawn() + word_count(k as nat),
    {
        let words = self.getrandbits_words(k);
        let r = bigint_from_words(words.as_slice());
        proof {
            let d = choose|d: Seq<u32>| d.len() == word_count(k as nat) && words@ == shaped(d, k as nat);
            assert(r == bigint_from_digits(shaped(d, k as nat)));
        }
        r
    }
}

} // verus!
