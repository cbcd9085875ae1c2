//! The Fletcher-64 word-stream checksum: its mathematical model, and the
//! accumulator that computes it with the `fletcher` crate.

use vstd::prelude::*;
use vstd::arithmetic::div_mod::*;
use vstd::slice::*;
use crate::words::{high_word, low_word, split_u64};

verus! {

/// The modulus of both running sums: `2^32 - 1`.
pub const MODULUS: u64 = 0xffff_ffff;

/// The largest number of words handed to the `fletcher` crate in one update.
pub const MAX_CHUNK: usize = 92680;

/// The state of the checksum: the two running sums.
pub struct Sums {
    pub a: int,
    pub b: int,
}

/// Both sums lie in `0 .. 2^32 - 1`.
pub open spec fn reduced(s: Sums) -> bool {
    0 <= s.a < MODULUS && 0 <= s.b < MODULUS
}

/// The state before any word.
pub open spec fn zero_sums() -> Sums {
    Sums { a: 0, b: 0 }
}

/// One step of the checksum: the word is added to the first sum, and the new
/// first sum to the second, both modulo `2^32 - 1`.
pub open spec fn step(s: Sums, word: u32) -> Sums {
    let a = (s.a + word) % (MODULUS as int);
    Sums { a, b: (s.b + a) % (MODULUS as int) }
}

/// The state reached from `s` after the words of `words`, first to last.
pub open spec fn fold(s: Sums, words: Seq<u32>) -> Sums
    decreases words.len(),
{
    if words.len() == 0 {
        s
    } else {
        step(fold(s, words.drop_last()), words.last())
    }
}

/// The 64-bit value of a state: the second sum in the high half, the first in
/// the low half.
pub open spec fn pack(s: Sums) -> int {
    s.b * 0x1_0000_0000 + s.a
}

/// The digest of a word stream: the value of the state that the stream leads
/// to from zero.
pub open spec fn fletcher64(words: Seq<u32>) -> u64 {
    pack(fold(zero_sums(), words)) as u64
}

/// A fold keeps the sums reduced.
pub proof fn lemma_fold_reduced(s: Sums, words: Seq<u32>)
    requires
        reduced(s),
    ensures
        reduced(fold(s, words)),
    decreases words.len(),
{
    if words.len() > 0 {
        lemma_fold_reduced(s, words.drop_last());
    }
}

/// Feeding `x` and then `y` is feeding their concatenation.
pub proof fn lemma_fold_concat(s: Sums, x: Seq<u32>, y: Seq<u32>)
    ensures
        fold(s, x + y) == fold(fold(s, x), y),
    decreases y.len(),
{
    if y.len() == 0 {
        assert(x + y =~= x);
    } else {
        lemma_fold_concat(s, x, y.drop_last());
        assert((x + y).drop_last() =~= x + y.drop_last());
        assert((x + y).last() == y.last());
    }
}

/// A reduced state is given back by the two halves of its packed value.
pub proof fn lemma_pack_halves(s: Sums)
    requires
        reduced(s),
    ensures
        0 <= pack(s) <= u64::MAX,
        pack(s) % 0x1_0000_0000 == s.a,
        pack(s) / 0x1_0000_0000 == s.b,
{
    lemma_fundamental_div_mod_converse(pack(s), 0x1_0000_0000, s.b, s.a);
}

/// Two reduced states with the same packed value are the same state.
pub proof fn lemma_pack_injective(s: Sums, t: Sums)
    requires
        reduced(s),
        reduced(t),
        pack(s) == pack(t),
    ensures
        s == t,
{
    lemma_pack_halves(s);
    lemma_pack_halves(t);
}

/// One run of the `fletcher` crate: `Fletcher64::with_initial_values` makes
/// an accumulator with the sums `(a, b)`, `update` feeds it `words`, and
/// `value` reads it. The crate adds the words of a chunk up in 64-bit
/// accumulators and folds these back below `2^32 - 1` afterwards, which gives
/// the sums of [`fold`] as long as the accumulators cannot overflow; from
/// sums that fit 32 bits that holds for up to 92680 words, the crate's own
/// chunk size, and more are never handed over.
#[verifier::external_body]
fn fletcher64_resume(a: u32, b: u32, words: &[u32]) -> (value: u64)
    requires
        words@.len() <= MAX_CHUNK,
    ensures
        value as int == pack(
            fold(Sums { a: a as int % (MODULUS as int), b: b as int % (MODULUS as int) }, words@),
        ),
{
    let mut checksum = fletcher::Fletcher64::with_initial_values(a, b);
    checksum.update(words);
    checksum.value()
}

/// A running Fletcher-64 checksum over 32-bit words.
pub struct Checksum {
    a: u32,
    b: u32,
}

impl Checksum {
    /// The two running sums.
    pub closed spec fn sums(&self) -> Sums {
        Sums { a: self.a as int, b: self.b as int }
    }

    /// The sums are reduced: every accumulator made by [`Checksum::new`] and
    /// changed by [`Checksum::update`] is well formed.
    pub open spec fn wf(&self) -> bool {
        reduced(self.sums())
    }

    /// The words fed so far lead from zero to the accumulator's sums.
    pub open spec fn holds(&self, words: Seq<u32>) -> bool {
        self.wf() && self.sums() == fold(zero_sums(), words)
    }

    /// A fresh accumulator: both sums are zero.
    pub fn new() -> (checksum: Checksum)
        ensures
            checksum.holds(Seq::empty()),
    {
        Checksum { a: 0, b: 0 }
    }

    /// Feeds `words`, first to last.
    pub fn update(&mut self, words: &[u32])
        requires
            old(self).wf(),
        ensures
            final(self).wf(),
            final(self).sums() == fold(old(self).sums(), words@),
    {
        let ghost start_sums = self.sums();
        let mut done: usize = 0;
        while done < words.len()
            invariant
                done <= words@.len(),
                self.wf(),
                self.sums() == fold(start_sums, words@.take(done as int)),
            decreases words@.len() - done,
        {
            let left = words.len() - done;
            let end = if left > MAX_CHUNK {
                done + MAX_CHUNK
            } else {
                words.len()
            };
            let chunk = slice_subrange(words, done, end);
            let value = fletcher64_resume(self.a, self.b, chunk);
            proof {
                let next = fold(self.sums(), chunk@);
                lemma_small_mod(self.a as nat, MODULUS as nat);
                lemma_small_mod(self.b as nat, MODULUS as nat);
                lemma_fold_reduced(self.sums(), chunk@);
                lemma_pack_halves(next);
                lemma_fold_concat(start_sums, words@.take(done as int), chunk@);
                assert(words@.take(done as int) + chunk@ =~= words@.take(end as int));
                assert(value & 0xffff_ffff == value % 0x1_0000_0000) by (bit_vector);
                assert(value >> 32 == value / 0x1_0000_0000) by (bit_vector);
            }
            self.a = (value & 0xffff_ffff) as u32;
            self.b = (value >> 32) as u32;
            done = end;
        }
        proof {
            assert(words@.take(done as int) =~= words@);
        }
    }

    /// Feeds the two halves of `digest`: its low word, then its high word.
    pub fn update_digest(&mut self, digest: u64)
        requires
            old(self).wf(),
        ensures
            final(self).wf(),
            final(self).sums() == fold(
                old(self).sums(),
                seq![low_word(digest), high_word(digest)],
            ),
    {
        let halves = split_u64(digest);
        self.update(halves.as_slice());
    }

    /// The digest of the words fed so far. The accumulator is left as it is.
    pub fn value(&self) -> (digest: u64)
        requires
            self.wf(),
        ensures
            digest as int == pack(self.sums()),
            forall|words: Seq<u32>| self.holds(words) ==> digest == fletcher64(words),
    {
        let high = self.b as u64;
        let low = self.a as u64;
        proof {
            lemma_pack_halves(self.sums());
            assert(high < 0x1_0000_0000 && low < 0x1_0000_0000 ==> (high << 32) | low == high
                * 0x1_0000_0000 + low) by (bit_vector);
        }
        (high << 32) | low
    }
}

/// The Fletcher-64 digest of `words`.
pub fn checksum_of(words: &[u32]) -> (digest: u64)
    ensures
        digest == fletcher64(words@),
{
    let mut checksum = Checksum::new();
    checksum.update(words);
    checksum.value()
}

} // verus!
