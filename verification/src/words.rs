//! 64-bit values as pairs of 32-bit words.

use vstd::prelude::*;

verus! {

/// The low 32 bits of `x`.
pub open spec fn low_word(x: u64) -> u32 {
    (x % 0x1_0000_0000) as u32
}

/// The high 32 bits of `x`.
pub open spec fn high_word(x: u64) -> u32 {
    (x / 0x1_0000_0000) as u32
}

/// The value whose high half is `high` and whose low half is `low`.
pub open spec fn join_words(high: u32, low: u32) -> u64 {
    (high * 0x1_0000_0000 + low) as u64
}

/// The words of a sequence of 64-bit values: for each value in turn its low
/// word, then its high word.
pub open spec fn split_words(values: Seq<u64>) -> Seq<u32>
    decreases values.len(),
{
    if values.len() == 0 {
        Seq::empty()
    } else {
        split_words(values.drop_last()) + seq![low_word(values.last()), high_word(values.last())]
    }
}

/// As [`split_words`], with the high word of each value before its low word.
pub open spec fn split_words_high_first(values: Seq<u64>) -> Seq<u32>
    decreases values.len(),
{
    if values.len() == 0 {
        Seq::empty()
    } else {
        split_words_high_first(values.drop_last()) + seq![
            high_word(values.last()),
            low_word(values.last()),
        ]
    }
}

/// Two words for each value.
pub proof fn lemma_split_words_len(values: Seq<u64>)
    ensures
        split_words(values).len() == 2 * values.len(),
    decreases values.len(),
{
    if values.len() > 0 {
        lemma_split_words_len(values.drop_last());
    }
}

/// The words of a concatenation are the words of its parts.
pub proof fn lemma_split_words_concat(x: Seq<u64>, y: Seq<u64>)
    ensures
        split_words(x + y) == split_words(x) + split_words(y),
    decreases y.len(),
{
    if y.len() == 0 {
        assert(x + y =~= x);
        assert(split_words(x) + split_words(y) =~= split_words(x));
    } else {
        lemma_split_words_concat(x, y.drop_last());
        assert((x + y).drop_last() =~= x + y.drop_last());
        assert((x + y).last() == y.last());
        assert(split_words(x + y) =~= split_words(x) + split_words(y));
    }
}

/// The words of one value.
pub proof fn lemma_split_words_one(value: u64)
    ensures
        split_words(seq![value]) == seq![low_word(value), high_word(value)],
{
    let s = seq![value];
    assert(s.drop_last() =~= Seq::<u64>::empty());
    assert(split_words(s.drop_last()) =~= Seq::<u32>::empty());
    assert(s.last() == value);
    assert(split_words(s) =~= seq![low_word(value), high_word(value)]);
}

/// A value is the join of its two halves.
pub proof fn lemma_join_split(x: u64)
    ensures
        join_words(high_word(x), low_word(x)) == x,
{
}

/// The byte at `i`, or zero past the end.
pub open spec fn byte_or_zero(bytes: Seq<u8>, i: int) -> u8 {
    if 0 <= i < bytes.len() {
        bytes[i]
    } else {
        0
    }
}

/// The word of four bytes, the first the least significant.
pub open spec fn le_word(b0: u8, b1: u8, b2: u8, b3: u8) -> u32 {
    (b0 + b1 * 0x100 + b2 * 0x1_0000 + b3 * 0x100_0000) as u32
}

/// The word of the four bytes from `start` on, with zero for each byte past
/// the end.
pub open spec fn padded_word(bytes: Seq<u8>, start: int) -> u32 {
    le_word(
        byte_or_zero(bytes, start),
        byte_or_zero(bytes, start + 1),
        byte_or_zero(bytes, start + 2),
        byte_or_zero(bytes, start + 3),
    )
}

/// The words of a byte sequence: each four bytes from the front on make one
/// little-endian word, and what is left at the end is padded with zero bytes
/// to a last word.
pub open spec fn bytes_words(bytes: Seq<u8>) -> Seq<u32> {
    Seq::new(((bytes.len() + 3) / 4) as nat, |i: int| padded_word(bytes, 4 * i))
}

/// The word of up to four bytes of `bytes` from `start` on, padded with zero
/// bytes.
pub fn word_at(bytes: &[u8], start: usize) -> (word: u32)
    requires
        start < bytes@.len(),
    ensures
        word == padded_word(bytes@, start as int),
{
    let len = bytes.len();
    let b0: u32 = bytes[start] as u32;
    let b1: u32 = if len - start > 1 {
        bytes[start + 1] as u32
    } else {
        0
    };
    let b2: u32 = if len - start > 2 {
        bytes[start + 2] as u32
    } else {
        0
    };
    let b3: u32 = if len - start > 3 {
        bytes[start + 3] as u32
    } else {
        0
    };
    b0 + b1 * 0x100 + b2 * 0x1_0000 + b3 * 0x100_0000
}

/// The words of `bytes`, as [`bytes_words`] has them.
pub fn words_of_bytes(bytes: &[u8]) -> (words: Vec<u32>)
    ensures
        words@ == bytes_words(bytes@),
{
    let len = bytes.len();
    let count: usize = len / 4 + if len % 4 == 0 {
        0
    } else {
        1
    };
    let mut words: Vec<u32> = Vec::new();
    let mut i: usize = 0;
    while i < count
        invariant
            i <= count,
            len == bytes@.len(),
            count == (len + 3) / 4,
            words@.len() == i,
            forall|k: int| 0 <= k < i ==> words@[k] == padded_word(bytes@, 4 * k),
        decreases count - i,
    {
        let word = word_at(bytes, 4 * i);
        words.push(word);
        i = i + 1;
    }
    assert(words@ =~= bytes_words(bytes@));
    words
}

/// Splits `x` into its low word and its high word, in that order.
pub fn split_u64(x: u64) -> (parts: [u32; 2])
    ensures
        parts@ == seq![low_word(x), high_word(x)],
{
    proof {
        assert(x & 0xffff_ffff == x % 0x1_0000_0000) by (bit_vector);
        assert(x >> 32 == x / 0x1_0000_0000) by (bit_vector);
    }
    let parts = [(x & 0xffff_ffff) as u32, (x >> 32) as u32];
    assert(parts@ =~= seq![low_word(x), high_word(x)]);
    parts
}

/// Joins two words into one value: `a` becomes the high half, `b` the low.
pub fn join_u32s(a: u32, b: u32) -> (joined: u64)
    ensures
        joined == join_words(a, b),
{
    let high = a as u64;
    let low = b as u64;
    proof {
        assert(high < 0x1_0000_0000 && low < 0x1_0000_0000 ==> (high << 32) | low == high
            * 0x1_0000_0000 + low) by (bit_vector);
    }
    (high << 32) | low
}

/// Splits the two's complement pattern of `x` into its low and its high word.
pub fn split_i64(x: i64) -> (parts: [u32; 2])
    ensures
        parts@ == seq![low_word(x as u64), high_word(x as u64)],
{
    split_u64(#[verifier::truncate] (x as u64))
}

/// The memory of `x` seen as 32-bit words, without copying, by
/// `bytemuck::cast_slice`. A word is four bytes of a value as the machine
/// stores them, so each value gives its two halves: the low one first on a
/// little-endian machine, the high one first on a big-endian one.
#[verifier::external_body]
pub fn u64_to_u32_slice(x: &[u64]) -> (words: &[u32])
    ensures
        words@ == split_words(x@) || words@ == split_words_high_first(x@),
{
    bytemuck::cast_slice(x)
}

} // verus!
