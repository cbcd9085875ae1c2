//! The hashing capability, and the rules that turn a salt and a value's bit
//! pattern into words.

use vstd::prelude::*;
use crate::checksum::{checksum_of, fletcher64, lemma_fold_concat, zero_sums, Checksum};
use crate::type_salt::{name_salt, EasyHashTypeSalt};
use crate::words::{high_word, low_word, split_u64};

verus! {

/// A type whose values have a type-salted structural digest.
pub trait EasyHash: EasyHashTypeSalt {
    /// The salt that opens the word stream of every value of the type. Unless
    /// an impl says otherwise it is the salt of the type's canonical name.
    open spec fn salt() -> u32 {
        name_salt(Self::canonical_name())
    }

    /// The digest of a value: a function of the type and of what the value
    /// holds. An impl that does not say leaves it open.
    open spec fn digest(&self) -> u64 {
        arbitrary()
    }

    /// The salt of the type.
    fn type_salt() -> (salt: u32)
        ensures
            salt == Self::salt(),
    ;

    /// The digest of `self`.
    fn ehash(&self) -> (digest: u64)
        ensures
            digest == self.digest(),
    ;
}

/// The stream of a value of 8 or 16 bits: the salt, then the value's word.
/// Where all bits of the value are set, the word fed is `ones`, the value's
/// own pattern, joined with the salt by bitwise or: an all-ones word alone
/// would count as zero in the checksum.
pub open spec fn narrow_words(salt: u32, word: u32, all_ones: bool, ones: u32) -> Seq<u32> {
    if all_ones {
        seq![salt, ones | salt]
    } else {
        seq![salt, word]
    }
}

/// The stream of a value of 32 bits: the salt, then the value; where all bits
/// are set, the salt once more.
pub open spec fn word_words(salt: u32, word: u32) -> Seq<u32> {
    if word == u32::MAX {
        seq![salt, word, salt]
    } else {
        seq![salt, word]
    }
}

/// The stream of a value of 64 bits: the salt, the low word, the high word;
/// where all bits are set, the salt once more.
pub open spec fn wide_words(salt: u32, value: u64) -> Seq<u32> {
    if value == u64::MAX {
        seq![salt, low_word(value), high_word(value), salt]
    } else {
        seq![salt, low_word(value), high_word(value)]
    }
}

/// The stream of a bit pattern that is fed as it is: the salt, then the
/// pattern's words, low word first.
pub open spec fn raw_words(salt: u32, words: Seq<u32>) -> Seq<u32> {
    seq![salt] + words
}

/// The digest of a value of 8 or 16 bits.
pub fn narrow_ehash(salt: u32, word: u32, all_ones: bool, ones: u32) -> (digest: u64)
    ensures
        digest == fletcher64(narrow_words(salt, word, all_ones, ones)),
{
    if all_ones {
        let words = [salt, ones | salt];
        assert(words@ =~= narrow_words(salt, word, all_ones, ones));
        checksum_of(words.as_slice())
    } else {
        let words = [salt, word];
        assert(words@ =~= narrow_words(salt, word, all_ones, ones));
        checksum_of(words.as_slice())
    }
}

/// The digest of a value of 32 bits.
pub fn word_ehash(salt: u32, word: u32) -> (digest: u64)
    ensures
        digest == fletcher64(word_words(salt, word)),
{
    if word == u32::MAX {
        let words = [salt, word, salt];
        assert(words@ =~= word_words(salt, word));
        checksum_of(words.as_slice())
    } else {
        let words = [salt, word];
        assert(words@ =~= word_words(salt, word));
        checksum_of(words.as_slice())
    }
}

/// The digest of a value of 64 bits.
pub fn wide_ehash(salt: u32, value: u64) -> (digest: u64)
    ensures
        digest == fletcher64(wide_words(salt, value)),
{
    let mut checksum = Checksum::new();
    let head = [salt];
    checksum.update(head.as_slice());
    let halves = split_u64(value);
    checksum.update(halves.as_slice());
    proof {
        lemma_fold_concat(zero_sums(), head@, halves@);
        assert(head@ + halves@ =~= seq![salt, low_word(value), high_word(value)]);
    }
    if value == u64::MAX {
        checksum.update(head.as_slice());
        proof {
            lemma_fold_concat(zero_sums(), head@ + halves@, head@);
            assert(head@ + halves@ + head@ =~= wide_words(salt, value));
        }
    }
    checksum.value()
}

/// The digest of a bit pattern of words that is fed as it is, after the salt.
pub fn raw_ehash(salt: u32, words: &[u32]) -> (digest: u64)
    ensures
        digest == fletcher64(raw_words(salt, words@)),
{
    let mut checksum = Checksum::new();
    let head = [salt];
    checksum.update(head.as_slice());
    checksum.update(words);
    proof {
        lemma_fold_concat(zero_sums(), head@, words@);
        assert(head@ =~= seq![salt]);
    }
    checksum.value()
}

} // verus!
