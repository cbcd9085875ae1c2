//! The digests of references, optional values, sequences, text and markers.

use vstd::prelude::*;
use vstd::string::*;
use std::marker::PhantomData;
use crate::checksum::{
    checksum_of, fletcher64, fold, lemma_fold_concat, zero_sums, Checksum,
};
use crate::hash::EasyHash;
use crate::type_salt::{name_salt, salt_of_name, type_salt, wrap_name, EasyHashTypeSalt};
use crate::words::{
    bytes_words, high_word, lemma_split_words_concat, lemma_split_words_one, low_word,
    split_words, words_of_bytes,
};

verus! {

/// The word that stands for an absent optional value.
pub const NONE_WORD: u32 = 780526312;

/// The word that stands for a cell that was never filled.
pub const EMPTY_CELL_WORD: u32 = 961157112;

/// The stream of a value made of parts: the salt, then the two halves of each
/// part's digest, the parts in their declared order.
pub open spec fn fields_words(salt: u32, digests: Seq<u64>) -> Seq<u32> {
    seq![salt] + split_words(digests)
}

/// The stream of a value that is present or absent: the salt, then the two
/// halves of the present value's digest, or the word `absent` alone.
pub open spec fn presence_words(salt: u32, absent: u32, inner: Option<u64>) -> Seq<u32> {
    match inner {
        Some(digest) => seq![salt, low_word(digest), high_word(digest)],
        None => seq![salt, absent],
    }
}

/// The stream of a text: the salt, then the words of its UTF-8 bytes.
pub open spec fn text_words(salt: u32, bytes: Seq<u8>) -> Seq<u32> {
    seq![salt] + bytes_words(bytes)
}

/// The digest of a value made of parts with the digests `digests`.
pub fn fields_ehash(salt: u32, digests: &[u64]) -> (digest: u64)
    ensures
        digest == fletcher64(fields_words(salt, digests@)),
{
    let mut checksum = Checksum::new();
    let head = [salt];
    checksum.update(head.as_slice());
    let mut i: usize = 0;
    assert(digests@.take(0) =~= Seq::<u64>::empty());
    assert(head@ =~= fields_words(salt, digests@.take(0)));
    while i < digests.len()
        invariant
            i <= digests@.len(),
            checksum.wf(),
            checksum.sums() == fold(zero_sums(), fields_words(salt, digests@.take(i as int))),
        decreases digests@.len() - i,
    {
        let part = digests[i];
        checksum.update_digest(part);
        proof {
            let before = digests@.take(i as int);
            let halves = seq![low_word(part), high_word(part)];
            lemma_fold_concat(zero_sums(), fields_words(salt, before), halves);
            lemma_split_words_one(part);
            lemma_split_words_concat(before, seq![part]);
            assert(before + seq![part] =~= digests@.take(i + 1));
            assert(fields_words(salt, before) + halves =~= fields_words(
                salt,
                digests@.take(i + 1),
            ));
        }
        i = i + 1;
    }
    assert(digests@.take(i as int) =~= digests@);
    checksum.value()
}

/// The digest of a value that is present, with the digest `inner`, or absent.
pub fn presence_ehash(salt: u32, absent: u32, inner: Option<u64>) -> (digest: u64)
    ensures
        digest == fletcher64(presence_words(salt, absent, inner)),
{
    match inner {
        Some(part) => {
            let mut checksum = Checksum::new();
            let head = [salt];
            checksum.update(head.as_slice());
            checksum.update_digest(part);
            proof {
                let halves = seq![low_word(part), high_word(part)];
                lemma_fold_concat(zero_sums(), head@, halves);
                assert(head@ + halves =~= presence_words(salt, absent, inner));
            }
            checksum.value()
        },
        None => {
            let words = [salt, absent];
            assert(words@ =~= presence_words(salt, absent, inner));
            checksum_of(words.as_slice())
        },
    }
}

/// The digest of a text.
pub fn text_ehash(salt: u32, text: &str) -> (digest: u64)
    ensures
        digest == fletcher64(text_words(salt, text.spec_bytes())),
{
    let words = words_of_bytes(text.as_bytes());
    let mut checksum = Checksum::new();
    let head = [salt];
    checksum.update(head.as_slice());
    checksum.update(words.as_slice());
    proof {
        lemma_fold_concat(zero_sums(), head@, words@);
        assert(head@ =~= seq![salt]);
    }
    checksum.value()
}

impl<T: EasyHashTypeSalt + ?Sized> EasyHashTypeSalt for &T {
    open spec fn canonical_name() -> Seq<char> {
        "&"@ + T::canonical_name()
    }

    fn name() -> (name: String) {
        let mut name = String::from_str("&");
        name.append(T::name().as_str());
        name
    }
}

/// A reference hashes as what it points to. Its own salt, that of its name,
/// enters no digest.
impl<T: EasyHash + ?Sized> EasyHash for &T {
    open spec fn digest(&self) -> u64 {
        (**self).digest()
    }

    fn type_salt() -> (salt: u32) {
        type_salt::<&T>()
    }

    fn ehash(&self) -> (digest: u64) {
        (**self).ehash()
    }
}

impl<T: EasyHashTypeSalt> EasyHashTypeSalt for Option<T> {
    open spec fn canonical_name() -> Seq<char> {
        "core::option::Option<"@ + T::canonical_name() + ">"@
    }

    fn name() -> (name: String) {
        wrap_name("core::option::Option<", T::name(), ">")
    }
}

/// An optional value opens with the salt of the type it may hold, so that
/// presence makes no new salt; then come the halves of the held value's
/// digest, or [`NONE_WORD`].
impl<T: EasyHash> EasyHash for Option<T> {
    open spec fn salt() -> u32 {
        name_salt(T::canonical_name())
    }

    open spec fn digest(&self) -> u64 {
        fletcher64(
            presence_words(
                Self::salt(),
                NONE_WORD,
                match self {
                    Some(inner) => Some(inner.digest()),
                    None => None,
                },
            ),
        )
    }

    fn type_salt() -> (salt: u32) {
        type_salt::<T>()
    }

    fn ehash(&self) -> (digest: u64) {
        let inner = match self {
            Some(inner) => Some(inner.ehash()),
            None => None,
        };
        presence_ehash(Self::type_salt(), NONE_WORD, inner)
    }
}

/// The digest of a cell that is filled at most once, from what it holds. It
/// opens with the salt of a reference to the held type; then come the halves
/// of the held value's digest, or [`EMPTY_CELL_WORD`].
pub fn once_cell_ehash<T: EasyHash>(content: Option<&T>) -> (digest: u64)
    ensures
        digest == fletcher64(
            presence_words(
                name_salt(<&T>::canonical_name()),
                EMPTY_CELL_WORD,
                match content {
                    Some(held) => Some(held.digest()),
                    None => None,
                },
            ),
        ),
{
    let inner = match content {
        Some(held) => Some(held.ehash()),
        None => None,
    };
    presence_ehash(type_salt::<&T>(), EMPTY_CELL_WORD, inner)
}

impl<T: EasyHashTypeSalt> EasyHashTypeSalt for Vec<T> {
    open spec fn canonical_name() -> Seq<char> {
        "alloc::vec::Vec<"@ + T::canonical_name() + ">"@
    }

    fn name() -> (name: String) {
        wrap_name("alloc::vec::Vec<", T::name(), ">")
    }
}

/// A vector is a value made of its elements, first to last.
impl<T: EasyHash> EasyHash for Vec<T> {
    open spec fn digest(&self) -> u64 {
        fletcher64(fields_words(Self::salt(), self@.map_values(|item: T| item.digest())))
    }

    fn type_salt() -> (salt: u32) {
        type_salt::<Vec<T>>()
    }

    fn ehash(&self) -> (digest: u64) {
        let salt = Self::type_salt();
        let ghost digests = self@.map_values(|item: T| item.digest());
        let mut checksum = Checksum::new();
        let head = [salt];
        checksum.update(head.as_slice());
        let mut i: usize = 0;
        assert(digests.take(0) =~= Seq::<u64>::empty());
        assert(head@ =~= fields_words(salt, digests.take(0)));
        while i < self.len()
            invariant
                i <= self@.len(),
                digests == self@.map_values(|item: T| item.digest()),
                checksum.wf(),
                checksum.sums() == fold(zero_sums(), fields_words(salt, digests.take(i as int))),
            decreases self@.len() - i,
        {
            let part = self[i].ehash();
            checksum.update_digest(part);
            proof {
                let before = digests.take(i as int);
                let halves = seq![low_word(part), high_word(part)];
                lemma_fold_concat(zero_sums(), fields_words(salt, before), halves);
                lemma_split_words_one(part);
                lemma_split_words_concat(before, seq![part]);
                assert(before + seq![part] =~= digests.take(i + 1));
                assert(fields_words(salt, before) + halves =~= fields_words(
                    salt,
                    digests.take(i + 1),
                ));
            }
            i = i + 1;
        }
        assert(digests.take(i as int) =~= digests);
        checksum.value()
    }
}

impl EasyHashTypeSalt for String {
    open spec fn canonical_name() -> Seq<char> {
        "alloc::string::String"@
    }

    fn name() -> (name: String) {
        String::from_str("alloc::string::String")
    }
}

/// An owned text is fed as the words of its UTF-8 bytes.
impl EasyHash for String {
    open spec fn digest(&self) -> u64 {
        fletcher64(text_words(Self::salt(), vstd::utf8::encode_utf8(self@)))
    }

    fn type_salt() -> (salt: u32) {
        type_salt::<String>()
    }

    fn ehash(&self) -> (digest: u64) {
        text_ehash(Self::type_salt(), self.as_str())
    }
}

impl EasyHashTypeSalt for str {
    open spec fn canonical_name() -> Seq<char> {
        "str"@
    }

    fn name() -> (name: String) {
        String::from_str("str")
    }
}

/// A borrowed text is fed as an owned one is, under the salt of the name
/// `&str`: the two never open alike.
impl EasyHash for str {
    open spec fn salt() -> u32 {
        name_salt("&str"@)
    }

    open spec fn digest(&self) -> u64 {
        fletcher64(text_words(Self::salt(), vstd::utf8::encode_utf8(self@)))
    }

    fn type_salt() -> (salt: u32) {
        salt_of_name("&str")
    }

    fn ehash(&self) -> (digest: u64) {
        text_ehash(Self::type_salt(), self)
    }
}

impl<T: EasyHashTypeSalt + ?Sized> EasyHashTypeSalt for PhantomData<T> {
    open spec fn canonical_name() -> Seq<char> {
        "core::marker::PhantomData<"@ + T::canonical_name() + ">"@
    }

    fn name() -> (name: String) {
        wrap_name("core::marker::PhantomData<", T::name(), ">")
    }
}

/// A marker holds nothing: its digest is that of its salt alone, which
/// depends on the type that it marks. That type needs a name and no digest.
impl<T: EasyHashTypeSalt + ?Sized> EasyHash for PhantomData<T> {
    open spec fn digest(&self) -> u64 {
        fletcher64(seq![Self::salt()])
    }

    fn type_salt() -> (salt: u32) {
        type_salt::<PhantomData<T>>()
    }

    fn ehash(&self) -> (digest: u64) {
        let words = [Self::type_salt()];
        assert(words@ =~= seq![Self::salt()]);
        checksum_of(words.as_slice())
    }
}

} // verus!
