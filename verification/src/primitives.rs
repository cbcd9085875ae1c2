//! The digests of the primitive types.

use vstd::prelude::*;
use vstd::string::*;
use crate::checksum::fletcher64;
use crate::hash::{
    narrow_ehash, narrow_words, raw_ehash, raw_words, wide_ehash, wide_words, word_ehash,
    word_words, EasyHash,
};
use crate::type_salt::{name_salt, salt_of_name, type_salt, EasyHashTypeSalt};
use crate::words::{high_word, join_u32s, join_words, low_word, split_u64};

verus! {

impl EasyHashTypeSalt for () {
    open spec fn canonical_name() -> Seq<char> {
        "()"@
    }

    fn name() -> (name: String) {
        String::from_str("()")
    }
}

/// The unit value has no payload: its digest is its salt in both halves.
impl EasyHash for () {
    open spec fn digest(&self) -> u64 {
        join_words(Self::salt(), Self::salt())
    }

    fn type_salt() -> (salt: u32) {
        type_salt::<()>()
    }

    fn ehash(&self) -> (digest: u64) {
        let salt = Self::type_salt();
        join_u32s(salt, salt)
    }
}

impl EasyHashTypeSalt for bool {
    open spec fn canonical_name() -> Seq<char> {
        "bool"@
    }

    fn name() -> (name: String) {
        String::from_str("bool")
    }
}

/// `false` is the word 0, `true` the word 1.
impl EasyHash for bool {
    open spec fn digest(&self) -> u64 {
        fletcher64(raw_words(Self::salt(), seq![if *self { 1u32 } else { 0u32 }]))
    }

    fn type_salt() -> (salt: u32) {
        type_salt::<bool>()
    }

    fn ehash(&self) -> (digest: u64) {
        let word: u32 = if *self { 1 } else { 0 };
        let words = [word];
        assert(words@ =~= seq![word]);
        raw_ehash(Self::type_salt(), words.as_slice())
    }
}

impl EasyHashTypeSalt for u8 {
    open spec fn canonical_name() -> Seq<char> {
        "u8"@
    }

    fn name() -> (name: String) {
        String::from_str("u8")
    }
}

/// The value is its own word; `u8::MAX` is fed joined with the salt.
impl EasyHash for u8 {
    open spec fn digest(&self) -> u64 {
        fletcher64(narrow_words(Self::salt(), *self as u32, *self == u8::MAX, 0xff))
    }

    fn type_salt() -> (salt: u32) {
        type_salt::<u8>()
    }

    fn ehash(&self) -> (digest: u64) {
        narrow_ehash(Self::type_salt(), *self as u32, *self == u8::MAX, 0xff)
    }
}

impl EasyHashTypeSalt for u16 {
    open spec fn canonical_name() -> Seq<char> {
        "u16"@
    }

    fn name() -> (name: String) {
        String::from_str("u16")
    }
}

/// The value is its own word; `u16::MAX` is fed joined with the salt.
impl EasyHash for u16 {
    open spec fn digest(&self) -> u64 {
        fletcher64(narrow_words(Self::salt(), *self as u32, *self == u16::MAX, 0xffff))
    }

    fn type_salt() -> (salt: u32) {
        type_salt::<u16>()
    }

    fn ehash(&self) -> (digest: u64) {
        narrow_ehash(Self::type_salt(), *self as u32, *self == u16::MAX, 0xffff)
    }
}

impl EasyHashTypeSalt for u32 {
    open spec fn canonical_name() -> Seq<char> {
        "u32"@
    }

    fn name() -> (name: String) {
        String::from_str("u32")
    }
}

/// The value is its own word; after `u32::MAX` the salt is fed once more.
impl EasyHash for u32 {
    open spec fn digest(&self) -> u64 {
        fletcher64(word_words(Self::salt(), *self))
    }

    fn type_salt() -> (salt: u32) {
        type_salt::<u32>()
    }

    fn ehash(&self) -> (digest: u64) {
        word_ehash(Self::type_salt(), *self)
    }
}

impl EasyHashTypeSalt for u64 {
    open spec fn canonical_name() -> Seq<char> {
        "u64"@
    }

    fn name() -> (name: String) {
        String::from_str("u64")
    }
}

/// The low word, then the high word; after `u64::MAX` the salt is fed once more.
impl EasyHash for u64 {
    open spec fn digest(&self) -> u64 {
        fletcher64(wide_words(Self::salt(), *self))
    }

    fn type_salt() -> (salt: u32) {
        type_salt::<u64>()
    }

    fn ehash(&self) -> (digest: u64) {
        wide_ehash(Self::type_salt(), *self)
    }
}

impl EasyHashTypeSalt for usize {
    open spec fn canonical_name() -> Seq<char> {
        "usize"@
    }

    fn name() -> (name: String) {
        String::from_str("usize")
    }
}

/// The value widened to 64 bits, fed as a `u64` is.
impl EasyHash for usize {
    open spec fn digest(&self) -> u64 {
        fletcher64(wide_words(Self::salt(), *self as u64))
    }

    fn type_salt() -> (salt: u32) {
        type_salt::<usize>()
    }

    fn ehash(&self) -> (digest: u64) {
        wide_ehash(Self::type_salt(), *self as u64)
    }
}

impl EasyHashTypeSalt for i8 {
    open spec fn canonical_name() -> Seq<char> {
        "i8"@
    }

    fn name() -> (name: String) {
        String::from_str("i8")
    }
}

/// The value sign-extended to 32 bits is its word; `-1`, whose bits are all set, is fed as
/// the pattern `0xff` joined with the salt.
impl EasyHash for i8 {
    open spec fn digest(&self) -> u64 {
        fletcher64(narrow_words(Self::salt(), *self as u32, *self == -1, 0xff))
    }

    fn type_salt() -> (salt: u32) {
        type_salt::<i8>()
    }

    fn ehash(&self) -> (digest: u64) {
        narrow_ehash(Self::type_salt(), #[verifier::truncate] (*self as u32), *self == -1, 0xff)
    }
}

impl EasyHashTypeSalt for i16 {
    open spec fn canonical_name() -> Seq<char> {
        "i16"@
    }

    fn name() -> (name: String) {
        String::from_str("i16")
    }
}

/// The value sign-extended to 32 bits is its word; `-1`, whose bits are all set, is fed as
/// the pattern `0xffff` joined with the salt.
impl EasyHash for i16 {
    open spec fn digest(&self) -> u64 {
        fletcher64(narrow_words(Self::salt(), *self as u32, *self == -1, 0xffff))
    }

    fn type_salt() -> (salt: u32) {
        type_salt::<i16>()
    }

    fn ehash(&self) -> (digest: u64) {
        narrow_ehash(Self::type_salt(), #[verifier::truncate] (*self as u32), *self == -1, 0xffff)
    }
}

impl EasyHashTypeSalt for i32 {
    open spec fn canonical_name() -> Seq<char> {
        "i32"@
    }

    fn name() -> (name: String) {
        String::from_str("i32")
    }
}

/// The two's complement pattern is the word; after `-1` the salt is fed once more.
impl EasyHash for i32 {
    open spec fn digest(&self) -> u64 {
        fletcher64(word_words(Self::salt(), *self as u32))
    }

    fn type_salt() -> (salt: u32) {
        type_salt::<i32>()
    }

    fn ehash(&self) -> (digest: u64) {
        word_ehash(Self::type_salt(), #[verifier::truncate] (*self as u32))
    }
}

impl EasyHashTypeSalt for i64 {
    open spec fn canonical_name() -> Seq<char> {
        "i64"@
    }

    fn name() -> (name: String) {
        String::from_str("i64")
    }
}

/// The two's complement pattern of the value in 64 bits, fed as a `u64` is.
impl EasyHash for i64 {
    open spec fn digest(&self) -> u64 {
        fletcher64(wide_words(Self::salt(), *self as u64))
    }

    fn type_salt() -> (salt: u32) {
        type_salt::<i64>()
    }

    fn ehash(&self) -> (digest: u64) {
        wide_ehash(Self::type_salt(), #[verifier::truncate] (*self as u64))
    }
}

impl EasyHashTypeSalt for isize {
    open spec fn canonical_name() -> Seq<char> {
        "isize"@
    }

    fn name() -> (name: String) {
        String::from_str("isize")
    }
}

/// The two's complement pattern of the value in 64 bits, fed as a `u64` is.
impl EasyHash for isize {
    open spec fn digest(&self) -> u64 {
        fletcher64(wide_words(Self::salt(), *self as u64))
    }

    fn type_salt() -> (salt: u32) {
        type_salt::<isize>()
    }

    fn ehash(&self) -> (digest: u64) {
        wide_ehash(Self::type_salt(), #[verifier::truncate] (*self as u64))
    }
}

/// The salt of the 32-bit floating-point type.
pub open spec fn single_salt() -> u32 {
    name_salt("f32"@)
}

/// The salt of the 64-bit floating-point type.
pub open spec fn double_salt() -> u32 {
    name_salt("f64"@)
}

/// The digest of a 32-bit floating-point value, taken from its bit pattern:
/// the salt, then the pattern. No pattern is treated apart, so two values
/// hash alike exactly when the checksum cannot tell their patterns apart.
pub fn float_bits_ehash(bits: u32) -> (digest: u64)
    ensures
        digest == fletcher64(raw_words(single_salt(), seq![bits])),
{
    let words = [bits];
    assert(words@ =~= seq![bits]);
    raw_ehash(salt_of_name("f32"), words.as_slice())
}

/// The digest of a 64-bit floating-point value, taken from its bit pattern:
/// the salt, then the pattern's low word, then its high word.
pub fn double_bits_ehash(bits: u64) -> (digest: u64)
    ensures
        digest == fletcher64(raw_words(double_salt(), seq![low_word(bits), high_word(bits)])),
{
    let halves = split_u64(bits);
    raw_ehash(salt_of_name("f64"), halves.as_slice())
}

} // verus!
