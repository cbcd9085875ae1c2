//! The digests of slices and arrays of fixed-layout values: the bytes of the
//! elements, cut into words.

use vstd::prelude::*;
use vstd::string::*;
use crate::checksum::fletcher64;
use crate::hash::{raw_ehash, raw_words, EasyHash};
use crate::layout::{flat_layout, layout_of, FixedLayout};
use crate::type_salt::{name_salt, type_salt, wrap_name, EasyHashTypeSalt};
use crate::words::{bytes_words, words_of_bytes};

verus! {

/// The decimal digit `d`.
pub open spec fn digit(d: nat) -> char {
    if d == 0 {
        '0'
    } else if d == 1 {
        '1'
    } else if d == 2 {
        '2'
    } else if d == 3 {
        '3'
    } else if d == 4 {
        '4'
    } else if d == 5 {
        '5'
    } else if d == 6 {
        '6'
    } else if d == 7 {
        '7'
    } else if d == 8 {
        '8'
    } else {
        '9'
    }
}

/// The decimal numeral of `n`, without leading zeros.
pub open spec fn decimal(n: nat) -> Seq<char>
    decreases n,
{
    if n < 10 {
        seq![digit(n)]
    } else {
        decimal(n / 10) + seq![digit(n % 10)]
    }
}

/// The numeral of one digit.
fn digit_name(d: usize) -> (name: &'static str)
    requires
        d < 10,
    ensures
        name@ == seq![digit(d as nat)],
{
    proof {
        reveal_strlit("0");
        reveal_strlit("1");
        reveal_strlit("2");
        reveal_strlit("3");
        reveal_strlit("4");
        reveal_strlit("5");
        reveal_strlit("6");
        reveal_strlit("7");
        reveal_strlit("8");
        reveal_strlit("9");
    }
    let name = if d == 0 {
        "0"
    } else if d == 1 {
        "1"
    } else if d == 2 {
        "2"
    } else if d == 3 {
        "3"
    } else if d == 4 {
        "4"
    } else if d == 5 {
        "5"
    } else if d == 6 {
        "6"
    } else if d == 7 {
        "7"
    } else if d == 8 {
        "8"
    } else {
        "9"
    };
    assert(name@ =~= seq![digit(d as nat)]);
    name
}

/// The decimal numeral of `n`.
pub fn decimal_name(n: usize) -> (name: String)
    ensures
        name@ == decimal(n as nat),
    decreases n,
{
    if n < 10 {
        String::from_str(digit_name(n))
    } else {
        let mut name = decimal_name(n / 10);
        name.append(digit_name(n % 10));
        name
    }
}

/// The stream of a run of fixed-layout values: the salt, then the words of
/// the values' bytes.
pub open spec fn layout_words<T: FixedLayout>(salt: u32, items: Seq<T>) -> Seq<u32> {
    raw_words(salt, bytes_words(flat_layout(items)))
}

/// The digest of a run of fixed-layout values under `salt`.
pub fn layout_ehash<T: FixedLayout>(salt: u32, items: &[T]) -> (digest: u64)
    ensures
        digest == fletcher64(layout_words(salt, items@)),
{
    let bytes = layout_of(items);
    let words = words_of_bytes(bytes.as_slice());
    raw_ehash(salt, words.as_slice())
}

impl<T: EasyHashTypeSalt> EasyHashTypeSalt for [T] {
    open spec fn canonical_name() -> Seq<char> {
        "["@ + T::canonical_name() + "]"@
    }

    fn name() -> (name: String) {
        wrap_name("[", T::name(), "]")
    }
}

/// A slice opens with the salt of the name of a reference to it.
impl<T: FixedLayout> EasyHash for [T] {
    open spec fn salt() -> u32 {
        name_salt(<&[T]>::canonical_name())
    }

    open spec fn digest(&self) -> u64 {
        fletcher64(layout_words(Self::salt(), self@))
    }

    fn type_salt() -> (salt: u32) {
        type_salt::<&[T]>()
    }

    fn ehash(&self) -> (digest: u64) {
        layout_ehash(Self::type_salt(), self)
    }
}

impl<T: EasyHashTypeSalt, const N: usize> EasyHashTypeSalt for [T; N] {
    open spec fn canonical_name() -> Seq<char> {
        "["@ + T::canonical_name() + "; "@ + decimal(N as nat) + "]"@
    }

    fn name() -> (name: String) {
        let mut name = wrap_name("[", T::name(), "; ");
        name.append(decimal_name(N).as_str());
        name.append("]");
        name
    }
}

/// An array opens with the salt of its own name, which holds the element
/// type and the length.
impl<T: FixedLayout, const N: usize> EasyHash for [T; N] {
    open spec fn digest(&self) -> u64 {
        fletcher64(layout_words(Self::salt(), self@))
    }

    fn type_salt() -> (salt: u32) {
        type_salt::<[T; N]>()
    }

    fn ehash(&self) -> (digest: u64) {
        layout_ehash(Self::type_salt(), self.as_slice())
    }
}

} // verus!
