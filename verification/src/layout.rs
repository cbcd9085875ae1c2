//! Types of a fixed byte layout: what a value looks like in memory, byte by
//! byte, the least significant byte first.

use vstd::prelude::*;
use crate::type_salt::EasyHashTypeSalt;

verus! {

/// The two bytes of a 16-bit pattern.
pub open spec fn bytes_2(x: u16) -> Seq<u8> {
    seq![(x & 0xff) as u8, (x >> 8) as u8]
}

/// The four bytes of a 32-bit pattern.
pub open spec fn bytes_4(x: u32) -> Seq<u8> {
    seq![(x & 0xff) as u8, ((x >> 8) & 0xff) as u8, ((x >> 16) & 0xff) as u8, (x >> 24) as u8]
}

/// The eight bytes of a 64-bit pattern.
pub open spec fn bytes_8(x: u64) -> Seq<u8> {
    seq![
        (x & 0xff) as u8,
        ((x >> 8) & 0xff) as u8,
        ((x >> 16) & 0xff) as u8,
        ((x >> 24) & 0xff) as u8,
        ((x >> 32) & 0xff) as u8,
        ((x >> 40) & 0xff) as u8,
        ((x >> 48) & 0xff) as u8,
        (x >> 56) as u8,
    ]
}

/// A type whose values have a fixed layout without padding.
pub trait FixedLayout: EasyHashTypeSalt + Sized {
    /// The bytes of the value. An impl that does not say has none.
    open spec fn layout(&self) -> Seq<u8> {
        Seq::empty()
    }

    /// Appends the bytes of the value to `bytes`.
    fn write_layout(&self, bytes: &mut Vec<u8>)
        ensures
            final(bytes)@ == old(bytes)@ + self.layout(),
    ;
}

/// The bytes of a run of values, first value to last.
pub open spec fn flat_layout<T: FixedLayout>(items: Seq<T>) -> Seq<u8>
    decreases items.len(),
{
    if items.len() == 0 {
        Seq::empty()
    } else {
        flat_layout(items.drop_last()) + items.last().layout()
    }
}

/// Appends the two bytes of `x`.
pub fn write_2(x: u16, bytes: &mut Vec<u8>)
    ensures
        final(bytes)@ == old(bytes)@ + bytes_2(x),
{
    proof {
        assert(x & 0xff < 0x100) by (bit_vector);
        assert(x >> 8 < 0x100) by (bit_vector);
    }
    bytes.push((x & 0xff) as u8);
    bytes.push((x >> 8) as u8);
    assert(bytes@ =~= old(bytes)@ + bytes_2(x));
}

/// Appends the four bytes of `x`.
pub fn write_4(x: u32, bytes: &mut Vec<u8>)
    ensures
        final(bytes)@ == old(bytes)@ + bytes_4(x),
{
    proof {
        assert(x & 0xff < 0x100) by (bit_vector);
        assert((x >> 8) & 0xff < 0x100) by (bit_vector);
        assert((x >> 16) & 0xff < 0x100) by (bit_vector);
        assert(x >> 24 < 0x100) by (bit_vector);
    }
    bytes.push((x & 0xff) as u8);
    bytes.push(((x >> 8) & 0xff) as u8);
    bytes.push(((x >> 16) & 0xff) as u8);
    bytes.push((x >> 24) as u8);
    assert(bytes@ =~= old(bytes)@ + bytes_4(x));
}

/// Appends the eight bytes of `x`.
pub fn write_8(x: u64, bytes: &mut Vec<u8>)
    ensures
        final(bytes)@ == old(bytes)@ + bytes_8(x),
{
    proof {
        assert(x & 0xff < 0x100) by (bit_vector);
        assert((x >> 8) & 0xff < 0x100) by (bit_vector);
        assert((x >> 16) & 0xff < 0x100) by (bit_vector);
        assert((x >> 24) & 0xff < 0x100) by (bit_vector);
        assert((x >> 32) & 0xff < 0x100) by (bit_vector);
        assert((x >> 40) & 0xff < 0x100) by (bit_vector);
        assert((x >> 48) & 0xff < 0x100) by (bit_vector);
        assert(x >> 56 < 0x100) by (bit_vector);
    }
    bytes.push((x & 0xff) as u8);
    bytes.push(((x >> 8) & 0xff) as u8);
    bytes.push(((x >> 16) & 0xff) as u8);
    bytes.push(((x >> 24) & 0xff) as u8);
    bytes.push(((x >> 32) & 0xff) as u8);
    bytes.push(((x >> 40) & 0xff) as u8);
    bytes.push(((x >> 48) & 0xff) as u8);
    bytes.push((x >> 56) as u8);
    assert(bytes@ =~= old(bytes)@ + bytes_8(x));
}

impl FixedLayout for u8 {
    open spec fn layout(&self) -> Seq<u8> {
        seq![*self]
    }

    fn write_layout(&self, bytes: &mut Vec<u8>) {
        bytes.push(*self);
        assert(bytes@ =~= old(bytes)@ + seq![*self]);
    }
}

impl FixedLayout for i8 {
    open spec fn layout(&self) -> Seq<u8> {
        seq![*self as u8]
    }

    fn write_layout(&self, bytes: &mut Vec<u8>) {
        bytes.push(#[verifier::truncate] (*self as u8));
        assert(bytes@ =~= old(bytes)@ + seq![*self as u8]);
    }
}

impl FixedLayout for u16 {
    open spec fn layout(&self) -> Seq<u8> {
        bytes_2(*self)
    }

    fn write_layout(&self, bytes: &mut Vec<u8>) {
        write_2(*self, bytes)
    }
}

impl FixedLayout for i16 {
    open spec fn layout(&self) -> Seq<u8> {
        bytes_2(*self as u16)
    }

    fn write_layout(&self, bytes: &mut Vec<u8>) {
        write_2(#[verifier::truncate] (*self as u16), bytes)
    }
}

impl FixedLayout for u32 {
    open spec fn layout(&self) -> Seq<u8> {
        bytes_4(*self)
    }

    fn write_layout(&self, bytes: &mut Vec<u8>) {
        write_4(*self, bytes)
    }
}

impl FixedLayout for i32 {
    open spec fn layout(&self) -> Seq<u8> {
        bytes_4(*self as u32)
    }

    fn write_layout(&self, bytes: &mut Vec<u8>) {
        write_4(#[verifier::truncate] (*self as u32), bytes)
    }
}

impl FixedLayout for u64 {
    open spec fn layout(&self) -> Seq<u8> {
        bytes_8(*self)
    }

    fn write_layout(&self, bytes: &mut Vec<u8>) {
        write_8(*self, bytes)
    }
}

impl FixedLayout for i64 {
    open spec fn layout(&self) -> Seq<u8> {
        bytes_8(*self as u64)
    }

    fn write_layout(&self, bytes: &mut Vec<u8>) {
        write_8(#[verifier::truncate] (*self as u64), bytes)
    }
}

/// The value in the machine's word: eight bytes where the word has 64 bits,
/// else four.
impl FixedLayout for usize {
    open spec fn layout(&self) -> Seq<u8> {
        if usize::MAX == u64::MAX {
            bytes_8(*self as u64)
        } else {
            bytes_4(*self as u32)
        }
    }

    fn write_layout(&self, bytes: &mut Vec<u8>) {
        if usize::MAX as u64 == u64::MAX {
            write_8(*self as u64, bytes)
        } else {
            write_4(#[verifier::truncate] (*self as u32), bytes)
        }
    }
}

/// The two's complement pattern of the value in the machine's word.
impl FixedLayout for isize {
    open spec fn layout(&self) -> Seq<u8> {
        if usize::MAX == u64::MAX {
            bytes_8(*self as u64)
        } else {
            bytes_4(*self as u32)
        }
    }

    fn write_layout(&self, bytes: &mut Vec<u8>) {
        if usize::MAX as u64 == u64::MAX {
            write_8(#[verifier::truncate] (*self as u64), bytes)
        } else {
            write_4(#[verifier::truncate] (*self as u32), bytes)
        }
    }
}

/// A run of bytes is its own layout.
pub proof fn lemma_layout_of_bytes(bytes: Seq<u8>)
    ensures
        flat_layout(bytes) == bytes,
    decreases bytes.len(),
{
    if bytes.len() > 0 {
        lemma_layout_of_bytes(bytes.drop_last());
        assert(flat_layout(bytes) =~= bytes);
    } else {
        assert(flat_layout(bytes) =~= bytes);
    }
}

/// The bytes of `items`, as [`flat_layout`] has them.
pub fn layout_of<T: FixedLayout>(items: &[T]) -> (bytes: Vec<u8>)
    ensures
        bytes@ == flat_layout(items@),
{
    let mut bytes: Vec<u8> = Vec::new();
    let mut i: usize = 0;
    assert(items@.take(0) =~= Seq::<T>::empty());
    while i < items.len()
        invariant
            i <= items@.len(),
            bytes@ == flat_layout(items@.take(i as int)),
        decreases items@.len() - i,
    {
        items[i].write_layout(&mut bytes);
        proof {
            assert(items@.take(i + 1).drop_last() =~= items@.take(i as int));
            assert(items@.take(i + 1).last() == items@[i as int]);
        }
        i = i + 1;
    }
    assert(items@.take(i as int) =~= items@);
    bytes
}

} // verus!
