//! Hashing by word streams: a type hands out its words, in slices, and the
//! digest is the checksum of the type's salt followed by those words.

use vstd::prelude::*;
use crate::checksum::{fletcher64, fold, lemma_fold_concat, zero_sums, Checksum};
use crate::type_salt::{name_salt, EasyHashTypeSalt};

verus! {

/// The words of a sequence of slices, first slice to last.
pub open spec fn concat_all(slices: Seq<Seq<u32>>) -> Seq<u32>
    decreases slices.len(),
{
    if slices.len() == 0 {
        Seq::empty()
    } else {
        concat_all(slices.drop_last()) + slices.last()
    }
}

/// What each of the borrowed slices holds.
pub open spec fn slice_views(stream: Seq<&[u32]>) -> Seq<Seq<u32>> {
    stream.map_values(|slice: &[u32]| slice@)
}

/// The stream that opens with `salt` and goes on with the words of `slices`.
pub open spec fn stream_words(salt: u32, slices: Seq<Seq<u32>>) -> Seq<u32> {
    seq![salt] + concat_all(slices)
}

/// A value that can show itself as an ordered run of word slices.
pub trait ToU32Slices {
    /// The slices, in the order in which they are fed. An impl that does not
    /// say has none.
    open spec fn stream(&self) -> Seq<Seq<u32>> {
        Seq::empty()
    }

    /// The slices, borrowed from the value.
    fn to_u32_stream(&self) -> (stream: Vec<&[u32]>)
        ensures
            slice_views(stream@) == self.stream(),
    ;
}

/// The digest of a value by its word stream.
pub trait EasyHash2 {
    /// The digest. An impl that does not say leaves it open.
    open spec fn digest2(&self) -> u64 {
        arbitrary()
    }

    /// The digest of `self`.
    fn ehash(&self) -> (digest: u64)
        ensures
            digest == self.digest2(),
    ;
}

/// Every type with a name and a word stream has the digest of the salt of
/// its name followed by its words.
impl<T: EasyHashTypeSalt + ToU32Slices> EasyHash2 for T {
    open spec fn digest2(&self) -> u64 {
        fletcher64(stream_words(name_salt(T::canonical_name()), self.stream()))
    }

    fn ehash(&self) -> (digest: u64) {
        let salt = T::type_salt_2();
        let stream = self.to_u32_stream();
        let ghost slices = slice_views(stream@);
        let mut checksum = Checksum::new();
        let head = [salt];
        checksum.update(head.as_slice());
        let mut i: usize = 0;
        assert(slices.take(0) =~= Seq::<Seq<u32>>::empty());
        assert(head@ =~= stream_words(salt, slices.take(0)));
        while i < stream.len()
            invariant
                i <= stream@.len(),
                slices == slice_views(stream@),
                checksum.wf(),
                checksum.sums() == fold(zero_sums(), stream_words(salt, slices.take(i as int))),
            decreases stream@.len() - i,
        {
            let slice = stream[i];
            checksum.update(slice);
            proof {
                let before = slices.take(i as int);
                lemma_fold_concat(zero_sums(), stream_words(salt, before), slice@);
                assert(slices.take(i + 1).drop_last() =~= before);
                assert(slices.take(i + 1).last() == slice@);
                assert(stream_words(salt, before) + slice@ =~= stream_words(
                    salt,
                    slices.take(i + 1),
                ));
            }
            i = i + 1;
        }
        assert(slices.take(i as int) =~= slices);
        checksum.value()
    }
}

/// A pair shows the slices of its first part, then those of its second.
impl<T: ToU32Slices, U: ToU32Slices> ToU32Slices for (T, U) {
    open spec fn stream(&self) -> Seq<Seq<u32>> {
        self.0.stream() + self.1.stream()
    }

    fn to_u32_stream(&self) -> (stream: Vec<&[u32]>) {
        let mut stream = self.0.to_u32_stream();
        let mut rest = self.1.to_u32_stream();
        let ghost first = stream@;
        let ghost second = rest@;
        stream.append(&mut rest);
        assert(slice_views(first + second) =~= slice_views(first) + slice_views(second));
        stream
    }
}

/// A vector of words shows itself whole, as one slice.
impl ToU32Slices for Vec<u32> {
    open spec fn stream(&self) -> Seq<Seq<u32>> {
        seq![self@]
    }

    fn to_u32_stream(&self) -> (stream: Vec<&[u32]>) {
        let mut stream: Vec<&[u32]> = Vec::new();
        stream.push(self.as_slice());
        assert(slice_views(stream@) =~= seq![self@]);
        stream
    }
}

} // verus!
