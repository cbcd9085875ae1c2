//! The fast paths for buffers of fixed-layout values: the memory of the
//! buffer is fed as the words that lie in it, and the digest is the one that
//! the buffer's bytes give when they are cut into words one by one.

use vstd::prelude::*;
use crate::checksum::{fletcher64, fold, lemma_fold_concat, zero_sums, Checksum};
use crate::hash::{raw_ehash, raw_words};
use crate::layout::{bytes_4, bytes_8, flat_layout, lemma_layout_of_bytes, FixedLayout};
use crate::slices::{layout_ehash, layout_words};
use crate::words::{
    byte_or_zero, bytes_words, high_word, le_word, low_word, padded_word, split_u64,
    split_words, split_words_high_first, u64_to_u32_slice, word_at, words_of_bytes,
};

verus! {

/// The bytes of a run of words where each word's most significant byte comes
/// first.
pub open spec fn flat_layout_high_first(words: Seq<u32>) -> Seq<u8>
    decreases words.len(),
{
    if words.len() == 0 {
        Seq::empty()
    } else {
        flat_layout_high_first(words.drop_last()) + bytes_4(words.last()).reverse()
    }
}

/// `head`, `body` and `tail` are `data` cut in three, the middle part read as
/// words in one of the two byte orders.
pub open spec fn cut_in_three(data: Seq<u8>, head: Seq<u8>, body: Seq<u32>, tail: Seq<u8>) -> bool {
    data == head + flat_layout(body) + tail || data == head + flat_layout_high_first(body) + tail
}

/// The contribution of a piece of fewer than four bytes: nothing where it is
/// empty, else its bytes padded with zero bytes to one word.
pub open spec fn partial_words(bytes: Seq<u8>) -> Seq<u32> {
    if bytes.len() == 0 {
        Seq::empty()
    } else {
        seq![padded_word(bytes, 0)]
    }
}

/// The stream of a buffer that was cut at word boundaries: the salt, the
/// head's word if there is a head, the body's words, the tail's word if there
/// is a tail.
pub open spec fn aligned_words(salt: u32, head: Seq<u8>, body: Seq<u32>, tail: Seq<u8>) -> Seq<
    u32,
> {
    seq![salt] + partial_words(head) + body + partial_words(tail)
}

/// The bytes of the word read the same from both ends.
pub open spec fn palindrome(x: u32) -> bool {
    bytes_4(x)[0] == bytes_4(x)[3] && bytes_4(x)[1] == bytes_4(x)[2]
}

/// `bytemuck::pod_align_to` from bytes to 32-bit words: the slice is cut in
/// a head, a middle part that starts at a word boundary and is handed out as
/// words, and a tail. Where the cuts fall depends on where the slice lies in
/// memory, and the byte order of a word on the machine; the three parts
/// together are always the slice.
#[verifier::external_body]
fn align_to_words(data: &[u8]) -> (parts: (&[u8], &[u32], &[u8]))
    ensures
        cut_in_three(data@, parts.0@, parts.1@, parts.2@),
{
    bytemuck::pod_align_to::<u8, u32>(data)
}

/// Feeds a piece of fewer than four bytes: nothing where it is empty, else
/// one word, padded with zero bytes.
pub fn update_unaligned(checksum: &mut Checksum, data: &[u8])
    requires
        old(checksum).wf(),
        data@.len() < 4,
    ensures
        final(checksum).wf(),
        final(checksum).sums() == fold(old(checksum).sums(), partial_words(data@)),
{
    if data.len() > 0 {
        let words = [word_at(data, 0)];
        assert(words@ =~= partial_words(data@));
        checksum.update(words.as_slice());
    }
}

/// The digest of a buffer that was cut in a head of fewer than four bytes,
/// a body of whole words and a tail of fewer than four bytes.
pub fn aligned_ehash(salt: u32, head: &[u8], body: &[u32], tail: &[u8]) -> (digest: u64)
    requires
        head@.len() < 4,
        tail@.len() < 4,
    ensures
        digest == fletcher64(aligned_words(salt, head@, body@, tail@)),
{
    let mut checksum = Checksum::new();
    let first = [salt];
    checksum.update(first.as_slice());
    update_unaligned(&mut checksum, head);
    checksum.update(body);
    update_unaligned(&mut checksum, tail);
    proof {
        let s0 = seq![salt];
        assert(first@ =~= s0);
        lemma_fold_concat(zero_sums(), s0, partial_words(head@));
        lemma_fold_concat(zero_sums(), s0 + partial_words(head@), body@);
        lemma_fold_concat(zero_sums(), s0 + partial_words(head@) + body@, partial_words(tail@));
    }
    checksum.value()
}

/// The four bytes of a word make the word again.
pub proof fn lemma_word_of_its_bytes(x: u32)
    ensures
        le_word(bytes_4(x)[0], bytes_4(x)[1], bytes_4(x)[2], bytes_4(x)[3]) == x,
{
    assert(le_word(
        (x & 0xff) as u8,
        ((x >> 8) & 0xff) as u8,
        ((x >> 16) & 0xff) as u8,
        (x >> 24) as u8,
    ) == x) by (bit_vector);
}

/// The word of four bytes has those four bytes.
pub proof fn lemma_bytes_of_its_word(b0: u8, b1: u8, b2: u8, b3: u8)
    ensures
        bytes_4(le_word(b0, b1, b2, b3)) == seq![b0, b1, b2, b3],
{
    let x = le_word(b0, b1, b2, b3);
    assert(({
        &&& (x & 0xff) as u8 == b0
        &&& ((x >> 8) & 0xff) as u8 == b1
        &&& ((x >> 16) & 0xff) as u8 == b2
        &&& (x >> 24) as u8 == b3
    })) by (bit_vector)
        requires
            x == le_word(b0, b1, b2, b3),
    ;
    assert(bytes_4(x) =~= seq![b0, b1, b2, b3]);
}

/// The bytes of a run of words: four for each word, those of the word at `i`
/// from the place `4 * i` on.
pub proof fn lemma_layout_of_words(words: Seq<u32>)
    ensures
        flat_layout(words).len() == 4 * words.len(),
        forall|i: int, k: int|
            0 <= i < words.len() && 0 <= k < 4 ==> flat_layout(words)[4 * i + k]
                == #[trigger] bytes_4(words[i])[k],
    decreases words.len(),
{
    if words.len() > 0 {
        let rest = words.drop_last();
        lemma_layout_of_words(rest);
        assert forall|i: int, k: int| 0 <= i < words.len() && 0 <= k < 4 implies flat_layout(
            words,
        )[4 * i + k] == #[trigger] bytes_4(words[i])[k] by {
            if i < rest.len() {
                assert(rest[i] == words[i]);
                assert(flat_layout(words)[4 * i + k] == flat_layout(rest)[4 * i + k]);
            } else {
                assert(flat_layout(words)[4 * i + k] == words.last().layout()[k]);
            }
        }
    }
}

/// The bytes of a run of words with the most significant byte first: four
/// for each word, those of the word at `i` from the place `4 * i` on, last
/// byte first.
pub proof fn lemma_layout_high_first(words: Seq<u32>)
    ensures
        flat_layout_high_first(words).len() == 4 * words.len(),
        forall|i: int, k: int|
            0 <= i < words.len() && 0 <= k < 4 ==> flat_layout_high_first(words)[4 * i + k]
                == #[trigger] bytes_4(words[i])[3 - k],
    decreases words.len(),
{
    if words.len() > 0 {
        let rest = words.drop_last();
        lemma_layout_high_first(rest);
        let turned = bytes_4(words.last()).reverse();
        assert forall|i: int, k: int| 0 <= i < words.len() && 0 <= k < 4 implies flat_layout_high_first(
            words,
        )[4 * i + k] == #[trigger] bytes_4(words[i])[3 - k] by {
            if i < rest.len() {
                assert(rest[i] == words[i]);
                assert(flat_layout_high_first(words)[4 * i + k] == flat_layout_high_first(
                    rest,
                )[4 * i + k]);
            } else {
                assert(flat_layout_high_first(words)[4 * i + k] == turned[k]);
            }
        }
    }
}

/// Where every word of the body is the word that the bytes of the buffer
/// give at its place, and the tail is what follows the body, the buffer cut
/// in body and tail gives the stream of its bytes.
pub proof fn lemma_words_in_place(salt: u32, data: Seq<u8>, body: Seq<u32>, tail: Seq<u8>)
    requires
        tail.len() < 4,
        data.len() == 4 * body.len() + tail.len(),
        tail == data.skip(4 * body.len() as int),
        forall|i: int| 0 <= i < body.len() ==> #[trigger] body[i] == padded_word(data, 4 * i),
    ensures
        aligned_words(salt, Seq::empty(), body, tail) == raw_words(salt, bytes_words(data)),
{
    let fast = body + partial_words(tail);
    let slow = bytes_words(data);
    assert(fast.len() == slow.len());
    assert forall|i: int| 0 <= i < fast.len() implies fast[i] == slow[i] by {
        if i < body.len() {
            assert(body[i] == padded_word(data, 4 * i));
        } else {
            assert(byte_or_zero(data, 4 * i) == byte_or_zero(tail, 0));
            assert(byte_or_zero(data, 4 * i + 1) == byte_or_zero(tail, 1));
            assert(byte_or_zero(data, 4 * i + 2) == byte_or_zero(tail, 2));
            assert(byte_or_zero(data, 4 * i + 3) == byte_or_zero(tail, 3));
        }
    }
    assert(fast =~= slow);
    assert(aligned_words(salt, Seq::empty(), body, tail) =~= seq![salt] + fast);
}

/// In a buffer that is its body's bytes, least significant byte first, and
/// its tail, every word of the body is the word at its place.
pub proof fn lemma_low_first_in_place(data: Seq<u8>, body: Seq<u32>, tail: Seq<u8>)
    requires
        data == flat_layout(body) + tail,
    ensures
        forall|i: int| 0 <= i < body.len() ==> #[trigger] body[i] == padded_word(data, 4 * i),
{
    lemma_layout_of_words(body);
    assert forall|i: int| 0 <= i < body.len() implies #[trigger] body[i] == padded_word(
        data,
        4 * i,
    ) by {
        lemma_word_of_its_bytes(body[i]);
        assert(data[4 * i] == bytes_4(body[i])[0]);
        assert(data[4 * i + 1] == bytes_4(body[i])[1]);
        assert(data[4 * i + 2] == bytes_4(body[i])[2]);
        assert(data[4 * i + 3] == bytes_4(body[i])[3]);
    }
}

/// Fast path and element path agree: a buffer that starts at a word boundary
/// and whose words are read least significant byte first gives, cut into
/// body and tail, the stream that its bytes give when they are cut into
/// words one after the other.
pub proof fn lemma_fast_path_agrees(salt: u32, body: Seq<u32>, tail: Seq<u8>)
    requires
        tail.len() < 4,
    ensures
        aligned_words(salt, Seq::empty(), body, tail) == raw_words(
            salt,
            bytes_words(flat_layout(body) + tail),
        ),
{
    let data = flat_layout(body) + tail;
    lemma_layout_of_words(body);
    lemma_low_first_in_place(data, body, tail);
    assert(data.skip(4 * body.len() as int) =~= tail);
    lemma_words_in_place(salt, data, body, tail);
}

/// A word that is found at its place in a buffer whose words lie there most
/// significant byte first reads the same from both ends.
proof fn lemma_found_high_first(data: Seq<u8>, body: Seq<u32>, tail: Seq<u8>, i: int)
    requires
        data == flat_layout_high_first(body) + tail,
        0 <= i < body.len(),
        body[i] == padded_word(data, 4 * i),
    ensures
        palindrome(body[i]),
{
    let x = body[i];
    lemma_layout_high_first(body);
    assert(data[4 * i] == bytes_4(x)[3 - 0]);
    assert(data[4 * i + 1] == bytes_4(x)[3 - 1]);
    assert(data[4 * i + 2] == bytes_4(x)[3 - 2]);
    assert(data[4 * i + 3] == bytes_4(x)[3 - 3]);
    lemma_bytes_of_its_word(bytes_4(x)[3], bytes_4(x)[2], bytes_4(x)[1], bytes_4(x)[0]);
}

/// Whether the bytes of `x` read the same from both ends.
fn is_palindrome(x: u32) -> (yes: bool)
    ensures
        yes == palindrome(x),
{
    proof {
        assert(x & 0xff < 0x100 && (x >> 8) & 0xff < 0x100 && (x >> 16) & 0xff < 0x100 && x >> 24
            < 0x100) by (bit_vector);
    }
    (x & 0xff) == (x >> 24) && ((x >> 8) & 0xff) == ((x >> 16) & 0xff)
}

/// Whether the words of `body` are the words that the bytes of `data` give,
/// least significant byte first. The words are held against the bytes up to
/// the first word that tells the two byte orders apart.
fn reads_low_first(data: &[u8], body: &[u32], Ghost(tail): Ghost<Seq<u8>>) -> (yes: bool)
    requires
        cut_in_three(data@, Seq::empty(), body@, tail),
    ensures
        yes ==> forall|i: int|
            0 <= i < body@.len() ==> #[trigger] body@[i] == padded_word(data@, 4 * i),
{
    proof {
        lemma_layout_of_words(body@);
        lemma_layout_high_first(body@);
        assert(Seq::<u8>::empty() + flat_layout(body@) =~= flat_layout(body@));
        assert(Seq::<u8>::empty() + flat_layout_high_first(body@) =~= flat_layout_high_first(
            body@,
        ));
    }
    let len = data.len();
    let mut i: usize = 0;
    while i < body.len()
        invariant
            i <= body@.len(),
            len == data@.len(),
            data@.len() == 4 * body@.len() + tail.len(),
            cut_in_three(data@, Seq::empty(), body@, tail),
            forall|k: int|
                0 <= k < i ==> #[trigger] body@[k] == padded_word(data@, 4 * k) && palindrome(
                    body@[k],
                ),
        decreases body@.len() - i,
    {
        let word = body[i];
        if word != word_at(data, 4 * i) {
            return false;
        }
        if !is_palindrome(word) {
            proof {
                if data@ == Seq::<u8>::empty() + flat_layout_high_first(body@) + tail {
                    lemma_found_high_first(data@, body@, tail, i as int);
                }
                lemma_low_first_in_place(data@, body@, tail);
            }
            return true;
        }
        i = i + 1;
    }
    true
}

/// The digest of a byte buffer: that of the words of its bytes. A buffer
/// that starts at a word boundary of the memory is fed without copying, as
/// the words that lie there, where those are the words of its bytes.
pub fn bytes_ehash(salt: u32, data: &[u8]) -> (digest: u64)
    ensures
        digest == fletcher64(layout_words(salt, data@)),
{
    proof {
        lemma_layout_of_bytes(data@);
    }
    let (head, body, tail) = align_to_words(data);
    if head.len() == 0 && tail.len() < 4 && reads_low_first(data, body, Ghost(tail@)) {
        proof {
            lemma_layout_of_words(body@);
            lemma_layout_high_first(body@);
            assert(head@ =~= Seq::<u8>::empty());
            assert(data@.skip(4 * body@.len() as int) =~= tail@);
            lemma_words_in_place(salt, data@, body@, tail@);
        }
        aligned_ehash(salt, head, body, tail)
    } else {
        let words = words_of_bytes(data);
        raw_ehash(salt, words.as_slice())
    }
}

/// The eight bytes of a value are the four bytes of its low word, then the
/// four bytes of its high word.
pub proof fn lemma_bytes_of_halves(x: u64)
    ensures
        bytes_8(x) == bytes_4(low_word(x)) + bytes_4(high_word(x)),
{
    let low = low_word(x);
    let high = high_word(x);
    assert(low == x & 0xffff_ffff && high == x >> 32) by (bit_vector)
        requires
            low == (x % 0x1_0000_0000) as u32,
            high == (x / 0x1_0000_0000) as u32,
    ;
    assert(({
        &&& (low & 0xff) as u8 == (x & 0xff) as u8
        &&& ((low >> 8) & 0xff) as u8 == ((x >> 8) & 0xff) as u8
        &&& ((low >> 16) & 0xff) as u8 == ((x >> 16) & 0xff) as u8
        &&& (low >> 24) as u8 == ((x >> 24) & 0xff) as u8
        &&& (high & 0xff) as u8 == ((x >> 32) & 0xff) as u8
        &&& ((high >> 8) & 0xff) as u8 == ((x >> 40) & 0xff) as u8
        &&& ((high >> 16) & 0xff) as u8 == ((x >> 48) & 0xff) as u8
        &&& (high >> 24) as u8 == (x >> 56) as u8
    })) by (bit_vector)
        requires
            low == x & 0xffff_ffff,
            high == x >> 32,
    ;
    assert(bytes_8(x) =~= bytes_4(low) + bytes_4(high));
}

/// The bytes of a run of 64-bit values are the bytes of their words, low
/// word first.
pub proof fn lemma_layout_of_wide(values: Seq<u64>)
    ensures
        flat_layout(values) == flat_layout(split_words(values)),
    decreases values.len(),
{
    if values.len() > 0 {
        let rest = values.drop_last();
        let last = values.last();
        lemma_layout_of_wide(rest);
        lemma_bytes_of_halves(last);
        let words = split_words(values);
        let upto = split_words(rest).push(low_word(last));
        assert(words =~= upto.push(high_word(last)));
        assert(words.drop_last() =~= upto);
        assert(upto.drop_last() =~= split_words(rest));
        assert(flat_layout(upto) == flat_layout(split_words(rest)) + bytes_4(low_word(last)));
        assert(flat_layout(words) == flat_layout(upto) + bytes_4(high_word(last)));
        assert(flat_layout(values) =~= flat_layout(words));
    } else {
        assert(split_words(values) =~= Seq::<u32>::empty());
    }
}

/// Word path and element path agree for 64-bit values: fed as their words,
/// low word first, they give the stream that their bytes give.
pub proof fn lemma_wide_path_agrees(salt: u32, values: Seq<u64>)
    ensures
        raw_words(salt, split_words(values)) == layout_words(salt, values),
{
    lemma_layout_of_wide(values);
    lemma_fast_path_agrees(salt, split_words(values), Seq::empty());
    let bytes = flat_layout(split_words(values));
    assert(bytes + Seq::<u8>::empty() =~= bytes);
    assert(aligned_words(salt, Seq::empty(), split_words(values), Seq::empty()) =~= raw_words(
        salt,
        split_words(values),
    ));
}

/// The words of a run of values: two for each value, the low word of the
/// value at `i` at the place `2 * i`, its high word after it.
pub proof fn lemma_split_words_at(values: Seq<u64>)
    ensures
        split_words(values).len() == 2 * values.len(),
        forall|i: int|
            0 <= i < values.len() ==> split_words(values)[2 * i] == low_word(
                #[trigger] values[i],
            ) && split_words(values)[2 * i + 1] == high_word(values[i]),
    decreases values.len(),
{
    if values.len() > 0 {
        let rest = values.drop_last();
        lemma_split_words_at(rest);
        assert forall|i: int| 0 <= i < values.len() implies split_words(values)[2 * i]
            == low_word(#[trigger] values[i]) && split_words(values)[2 * i + 1] == high_word(
            values[i],
        ) by {
            if i < rest.len() {
                assert(rest[i] == values[i]);
            }
        }
    }
}

/// As [`lemma_split_words_at`], for the words with the high word first.
pub proof fn lemma_split_words_high_first_at(values: Seq<u64>)
    ensures
        split_words_high_first(values).len() == 2 * values.len(),
        forall|i: int|
            0 <= i < values.len() ==> split_words_high_first(values)[2 * i] == high_word(
                #[trigger] values[i],
            ) && split_words_high_first(values)[2 * i + 1] == low_word(values[i]),
    decreases values.len(),
{
    if values.len() > 0 {
        let rest = values.drop_last();
        lemma_split_words_high_first_at(rest);
        assert forall|i: int| 0 <= i < values.len() implies split_words_high_first(values)[2 * i]
            == high_word(#[trigger] values[i]) && split_words_high_first(values)[2 * i + 1]
            == low_word(values[i]) by {
            if i < rest.len() {
                assert(rest[i] == values[i]);
            }
        }
    }
}

/// Whether `words` are the words of `data` with the low word of each value
/// first. The words are held against the values up to the first value whose
/// two halves differ.
fn halves_low_first(data: &[u64], words: &[u32]) -> (yes: bool)
    requires
        words@ == split_words(data@) || words@ == split_words_high_first(data@),
    ensures
        yes ==> words@ == split_words(data@),
{
    proof {
        lemma_split_words_at(data@);
        lemma_split_words_high_first_at(data@);
    }
    let len = words.len();
    let mut i: usize = 0;
    while i < data.len()
        invariant
            i <= data@.len(),
            len == words@.len(),
            words@.len() == 2 * data@.len(),
            split_words(data@).len() == 2 * data@.len(),
            split_words_high_first(data@).len() == 2 * data@.len(),
            words@ == split_words(data@) || words@ == split_words_high_first(data@),
            forall|k: int|
                0 <= k < data@.len() ==> split_words(data@)[2 * k] == low_word(
                    #[trigger] data@[k],
                ) && split_words(data@)[2 * k + 1] == high_word(data@[k]),
            forall|k: int|
                0 <= k < data@.len() ==> split_words_high_first(data@)[2 * k] == high_word(
                    #[trigger] data@[k],
                ) && split_words_high_first(data@)[2 * k + 1] == low_word(data@[k]),
            forall|k: int|
                0 <= k < i ==> words@[2 * k] == low_word(#[trigger] data@[k]) && words@[2 * k
                    + 1] == high_word(data@[k]),
        decreases data@.len() - i,
    {
        let halves = split_u64(data[i]);
        if words[2 * i] != halves[0] || words[2 * i + 1] != halves[1] {
            return false;
        }
        if halves[0] != halves[1] {
            // the high word first would have put the other half at this place
            assert(split_words_high_first(data@)[2 * i] == high_word(data@[i as int]));
            return true;
        }
        i = i + 1;
    }
    assert forall|j: int| 0 <= j < words@.len() implies words@[j] == split_words(data@)[j] by {
        let k = j / 2;
        assert(0 <= k < data@.len());
        assert(j == 2 * k || j == 2 * k + 1);
        assert(words@[2 * k] == low_word(data@[k]) && words@[2 * k + 1] == high_word(data@[k]));
        assert(split_words(data@)[2 * k] == low_word(data@[k]) && split_words(data@)[2 * k + 1]
            == high_word(data@[k]));
    }
    assert(words@ =~= split_words(data@));
    true
}

/// The digest of a buffer of 64-bit values under `salt`: that of the words
/// of its bytes. The buffer is fed without copying, as the words that lie in
/// its memory, where those are the values' halves, low half first.
pub fn wide_slice_ehash(salt: u32, data: &[u64]) -> (digest: u64)
    ensures
        digest == fletcher64(layout_words(salt, data@)),
{
    let words = u64_to_u32_slice(data);
    if halves_low_first(data, words) {
        proof {
            lemma_wide_path_agrees(salt, data@);
        }
        raw_ehash(salt, words)
    } else {
        layout_ehash(salt, data)
    }
}

} // verus!
