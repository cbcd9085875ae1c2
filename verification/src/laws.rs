//! What the checksum can and cannot tell apart: the closed form of its two
//! sums, and the separation laws that follow from it.

use vstd::prelude::*;
use vstd::arithmetic::div_mod::{
    lemma_add_mod_noop, lemma_add_mod_noop_right, lemma_fundamental_div_mod, lemma_mod_bound,
    lemma_mod_equivalence, lemma_mod_multiples_basic,
};
use crate::composite::{fields_words, presence_words};
use crate::hash::{narrow_words, wide_words, word_words};
use crate::words::{
    join_words, lemma_join_split,
    high_word, lemma_split_words_concat, lemma_split_words_len, lemma_split_words_one, low_word,
    split_words,
};
use crate::checksum::{
    fletcher64, fold, lemma_fold_reduced, lemma_pack_halves, lemma_pack_injective, pack,
    reduced, zero_sums, Sums, MODULUS,
};

verus! {

/// The sum of the words.
pub open spec fn sum(words: Seq<u32>) -> int
    decreases words.len(),
{
    if words.len() == 0 {
        0
    } else {
        sum(words.drop_last()) + words.last()
    }
}

/// The sum of the words, each counted once for its own place and once for
/// every place after it: the last word once, the first as often as there are
/// words.
pub open spec fn weighted(words: Seq<u32>) -> int
    decreases words.len(),
{
    if words.len() == 0 {
        0
    } else {
        weighted(words.drop_last()) + sum(words.drop_last()) + words.last()
    }
}

/// `x` and `y` leave the same remainder modulo `2^32 - 1`.
pub open spec fn congruent(x: int, y: int) -> bool {
    x % (MODULUS as int) == y % (MODULUS as int)
}

/// The sum of a concatenation.
pub proof fn lemma_sum_concat(x: Seq<u32>, y: Seq<u32>)
    ensures
        sum(x + y) == sum(x) + sum(y),
    decreases y.len(),
{
    if y.len() == 0 {
        assert(x + y =~= x);
    } else {
        lemma_sum_concat(x, y.drop_last());
        assert((x + y).drop_last() =~= x + y.drop_last());
        assert((x + y).last() == y.last());
    }
}

/// The weighted sum of a concatenation: every word of the first part counts
/// once more for each word of the second.
pub proof fn lemma_weighted_concat(x: Seq<u32>, y: Seq<u32>)
    ensures
        weighted(x + y) == weighted(x) + y.len() * sum(x) + weighted(y),
    decreases y.len(),
{
    if y.len() == 0 {
        assert(x + y =~= x);
    } else {
        let rest = y.drop_last();
        lemma_weighted_concat(x, rest);
        lemma_sum_concat(x, rest);
        assert((x + y).drop_last() =~= x + rest);
        assert((x + y).last() == y.last());
        assert((rest.len() + 1) * sum(x) == rest.len() * sum(x) + sum(x)) by (nonlinear_arith);
    }
}

/// The sums of a stream in closed form: from the state `s`, the first sum
/// grows by the sum of the words, the second by the first sum once for each
/// word and by the weighted sum of the words.
pub proof fn lemma_fold_closed(s: Sums, words: Seq<u32>)
    requires
        reduced(s),
    ensures
        fold(s, words).a == (s.a + sum(words)) % (MODULUS as int),
        fold(s, words).b == (s.b + words.len() * s.a + weighted(words)) % (MODULUS as int),
    decreases words.len(),
{
    let m = MODULUS as int;
    if words.len() == 0 {
        assert(words.len() * s.a == 0) by (nonlinear_arith)
            requires
                words.len() == 0,
        ;
    } else {
        let rest = words.drop_last();
        let x = words.last() as int;
        let before = fold(s, rest);
        let n = rest.len() as int;
        let after = fold(s, words);
        let a_full = s.a + sum(rest);
        let b_full = s.b + n * s.a + weighted(rest);
        lemma_fold_closed(s, rest);
        assert(before.a == a_full % m);
        assert(before.b == b_full % m);
        assert(after.a == (before.a + x) % m);
        assert(after.b == (before.b + after.a) % m);
        assert(sum(words) == sum(rest) + x);
        assert(weighted(words) == weighted(rest) + sum(rest) + x);
        assert(words.len() * s.a == n * s.a + s.a) by (nonlinear_arith)
            requires
                words.len() == n + 1,
        ;
        assert(s.b + words.len() * s.a + weighted(words) == b_full + (a_full + x));
        lemma_add_mod_noop_right(x, a_full, m);
        assert(after.a == (a_full + x) % m);
        lemma_add_remainders(b_full, a_full + x);
        assert(after.b == (b_full + (a_full + x)) % m);
    }
}

/// Remainders may be taken before adding or after.
proof fn lemma_add_remainders(x: int, y: int)
    ensures
        (x % (MODULUS as int) + y % (MODULUS as int)) % (MODULUS as int) == (x + y) % (
        MODULUS as int),
{
    lemma_add_mod_noop(x, y, MODULUS as int);
}

/// The sum and the weighted sum of a stream of one word.
pub proof fn lemma_sums_of_one(x: u32)
    ensures
        sum(seq![x]) == x,
        weighted(seq![x]) == x,
{
    let one = seq![x];
    assert(one.drop_last() =~= Seq::<u32>::empty());
    assert(one.last() == x);
    assert(sum(one.drop_last()) == 0);
    assert(weighted(one.drop_last()) == 0);
}

/// From zero, the first sum is the sum of the words and the second their
/// weighted sum, both modulo `2^32 - 1`.
pub proof fn lemma_sums_from_zero(words: Seq<u32>)
    ensures
        fold(zero_sums(), words).a == sum(words) % (MODULUS as int),
        fold(zero_sums(), words).b == weighted(words) % (MODULUS as int),
{
    lemma_fold_closed(zero_sums(), words);
    assert(words.len() * 0 == 0);
}

/// Two streams have the same digest exactly when their sums and their
/// weighted sums are congruent.
pub proof fn lemma_digest_equality(x: Seq<u32>, y: Seq<u32>)
    ensures
        fletcher64(x) == fletcher64(y) <==> congruent(sum(x), sum(y)) && congruent(
            weighted(x),
            weighted(y),
        ),
{
    let sx = fold(zero_sums(), x);
    let sy = fold(zero_sums(), y);
    lemma_sums_from_zero(x);
    lemma_sums_from_zero(y);
    lemma_fold_reduced(zero_sums(), x);
    lemma_fold_reduced(zero_sums(), y);
    lemma_pack_halves(sx);
    lemma_pack_halves(sy);
    if pack(sx) == pack(sy) {
        lemma_pack_injective(sx, sy);
    }
}

/// Two numbers are congruent exactly when their difference is a multiple of
/// the modulus.
pub proof fn lemma_congruent_difference(x: int, y: int)
    ensures
        congruent(x, y) <==> (x - y) % (MODULUS as int) == 0,
{
    lemma_mod_equivalence(x, y, MODULUS as int);
}

/// Adding the same number on both sides keeps and reflects congruence.
pub proof fn lemma_congruent_shift(x: int, y: int, c: int)
    ensures
        congruent(x + c, y + c) <==> congruent(x, y),
{
    lemma_congruent_difference(x + c, y + c);
    lemma_congruent_difference(x, y);
}

/// The modulus is odd: where twice a number is a multiple of it, so is the
/// number.
pub proof fn lemma_halve_multiple(d: int)
    requires
        (2 * d) % (MODULUS as int) == 0,
    ensures
        d % (MODULUS as int) == 0,
{
    let m = MODULUS as int;
    let k = (2 * d) / m;
    lemma_fundamental_div_mod(2 * d, m);
    assert(2 * d == m * k);
    let q = d - k * 0x7fff_ffff;
    assert(k == 2 * q) by (nonlinear_arith)
        requires
            2 * d == 0xffff_ffff * k,
            q == d - k * 0x7fff_ffff,
    ;
    assert(d == q * m) by (nonlinear_arith)
        requires
            2 * d == m * k,
            k == 2 * q,
            m == 0xffff_ffff,
    ;
    lemma_mod_multiples_basic(q, m);
}

/// The sum and the weighted sum of a stream of two words.
pub proof fn lemma_sums_of_two(x: u32, y: u32)
    ensures
        sum(seq![x, y]) == x + y,
        weighted(seq![x, y]) == 2 * x + y,
{
    let both = seq![x, y];
    assert(both.drop_last() =~= seq![x]);
    assert(both.last() == y);
    lemma_sums_of_one(x);
}

/// A stream in which one word is replaced by a word that is not congruent to
/// it has another digest.
pub proof fn lemma_one_word_changed(before: Seq<u32>, x: u32, y: u32, after: Seq<u32>)
    requires
        !congruent(x as int, y as int),
    ensures
        fletcher64(before + seq![x] + after) != fletcher64(before + seq![y] + after),
{
    let one = before + seq![x] + after;
    let other = before + seq![y] + after;
    lemma_sum_concat(before + seq![x], after);
    lemma_sum_concat(before + seq![y], after);
    lemma_sum_concat(before, seq![x]);
    lemma_sum_concat(before, seq![y]);
    lemma_sums_of_one(x);
    lemma_sums_of_one(y);
    lemma_digest_equality(one, other);
    lemma_congruent_shift(x as int, y as int, sum(before) + sum(after));
}

/// Two streams that differ in their first word only, the salt, have different
/// digests unless the two salts are congruent.
pub proof fn lemma_salt_separates(salt: u32, other: u32, payload: Seq<u32>)
    requires
        !congruent(salt as int, other as int),
    ensures
        fletcher64(seq![salt] + payload) != fletcher64(seq![other] + payload),
{
    lemma_one_word_changed(Seq::empty(), salt, other, payload);
    assert(Seq::<u32>::empty() + seq![salt] + payload =~= seq![salt] + payload);
    assert(Seq::<u32>::empty() + seq![other] + payload =~= seq![other] + payload);
}

/// Exchanging two pieces of equal length in a stream keeps the sum, and
/// changes the weighted sum by the difference of the pieces' sums, once for
/// each place that lies between the starts of the two pieces.
pub proof fn lemma_exchange(x: Seq<u32>, u: Seq<u32>, y: Seq<u32>, v: Seq<u32>, z: Seq<u32>)
    requires
        u.len() == v.len(),
    ensures
        sum(x + u + y + v + z) == sum(x + v + y + u + z),
        weighted(x + u + y + v + z) - weighted(x + v + y + u + z) == (y.len() + u.len()) * (sum(
            u,
        ) - sum(v)),
{
    lemma_sum_concat(x, u);
    lemma_sum_concat(x + u, y);
    lemma_sum_concat(x + u + y, v);
    lemma_sum_concat(x + u + y + v, z);
    lemma_sum_concat(x, v);
    lemma_sum_concat(x + v, y);
    lemma_sum_concat(x + v + y, u);
    lemma_sum_concat(x + v + y + u, z);
    lemma_weighted_concat(x, u);
    lemma_weighted_concat(x + u, y);
    lemma_weighted_concat(x + u + y, v);
    lemma_weighted_concat(x + u + y + v, z);
    lemma_weighted_concat(x, v);
    lemma_weighted_concat(x + v, y);
    lemma_weighted_concat(x + v + y, u);
    lemma_weighted_concat(x + v + y + u, z);
    let l = u.len() as int;
    let ly = y.len() as int;
    let lz = z.len() as int;
    let sx = sum(x);
    let su = sum(u);
    let sv = sum(v);
    let sy = sum(y);
    assert(l * sx + ly * (sx + su) + l * (sx + su + sy) + lz * (sx + su + sy + sv) - (l * sx
        + ly * (sx + sv) + l * (sx + sv + sy) + lz * (sx + sv + sy + su)) == (ly + l) * (su
        - sv)) by (nonlinear_arith);
}

/// The sum of the two halves of a digest.
pub open spec fn halves_sum(digest: u64) -> int {
    low_word(digest) + high_word(digest)
}

/// The parts with those at `i` and `j` exchanged.
pub open spec fn exchanged(digests: Seq<u64>, i: int, j: int) -> Seq<u64> {
    digests.update(i, digests[j]).update(j, digests[i])
}

/// The words of a run of parts around one of them: the words of what comes
/// before, the two halves of the part, the words of what comes after.
proof fn lemma_split_words_around(before: Seq<u64>, part: u64, after: Seq<u64>)
    ensures
        split_words(before + seq![part] + after) == split_words(before) + seq![
            low_word(part),
            high_word(part),
        ] + split_words(after),
{
    lemma_split_words_one(part);
    lemma_split_words_concat(before, seq![part]);
    lemma_split_words_concat(before + seq![part], after);
}

/// The stream of a run of parts, cut at two of them: what comes before the
/// part at `i`, its halves, what lies between, the halves of the part at
/// `j`, and what comes after.
proof fn lemma_cut_at_two(head: Seq<u32>, digests: Seq<u64>, i: int, j: int)
    requires
        0 <= i < j < digests.len(),
    ensures
        head + split_words(digests) == head + split_words(digests.take(i)) + seq![
            low_word(digests[i]),
            high_word(digests[i]),
        ] + split_words(digests.subrange(i + 1, j)) + seq![
            low_word(digests[j]),
            high_word(digests[j]),
        ] + split_words(digests.skip(j + 1)),
{
    let di = digests[i];
    let dj = digests[j];
    let a = digests.take(i);
    let b = digests.subrange(i + 1, j);
    let c = digests.skip(j + 1);
    let rest = b + seq![dj] + c;
    let u = seq![low_word(di), high_word(di)];
    let v = seq![low_word(dj), high_word(dj)];
    let wa = split_words(a);
    let wb = split_words(b);
    let wc = split_words(c);
    assert(digests =~= a + seq![di] + rest);
    lemma_split_words_around(a, di, rest);
    lemma_split_words_around(b, dj, c);
    assert(split_words(digests) == wa + u + (wb + v + wc));
    assert(wa + u + (wb + v + wc) =~= wa + u + wb + v + wc);
    assert(head + (wa + u + wb + v + wc) =~= head + wa + u + wb + v + wc);
}

/// Order of parts: in a stream that ends with the halves of the digests of
/// the parts of a value, exchanging the parts at `i` and `j` changes the
/// digest of the stream, unless the difference of the two parts' half sums,
/// taken twice for each place from `i` to `j`, is a multiple of `2^32 - 1`.
pub proof fn lemma_exchange_parts(head: Seq<u32>, digests: Seq<u64>, i: int, j: int)
    requires
        0 <= i < j < digests.len(),
    ensures
        fletcher64(head + split_words(digests)) == fletcher64(
            head + split_words(exchanged(digests, i, j)),
        ) <==> (2 * (j - i) * (halves_sum(digests[i]) - halves_sum(digests[j]))) % (
        MODULUS as int) == 0,
{
    let di = digests[i];
    let dj = digests[j];
    let other = exchanged(digests, i, j);
    let x = head + split_words(digests.take(i));
    let y = split_words(digests.subrange(i + 1, j));
    let z = split_words(digests.skip(j + 1));
    let u = seq![low_word(di), high_word(di)];
    let v = seq![low_word(dj), high_word(dj)];
    let one = head + split_words(digests);
    let two = head + split_words(other);
    assert(one == x + u + y + v + z) by {
        lemma_cut_at_two(head, digests, i, j);
    }
    assert(two == x + v + y + u + z) by {
        lemma_cut_at_two(head, other, i, j);
        assert(other.take(i) =~= digests.take(i));
        assert(other.subrange(i + 1, j) =~= digests.subrange(i + 1, j));
        assert(other.skip(j + 1) =~= digests.skip(j + 1));
    }
    let delta = weighted(one) - weighted(two);
    assert(sum(one) == sum(two) && delta == 2 * (j - i) * (halves_sum(di) - halves_sum(dj)))
        by {
        lemma_exchange(x, u, y, v, z);
        lemma_split_words_len(digests.subrange(i + 1, j));
        lemma_sums_of_two(low_word(di), high_word(di));
        lemma_sums_of_two(low_word(dj), high_word(dj));
        assert((y.len() + u.len()) * (sum(u) - sum(v)) == 2 * (j - i) * (halves_sum(di)
            - halves_sum(dj))) by (nonlinear_arith)
            requires
                y.len() == 2 * (j - i - 1),
                u.len() == 2,
                sum(u) == halves_sum(di),
                sum(v) == halves_sum(dj),
        ;
    }
    lemma_digest_equality(one, two);
    lemma_congruent_difference(weighted(one), weighted(two));
}

/// Order of two neighbours: exchanging two parts that stand side by side
/// changes the digest exactly when their half sums are not congruent.
pub proof fn lemma_exchange_neighbours(head: Seq<u32>, digests: Seq<u64>, i: int)
    requires
        0 <= i,
        i + 1 < digests.len(),
    ensures
        fletcher64(head + split_words(digests)) != fletcher64(
            head + split_words(exchanged(digests, i, i + 1)),
        ) <==> !congruent(halves_sum(digests[i]), halves_sum(digests[i + 1])),
{
    let d = halves_sum(digests[i]) - halves_sum(digests[i + 1]);
    lemma_exchange_parts(head, digests, i, i + 1);
    lemma_congruent_difference(halves_sum(digests[i]), halves_sum(digests[i + 1]));
    assert(2 * ((i + 1) - i) * d == 2 * d) by (nonlinear_arith);
    if (2 * d) % (MODULUS as int) == 0 {
        lemma_halve_multiple(d);
    }
    if d % (MODULUS as int) == 0 {
        lemma_fundamental_div_mod(d, MODULUS as int);
        let q = d / (MODULUS as int);
        assert(2 * d == (2 * q) * (MODULUS as int)) by (nonlinear_arith)
            requires
                d == (MODULUS as int) * q,
        ;
        lemma_mod_multiples_basic(2 * q, MODULUS as int);
    }
}

/// The sum and the weighted sum of a stream of three words.
pub proof fn lemma_sums_of_three(x: u32, y: u32, z: u32)
    ensures
        sum(seq![x, y, z]) == x + y + z,
        weighted(seq![x, y, z]) == 3 * x + 2 * y + z,
{
    let all = seq![x, y, z];
    assert(all.drop_last() =~= seq![x, y]);
    assert(all.last() == z);
    lemma_sums_of_two(x, y);
}

/// The sum and the weighted sum of a stream of four words.
pub proof fn lemma_sums_of_four(x: u32, y: u32, z: u32, w: u32)
    ensures
        sum(seq![x, y, z, w]) == x + y + z + w,
        weighted(seq![x, y, z, w]) == 4 * x + 3 * y + 2 * z + w,
{
    let all = seq![x, y, z, w];
    assert(all.drop_last() =~= seq![x, y, z]);
    assert(all.last() == w);
    lemma_sums_of_three(x, y, z);
}

/// Order of the parts of a value: exchanging the parts at `i` and `j`
/// changes the value's digest exactly when the difference of their half
/// sums, taken twice for each place from `i` to `j`, is no multiple of
/// `2^32 - 1`.
pub proof fn lemma_fields_order(salt: u32, digests: Seq<u64>, i: int, j: int)
    requires
        0 <= i < j < digests.len(),
    ensures
        fletcher64(fields_words(salt, digests)) != fletcher64(
            fields_words(salt, exchanged(digests, i, j)),
        ) <==> (2 * (j - i) * (halves_sum(digests[i]) - halves_sum(digests[j]))) % (
        MODULUS as int) != 0,
{
    lemma_exchange_parts(seq![salt], digests, i, j);
}

/// Order of two: a value of two parts and the value with the two parts
/// exchanged have different digests exactly when the half sums of the two
/// parts are not congruent.
pub proof fn lemma_pair_order(salt: u32, x: u64, y: u64)
    ensures
        fletcher64(fields_words(salt, seq![x, y])) != fletcher64(fields_words(salt, seq![y, x]))
            <==> !congruent(halves_sum(x), halves_sum(y)),
{
    let digests = seq![x, y];
    lemma_exchange_neighbours(seq![salt], digests, 0);
    assert(exchanged(digests, 0, 1) =~= seq![y, x]);
}

/// Presence: a present value and an absent one have the same digest only
/// where the present value's digest is congruent, half by half, to what the
/// salt and the word for absence fix.
pub proof fn lemma_presence_separates(salt: u32, absent: u32, digest: u64)
    ensures
        fletcher64(presence_words(salt, absent, Some(digest))) == fletcher64(
            presence_words(salt, absent, None),
        ) <==> congruent(halves_sum(digest), absent as int) && congruent(
            salt + low_word(digest),
            0,
        ),
{
    let low = low_word(digest);
    let high = high_word(digest);
    let present = seq![salt, low, high];
    let missing = seq![salt, absent];
    lemma_sums_of_three(salt, low, high);
    lemma_sums_of_two(salt, absent);
    lemma_digest_equality(present, missing);
    lemma_congruent_shift(low + high, absent as int, salt as int);
    lemma_congruent_shift(salt + low, 0, (2 * salt + absent) as int);
    if congruent(low + high, absent as int) {
        lemma_congruent_difference(3 * salt + 2 * low + high, 2 * salt + absent);
        lemma_congruent_difference(3 * salt + 2 * low + high - (low + high), 2 * salt);
        lemma_congruent_difference(low + high, absent as int);
        lemma_congruent_difference(salt + low, 0);
        lemma_congruent_sum(
            3 * salt + 2 * low + high - (2 * salt + absent) - (low + high - absent),
            low + high - absent,
        );
    }
}

/// Where `y` is a multiple of the modulus, `x + y` is one exactly when `x`
/// is.
pub proof fn lemma_congruent_sum(x: int, y: int)
    requires
        y % (MODULUS as int) == 0,
    ensures
        (x + y) % (MODULUS as int) == 0 <==> x % (MODULUS as int) == 0,
{
    lemma_add_mod_noop_right(x, y, MODULUS as int);
}

/// Presence keeps apart what is held: two present values whose digests have
/// reduced halves, as every digest of a checksum has, hash alike only where
/// the digests are the same.
pub proof fn lemma_presence_injective(salt: u32, absent: u32, x: u64, y: u64)
    requires
        low_word(x) < MODULUS,
        high_word(x) < MODULUS,
        low_word(y) < MODULUS,
        high_word(y) < MODULUS,
    ensures
        fletcher64(presence_words(salt, absent, Some(x))) == fletcher64(
            presence_words(salt, absent, Some(y)),
        ) <==> x == y,
{
    let m = MODULUS as int;
    let lx = low_word(x) as int;
    let hx = high_word(x) as int;
    let ly = low_word(y) as int;
    let hy = high_word(y) as int;
    lemma_sums_of_three(salt, low_word(x), high_word(x));
    lemma_sums_of_three(salt, low_word(y), high_word(y));
    lemma_digest_equality(seq![salt, low_word(x), high_word(x)], seq![salt, low_word(y), high_word(y)]);
    lemma_join_split(x);
    lemma_join_split(y);
    if congruent(salt + lx + hx, salt + ly + hy) && congruent(
        3 * salt + 2 * lx + hx,
        3 * salt + 2 * ly + hy,
    ) {
        lemma_congruent_difference(salt + lx + hx, salt + ly + hy);
        lemma_congruent_difference(3 * salt + 2 * lx + hx, 3 * salt + 2 * ly + hy);
        let d1 = lx + hx - ly - hy;
        let d2 = 2 * lx + hx - 2 * ly - hy;
        lemma_multiple_difference(d2, d1);
        assert((lx - ly) % m == 0);
        lemma_small_multiple(lx - ly);
        lemma_small_multiple(hx - hy);
    }
}

/// The difference of two multiples of the modulus is one.
pub proof fn lemma_multiple_difference(x: int, y: int)
    requires
        x % (MODULUS as int) == 0,
        y % (MODULUS as int) == 0,
    ensures
        (x - y) % (MODULUS as int) == 0,
{
    lemma_mod_equivalence(x, y, MODULUS as int);
}

/// A multiple of the modulus that is smaller than the modulus on either side
/// of zero is zero.
pub proof fn lemma_small_multiple(d: int)
    requires
        d % (MODULUS as int) == 0,
        -(MODULUS as int) < d < MODULUS as int,
    ensures
        d == 0,
{
    lemma_fundamental_div_mod(d, MODULUS as int);
    let q = d / (MODULUS as int);
    assert(q == 0) by (nonlinear_arith)
        requires
            d == 0xffff_ffff * q,
            -0xffff_ffff < d < 0xffff_ffff,
    ;
}

/// All ones is not zero: under a salt that is no multiple of `2^32 - 1`, the
/// 32-bit and the 64-bit value with all bits set hash neither as zero does
/// nor as their words alone would.
pub proof fn lemma_all_ones_apart(salt: u32)
    requires
        !congruent(salt as int, 0),
    ensures
        fletcher64(word_words(salt, u32::MAX)) != fletcher64(word_words(salt, 0)),
        fletcher64(word_words(salt, u32::MAX)) != fletcher64(seq![salt, u32::MAX]),
        fletcher64(wide_words(salt, u64::MAX)) != fletcher64(wide_words(salt, 0)),
        fletcher64(wide_words(salt, u64::MAX)) != fletcher64(seq![salt, u32::MAX, u32::MAX]),
{
    let ones = u32::MAX;
    lemma_sums_of_three(salt, ones, salt);
    lemma_sums_of_two(salt, ones);
    lemma_sums_of_two(salt, 0);
    lemma_digest_equality(seq![salt, ones, salt], seq![salt, 0]);
    lemma_digest_equality(seq![salt, ones, salt], seq![salt, ones]);
    lemma_congruent_shift(salt as int, 0, salt + ones);
    lemma_congruent_difference(2 * salt + ones, salt as int);
    lemma_congruent_difference(salt as int, 0);
    assert((salt + ones) % (MODULUS as int) == 0 <==> (salt as int) % (MODULUS as int) == 0) by {
        lemma_congruent_sum(salt as int, ones as int);
    }
    assert(low_word(u64::MAX) == ones && high_word(u64::MAX) == ones);
    assert(low_word(0) == 0 && high_word(0) == 0);
    lemma_sums_of_four(salt, ones, ones, salt);
    lemma_sums_of_three(salt, ones, ones);
    lemma_sums_of_three(salt, 0, 0);
    lemma_digest_equality(seq![salt, ones, ones, salt], seq![salt, 0, 0]);
    lemma_digest_equality(seq![salt, ones, ones, salt], seq![salt, ones, ones]);
    lemma_congruent_shift(salt as int, 0, salt + 2 * ones);
    lemma_congruent_difference(2 * salt + 2 * ones, salt as int);
    assert((salt + 2 * ones) % (MODULUS as int) == 0 <==> (salt as int) % (MODULUS as int) == 0) by {
        lemma_mod_multiples_basic(2, MODULUS as int);
        lemma_congruent_sum(salt as int, 2 * ones);
    }
}

/// The pattern of a narrow value with all bits set, joined with the salt,
/// hashes apart from the pattern alone wherever the salt adds a bit that
/// the checksum can see.
pub proof fn lemma_narrow_ones_apart(salt: u32, word: u32, ones: u32)
    requires
        !congruent((ones | salt) as int, ones as int),
    ensures
        fletcher64(narrow_words(salt, word, true, ones)) != fletcher64(seq![salt, ones]),
{
    lemma_one_word_changed(seq![salt], ones | salt, ones, Seq::empty());
    assert(seq![salt] + seq![ones | salt] + Seq::<u32>::empty() =~= seq![salt, ones | salt]);
    assert(seq![salt] + seq![ones] + Seq::<u32>::empty() =~= seq![salt, ones]);
}

} // verus!
