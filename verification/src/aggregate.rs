//! The digests of structs and enums, from the shape of a value: its fields in
//! declaration order, each with its own digest and its exclusion mark, and
//! for an enum the ordinal of the active variant.

use vstd::prelude::*;
use crate::checksum::{fletcher64, fold, lemma_fold_concat, zero_sums, Checksum};
use crate::hash::EasyHash;
use crate::laws::{
    congruent, halves_sum, lemma_exchange_parts, lemma_one_word_changed, lemma_salt_separates,
};
use crate::checksum::MODULUS;
use crate::words::{
    high_word, lemma_split_words_concat, lemma_split_words_one, low_word, split_words,
};

verus! {

/// One field of a value.
pub struct Field {
    /// The field's own digest. It is not read where the field is excluded.
    pub digest: u64,
    /// The field is marked as excluded from the digest of the value.
    pub ignored: bool,
}

/// The fields of a struct or of an enum's variant.
pub enum Fields {
    /// Fields with names, in declaration order.
    Named(Vec<Field>),
    /// Fields by position.
    Unnamed(Vec<Field>),
    /// No fields.
    Unit,
}

/// A value of a struct or of an enum.
pub enum Data {
    /// A struct with its fields.
    Struct(Fields),
    /// An enum: the active variant's position among the declared variants,
    /// counted from zero, and the variant's fields.
    Enum(u32, Fields),
}

impl Field {
    /// A field that contributes the digest of `value`.
    pub fn of<T: EasyHash>(value: &T) -> (field: Field)
        ensures
            field == (Field { digest: value.digest(), ignored: false }),
    {
        Field { digest: value.ehash(), ignored: false }
    }

    /// A field that is excluded.
    pub fn excluded() -> (field: Field)
        ensures
            field == (Field { digest: 0, ignored: true }),
    {
        Field { digest: 0, ignored: true }
    }
}

/// The digests of the fields that are not excluded, in declaration order.
pub open spec fn kept(fields: Seq<Field>) -> Seq<u64>
    decreases fields.len(),
{
    if fields.len() == 0 {
        Seq::empty()
    } else if fields.last().ignored {
        kept(fields.drop_last())
    } else {
        kept(fields.drop_last()).push(fields.last().digest)
    }
}

/// The digests of all the fields, in declaration order.
pub open spec fn every(fields: Seq<Field>) -> Seq<u64> {
    fields.map_values(|field: Field| field.digest)
}

/// The digests that a struct's fields contribute: those of the fields that
/// are not excluded.
pub open spec fn struct_digests(fields: Fields) -> Seq<u64> {
    match fields {
        Fields::Named(list) => kept(list@),
        Fields::Unnamed(list) => kept(list@),
        Fields::Unit => Seq::empty(),
    }
}

/// The digests that a variant's fields contribute. Exclusion marks are
/// honoured on named fields; fields by position all contribute.
pub open spec fn variant_digests(fields: Fields) -> Seq<u64> {
    match fields {
        Fields::Named(list) => kept(list@),
        Fields::Unnamed(list) => every(list@),
        Fields::Unit => Seq::empty(),
    }
}

/// The stream of a value. A struct: the salt, then the halves of each
/// contributing field's digest. An enum: the salt and the variant's ordinal,
/// then the halves of each contributing field's digest.
pub open spec fn data_words(salt: u32, data: Data) -> Seq<u32> {
    match data {
        Data::Struct(fields) => seq![salt] + split_words(struct_digests(fields)),
        Data::Enum(ordinal, fields) => seq![salt, ordinal] + split_words(variant_digests(fields)),
    }
}

/// Feeds the digests of `fields`: of those that are not excluded where
/// `honour_marks` is set, else of all.
fn feed_fields(checksum: &mut Checksum, fields: &Vec<Field>, honour_marks: bool)
    requires
        old(checksum).wf(),
    ensures
        final(checksum).wf(),
        final(checksum).sums() == fold(
            old(checksum).sums(),
            split_words(
                if honour_marks {
                    kept(fields@)
                } else {
                    every(fields@)
                },
            ),
        ),
{
    let ghost start = checksum.sums();
    let mut i: usize = 0;
    assert(fields@.take(0) =~= Seq::<Field>::empty());
    assert(every(fields@.take(0)) =~= Seq::<u64>::empty());
    while i < fields.len()
        invariant
            i <= fields@.len(),
            checksum.wf(),
            checksum.sums() == fold(
                start,
                split_words(
                    if honour_marks {
                        kept(fields@.take(i as int))
                    } else {
                        every(fields@.take(i as int))
                    },
                ),
            ),
        decreases fields@.len() - i,
    {
        let ghost before = fields@.take(i as int);
        let ghost after = fields@.take(i + 1);
        proof {
            assert(after.drop_last() =~= before);
            assert(after.last() == fields@[i as int]);
            assert(every(after) =~= every(before).push(fields@[i as int].digest));
        }
        if !(honour_marks && fields[i].ignored) {
            let part = fields[i].digest;
            checksum.update_digest(part);
            proof {
                let done = if honour_marks {
                    kept(before)
                } else {
                    every(before)
                };
                lemma_fold_concat(
                    start,
                    split_words(done),
                    seq![low_word(part), high_word(part)],
                );
                lemma_split_words_one(part);
                lemma_split_words_concat(done, seq![part]);
                assert(done + seq![part] =~= done.push(part));
            }
        }
        i = i + 1;
    }
    assert(fields@.take(i as int) =~= fields@);
}

/// The digest of a struct or enum value under the salt of its type.
pub fn hash_sum(salt: u32, data: &Data) -> (digest: u64)
    ensures
        digest == fletcher64(data_words(salt, *data)),
{
    let mut checksum = Checksum::new();
    match data {
        Data::Struct(fields) => {
            let head = [salt];
            checksum.update(head.as_slice());
            assert(head@ =~= seq![salt]);
            match fields {
                Fields::Named(list) => {
                    feed_fields(&mut checksum, list, true);
                },
                Fields::Unnamed(list) => {
                    feed_fields(&mut checksum, list, true);
                },
                Fields::Unit => {
                    assert(split_words(Seq::<u64>::empty()) =~= Seq::<u32>::empty());
                },
            }
            proof {
                lemma_fold_concat(zero_sums(), seq![salt], split_words(struct_digests(*fields)));
            }
        },
        Data::Enum(ordinal, fields) => {
            let head = [salt, *ordinal];
            checksum.update(head.as_slice());
            assert(head@ =~= seq![salt, *ordinal]);
            match fields {
                Fields::Named(list) => {
                    feed_fields(&mut checksum, list, true);
                },
                Fields::Unnamed(list) => {
                    feed_fields(&mut checksum, list, false);
                },
                Fields::Unit => {
                    assert(split_words(Seq::<u64>::empty()) =~= Seq::<u32>::empty());
                },
            }
            proof {
                lemma_fold_concat(
                    zero_sums(),
                    seq![salt, *ordinal],
                    split_words(variant_digests(*fields)),
                );
            }
        },
    }
    checksum.value()
}

/// The fields of a struct or variant, as a sequence.
pub open spec fn field_list(fields: Fields) -> Seq<Field> {
    match fields {
        Fields::Named(list) => list@,
        Fields::Unnamed(list) => list@,
        Fields::Unit => Seq::empty(),
    }
}

/// Two runs of fields carry the same marks, and the same digest wherever a
/// field is not excluded.
pub open spec fn same_but_excluded(x: Seq<Field>, y: Seq<Field>) -> bool {
    &&& x.len() == y.len()
    &&& forall|k: int|
        0 <= k < x.len() ==> (#[trigger] x[k]).ignored == y[k].ignored && (!x[k].ignored
            ==> x[k].digest == y[k].digest)
}

/// Two field lists are of the same kind and differ in excluded fields at
/// most.
pub open spec fn fields_alike(x: Fields, y: Fields) -> bool {
    match (x, y) {
        (Fields::Named(a), Fields::Named(b)) => same_but_excluded(a@, b@),
        (Fields::Unnamed(a), Fields::Unnamed(b)) => same_but_excluded(a@, b@),
        (Fields::Unit, Fields::Unit) => true,
        _ => false,
    }
}

/// Two values of one type have the same shape, the same active variant, and
/// differ in excluded fields at most.
pub open spec fn data_alike(x: Data, y: Data) -> bool {
    match (x, y) {
        (Data::Struct(a), Data::Struct(b)) => fields_alike(a, b),
        (Data::Enum(m, a), Data::Enum(n, b)) => m == n && fields_alike(a, b),
        _ => false,
    }
}

/// Every exclusion mark of the value is honoured: it is no enum variant with
/// a marked field by position.
pub open spec fn marks_honoured(data: Data) -> bool {
    match data {
        Data::Enum(_, Fields::Unnamed(list)) => forall|k: int|
            0 <= k < list@.len() ==> !(#[trigger] list@[k]).ignored,
        _ => true,
    }
}

/// Runs of fields that differ in excluded fields only keep the same digests.
pub proof fn lemma_kept_alike(x: Seq<Field>, y: Seq<Field>)
    requires
        same_but_excluded(x, y),
    ensures
        kept(x) == kept(y),
    decreases x.len(),
{
    if x.len() > 0 {
        assert(x.last() == x[x.len() - 1]);
        assert(y.last() == y[y.len() - 1]);
        assert forall|k: int| 0 <= k < x.drop_last().len() implies (#[trigger] x.drop_last()[k]).ignored
            == y.drop_last()[k].ignored && (!x.drop_last()[k].ignored ==> x.drop_last()[k].digest
            == y.drop_last()[k].digest) by {
            assert(x.drop_last()[k] == x[k]);
            assert(y.drop_last()[k] == y[k]);
        }
        lemma_kept_alike(x.drop_last(), y.drop_last());
    }
}

/// Where no field is excluded, every digest is kept.
pub proof fn lemma_kept_all(x: Seq<Field>)
    requires
        forall|k: int| 0 <= k < x.len() ==> !(#[trigger] x[k]).ignored,
    ensures
        kept(x) == every(x),
    decreases x.len(),
{
    if x.len() > 0 {
        assert(!x[x.len() - 1].ignored);
        assert forall|k: int| 0 <= k < x.drop_last().len() implies !(#[trigger] x.drop_last()[k]).ignored by {
            assert(x.drop_last()[k] == x[k]);
        }
        lemma_kept_all(x.drop_last());
        assert(every(x) =~= every(x.drop_last()).push(x.last().digest));
    } else {
        assert(every(x) =~= Seq::<u64>::empty());
    }
}

/// Excluded fields do not count: two values that differ in excluded fields
/// only have the same digest, wherever the marks are honoured.
pub proof fn lemma_excluded_fields(salt: u32, x: Data, y: Data)
    requires
        data_alike(x, y),
        marks_honoured(x),
    ensures
        fletcher64(data_words(salt, x)) == fletcher64(data_words(salt, y)),
{
    match (x, y) {
        (Data::Struct(a), Data::Struct(b)) => {
            lemma_kept_alike(field_list(a), field_list(b));
        },
        (Data::Enum(m, a), Data::Enum(n, b)) => {
            match (a, b) {
                (Fields::Unnamed(p), Fields::Unnamed(q)) => {
                    assert forall|k: int| 0 <= k < q@.len() implies !(#[trigger] q@[k]).ignored by {
                        assert(p@[k].ignored == q@[k].ignored);
                    }
                    lemma_kept_alike(p@, q@);
                    lemma_kept_all(p@);
                    lemma_kept_all(q@);
                },
                _ => {
                    lemma_kept_alike(field_list(a), field_list(b));
                },
            }
        },
        _ => {},
    }
}

/// Types are kept apart: one value under two salts that are not congruent
/// has two digests.
pub proof fn lemma_type_separates(salt: u32, other: u32, data: Data)
    requires
        !congruent(salt as int, other as int),
    ensures
        fletcher64(data_words(salt, data)) != fletcher64(data_words(other, data)),
{
    match data {
        Data::Struct(fields) => {
            lemma_salt_separates(salt, other, split_words(struct_digests(fields)));
        },
        Data::Enum(ordinal, fields) => {
            let rest = seq![ordinal] + split_words(variant_digests(fields));
            lemma_salt_separates(salt, other, rest);
            assert(seq![salt] + rest =~= data_words(salt, data));
            assert(seq![other] + rest =~= data_words(other, data));
        },
    }
}

/// Variants are kept apart: the same fields under two ordinals that are not
/// congruent have two digests.
pub proof fn lemma_ordinal_separates(salt: u32, ordinal: u32, other: u32, fields: Fields)
    requires
        !congruent(ordinal as int, other as int),
    ensures
        fletcher64(data_words(salt, Data::Enum(ordinal, fields))) != fletcher64(
            data_words(salt, Data::Enum(other, fields)),
        ),
{
    let rest = split_words(variant_digests(fields));
    lemma_one_word_changed(seq![salt], ordinal, other, rest);
    assert(seq![salt] + seq![ordinal] + rest =~= seq![salt, ordinal] + rest);
    assert(seq![salt] + seq![other] + rest =~= seq![salt, other] + rest);
}

/// `y` is `x` with the fields at `i` and `j` exchanged.
pub open spec fn fields_exchanged(x: Seq<Field>, y: Seq<Field>, i: int, j: int) -> bool {
    0 <= i < j < x.len() && y == x.update(i, x[j]).update(j, x[i])
}

/// Order of fields: in a struct without excluded fields, exchanging the
/// values of the fields at `i` and `j` changes the digest exactly when the
/// difference of the two fields' half sums, taken twice for each place from
/// `i` to `j`, is no multiple of `2^32 - 1`.
pub proof fn lemma_field_order(salt: u32, x: Fields, y: Fields, i: int, j: int)
    requires
        fields_exchanged(field_list(x), field_list(y), i, j),
        forall|k: int| 0 <= k < field_list(x).len() ==> !(#[trigger] field_list(x)[k]).ignored,
    ensures
        fletcher64(data_words(salt, Data::Struct(x))) != fletcher64(
            data_words(salt, Data::Struct(y)),
        ) <==> (2 * (j - i) * (halves_sum(field_list(x)[i].digest) - halves_sum(
            field_list(x)[j].digest,
        ))) % (MODULUS as int) != 0,
{
    let a = field_list(x);
    let b = field_list(y);
    assert forall|k: int| 0 <= k < b.len() implies !(#[trigger] b[k]).ignored by {
        if k == i {
            assert(b[k] == a[j]);
        } else if k == j {
            assert(b[k] == a[i]);
        } else {
            assert(b[k] == a[k]);
        }
    }
    lemma_kept_all(a);
    lemma_kept_all(b);
    assert(every(b) =~= every(a).update(i, every(a)[j]).update(j, every(a)[i]));
    lemma_exchange_parts(seq![salt], every(a), i, j);
    assert(struct_digests(x) == kept(a));
    assert(struct_digests(y) == kept(b));
}

} // verus!
