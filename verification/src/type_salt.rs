//! Type salts: the 32-bit fingerprint of a type's canonical name.

use vstd::prelude::*;
use vstd::bytes::*;
use vstd::string::*;
use vstd::utf8::*;

verus! {

/// The FNV-1a hash of `bytes`, 32 bits wide: from the offset basis, each byte
/// in turn is xor-ed into the hash, which is then multiplied by the prime,
/// modulo `2^32`.
pub open spec fn fnv1a_32(bytes: Seq<u8>) -> u32
    decreases bytes.len(),
{
    if bytes.len() == 0 {
        0x811c_9dc5
    } else {
        (fnv1a_32(bytes.drop_last()) ^ (bytes.last() as u32)).wrapping_mul(0x0100_0193)
    }
}

/// The FNV-1a hash of `bytes`, 64 bits wide.
pub open spec fn fnv1a_64(bytes: Seq<u8>) -> u64
    decreases bytes.len(),
{
    if bytes.len() == 0 {
        0xcbf2_9ce4_8422_2325
    } else {
        (fnv1a_64(bytes.drop_last()) ^ (bytes.last() as u64)).wrapping_mul(0x0000_0100_0000_01b3)
    }
}

/// The salt that belongs to a name: the 32-bit FNV-1a hash of its UTF-8
/// bytes.
pub open spec fn name_salt(name: Seq<char>) -> u32 {
    fnv1a_32(encode_utf8(name))
}

/// The salt of a type with one secondary type: the 64-bit FNV-1a hashes of
/// the two names, each as eight bytes from the least significant up, sixteen
/// bytes in all, hashed with 32-bit FNV-1a.
pub open spec fn generic_salt(main: Seq<char>, generic: Seq<char>) -> u32 {
    fnv1a_32(
        spec_u64_to_le_bytes(fnv1a_64(encode_utf8(main))) + spec_u64_to_le_bytes(
            fnv1a_64(encode_utf8(generic)),
        ),
    )
}

/// `const_fnv1a_hash::fnv1a_hash_str_32`: the 32-bit FNV-1a hash of the
/// bytes of `input`.
#[verifier::external_body]
fn fnv1a_hash_str_32(input: &str) -> (hash: u32)
    ensures
        hash == fnv1a_32(input.spec_bytes()),
{
    const_fnv1a_hash::fnv1a_hash_str_32(input)
}

/// `const_fnv1a_hash::fnv1a_hash_str_64`: the 64-bit FNV-1a hash of the
/// bytes of `input`.
#[verifier::external_body]
fn fnv1a_hash_str_64(input: &str) -> (hash: u64)
    ensures
        hash == fnv1a_64(input.spec_bytes()),
{
    const_fnv1a_hash::fnv1a_hash_str_64(input)
}

/// `const_fnv1a_hash::fnv1a_hash_32` without a limit: the 32-bit FNV-1a hash
/// of all of `bytes`.
#[verifier::external_body]
fn fnv1a_hash_32(bytes: &[u8]) -> (hash: u32)
    ensures
        hash == fnv1a_32(bytes@),
{
    const_fnv1a_hash::fnv1a_hash_32(bytes, None)
}

/// The salt of the type called `name`.
pub fn salt_of_name(name: &str) -> (salt: u32)
    ensures
        salt == name_salt(name@),
{
    fnv1a_hash_str_32(name)
}

/// The salt of the type called `main` with the secondary type called
/// `generic`.
pub fn generic_salt_of_names(main: &str, generic: &str) -> (salt: u32)
    ensures
        salt == generic_salt(main@, generic@),
{
    let main_hash = fnv1a_hash_str_64(main);
    let generic_hash = fnv1a_hash_str_64(generic);
    let mut combined = u64_to_le_bytes(main_hash);
    let mut generic_bytes = u64_to_le_bytes(generic_hash);
    combined.append(&mut generic_bytes);
    fnv1a_hash_32(combined.as_slice())
}

/// The name made of `prefix`, `inner` and `suffix`, in that order.
pub fn wrap_name(prefix: &str, inner: String, suffix: &str) -> (name: String)
    ensures
        name@ == prefix@ + inner@ + suffix@,
{
    let mut name = String::from_str(prefix);
    name.append(inner.as_str());
    name.append(suffix);
    name
}

/// A type that knows its canonical name: its path and, for a generic type,
/// the canonical names of its arguments.
pub trait EasyHashTypeSalt {
    /// The canonical name. An impl that does not say has the empty name.
    open spec fn canonical_name() -> Seq<char> {
        Seq::empty()
    }

    /// The canonical name, as a string.
    fn name() -> (name: String)
        ensures
            name@ == Self::canonical_name(),
    ;

    /// The salt of the canonical name.
    fn type_salt_2() -> (salt: u32)
        ensures
            salt == name_salt(Self::canonical_name()),
    {
        let name = Self::name();
        salt_of_name(name.as_str())
    }
}

/// The salt of `T`: the fingerprint of its canonical name.
pub fn type_salt<T: EasyHashTypeSalt + ?Sized>() -> (salt: u32)
    ensures
        salt == name_salt(T::canonical_name()),
{
    T::type_salt_2()
}

/// The salt of `T` together with a secondary type `G` that the name of `T`
/// does not show.
pub fn type_salt_generic<T: EasyHashTypeSalt + ?Sized, G: EasyHashTypeSalt + ?Sized>() -> (salt:
    u32)
    ensures
        salt == generic_salt(T::canonical_name(), G::canonical_name()),
{
    let main = T::name();
    let generic = G::name();
    generic_salt_of_names(main.as_str(), generic.as_str())
}

} // verus!
