//! Random values for test data, and the sum of public keys.

use super::model::{Hash256, PublicKey};
use bitcoin::secp256k1;
use fake::{Fake, Faker};
use rand::rngs::StdRng;
use rand::seq::SliceRandom;
use vstd::prelude::*;

verus! {

/// The random number generator that test data is made with.
#[verifier::external_type_specification]
#[verifier::external_body]
pub struct ExStdRng(rand::rngs::StdRng);

/// Calls `fake::Fake::fake_with_rng` on `fake::Faker` for a `u64`, which
/// draws one from `rng`. Any value may come back.
#[verifier::external_body]
pub(crate) fn fake_u64(rng: &mut StdRng) -> (r: u64) {
    Faker.fake_with_rng(rng)
}

/// Calls `fake::Fake::fake_with_rng` on `fake::Faker` for a `u32`, which
/// draws one from `rng`. Any value may come back.
#[verifier::external_body]
pub(crate) fn fake_u32(rng: &mut StdRng) -> (r: u32) {
    Faker.fake_with_rng(rng)
}

/// Calls `fake::Fake::fake_with_rng` on `fake::Faker` for a `bool`, which
/// draws one from `rng`. Either value may come back.
#[verifier::external_body]
pub(crate) fn fake_bool(rng: &mut StdRng) -> (r: bool) {
    Faker.fake_with_rng(rng)
}

/// Calls `fake::Fake::fake_with_rng` on `fake::Faker` for an array of 32
/// bytes, which draws each byte from `rng`. Any bytes may come back.
#[verifier::external_body]
pub(crate) fn fake_hash(rng: &mut StdRng) -> (r: Hash256) {
    Hash256 { bytes: Faker.fake_with_rng(rng) }
}

/// Calls `fake::Fake::fake_with_rng` on `fake::Faker` for an array of 33
/// bytes, which draws each byte from `rng`. Any bytes may come back; they
/// need not be a point of the curve.
#[verifier::external_body]
pub(crate) fn fake_public_key(rng: &mut StdRng) -> (r: PublicKey) {
    PublicKey { bytes: Faker.fake_with_rng(rng) }
}

/// Calls `fake::Fake::fake_with_rng` on `fake::Faker` for a vector of
/// bytes, which draws a length below ten and then each byte from `rng`.
#[verifier::external_body]
pub(crate) fn fake_bytes(rng: &mut StdRng) -> (r: Vec<u8>)
    ensures
        r@.len() < 10,
{
    Faker.fake_with_rng(rng)
}

/// Calls `rand::seq::SliceRandom::choose` on the slice of `items`, which
/// returns nothing for an empty slice and else one of the slice's items,
/// at an index drawn from `rng`. Any of the items may come back.
#[verifier::external_body]
pub(crate) fn choose_one<'a, T>(items: &'a Vec<T>, rng: &mut StdRng) -> (r: Option<&'a T>)
    ensures
        r is None <==> items.len() == 0,
        r matches Some(item) ==> exists|i: int| 0 <= i < items.len() && items@[i] == *item,
{
    items.choose(rng)
}

/// The sum of the public keys `keys`, as `secp256k1::PublicKey::combine_keys`
/// gives it: nothing if there is no key or there are more than `i32::MAX`,
/// if one of them is not the compressed form of a point of the curve, or
/// if the sum is the point at infinity; else the compressed form of the
/// sum.
pub uninterp spec fn combined_key(keys: Seq<PublicKey>) -> Option<PublicKey>;

/// Calls `secp256k1::PublicKey::combine_keys` on the keys that `keys` are
/// the compressed forms of, read with `secp256k1::PublicKey::from_slice`,
/// and gives the sum in its compressed form. The sum depends on the keys
/// alone. There is none for an empty list.
#[verifier::external_body]
pub(crate) fn combine_keys(keys: &Vec<PublicKey>) -> (r: Option<PublicKey>)
    ensures
        r == combined_key(keys@),
        keys.len() == 0 ==> r is None,
{
    let parsed: Result<Vec<secp256k1::PublicKey>, secp256k1::Error> =
        keys.iter().map(|k| secp256k1::PublicKey::from_slice(&k.bytes)).collect();
    let parsed = parsed.ok()?;
    let refs: Vec<&secp256k1::PublicKey> = parsed.iter().collect();
    let sum = secp256k1::PublicKey::combine_keys(&refs).ok()?;
    Some(PublicKey { bytes: sum.serialize() })
}

} // verus!
