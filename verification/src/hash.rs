//! The commitment primitives: a fixed-parameter Poseidon hash over the
//! application field, SHA-512, and modular reduction of wide hashes into the
//! field. Each outside computation is named by an uninterpreted spec
//! function, so that every commitment in the scheme has an exact, equational
//! specification.

use vstd::prelude::*;

use crate::fe::Fe;

verus! {

/// The Poseidon hash of a sequence of field elements, under the scheme's
/// fixed configuration (rate 2, capacity 1, 8 full and 55 partial rounds,
/// S-box exponent 5, constants derived from the field's bit size).
pub uninterp spec fn poseidon_of(inputs: Seq<Seq<u8>>) -> Seq<u8>;

/// The SHA-512 digest of a byte string.
pub uninterp spec fn sha512_of(input: Seq<u8>) -> Seq<u8>;

/// The canonical encoding of a byte string read as a little-endian integer
/// and reduced modulo the application field's prime.
pub uninterp spec fn fe_mod_of(input: Seq<u8>) -> Seq<u8>;

/// Relies on `ark_crypto_primitives::crh::poseidon::CRH::evaluate` with the
/// scheme's fixed configuration, built deterministically on each call by
/// `find_poseidon_ark_and_mds`; the digest is a function of the inputs
/// alone, re-serialized in canonical form.
#[verifier::external_body]
pub(crate) fn poseidon_vec(inputs: &Vec<Fe>) -> (r: Fe)
    requires
        inputs@.len() >= 1,
    ensures
        r@ == poseidon_of(inputs@.map_values(|f: Fe| f@)),
        crate::fe::fe_canon(r@),
{
    let elems: Vec<ark_bn254::Fr> = inputs
        .iter()
        .map(|f| <ark_bn254::Fr as ark_ff::PrimeField>::from_le_bytes_mod_order(&f.bytes))
        .collect();
    let (ark, mds) = ark_crypto_primitives::sponge::poseidon::find_poseidon_ark_and_mds::<
        ark_bn254::Fr,
    >(254, 2, 8, 55, 0);
    let cfg = ark_crypto_primitives::sponge::poseidon::PoseidonConfig::new(8, 55, 5, mds, ark, 2, 1);
    let out = <ark_crypto_primitives::crh::poseidon::CRH<ark_bn254::Fr> as
        ark_crypto_primitives::crh::CRHScheme>::evaluate(&cfg, elems.as_slice()).unwrap();
    let mut bytes: Vec<u8> = Vec::new();
    ark_serialize::CanonicalSerialize::serialize_compressed(&out, &mut bytes).unwrap();
    Fe { bytes: bytes.try_into().unwrap() }
}

/// Relies on `sha2::Sha512::digest`: a 64-byte digest determined by the
/// input alone.
#[verifier::external_body]
pub fn sha512(input: &Vec<u8>) -> (r: Vec<u8>)
    ensures
        r@ == sha512_of(input@),
        r@.len() == 64,
{
    <sha2::Sha512 as sha2::Digest>::digest(input.as_slice()).to_vec()
}

/// Relies on `ark_ff::PrimeField::from_le_bytes_mod_order`: the byte string
/// read little-endian and reduced modulo the field prime, a function of the
/// input alone; the result is re-serialized in canonical form.
#[verifier::external_body]
pub fn fe_reduce(input: &Vec<u8>) -> (r: Fe)
    ensures
        r@ == fe_mod_of(input@),
        crate::fe::fe_canon(r@),
{
    let f = <ark_bn254::Fr as ark_ff::PrimeField>::from_le_bytes_mod_order(input.as_slice());
    let mut bytes: Vec<u8> = Vec::new();
    ark_serialize::CanonicalSerialize::serialize_compressed(&f, &mut bytes).unwrap();
    Fe { bytes: bytes.try_into().unwrap() }
}

/// Relies on `ark_ff::UniformRand` over `rand::thread_rng`: a uniformly
/// random field element in canonical form.
#[verifier::external_body]
pub fn fe_random() -> (r: Fe)
    ensures
        crate::fe::fe_canon(r@),
{
    let f: ark_bn254::Fr = ark_ff::UniformRand::rand(&mut rand::thread_rng());
    let mut bytes: Vec<u8> = Vec::new();
    ark_serialize::CanonicalSerialize::serialize_compressed(&f, &mut bytes).unwrap();
    Fe { bytes: bytes.try_into().unwrap() }
}

/// Relies on `rand::RngCore::fill_bytes` over `rand::thread_rng`: 32 bytes
/// of operating-system randomness.
#[verifier::external_body]
pub(crate) fn random_bytes32() -> (r: Vec<u8>)
    ensures
        r@.len() == 32,
{
    let mut bytes = [0u8; 32];
    rand::RngCore::fill_bytes(&mut rand::thread_rng(), &mut bytes);
    bytes.to_vec()
}

/// Poseidon of two elements.
pub open spec fn hash2(a: Seq<u8>, b: Seq<u8>) -> Seq<u8> {
    poseidon_of(seq![a, b])
}

/// Poseidon of three elements.
pub open spec fn hash3(a: Seq<u8>, b: Seq<u8>, c: Seq<u8>) -> Seq<u8> {
    poseidon_of(seq![a, b, c])
}

/// Poseidon of two elements.
pub fn poseidon2(a: &Fe, b: &Fe) -> (r: Fe)
    ensures
        r@ == hash2(a@, b@),
{
    let mut v: Vec<Fe> = Vec::new();
    v.push(*a);
    v.push(*b);
    proof {
        assert(v@.map_values(|f: Fe| f@) =~= seq![a@, b@]);
    }
    poseidon_vec(&v)
}

/// Poseidon of three elements.
pub fn poseidon3(a: &Fe, b: &Fe, c: &Fe) -> (r: Fe)
    ensures
        r@ == hash3(a@, b@, c@),
{
    let mut v: Vec<Fe> = Vec::new();
    v.push(*a);
    v.push(*b);
    v.push(*c);
    proof {
        assert(v@.map_values(|f: Fe| f@) =~= seq![a@, b@, c@]);
    }
    poseidon_vec(&v)
}

/// Poseidon of six elements, the arity used for note commitments.
pub fn poseidon6(e: &[Fe; 6]) -> (r: Fe)
    ensures
        r@ == poseidon_of(seq![e@[0]@, e@[1]@, e@[2]@, e@[3]@, e@[4]@, e@[5]@]),
{
    let mut v: Vec<Fe> = Vec::new();
    let mut i: usize = 0;
    while i < 6
        invariant
            i <= 6,
            v@.len() == i,
            forall|j: int| 0 <= j < i ==> v@[j] == e@[j],
        decreases 6 - i,
    {
        v.push(e[i]);
        i += 1;
    }
    proof {
        assert(v@.map_values(|f: Fe| f@) =~= seq![e@[0]@, e@[1]@, e@[2]@, e@[3]@, e@[4]@, e@[5]@]);
    }
    poseidon_vec(&v)
}

} // verus!
