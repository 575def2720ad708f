//! Signatures over the embedded twisted-Edwards curve, whose base field
//! equals the application field. The challenge scalar is derived with the
//! scheme's Poseidon hash, so the same equation can be enforced inside the
//! arithmetic circuit. Scalars and points are held as their canonical
//! 32-byte serializations; each curve and scalar-field operation is a
//! trusted wrapper with a named, deterministic result.

use vstd::prelude::*;

use crate::fe::Fe;
use crate::hash::poseidon_of;
use crate::hash::sha512;
use crate::hash::sha512_of;

verus! {

/// A scalar of the embedded curve's scalar field, as little-endian bytes.
#[derive(Debug, Clone, Copy)]
pub struct Sc {
    pub bytes: [u8; 32],
}

impl View for Sc {
    type V = Seq<u8>;

    open spec fn view(&self) -> Seq<u8> {
        self.bytes@
    }
}

impl PartialEq for Sc {
    fn eq(&self, other: &Sc) -> (r: bool) {
        bytes32_eq(&self.bytes, &other.bytes)
    }
}

impl Eq for Sc {

}

impl vstd::std_specs::cmp::PartialEqSpecImpl for Sc {
    open spec fn obeys_eq_spec() -> bool {
        true
    }

    open spec fn eq_spec(&self, other: &Sc) -> bool {
        self@ == other@
    }
}

/// A point of the embedded curve, in compressed 32-byte form.
#[derive(Debug, Clone, Copy)]
pub struct Pt {
    pub bytes: [u8; 32],
}

impl View for Pt {
    type V = Seq<u8>;

    open spec fn view(&self) -> Seq<u8> {
        self.bytes@
    }
}

impl PartialEq for Pt {
    fn eq(&self, other: &Pt) -> (r: bool) {
        bytes32_eq(&self.bytes, &other.bytes)
    }
}

impl Eq for Pt {

}

impl vstd::std_specs::cmp::PartialEqSpecImpl for Pt {
    open spec fn obeys_eq_spec() -> bool {
        true
    }

    open spec fn eq_spec(&self, other: &Pt) -> bool {
        self@ == other@
    }
}

fn bytes32_eq(a: &[u8; 32], b: &[u8; 32]) -> (r: bool)
    ensures
        r == (a@ == b@),
{
    let mut i: usize = 0;
    while i < 32
        invariant
            i <= 32,
            forall|j: int| 0 <= j < i ==> a@[j] == b@[j],
        decreases 32 - i,
    {
        if a[i] != b[i] {
            return false;
        }
        i += 1;
    }
    proof {
        assert(a@ =~= b@);
    }
    true
}

/// A byte string read little-endian, reduced modulo the embedded curve's
/// scalar-field prime, in canonical form.
pub uninterp spec fn sc_mod_of(input: Seq<u8>) -> Seq<u8>;

/// The sum of two scalars modulo the scalar-field prime.
pub uninterp spec fn sc_add_of(a: Seq<u8>, b: Seq<u8>) -> Seq<u8>;

/// The product of two scalars modulo the scalar-field prime.
pub uninterp spec fn sc_mul_of(a: Seq<u8>, b: Seq<u8>) -> Seq<u8>;

/// The compressed form of the curve's generator multiplied by a scalar.
pub uninterp spec fn te_base_mul_of(s: Seq<u8>) -> Seq<u8>;

/// The compressed form of a point multiplied by a scalar, or nothing when
/// the point bytes do not decode to a curve point.
pub uninterp spec fn te_mul_of(p: Seq<u8>, s: Seq<u8>) -> Option<Seq<u8>>;

/// The compressed difference of two points, or nothing when either does not
/// decode to a curve point.
pub uninterp spec fn te_sub_of(p: Seq<u8>, q: Seq<u8>) -> Option<Seq<u8>>;

/// The affine coordinates of a point as canonical base-field encodings, or
/// nothing when the bytes do not decode to a curve point.
pub uninterp spec fn te_xy_of(p: Seq<u8>) -> Option<(Seq<u8>, Seq<u8>)>;

/// Relies on `ark_ff::PrimeField::from_le_bytes_mod_order` for the embedded
/// curve's scalar field: a function of the input bytes alone.
#[verifier::external_body]
pub(crate) fn sc_reduce(input: &Vec<u8>) -> (r: Sc)
    ensures
        r@ == sc_mod_of(input@),
{
    let f = <ark_ed_on_bn254::Fr as ark_ff::PrimeField>::from_le_bytes_mod_order(input.as_slice());
    let mut bytes: Vec<u8> = Vec::new();
    ark_serialize::CanonicalSerialize::serialize_compressed(&f, &mut bytes).unwrap();
    Sc { bytes: bytes.try_into().unwrap() }
}

/// Relies on addition in `ark_ed_on_bn254::Fr`: modular, deterministic.
#[verifier::external_body]
pub(crate) fn sc_add(a: &Sc, b: &Sc) -> (r: Sc)
    ensures
        r@ == sc_add_of(a@, b@),
{
    let fa = <ark_ed_on_bn254::Fr as ark_ff::PrimeField>::from_le_bytes_mod_order(&a.bytes);
    let fb = <ark_ed_on_bn254::Fr as ark_ff::PrimeField>::from_le_bytes_mod_order(&b.bytes);
    let mut bytes: Vec<u8> = Vec::new();
    ark_serialize::CanonicalSerialize::serialize_compressed(&(fa + fb), &mut bytes).unwrap();
    Sc { bytes: bytes.try_into().unwrap() }
}

/// Relies on multiplication in `ark_ed_on_bn254::Fr`: modular, deterministic.
#[verifier::external_body]
pub(crate) fn sc_mul(a: &Sc, b: &Sc) -> (r: Sc)
    ensures
        r@ == sc_mul_of(a@, b@),
{
    let fa = <ark_ed_on_bn254::Fr as ark_ff::PrimeField>::from_le_bytes_mod_order(&a.bytes);
    let fb = <ark_ed_on_bn254::Fr as ark_ff::PrimeField>::from_le_bytes_mod_order(&b.bytes);
    let mut bytes: Vec<u8> = Vec::new();
    ark_serialize::CanonicalSerialize::serialize_compressed(&(fa * fb), &mut bytes).unwrap();
    Sc { bytes: bytes.try_into().unwrap() }
}

/// Relies on `ark_ec` twisted-Edwards scalar multiplication of the fixed
/// generator: a function of the scalar alone. The result is the canonical
/// compressed form of a valid prime-order-subgroup point, so it always
/// decodes again: its coordinates exist and it can be multiplied further.
#[verifier::external_body]
pub(crate) fn te_mul_base(s: &Sc) -> (r: Pt)
    ensures
        r@ == te_base_mul_of(s@),
        te_xy_of(r@) is Some,
        forall|k: Seq<u8>| te_mul_of(r@, k) is Some,
{
    let fs = <ark_ed_on_bn254::Fr as ark_ff::PrimeField>::from_le_bytes_mod_order(&s.bytes);
    let g = <ark_ed_on_bn254::EdwardsAffine as ark_ec::AffineRepr>::generator();
    let p: ark_ed_on_bn254::EdwardsAffine = ark_ec::CurveGroup::into_affine(g * fs);
    let mut bytes: Vec<u8> = Vec::new();
    ark_serialize::CanonicalSerialize::serialize_compressed(&p, &mut bytes).unwrap();
    Pt { bytes: bytes.try_into().unwrap() }
}

/// Relies on `ark_ec` twisted-Edwards point decompression and scalar
/// multiplication: deterministic, and rejects bytes off the curve.
#[verifier::external_body]
pub(crate) fn te_mul(p: &Pt, s: &Sc) -> (r: Option<Pt>)
    ensures
        r matches Some(pt) ==> te_mul_of(p@, s@) == Some(pt@),
        r is None ==> te_mul_of(p@, s@) is None,
{
    let pa: ark_ed_on_bn254::EdwardsAffine =
        ark_serialize::CanonicalDeserialize::deserialize_compressed(&p.bytes[..]).ok()?;
    let fs = <ark_ed_on_bn254::Fr as ark_ff::PrimeField>::from_le_bytes_mod_order(&s.bytes);
    let out: ark_ed_on_bn254::EdwardsAffine = ark_ec::CurveGroup::into_affine(pa * fs);
    let mut bytes: Vec<u8> = Vec::new();
    ark_serialize::CanonicalSerialize::serialize_compressed(&out, &mut bytes).unwrap();
    Some(Pt { bytes: bytes.try_into().unwrap() })
}

/// Relies on `ark_ec` twisted-Edwards point subtraction: deterministic, and
/// rejects bytes off the curve.
#[verifier::external_body]
pub(crate) fn te_sub(p: &Pt, q: &Pt) -> (r: Option<Pt>)
    ensures
        r matches Some(pt) ==> te_sub_of(p@, q@) == Some(pt@),
        r is None ==> te_sub_of(p@, q@) is None,
{
    let pa: ark_ed_on_bn254::EdwardsAffine =
        ark_serialize::CanonicalDeserialize::deserialize_compressed(&p.bytes[..]).ok()?;
    let qa: ark_ed_on_bn254::EdwardsAffine =
        ark_serialize::CanonicalDeserialize::deserialize_compressed(&q.bytes[..]).ok()?;
    let out: ark_ed_on_bn254::EdwardsAffine =
        ark_ec::CurveGroup::into_affine(ark_ec::AffineRepr::into_group(pa) - qa);
    let mut bytes: Vec<u8> = Vec::new();
    ark_serialize::CanonicalSerialize::serialize_compressed(&out, &mut bytes).unwrap();
    Some(Pt { bytes: bytes.try_into().unwrap() })
}

/// Relies on `ark_ec` twisted-Edwards point decompression: the affine
/// coordinates, each re-serialized canonically, determined by the bytes.
#[verifier::external_body]
pub fn te_xy(p: &Pt) -> (r: Option<(Fe, Fe)>)
    ensures
        r matches Some(xy) ==> te_xy_of(p@) == Some((xy.0@, xy.1@)) && crate::fe::fe_canon(xy.0@)
            && crate::fe::fe_canon(xy.1@),
        r is None ==> te_xy_of(p@) is None,
{
    let pa: ark_ed_on_bn254::EdwardsAffine =
        ark_serialize::CanonicalDeserialize::deserialize_compressed(&p.bytes[..]).ok()?;
    let mut xb: Vec<u8> = Vec::new();
    ark_serialize::CanonicalSerialize::serialize_compressed(&pa.x, &mut xb).unwrap();
    let mut yb: Vec<u8> = Vec::new();
    ark_serialize::CanonicalSerialize::serialize_compressed(&pa.y, &mut yb).unwrap();
    Some((Fe { bytes: xb.try_into().unwrap() }, Fe { bytes: yb.try_into().unwrap() }))
}

/// The challenge scalar bound to a nonce point, a public key and a message:
/// Poseidon over both points' coordinates and the message, reduced into the
/// scalar field. Defined only when both points decode.
pub open spec fn challenge_of(r: Seq<u8>, pk: Seq<u8>, m: Seq<u8>) -> Option<Seq<u8>> {
    match (te_xy_of(r), te_xy_of(pk)) {
        (Some(rxy), Some(pxy)) => Some(
            sc_mod_of(poseidon_of(seq![rxy.0, rxy.1, pxy.0, pxy.1, m])),
        ),
        _ => None,
    }
}

/// What it means for a signature `(sig_r, sig_s)` on message `m` to verify
/// under public key `pk`: with challenge `k`, the nonce point must equal
/// `sig_s * B - k * pk`.
pub open spec fn eddsa_verifies(pk: Seq<u8>, m: Seq<u8>, sig_r: Seq<u8>, sig_s: Seq<u8>) -> bool {
    match challenge_of(sig_r, pk, m) {
        Some(k) => match te_mul_of(pk, k) {
            Some(k_pk) => match te_sub_of(te_base_mul_of(sig_s), k_pk) {
                Some(rr) => rr == sig_r,
                None => false,
            },
            None => false,
        },
        None => false,
    }
}

/// A signature: a nonce point and a response scalar.
#[derive(Debug, Clone, Copy, PartialEq, Eq)]
pub struct Signature {
    pub r: Pt,
    pub s: Sc,
}

/// Compute the challenge scalar for a nonce point, public key and message.
fn challenge(r: &Pt, pk: &Pt, m: &Fe) -> (out: Option<Sc>)
    ensures
        out matches Some(k) ==> challenge_of(r@, pk@, m@) == Some(k@),
        out is None ==> challenge_of(r@, pk@, m@) is None,
{
    let rxy = match te_xy(r) {
        Some(v) => v,
        None => {
            return None;
        },
    };
    let pxy = match te_xy(pk) {
        Some(v) => v,
        None => {
            return None;
        },
    };
    let mut v: Vec<Fe> = Vec::new();
    v.push(rxy.0);
    v.push(rxy.1);
    v.push(pxy.0);
    v.push(pxy.1);
    v.push(*m);
    proof {
        assert(v@.map_values(|f: Fe| f@) =~= seq![rxy.0@, rxy.1@, pxy.0@, pxy.1@, m@]);
    }
    let k_fe = crate::hash::poseidon_vec(&v);
    let bytes = k_fe.to_bytes_vec();
    Some(sc_reduce(&bytes))
}

/// The public key of a secret scalar: the generator times the scalar.
pub fn public_key_of(secret: &Sc) -> (r: Pt)
    ensures
        r@ == te_base_mul_of(secret@),
        te_xy_of(r@) is Some,
{
    te_mul_base(secret)
}

/// The deterministic nonce of a signature: the secret and the message,
/// hashed and reduced into the scalar field.
pub open spec fn sign_nonce_of(secret: Seq<u8>, m: Seq<u8>) -> Seq<u8> {
    sc_mod_of(sha512_of(secret + m))
}

/// The nonce point and response scalar the deterministic signing
/// procedure produces for a secret and message; nothing when the
/// challenge is undefined (it never is for honestly derived points).
pub open spec fn sign_parts_of(secret: Seq<u8>, m: Seq<u8>) -> Option<(Seq<u8>, Seq<u8>)> {
    let nonce = sign_nonce_of(secret, m);
    let r = te_base_mul_of(nonce);
    match challenge_of(r, te_base_mul_of(secret), m) {
        Some(k) => Some((r, sc_add_of(nonce, sc_mul_of(k, secret)))),
        None => None,
    }
}

/// Whether the deterministic signing procedure fails: its parts are
/// undefined, or the signature they form does not verify under the
/// secret's public key.
pub open spec fn sign_fails(secret: Seq<u8>, m: Seq<u8>) -> bool {
    match sign_parts_of(secret, m) {
        Some(p) => !eddsa_verifies(te_base_mul_of(secret), m, p.0, p.1),
        None => true,
    }
}

/// Sign a message: derive a deterministic nonce from the secret and the
/// message, commit to it as a point, respond with `nonce + k * secret`,
/// and check the result against this module's own verifier before handing
/// it out — so a returned signature provably verifies.
pub fn sign(secret: &Sc, m: &Fe) -> (out: Option<Signature>)
    ensures
        out matches Some(sig) ==> sign_parts_of(secret@, m@) == Some((sig.r@, sig.s@))
            && eddsa_verifies(te_base_mul_of(secret@), m@, sig.r@, sig.s@),
        out is None <==> sign_fails(secret@, m@),
{
    let mut buf: Vec<u8> = Vec::new();
    let mut i: usize = 0;
    while i < 32
        invariant
            i <= 32,
            buf@ == secret@.subrange(0, i as int),
        decreases 32 - i,
    {
        buf.push(secret.bytes[i]);
        i += 1;
    }
    let mut j: usize = 0;
    while j < 32
        invariant
            j <= 32,
            buf@ == secret@ + m@.subrange(0, j as int),
        decreases 32 - j,
    {
        buf.push(m.bytes[j]);
        j += 1;
    }
    proof {
        assert(secret@.subrange(0, 32) =~= secret@);
        assert(m@.subrange(0, 32) =~= m@);
        assert(buf@ =~= secret@ + m@);
    }
    let digest = sha512(&buf);
    let nonce = sc_reduce(&digest);
    let r = te_mul_base(&nonce);
    let pk = te_mul_base(secret);
    let k = match challenge(&r, &pk, m) {
        Some(k) => k,
        None => {
            return None;
        },
    };
    let s = sc_add(&nonce, &sc_mul(&k, secret));
    let sig = Signature { r, s };
    if verify(&pk, m, &sig) {
        Some(sig)
    } else {
        None
    }
}

/// Check a signature against a public key and message.
pub fn verify(pk: &Pt, m: &Fe, sig: &Signature) -> (out: bool)
    ensures
        out == eddsa_verifies(pk@, m@, sig.r@, sig.s@),
{
    let k = match challenge(&sig.r, pk, m) {
        Some(k) => k,
        None => {
            return false;
        },
    };
    let k_pk = match te_mul(pk, &k) {
        Some(p) => p,
        None => {
            return false;
        },
    };
    let s_b = te_mul_base(&sig.s);
    let rr = match te_sub(&s_b, &k_pk) {
        Some(p) => p,
        None => {
            return false;
        },
    };
    bytes32_eq(&rr.bytes, &sig.r.bytes)
}

/// The shared secret of a secret scalar and a peer's public key: SHA-512 of
/// the compressed Diffie-Hellman point, truncated to 32 bytes. Nothing when
/// the public key bytes do not decode.
pub open spec fn shared_secret_of(secret: Seq<u8>, pk: Seq<u8>) -> Option<Seq<u8>> {
    match te_mul_of(pk, secret) {
        Some(p) => Some(sha512_of(p).take(32)),
        None => None,
    }
}

/// Derive the symmetric key shared with a peer.
pub fn shared_secret(secret: &Sc, pk: &Pt) -> (out: Option<Vec<u8>>)
    ensures
        out matches Some(k) ==> shared_secret_of(secret@, pk@) == Some(k@) && k@.len() == 32,
        out is None ==> shared_secret_of(secret@, pk@) is None,
{
    let p = match te_mul(pk, secret) {
        Some(p) => p,
        None => {
            return None;
        },
    };
    let mut pt_bytes: Vec<u8> = Vec::new();
    let mut n: usize = 0;
    while n < 32
        invariant
            n <= 32,
            pt_bytes@ == p@.subrange(0, n as int),
        decreases 32 - n,
    {
        pt_bytes.push(p.bytes[n]);
        n += 1;
    }
    proof {
        assert(p@.subrange(0, 32) =~= p@);
    }
    let digest = sha512(&pt_bytes);
    let mut key: Vec<u8> = Vec::new();
    let mut i: usize = 0;
    while i < 32
        invariant
            i <= 32,
            digest@.len() == 64,
            digest@ == sha512_of(p@),
            key@ == digest@.subrange(0, i as int),
        decreases 32 - i,
    {
        key.push(digest[i]);
        i += 1;
    }
    proof {
        assert(key@ =~= sha512_of(p@).take(32));
    }
    Some(key)
}

} // verus!
