//! Identities. An authority is derived deterministically from a 32-byte
//! seed: a nullifier key (a field element) and a signing scalar, each by a
//! domain-separated SHA-512 of the seed, and from them the public key and
//! the address — the identity commitment `Poseidon(nullifier_key, pk.x,
//! pk.y)`, which doubles as the user's identifier.

use vstd::prelude::*;

use crate::circuit::id_commitment_of;
use crate::eddsa::public_key_of;
use crate::eddsa::sc_mod_of;
use crate::eddsa::sc_reduce;
use crate::eddsa::sign;
use crate::eddsa::te_base_mul_of;
use crate::eddsa::te_xy;
use crate::eddsa::Pt;
use crate::eddsa::Sc;
use crate::eddsa::Signature;
use crate::fe::Fe;
use crate::hash::fe_mod_of;
use crate::hash::fe_reduce;
use crate::hash::poseidon3;
use crate::hash::random_bytes32;
use crate::hash::sha512;
use crate::hash::sha512_of;

verus! {

/// The ASCII bytes of the word "nullifier", the domain tag of the
/// nullifier-key derivation.
pub open spec fn nullifier_tag() -> Seq<u8> {
    seq![110u8, 117u8, 108u8, 108u8, 105u8, 102u8, 105u8, 101u8, 114u8]
}

/// The ASCII bytes of the word "eddsa", the domain tag of the signing-key
/// derivation.
pub open spec fn eddsa_tag() -> Seq<u8> {
    seq![101u8, 100u8, 100u8, 115u8, 97u8]
}

/// The nullifier key derived from a seed: SHA-512 of the tagged seed,
/// reduced into the application field.
pub open spec fn nullifier_key_of(seed: Seq<u8>) -> Seq<u8> {
    fe_mod_of(sha512_of(nullifier_tag() + seed))
}

/// The signing scalar derived from a seed: the first 32 bytes of SHA-512
/// of the tagged seed, reduced into the embedded curve's scalar field.
pub open spec fn signing_scalar_of(seed: Seq<u8>) -> Seq<u8> {
    sc_mod_of(sha512_of(eddsa_tag() + seed).take(32))
}

/// An authority: the seed and everything derived from it. The seed, the
/// nullifier key and the signing scalar are secrets and never leave the
/// wallet; the public key and address are shareable.
pub struct Auth {
    pub seed: Vec<u8>,
    pub nullifier_key: Fe,
    pub signing_key: Sc,
    pub public_key: Pt,
    pub address: Fe,
}

impl Auth {
    /// All derived material is consistent with the seed.
    pub open spec fn wf(&self) -> bool {
        &&& self.seed@.len() == 32
        &&& self.nullifier_key@ == nullifier_key_of(self.seed@)
        &&& self.signing_key@ == signing_scalar_of(self.seed@)
        &&& self.public_key@ == te_base_mul_of(self.signing_key@)
        &&& id_commitment_of(self.nullifier_key@, self.public_key@) == Some(self.address@)
    }

    /// Derive an authority from a 32-byte seed. The derived public key is
    /// a generator multiple, whose bytes always decode back to a point, so
    /// derivation succeeds on every 32-byte seed.
    pub fn new(seed: Vec<u8>) -> (r: Option<Auth>)
        requires
            seed@.len() == 32,
        ensures
            r matches Some(a) ==> a.wf() && a.seed@ == seed@,
            r is Some,
    {
        let mut tagged: Vec<u8> = Vec::new();
        // ASCII "nullifier"
        tagged.push(110);
        tagged.push(117);
        tagged.push(108);
        tagged.push(108);
        tagged.push(105);
        tagged.push(102);
        tagged.push(105);
        tagged.push(101);
        tagged.push(114);
        append_bytes(&mut tagged, &seed);
        proof {
            assert(tagged@ =~= nullifier_tag() + seed@);
        }
        let nk_digest = sha512(&tagged);
        let nullifier_key = fe_reduce(&nk_digest);

        let mut tagged2: Vec<u8> = Vec::new();
        // ASCII "eddsa"
        tagged2.push(101);
        tagged2.push(100);
        tagged2.push(100);
        tagged2.push(115);
        tagged2.push(97);
        append_bytes(&mut tagged2, &seed);
        proof {
            assert(tagged2@ =~= eddsa_tag() + seed@);
        }
        let mut sk_digest = sha512(&tagged2);
        sk_digest.truncate(32);
        proof {
            assert(sk_digest@ == sha512_of(eddsa_tag() + seed@).take(32));
        }
        let signing_key = sc_reduce(&sk_digest);
        let public_key = public_key_of(&signing_key);
        let xy = match te_xy(&public_key) {
            Some(xy) => xy,
            None => {
                return None;
            },
        };
        let address = poseidon3(&nullifier_key, &xy.0, &xy.1);
        Some(Auth { seed, nullifier_key, signing_key, public_key, address })
    }

    /// Generate an authority from operating-system randomness.
    pub fn generate() -> (r: Option<Auth>)
        ensures
            r matches Some(a) ==> a.wf(),
            r is Some,
    {
        let seed = random_bytes32();
        Auth::new(seed)
    }

    /// The seed, for encrypted persistence by the caller.
    pub fn to_bytes(&self) -> (r: Vec<u8>)
        ensures
            r@ == self.seed@,
    {
        crate::note::clone_bytes(&self.seed)
    }

    /// The address: the identity commitment of this authority.
    pub fn address(&self) -> (r: &Fe)
        ensures
            r == self.address,
    {
        &self.address
    }

    /// The public key.
    pub fn public_key(&self) -> (r: &Pt)
        ensures
            r == self.public_key,
    {
        &self.public_key
    }

    /// The nullifier key.
    pub fn nullifier_key(&self) -> (r: &Fe)
        ensures
            r == self.nullifier_key,
    {
        &self.nullifier_key
    }

    /// The spec-level view of the address.
    pub open spec fn spec_address(&self) -> Seq<u8> {
        self.address@
    }

    /// The spec-level view of the nullifier key.
    pub open spec fn spec_nullifier_key(&self) -> Seq<u8> {
        self.nullifier_key@
    }

    /// The spec-level view of the public key.
    pub open spec fn spec_public_key(&self) -> Seq<u8> {
        self.public_key@
    }

    /// Sign a transaction hash with this authority's signing key: the
    /// nonce is derived from the key and message, committed as a point,
    /// and answered with `nonce + challenge * key`. A returned signature
    /// verifies under this authority's public key; signing fails exactly
    /// when the deterministic attempt fails its own verification.
    pub fn sign_tx(&self, msg: &Fe) -> (r: Option<Signature>)
        ensures
            r matches Some(sig) ==> crate::eddsa::sign_parts_of(self.signing_key@, msg@) == Some(
                (sig.r@, sig.s@),
            ) && crate::eddsa::eddsa_verifies(
                te_base_mul_of(self.signing_key@),
                msg@,
                sig.r@,
                sig.s@,
            ),
            r is None <==> crate::eddsa::sign_fails(self.signing_key@, msg@),
    {
        sign(&self.signing_key, msg)
    }

    /// The symmetric key shared with a peer, for envelope encryption.
    pub fn shared_key(&self, peer: &Pt) -> (r: Option<Vec<u8>>)
        ensures
            r matches Some(k) ==> crate::eddsa::shared_secret_of(self.signing_key@, peer@) == Some(
                k@,
            ) && k@.len() == 32,
            r is None ==> crate::eddsa::shared_secret_of(self.signing_key@, peer@) is None,
    {
        crate::eddsa::shared_secret(&self.signing_key, peer)
    }
}

/// The seed round trip: an authority's seed comes back verbatim from
/// `to_bytes`, derivation never fails on it, and any two authorities
/// derived from the same seed agree on every piece of derived material.
pub proof fn lemma_seed_determines_identity(a: &Auth, b: &Auth)
    requires
        a.wf(),
        b.wf(),
        a.seed@ == b.seed@,
    ensures
        a.nullifier_key@ == b.nullifier_key@,
        a.signing_key@ == b.signing_key@,
        a.public_key@ == b.public_key@,
        a.address@ == b.address@,
{
    assert(id_commitment_of(a.nullifier_key@, a.public_key@) == Some(a.address@));
    assert(id_commitment_of(b.nullifier_key@, b.public_key@) == Some(b.address@));
}

/// Append all bytes of `src` to `dst`.
pub fn append_bytes(dst: &mut Vec<u8>, src: &Vec<u8>)
    ensures
        final(dst)@ == old(dst)@ + src@,
{
    let n = src.len();
    let mut i: usize = 0;
    while i < n
        invariant
            i <= n,
            n == src@.len(),
            dst@ == old(dst)@ + src@.subrange(0, i as int),
        decreases n - i,
    {
        dst.push(src[i]);
        i += 1;
    }
    proof {
        assert(old(dst)@ + src@.subrange(0, n as int) =~= old(dst)@ + src@);
    }
}

} // verus!
