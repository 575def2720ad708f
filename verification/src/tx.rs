//! Transactions: the unsealed issue and split forms assembled by the
//! wallet, and their sealed forms carrying a signature (and, for splits,
//! the nullifier of the spent note).

use vstd::prelude::*;

use crate::eddsa::Signature;
use crate::fe::fe_zero;
use crate::fe::Fe;
use crate::hash::hash3;
use crate::hash::poseidon2;
use crate::hash::poseidon3;
use crate::id::Auth;
use crate::note::blind_note_hash_of;
use crate::note::note_hash_of;
use crate::note::nullifier_of;
use crate::note::Note;

verus! {

/// An issue transaction: the first note of a chain, and its issuer.
#[derive(Debug, Clone, Copy, PartialEq, Eq)]
pub struct IssueTx {
    pub note: Note,
    pub issuer: Fe,
}

/// The message an issue transaction's signature covers: Poseidon of two
/// zeros and the note hash.
pub open spec fn issue_sighash_of(tx: IssueTx) -> Seq<u8> {
    hash3(fe_zero(), fe_zero(), note_hash_of(tx.note))
}

impl IssueTx {
    /// An issue transaction. Issued notes start the chain: step zero,
    /// output index `Out1`, and a zero parent commitment.
    pub fn new(issuer: &Fe, note: &Note) -> (r: IssueTx)
        requires
            note.step == 0,
            note.out_index is Out1,
            note.parent_note@ == fe_zero(),
        ensures
            r == (IssueTx { note: *note, issuer: *issuer }),
    {
        IssueTx { note: *note, issuer: *issuer }
    }

    /// The note being issued.
    pub fn note(&self) -> (r: &Note)
        ensures
            r == self.note,
    {
        &self.note
    }

    /// The signature hash of this transaction.
    pub fn sighash(&self) -> (r: Fe)
        ensures
            r@ == issue_sighash_of(*self),
    {
        let zero = Fe::zero();
        let h = self.note.hash();
        poseidon3(&zero, &zero, &h)
    }

    /// Seal the transaction with a signature.
    pub fn seal(self, signature: Signature) -> (r: SealedIssueTx)
        ensures
            r == (SealedIssueTx { tx: self, signature }),
    {
        SealedIssueTx { tx: self, signature }
    }
}

/// A sealed issue transaction: the transaction plus the issuer's signature
/// over its signature hash.
#[derive(Debug, Clone, Copy, PartialEq, Eq)]
pub struct SealedIssueTx {
    pub tx: IssueTx,
    pub signature: Signature,
}

impl SealedIssueTx {
    /// The wrapped transaction.
    pub fn tx(&self) -> (r: &IssueTx)
        ensures
            r == self.tx,
    {
        &self.tx
    }

    /// The signature.
    pub fn signature(&self) -> (r: &Signature)
        ensures
            r == self.signature,
    {
        &self.signature
    }
}

/// A split transaction: the spent note and its two outputs.
#[derive(Debug, Clone, Copy, PartialEq, Eq)]
pub struct SplitTx {
    pub note_in: Note,
    pub note_out_0: Note,
    pub note_out_1: Note,
}

/// The message a split transaction's signature covers: Poseidon of the
/// three note hashes, input first.
pub open spec fn split_sighash_of(tx: SplitTx) -> Seq<u8> {
    hash3(note_hash_of(tx.note_in), note_hash_of(tx.note_out_0), note_hash_of(tx.note_out_1))
}

/// The preconditions a split must obey: both outputs carry the spent
/// note's asset, sit one step after it, point at its blinded hash, and
/// split its value exactly; output 0 returns change to the spent note's
/// owner.
pub open spec fn split_tx_wf(tx: SplitTx) -> bool {
    &&& tx.note_out_0.asset_hash@ == tx.note_in.asset_hash@
    &&& tx.note_out_1.asset_hash@ == tx.note_in.asset_hash@
    &&& tx.note_in.step < 0xffffffff
    &&& tx.note_out_0.step == tx.note_in.step + 1
    &&& tx.note_out_1.step == tx.note_in.step + 1
    &&& tx.note_out_0.parent_note@ == blind_note_hash_of(tx.note_in)
    &&& tx.note_out_1.parent_note@ == blind_note_hash_of(tx.note_in)
    &&& tx.note_out_0.out_index is Out0
    &&& tx.note_out_1.out_index is Out1
    &&& tx.note_out_0.owner@ == tx.note_in.owner@
    &&& tx.note_out_0.value + tx.note_out_1.value == tx.note_in.value
}

impl SplitTx {
    /// A split transaction from its three notes.
    pub fn new(note_in: &Note, note_out_0: &Note, note_out_1: &Note) -> (r: SplitTx)
        requires
            split_tx_wf(
                SplitTx { note_in: *note_in, note_out_0: *note_out_0, note_out_1: *note_out_1 },
            ),
        ensures
            r == (SplitTx { note_in: *note_in, note_out_0: *note_out_0, note_out_1: *note_out_1 }),
    {
        SplitTx { note_in: *note_in, note_out_0: *note_out_0, note_out_1: *note_out_1 }
    }

    /// The change output.
    pub fn note_out_0(&self) -> (r: &Note)
        ensures
            r == self.note_out_0,
    {
        &self.note_out_0
    }

    /// The transferred output.
    pub fn note_out_1(&self) -> (r: &Note)
        ensures
            r == self.note_out_1,
    {
        &self.note_out_1
    }

    /// The signature hash of this transaction.
    pub fn sighash(&self) -> (r: Fe)
        ensures
            r@ == split_sighash_of(*self),
    {
        let h_in = self.note_in.hash();
        let h0 = self.note_out_0.hash();
        let h1 = self.note_out_1.hash();
        poseidon3(&h_in, &h0, &h1)
    }

    /// Seal the transaction with a signature and the spent note's
    /// nullifier.
    pub fn seal(&self, signature: &Signature, nullifier: &Fe) -> (r: SealedSplitTx)
        ensures
            r == (SealedSplitTx { tx: *self, signature: *signature, nullifier: *nullifier }),
    {
        SealedSplitTx { tx: *self, signature: *signature, nullifier: *nullifier }
    }
}

/// A sealed split transaction: the transaction, the spender's signature
/// over its signature hash, and the nullifier of the spent note.
#[derive(Debug, Clone, Copy, PartialEq, Eq)]
pub struct SealedSplitTx {
    pub tx: SplitTx,
    pub signature: Signature,
    pub nullifier: Fe,
}

impl SealedSplitTx {
    /// The nullifier of the spent note.
    pub fn nullifier(&self) -> (r: &Fe)
        ensures
            r == self.nullifier,
    {
        &self.nullifier
    }

    /// The signature.
    pub fn signature(&self) -> (r: &Signature)
        ensures
            r == self.signature,
    {
        &self.signature
    }

    /// The change output.
    pub fn note_out_0(&self) -> (r: &Note)
        ensures
            r == self.tx.note_out_0,
    {
        &self.tx.note_out_0
    }

    /// The transferred output.
    pub fn note_out_1(&self) -> (r: &Note)
        ensures
            r == self.tx.note_out_1,
    {
        &self.tx.note_out_1
    }
}

impl Auth {
    /// Sign an issue transaction. A returned seal carries a signature that
    /// verifies, under this authority's public key, over the transaction's
    /// signature hash; sealing fails exactly when the deterministic
    /// signing attempt fails its own verification.
    pub fn issue(&self, tx: IssueTx) -> (r: Option<SealedIssueTx>)
        ensures
            r matches Some(sealed) ==> sealed.tx == tx && crate::eddsa::eddsa_verifies(
                crate::eddsa::te_base_mul_of(self.signing_key@),
                issue_sighash_of(tx),
                sealed.signature.r@,
                sealed.signature.s@,
            ),
            r is None <==> crate::eddsa::sign_fails(self.signing_key@, issue_sighash_of(tx)),
    {
        let sighash = tx.sighash();
        let signature = match self.sign_tx(&sighash) {
            Some(s) => s,
            None => {
                return None;
            },
        };
        Some(tx.seal(signature))
    }

    /// Sign a split transaction and derive the spent note's nullifier
    /// from this authority's nullifier key. A returned seal carries a
    /// signature that verifies over the transaction's signature hash;
    /// sealing fails exactly when the deterministic signing attempt fails
    /// its own verification.
    pub fn split(&self, tx: &SplitTx) -> (r: Option<SealedSplitTx>)
        ensures
            r matches Some(sealed) ==> sealed.tx == *tx && sealed.nullifier@ == nullifier_of(
                note_hash_of(tx.note_in),
                self.nullifier_key@,
            ) && crate::eddsa::eddsa_verifies(
                crate::eddsa::te_base_mul_of(self.signing_key@),
                split_sighash_of(*tx),
                sealed.signature.r@,
                sealed.signature.s@,
            ),
            r is None <==> crate::eddsa::sign_fails(self.signing_key@, split_sighash_of(*tx)),
    {
        let sighash = tx.sighash();
        let signature = match self.sign_tx(&sighash) {
            Some(s) => s,
            None => {
                return None;
            },
        };
        let h_in = tx.note_in.hash();
        let nullifier = poseidon2(&h_in, &self.nullifier_key);
        Some(tx.seal(&signature, &nullifier))
    }
}

} // verus!
