//! The transition relation enforced at every step of the chain, and the
//! SNARK verifier for it. The relation is stated here as a plain predicate
//! over the step's public and auxiliary inputs — note integrity, state
//! integrity, nullifier integrity, zero sum, identity binding and the
//! signature equation — together with an executable checker that decides it.
//! A proving backend enforces this same relation inside an arithmetic
//! circuit; the verifier side is called through a trusted wrapper whose
//! verdict is a named function of the key, inputs and proof bytes.

use vstd::prelude::*;

use crate::eddsa::eddsa_verifies;
use crate::eddsa::te_xy;
use crate::eddsa::te_xy_of;
use crate::eddsa::Pt;
use crate::eddsa::Signature;
use crate::fe::fe_of_u64;
use crate::fe::fe_zero;
use crate::fe::Fe;
use crate::hash::hash2;
use crate::hash::hash3;
use crate::hash::poseidon2;
use crate::hash::poseidon3;
use crate::note::Note;
use crate::note::NoteOutIndex;

verus! {

/// The six public inputs of one step, in their canonical order:
/// `[asset_hash, sender, state_in, state_out, step, nullifier]`.
#[derive(Debug, Clone, Copy, PartialEq, Eq)]
pub struct PublicInput {
    pub asset_hash: Fe,
    pub sender: Fe,
    pub state_in: Fe,
    pub state_out: Fe,
    pub step: u32,
    pub nullifier: Fe,
}

/// The canonical field encodings of the public inputs, in the order the
/// verifier consumes them.
pub open spec fn public_input_fields(p: PublicInput) -> Seq<Seq<u8>> {
    seq![
        p.asset_hash@,
        p.sender@,
        p.state_in@,
        p.state_out@,
        fe_of_u64(p.step as u64),
        p.nullifier@,
    ]
}

impl PublicInput {
    /// Public inputs from their parts.
    pub fn new(
        asset_hash: &Fe,
        sender: &Fe,
        state_in: &Fe,
        state_out: &Fe,
        step: u32,
        nullifier: &Fe,
    ) -> (r: PublicInput)
        ensures
            r == (PublicInput {
                asset_hash: *asset_hash,
                sender: *sender,
                state_in: *state_in,
                state_out: *state_out,
                step,
                nullifier: *nullifier,
            }),
    {
        PublicInput {
            asset_hash: *asset_hash,
            sender: *sender,
            state_in: *state_in,
            state_out: *state_out,
            step,
            nullifier: *nullifier,
        }
    }

    /// The field elements handed to the verifier, in canonical order.
    pub fn to_verifier(&self) -> (r: Vec<Fe>)
        ensures
            r@.map_values(|f: Fe| f@) == public_input_fields(*self),
    {
        let mut v: Vec<Fe> = Vec::new();
        v.push(self.asset_hash);
        v.push(self.sender);
        v.push(self.state_in);
        v.push(self.state_out);
        v.push(Fe::from_u32(self.step));
        v.push(self.nullifier);
        proof {
            assert(v@.map_values(|f: Fe| f@) =~= public_input_fields(*self));
        }
        v
    }
}

/// The private inputs of one step: the receiver, the signer's key material
/// and signature, the spent note's lineage, the amounts, and the blinds of
/// the spent note and both outputs.
#[derive(Debug, Clone, Copy, PartialEq, Eq)]
pub struct AuxInputs {
    pub receiver: Fe,
    pub public_key: Pt,
    pub signature: Signature,
    pub nullifier_key: Fe,
    pub parent: Fe,
    pub input_index: NoteOutIndex,
    pub value_in: u64,
    pub value_out: u64,
    pub sibling: Fe,
    pub blind_in: Fe,
    pub blind_out_0: Fe,
    pub blind_out_1: Fe,
}

/// The identity commitment bound to a public key: Poseidon of the nullifier
/// key and the key's affine coordinates. Nothing when the key bytes do not
/// decode to a curve point.
pub open spec fn id_commitment_of(nullifier_key: Seq<u8>, pk: Seq<u8>) -> Option<Seq<u8>> {
    match te_xy_of(pk) {
        Some(xy) => Some(hash3(nullifier_key, xy.0, xy.1)),
        None => None,
    }
}

/// The issue branch, taken when `step == 0`. A virtual output note owned by
/// the receiver is reconstructed with zero parent and output index `Out1`;
/// the input state must equal the asset hash and the output state commits
/// to the blinded virtual note on the right of a zero sibling.
pub open spec fn issue_relation(p: PublicInput, a: AuxInputs) -> bool {
    let h = crate::note::note_commit(p.asset_hash@, a.receiver@, a.value_out, 0, fe_zero(), 2);
    let bh = hash2(h, a.blind_out_1@);
    &&& p.state_in@ == p.asset_hash@
    &&& p.state_out@ == hash2(fe_zero(), bh)
}

/// The message signed on the issue branch: Poseidon of two zeros and the
/// virtual note's hash.
pub open spec fn issue_sighash(p: PublicInput, a: AuxInputs) -> Seq<u8> {
    let h = crate::note::note_commit(p.asset_hash@, a.receiver@, a.value_out, 0, fe_zero(), 2);
    hash3(fe_zero(), fe_zero(), h)
}

/// The spent note reconstructed on the split branch: owned by the step's
/// sender, one step earlier, at the prover-supplied input index.
pub open spec fn split_note_in_hash(p: PublicInput, a: AuxInputs) -> Seq<u8> {
    crate::note::note_commit(
        p.asset_hash@,
        p.sender@,
        a.value_in,
        (p.step - 1) as u64,
        a.parent@,
        crate::note::out_index_code(a.input_index),
    )
}

/// The split branch, taken when `step > 0`. The spent note is
/// reconstructed and its blinded hash must sit, on the side named by the
/// input index, in the input state next to the sibling; the nullifier must
/// commit to the spent note; the two output notes must share the step's
/// asset, point at the spent note, split its value exactly, and their
/// blinded hashes must form the output state.
pub open spec fn split_relation(p: PublicInput, a: AuxInputs) -> bool {
    let h_in = split_note_in_hash(p, a);
    let bh_in = hash2(h_in, a.blind_in@);
    let h1 = crate::note::note_commit(
        p.asset_hash@,
        a.receiver@,
        a.value_out,
        p.step as u64,
        bh_in,
        2,
    );
    let bh1 = hash2(h1, a.blind_out_1@);
    let h0 = crate::note::note_commit(
        p.asset_hash@,
        p.sender@,
        (a.value_in - a.value_out) as u64,
        p.step as u64,
        bh_in,
        1,
    );
    let bh0 = hash2(h0, a.blind_out_0@);
    &&& p.state_in@ == (if a.input_index is Out0 {
        hash2(bh_in, a.sibling@)
    } else {
        hash2(a.sibling@, bh_in)
    })
    &&& p.nullifier@ == hash2(h_in, a.nullifier_key@)
    &&& a.value_out <= a.value_in
    &&& p.state_out@ == hash2(bh0, bh1)
}

/// The message signed on the split branch: Poseidon of the spent note's
/// hash and both output note hashes.
pub open spec fn split_sighash(p: PublicInput, a: AuxInputs) -> Seq<u8> {
    let h_in = split_note_in_hash(p, a);
    let bh_in = hash2(h_in, a.blind_in@);
    let h1 = crate::note::note_commit(
        p.asset_hash@,
        a.receiver@,
        a.value_out,
        p.step as u64,
        bh_in,
        2,
    );
    let h0 = crate::note::note_commit(
        p.asset_hash@,
        p.sender@,
        (a.value_in - a.value_out) as u64,
        p.step as u64,
        bh_in,
        1,
    );
    hash3(h_in, h0, h1)
}

/// The message a step's signature covers, branch-selected by the step.
pub open spec fn step_sighash(p: PublicInput, a: AuxInputs) -> Seq<u8> {
    if p.step == 0 {
        issue_sighash(p, a)
    } else {
        split_sighash(p, a)
    }
}

/// Every constraint of the transition relation except the signature
/// equation: exactly one of the two branches (selected by `step == 0`) and
/// the identity binding of the signer to the step's sender.
pub open spec fn step_constraints(p: PublicInput, a: AuxInputs) -> bool {
    &&& id_commitment_of(a.nullifier_key@, a.public_key@) == Some(p.sender@)
    &&& if p.step == 0 {
        issue_relation(p, a)
    } else {
        split_relation(p, a)
    }
}

/// The transition relation enforced at every step: the branch constraints,
/// the identity binding, and the signature equation over the branch's
/// message.
pub open spec fn step_relation(p: PublicInput, a: AuxInputs) -> bool {
    &&& step_constraints(p, a)
    &&& eddsa_verifies(a.public_key@, step_sighash(p, a), a.signature.r@, a.signature.s@)
}

/// Decide the transition relation on plain values. This is the off-circuit
/// mirror of what the proving backend enforces in constraints.
pub fn check_step(p: &PublicInput, a: &AuxInputs) -> (r: bool)
    ensures
        r == step_relation(*p, *a),
{
    // identity binding
    let xy = match te_xy(&a.public_key) {
        Some(xy) => xy,
        None => {
            return false;
        },
    };
    let id = poseidon3(&a.nullifier_key, &xy.0, &xy.1);
    if !id.eq_fe(&p.sender) {
        return false;
    }
    let zero = Fe::zero();
    let sighash: Fe;
    if p.step == 0 {
        // issue branch
        let virtual_note = Note {
            asset_hash: p.asset_hash,
            owner: a.receiver,
            value: a.value_out,
            step: 0,
            parent_note: zero,
            out_index: NoteOutIndex::Out1,
            blind: a.blind_out_1,
        };
        let h = virtual_note.hash();
        let bh = poseidon2(&h, &a.blind_out_1);
        if !p.state_in.eq_fe(&p.asset_hash) {
            return false;
        }
        let state_out = poseidon2(&zero, &bh);
        if !p.state_out.eq_fe(&state_out) {
            return false;
        }
        sighash = poseidon3(&zero, &zero, &h);
    } else {
        // split branch
        let note_in = Note {
            asset_hash: p.asset_hash,
            owner: p.sender,
            value: a.value_in,
            step: p.step - 1,
            parent_note: a.parent,
            out_index: a.input_index,
            blind: a.blind_in,
        };
        let h_in = note_in.hash();
        let bh_in = poseidon2(&h_in, &a.blind_in);
        let state_in = match a.input_index {
            NoteOutIndex::Out0 => poseidon2(&bh_in, &a.sibling),
            NoteOutIndex::Out1 => poseidon2(&a.sibling, &bh_in),
        };
        if !p.state_in.eq_fe(&state_in) {
            return false;
        }
        let nullifier = poseidon2(&h_in, &a.nullifier_key);
        if !p.nullifier.eq_fe(&nullifier) {
            return false;
        }
        if a.value_out > a.value_in {
            return false;
        }
        let note_out_1 = Note {
            asset_hash: p.asset_hash,
            owner: a.receiver,
            value: a.value_out,
            step: p.step,
            parent_note: bh_in,
            out_index: NoteOutIndex::Out1,
            blind: a.blind_out_1,
        };
        let h1 = note_out_1.hash();
        let bh1 = poseidon2(&h1, &a.blind_out_1);
        let note_out_0 = Note {
            asset_hash: p.asset_hash,
            owner: p.sender,
            value: a.value_in - a.value_out,
            step: p.step,
            parent_note: bh_in,
            out_index: NoteOutIndex::Out0,
            blind: a.blind_out_0,
        };
        let h0 = note_out_0.hash();
        let bh0 = poseidon2(&h0, &a.blind_out_0);
        let state_out = poseidon2(&bh0, &bh1);
        if !p.state_out.eq_fe(&state_out) {
            return false;
        }
        sighash = poseidon3(&h_in, &h0, &h1);
    }
    crate::eddsa::verify(&a.public_key, &sighash, &a.signature)
}

/// The verdict of the proof system's verifier on a verifying key, public
/// inputs and proof, all in their canonical serializations; false whenever
/// the key or proof bytes do not deserialize.
pub uninterp spec fn groth16_verdict(vk: Seq<u8>, public: Seq<Seq<u8>>, proof: Seq<u8>) -> bool;

/// Relies on `ark_groth16::Groth16::<Bn254>::verify` together with the
/// canonical deserialization of the key and proof: a deterministic verdict
/// on the bytes and inputs alone.
#[verifier::external_body]
pub fn groth16_verify(vk: &Vec<u8>, public: &Vec<Fe>, proof: &Vec<u8>) -> (r: bool)
    ensures
        r == groth16_verdict(vk@, public@.map_values(|f: Fe| f@), proof@),
{
    let vk = <ark_groth16::VerifyingKey<ark_bn254::Bn254> as ark_serialize::CanonicalDeserialize>::deserialize_compressed(&vk[..]);
    let proof = <ark_groth16::Proof<ark_bn254::Bn254> as ark_serialize::CanonicalDeserialize>::deserialize_compressed(&proof[..]);
    let (Ok(vk), Ok(proof)) = (vk, proof) else {
        return false;
    };
    let inputs: Vec<ark_bn254::Fr> = public
        .iter()
        .map(|f| <ark_bn254::Fr as ark_ff::PrimeField>::from_le_bytes_mod_order(&f.bytes))
        .collect();
    <ark_groth16::Groth16<ark_bn254::Bn254> as ark_crypto_primitives::snark::SNARK<
        ark_bn254::Fr,
    >>::verify(&vk, &inputs, &proof).unwrap_or(false)
}

/// The input state a verifier expects at step `i` of a history: the asset
/// hash at the first step, afterwards the previous step's output state.
pub open spec fn chain_state_in(h: crate::note::NoteHistoryV, i: int) -> Seq<u8> {
    if i == 0 {
        crate::asset::asset_hash_of(h.asset)
    } else {
        h.steps[i - 1].state
    }
}

/// The public inputs a verifier recomputes for step `i` of a history, in
/// canonical order. Nothing in them is taken from the sender's claims
/// beyond the per-step record itself.
pub open spec fn chain_public_fields(h: crate::note::NoteHistoryV, i: int) -> Seq<Seq<u8>> {
    seq![
        crate::asset::asset_hash_of(h.asset),
        h.steps[i].sender,
        chain_state_in(h, i),
        h.steps[i].state,
        fe_of_u64(i as u64),
        h.steps[i].nullifier,
    ]
}

/// What it means for a history to be accepted under a verifying key: it
/// has at least one step, every step's proof verifies against the
/// recomputed public inputs, and the last step's output state equals the
/// state recomputed from the current note and its sibling.
pub open spec fn history_accepted(vk: Seq<u8>, h: crate::note::NoteHistoryV) -> bool {
    &&& 1 <= h.steps.len() <= 0xffffffff
    &&& forall|i: int|
        0 <= i < h.steps.len() ==> groth16_verdict(vk, chain_public_fields(h, i), h.steps[i].proof)
    &&& h.steps.last().state == crate::note::history_state_of(h)
}

/// Verify a received history end to end: recompute each step's public
/// inputs, check each proof, and check the final state against the current
/// note and sibling. Returns `Ok` exactly on accepted histories.
pub fn verify_history(vk: &Vec<u8>, h: &crate::note::NoteHistory) -> (r: Result<(), crate::Error>)
    ensures
        r is Ok <==> history_accepted(vk@, h@),
{
    let n = h.steps.len();
    if n == 0 {
        return Err(crate::Error::Verify("empty history".to_string()));
    }
    if n > 0xffffffff {
        return Err(crate::Error::Verify("history too long".to_string()));
    }
    let recomputed = h.state();
    if !recomputed.eq_fe(&h.steps[n - 1].state) {
        return Err(crate::Error::Verify("current state does not match".to_string()));
    }
    proof {
        assert(h@.steps.last() == h@.steps[n - 1]);
    }
    let asset_hash = h.asset.hash();
    let mut state_in = asset_hash;
    let mut i: usize = 0;
    while i < n
        invariant
            0 < n == h.steps@.len() <= 0xffffffff,
            i <= n,
            asset_hash@ == crate::asset::asset_hash_of(h@.asset),
            state_in@ == chain_state_in(h@, i as int),
            h@.steps.last().state == crate::note::history_state_of(h@),
            forall|j: int|
                0 <= j < i ==> groth16_verdict(vk@, chain_public_fields(h@, j), h@.steps[j].proof),
        decreases n - i,
    {
        let step = &h.steps[i];
        let p = PublicInput::new(
            &asset_hash,
            &step.sender,
            &state_in,
            &step.state,
            i as u32,
            &step.nullifier,
        );
        let fields = p.to_verifier();
        proof {
            assert((i as u32) as u64 == i as u64);
            assert(public_input_fields(p) =~= chain_public_fields(h@, i as int));
        }
        if !groth16_verify(vk, &fields, &step.proof) {
            return Err(crate::Error::Verify("step proof does not verify".to_string()));
        }
        state_in = step.state;
        i += 1;
    }
    Ok(())
}

impl crate::note::NoteHistory {
    /// Recompute the public inputs of every step of this history, in
    /// chain order, exactly as a verifier would.
    pub fn public_inputs(&self) -> (r: Result<Vec<PublicInput>, crate::Error>)
        ensures
            r matches Ok(v) ==> {
                &&& v@.len() == self@.steps.len()
                &&& forall|i: int|
                    0 <= i < v@.len() ==> public_input_fields(#[trigger] v@[i])
                        == chain_public_fields(self@, i)
            },
            r is Err ==> self@.steps.len() > 0xffffffff,
    {
        let n = self.steps.len();
        if n > 0xffffffff {
            return Err(crate::Error::Data("history too long".to_string()));
        }
        let asset_hash = self.asset.hash();
        let mut state_in = asset_hash;
        let mut out: Vec<PublicInput> = Vec::new();
        let mut i: usize = 0;
        while i < n
            invariant
                i <= n,
                n == self.steps@.len() <= 0xffffffff,
                asset_hash@ == crate::asset::asset_hash_of(self@.asset),
                state_in@ == chain_state_in(self@, i as int),
                out@.len() == i,
                forall|j: int|
                    0 <= j < i ==> public_input_fields(#[trigger] out@[j]) == chain_public_fields(
                        self@,
                        j,
                    ),
            decreases n - i,
        {
            let step = &self.steps[i];
            let p = PublicInput::new(
                &asset_hash,
                &step.sender,
                &state_in,
                &step.state,
                i as u32,
                &step.nullifier,
            );
            proof {
                assert((i as u32) as u64 == i as u64);
                assert(public_input_fields(p) =~= chain_public_fields(self@, i as int));
            }
            out.push(p);
            state_in = step.state;
            i += 1;
        }
        Ok(out)
    }
}

/// Chain consistency of an accepted history: each step's input state is
/// the previous step's output state (the asset hash at the first step),
/// and the final output state matches the state recomputed from the
/// current note and sibling.
pub proof fn lemma_chain_consistency(vk: Seq<u8>, h: crate::note::NoteHistoryV)
    requires
        history_accepted(vk, h),
    ensures
        forall|i: int|
            1 <= i < h.steps.len() ==> chain_public_fields(h, i)[2] == h.steps[i - 1].state,
        chain_public_fields(h, 0)[2] == crate::asset::asset_hash_of(h.asset),
        h.steps.last().state == crate::note::history_state_of(h),
{
}

/// Issue exclusivity: among the public inputs a verifier recomputes, only
/// the step at index 0 carries a zero step number; any proof made for the
/// issue branch is therefore checked only at position 0.
pub proof fn lemma_issue_exclusivity(h: crate::note::NoteHistoryV)
    requires
        h.steps.len() <= 0xffffffff,
    ensures
        forall|i: int|
            0 <= i < h.steps.len() ==> ((chain_public_fields(h, i)[4] == fe_of_u64(0)) <==> i == 0),
{
    assert forall|i: int| 0 <= i < h.steps.len() implies ((chain_public_fields(h, i)[4]
        == fe_of_u64(0)) <==> i == 0) by {
        if chain_public_fields(h, i)[4] == fe_of_u64(0) {
            crate::fe::lemma_fe_of_u64_injective(i as u64, 0);
        }
    }
}

/// Identity binding: a step that satisfies the relation binds its sender
/// to the signer's key material through the identity commitment.
pub proof fn lemma_identity_binding(p: PublicInput, a: AuxInputs)
    requires
        step_relation(p, a),
    ensures
        id_commitment_of(a.nullifier_key@, a.public_key@) == Some(p.sender@),
{
}

/// Zero sum: on the split branch, the two output values partition the
/// input value exactly, within 64 bits.
pub proof fn lemma_zero_sum(p: PublicInput, a: AuxInputs)
    requires
        step_relation(p, a),
        p.step > 0,
    ensures
        a.value_out <= a.value_in,
        ((a.value_in - a.value_out) as u64) + a.value_out == a.value_in,
{
}

/// Nullifier uniqueness as a double-spend signal: two steps that satisfy
/// the relation, spend the same reconstructed note, and use the same
/// nullifier key publish the same nullifier, whatever else they differ in.
pub proof fn lemma_double_spend_same_nullifier(
    p1: PublicInput,
    a1: AuxInputs,
    p2: PublicInput,
    a2: AuxInputs,
)
    requires
        step_relation(p1, a1),
        step_relation(p2, a2),
        p1.step > 0,
        p2.step > 0,
        split_note_in_hash(p1, a1) == split_note_in_hash(p2, a2),
        a1.nullifier_key@ == a2.nullifier_key@,
    ensures
        p1.nullifier@ == p2.nullifier@,
{
}

} // verus!
