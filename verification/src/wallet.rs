//! Wallet orchestration: issuing a note, splitting a spendable note into a
//! change output and a transferred output, and verifying an incoming
//! history before adding it to the spendables.
//!
//! Proof generation runs in a proving backend outside this library. Each
//! operation is therefore split in two verified halves: a `*_prepare`
//! function that assembles the transaction, the public inputs and the
//! auxiliary witness — and proves that they satisfy the step constraints —
//! and a `*_finish` function that folds a produced proof into the history.

use vstd::prelude::*;

use crate::asset::asset_hash_of;
use crate::asset::Asset;
use crate::asset::Terms;
use crate::circuit::step_constraints;
use crate::circuit::AuxInputs;
use crate::circuit::PublicInput;
use crate::eddsa::Pt;
use crate::fe::fe_zero;
use crate::fe::Fe;
use crate::hash::hash2;
use crate::hash::poseidon2;
use crate::id::Auth;
use crate::note::blind_note_hash_of;
use crate::note::history_state_of;
use crate::note::note_hash_of;
use crate::note::nullifier_of;
use crate::note::IVCStep;
use crate::note::IVCStepV;
use crate::note::Note;
use crate::note::NoteHistory;
use crate::note::NoteHistoryV;
use crate::note::NoteOutIndex;
use crate::tx::IssueTx;
use crate::tx::SplitTx;

verus! {

/// A contact: an address, a username and a public key. The username is
/// the human-readable handle under which the service knows the contact,
/// and the key contacts are compared by.
#[derive(Debug)]
pub struct Contact {
    pub address: Fe,
    pub username: String,
    pub public_key: Pt,
}

impl PartialEq for Contact {
    fn eq(&self, other: &Contact) -> (r: bool) {
        self.username == other.username
    }
}

impl Eq for Contact {

}

impl vstd::std_specs::cmp::PartialEqSpecImpl for Contact {
    open spec fn obeys_eq_spec() -> bool {
        true
    }

    open spec fn eq_spec(&self, other: &Contact) -> bool {
        self.username@ == other.username@
    }
}

impl Contact {
    /// An equal copy of this contact.
    pub fn duplicate(&self) -> (r: Contact)
        ensures
            r.address == self.address,
            r.username@ == self.username@,
            r.public_key == self.public_key,
    {
        Contact {
            address: self.address,
            username: self.username.clone(),
            public_key: self.public_key,
        }
    }
}

/// Everything the proving backend needs for an issue step, together with
/// the new note itself.
pub struct IssueBody {
    pub asset: Asset,
    pub note: Note,
    pub public: PublicInput,
    pub aux: AuxInputs,
}

/// Everything the proving backend needs for a split step, together with
/// both output notes and the nullifier of the spent note.
pub struct SplitBody {
    pub note_out_0: Note,
    pub note_out_1: Note,
    pub public: PublicInput,
    pub aux: AuxInputs,
    pub nullifier: Fe,
}

/// A wallet: the holder's contact, the verifying key for incoming
/// histories, and the spendable histories held.
pub struct Wallet {
    pub contact: Contact,
    pub vk: Vec<u8>,
    pub spendables: Vec<NoteHistory>,
}

/// The message the issuer signs when issuing `value` to `receiver` under
/// an asset: the issue signature hash of the transaction the wallet
/// assembles (the blind plays no part in it).
pub open spec fn issue_message_of(asset: Asset, receiver: Seq<u8>, value: u64) -> Seq<u8> {
    crate::hash::hash3(
        fe_zero(),
        fe_zero(),
        crate::note::note_commit(asset_hash_of(asset), receiver, value, 0, fe_zero(), 2),
    )
}

/// The message the holder signs when splitting `value` to `receiver` off a
/// history: the split signature hash of the transaction the wallet
/// assembles.
pub open spec fn split_message_of(h: NoteHistoryV, value: u64, receiver: Seq<u8>) -> Seq<u8> {
    let ah = asset_hash_of(h.asset);
    let bh_in = blind_note_hash_of(h.current_note);
    let step = h.steps.len() as u64;
    crate::hash::hash3(
        note_hash_of(h.current_note),
        crate::note::note_commit(
            ah,
            h.current_note.owner@,
            (h.current_note.value - value) as u64,
            step,
            bh_in,
            1,
        ),
        crate::note::note_commit(ah, receiver, value, step, bh_in, 2),
    )
}

/// Whether the conditions a split checks before signing all hold: enough
/// funds, the authority owns the note, the step count is coherent and fits,
/// and the note belongs to the history's asset.
pub open spec fn splittable(h: NoteHistoryV, auth: &Auth, value: u64) -> bool {
    &&& value <= h.current_note.value
    &&& h.current_note.owner@ == auth.address@
    &&& h.steps.len() <= 0xfffffffe
    &&& h.steps.len() == h.current_note.step + 1
    &&& h.current_note.asset_hash@ == asset_hash_of(h.asset)
}

/// Whether some spendable already carries this note (the dedup rule for
/// incoming histories).
pub open spec fn spendables_contain(spendables: Seq<NoteHistoryV>, n: Note) -> bool {
    exists|i: int| 0 <= i < spendables.len() && spendables[i].current_note == n
}

impl Wallet {
    /// A wallet from an authority's public material, a verifying key and
    /// a username.
    pub fn new(auth: &Auth, vk: Vec<u8>, username: String) -> (r: Wallet)
        ensures
            r.contact.address == auth.address,
            r.contact.username@ == username@,
            r.contact.public_key == auth.public_key,
            r.vk@ == vk@,
            r.spendables@.len() == 0,
    {
        Wallet {
            contact: Contact { address: auth.address, username, public_key: auth.public_key },
            vk,
            spendables: Vec::new(),
        }
    }

    /// The wallet's address.
    pub fn address(&self) -> (r: &Fe)
        ensures
            r == self.contact.address,
    {
        &self.contact.address
    }

    /// Assemble an issue step: a fresh note of the given value owned by
    /// the receiver, the public inputs of the issue branch, and the
    /// signed auxiliary witness. The assembled inputs provably satisfy
    /// every step constraint; the signature equation itself is checked by
    /// the proving backend and by `check_step`.
    pub fn issue_prepare(
        &self,
        auth: &Auth,
        terms: &Terms,
        value: u64,
        receiver: &Contact,
        blind: Fe,
    ) -> (r: Result<IssueBody, crate::Error>)
        requires
            auth.wf(),
            auth.address@ == self.contact.address@,
        ensures
            r is Err <==> crate::eddsa::sign_fails(
                auth.signing_key@,
                issue_message_of(
                    Asset { issuer: auth.address, terms: *terms },
                    receiver.address@,
                    value,
                ),
            ),
            r matches Ok(b) ==> {
                &&& b.asset == (Asset { issuer: auth.address, terms: *terms })
                &&& b.note.asset_hash@ == asset_hash_of(b.asset)
                &&& b.note.owner@ == receiver.address@
                &&& b.note.value == value
                &&& b.note.step == 0
                &&& b.note.out_index is Out1
                &&& b.note.parent_note@ == fe_zero()
                &&& b.note.blind == blind
                &&& b.public.step == 0
                &&& b.public.sender@ == auth.address@
                &&& b.public.state_in@ == asset_hash_of(b.asset)
                &&& b.public.state_out@ == hash2(fe_zero(), blind_note_hash_of(b.note))
                &&& b.public.nullifier@ == fe_zero()
                &&& step_constraints(b.public, b.aux)
            },
    {
        let asset = Asset::new(auth.address(), terms);
        let asset_hash = asset.hash();
        let zero = Fe::zero();
        let note = Note::new(
            &asset_hash,
            &receiver.address,
            value,
            0,
            &NoteOutIndex::Out1,
            &zero,
            blind,
        );
        let tx = IssueTx::new(auth.address(), &note);
        proof {
            assert(crate::tx::issue_sighash_of(tx) == issue_message_of(
                Asset { issuer: auth.address, terms: *terms },
                receiver.address@,
                value,
            ));
        }
        let sealed = match auth.issue(tx) {
            Some(s) => s,
            None => {
                return Err(crate::Error::External("signing failed".to_string()));
            },
        };
        let bnh = note.blinded_hash();
        let state_out = poseidon2(&zero, &bnh);
        let public = PublicInput::new(&asset_hash, auth.address(), &asset_hash, &state_out, 0, &zero);
        let aux = AuxInputs {
            receiver: receiver.address,
            public_key: auth.public_key,
            signature: sealed.signature,
            nullifier_key: auth.nullifier_key,
            parent: zero,
            input_index: NoteOutIndex::Out1,
            value_in: 0,
            value_out: value,
            sibling: zero,
            blind_in: zero,
            blind_out_0: zero,
            blind_out_1: blind,
        };
        Ok(IssueBody { asset, note, public, aux })
    }

    /// Fold an issue proof into a fresh one-step history: the issue step
    /// carries a zero nullifier and the issuer as sender, the new note
    /// becomes current, and the sibling is zero.
    pub fn issue_finish(&self, body: &IssueBody, proof: &Vec<u8>) -> (r: NoteHistory)
        ensures
            r@.asset == body.asset,
            r@.steps.len() == 1,
            r@.steps[0] == (IVCStepV {
                proof: proof@,
                state: body.public.state_out@,
                nullifier: fe_zero(),
                sender: body.asset.issuer@,
            }),
            r@.current_note == body.note,
            r@.sibling == fe_zero(),
            body.note.out_index is Out1 && body.public.state_out@ == hash2(
                fe_zero(),
                blind_note_hash_of(body.note),
            ) ==> history_state_of(r@) == r@.steps[0].state,
    {
        let zero = Fe::zero();
        let step = IVCStep::new(proof, &body.public.state_out, &zero, &body.asset.issuer);
        let mut steps: Vec<IVCStep> = Vec::new();
        steps.push(step);
        let r = NoteHistory { asset: body.asset, steps, current_note: body.note, sibling: zero };
        proof {
            assert(r@.steps =~= seq![r.steps@[0]@]);
        }
        r
    }

    /// Assemble a split step from a spendable history: a change note kept
    /// by the holder and a transferred note owned by the receiver, the
    /// public inputs of the split branch, and the signed auxiliary
    /// witness. Fails with `Custom` exactly when the history cannot cover
    /// the value, and with `Verify` when the history is not splittable by
    /// this authority (wrong owner, or a malformed step count).
    pub fn split_prepare(
        &self,
        auth: &Auth,
        history: &NoteHistory,
        value: u64,
        receiver: &Contact,
        blind_0: Fe,
        blind_1: Fe,
    ) -> (r: Result<SplitBody, crate::Error>)
        requires
            auth.wf(),
        ensures
            r is Ok <==> splittable(history@, auth, value) && !crate::eddsa::sign_fails(
                auth.signing_key@,
                split_message_of(history@, value, receiver.address@),
            ),
            value > history.current_note.value ==> (r matches Err(e) && e is Custom),
            r matches Err(e) && e is Custom ==> value > history.current_note.value,
            r matches Err(e) && e is Verify ==> (history.current_note.owner@ != auth.address@
                || history@.steps.len() != history.current_note.step + 1 || history@.steps.len()
                > 0xfffffffe || history.current_note.asset_hash@ != asset_hash_of(history.asset)),
            value <= history.current_note.value && !splittable(history@, auth, value) ==> (
            r matches Err(e) && e is Verify),
            r matches Ok(b) ==> {
                let note_in = history.current_note;
                let step_index = history@.steps.len();
                &&& value <= note_in.value
                &&& note_in.owner@ == auth.address@
                &&& b.note_out_0.value + b.note_out_1.value == note_in.value
                &&& b.note_out_1.value == value
                &&& b.note_out_0.owner@ == auth.address@
                &&& b.note_out_1.owner@ == receiver.address@
                &&& b.note_out_0.out_index is Out0
                &&& b.note_out_1.out_index is Out1
                &&& b.note_out_0.step == step_index
                &&& b.note_out_1.step == step_index
                &&& b.note_out_0.parent_note@ == blind_note_hash_of(note_in)
                &&& b.note_out_1.parent_note@ == blind_note_hash_of(note_in)
                &&& b.note_out_0.blind == blind_0
                &&& b.note_out_1.blind == blind_1
                &&& b.note_out_0.asset_hash@ == asset_hash_of(history.asset)
                &&& b.note_out_1.asset_hash@ == asset_hash_of(history.asset)
                &&& b.nullifier@ == nullifier_of(note_hash_of(note_in), auth.nullifier_key@)
                &&& b.public.step == step_index
                &&& b.public.sender@ == auth.address@
                &&& b.public.state_in@ == history_state_of(history@)
                &&& b.public.state_out@ == hash2(
                    blind_note_hash_of(b.note_out_0),
                    blind_note_hash_of(b.note_out_1),
                )
                &&& b.public.nullifier@ == b.nullifier@
                &&& step_constraints(b.public, b.aux)
            },
    {
        let note_in = history.current_note;
        let value_out_0 = match note_in.value.checked_sub(value) {
            Some(v) => v,
            None => {
                return Err(crate::Error::Custom("insufficient funds".to_string()));
            },
        };
        if !note_in.owner.eq_fe(&auth.address) {
            return Err(crate::Error::Verify("not the holder of this note".to_string()));
        }
        let len = history.steps.len();
        if len > 0xfffffffe || (len as u64) != (note_in.step as u64) + 1 {
            return Err(crate::Error::Verify("malformed history".to_string()));
        }
        let step_index: u32 = len as u32;
        let asset_hash = history.asset.hash();
        if !note_in.asset_hash.eq_fe(&asset_hash) {
            return Err(crate::Error::Verify("note does not match asset".to_string()));
        }
        let blind_note_in = note_in.blinded_hash();
        let note_out_0 = Note::new(
            &asset_hash,
            auth.address(),
            value_out_0,
            step_index,
            &NoteOutIndex::Out0,
            &blind_note_in,
            blind_0,
        );
        let note_out_1 = Note::new(
            &asset_hash,
            &receiver.address,
            value,
            step_index,
            &NoteOutIndex::Out1,
            &blind_note_in,
            blind_1,
        );
        let tx = SplitTx::new(&note_in, &note_out_0, &note_out_1);
        proof {
            assert((step_index as u64) == history@.steps.len() as u64);
            assert(crate::tx::split_sighash_of(tx) == split_message_of(
                history@,
                value,
                receiver.address@,
            ));
        }
        let sealed = match auth.split(&tx) {
            Some(s) => s,
            None => {
                return Err(crate::Error::External("signing failed".to_string()));
            },
        };
        let state_in = history.state();
        let bh0 = note_out_0.blinded_hash();
        let bh1 = note_out_1.blinded_hash();
        let state_out = poseidon2(&bh0, &bh1);
        let public = PublicInput::new(
            &asset_hash,
            auth.address(),
            &state_in,
            &state_out,
            step_index,
            &sealed.nullifier,
        );
        let aux = AuxInputs {
            receiver: receiver.address,
            public_key: auth.public_key,
            signature: sealed.signature,
            nullifier_key: auth.nullifier_key,
            parent: note_in.parent_note,
            input_index: note_in.out_index,
            value_in: note_in.value,
            value_out: value,
            sibling: history.sibling,
            blind_in: note_in.blind,
            blind_out_0: blind_0,
            blind_out_1: blind_1,
        };
        Ok(SplitBody { note_out_0, note_out_1, public, aux, nullifier: sealed.nullifier })
    }

    /// Fold a split proof into the history: append the new step, and
    /// derive the two successor histories sharing that prefix — the kept
    /// change history and the transferred one, each carrying the other
    /// output's blinded hash as its sibling.
    pub fn split_finish(
        &self,
        history: &NoteHistory,
        body: &SplitBody,
        proof: &Vec<u8>,
    ) -> (r: (NoteHistory, NoteHistory))
        ensures
            ({
                let appended = history@.steps.push(
                    IVCStepV {
                        proof: proof@,
                        state: body.public.state_out@,
                        nullifier: body.nullifier@,
                        sender: body.public.sender@,
                    },
                );
                &&& r.0@.asset == history.asset
                &&& r.0@.steps == appended
                &&& r.0@.current_note == body.note_out_0
                &&& r.0@.sibling == blind_note_hash_of(body.note_out_1)
                &&& r.1@.asset == history.asset
                &&& r.1@.steps == appended
                &&& r.1@.current_note == body.note_out_1
                &&& r.1@.sibling == blind_note_hash_of(body.note_out_0)
                &&& body.note_out_0.out_index is Out0 && body.note_out_1.out_index is Out1
                    && body.public.state_out@ == hash2(
                    blind_note_hash_of(body.note_out_0),
                    blind_note_hash_of(body.note_out_1),
                ) ==> history_state_of(r.0@) == r.0@.steps.last().state && history_state_of(r.1@)
                    == r.1@.steps.last().state
            }),
    {
        let step = IVCStep::new(proof, &body.public.state_out, &body.nullifier, &body.public.sender);
        let mut extended = history.duplicate();
        extended.steps.push(step);
        let bh0 = body.note_out_0.blinded_hash();
        let bh1 = body.note_out_1.blinded_hash();
        let mut kept = extended.duplicate();
        kept.current_note = body.note_out_0;
        kept.sibling = bh1;
        let mut sent = extended;
        sent.current_note = body.note_out_1;
        sent.sibling = bh0;
        proof {
            assert(kept@.steps =~= history@.steps.push(
                IVCStepV {
                    proof: proof@,
                    state: body.public.state_out@,
                    nullifier: body.nullifier@,
                    sender: body.public.sender@,
                },
            ));
            assert(sent@.steps =~= kept@.steps);
        }
        (kept, sent)
    }

    /// Verify an incoming history and, when it is accepted and its note
    /// is not already held, add it to the spendables. A duplicate is a
    /// silent success; a rejected history leaves the wallet untouched.
    pub fn verify_incoming(&mut self, history: &NoteHistory) -> (r: Result<(), crate::Error>)
        ensures
            r is Ok <==> crate::circuit::history_accepted(old(self).vk@, history@),
            r is Ok && !spendables_contain(
                old(self).spendables@.map_values(|h: NoteHistory| h@),
                history.current_note,
            ) ==> final(self).spendables@.map_values(|h: NoteHistory| h@)
                == old(self).spendables@.map_values(|h: NoteHistory| h@).push(history@),
            r is Ok && spendables_contain(
                old(self).spendables@.map_values(|h: NoteHistory| h@),
                history.current_note,
            ) ==> final(self).spendables@ == old(self).spendables@,
            r is Err ==> final(self).spendables@ == old(self).spendables@,
            final(self).vk@ == old(self).vk@,
            final(self).contact.address == old(self).contact.address,
    {
        let outcome = crate::circuit::verify_history(&self.vk, history);
        match outcome {
            Ok(()) => {
                let ghost before = self.spendables@.map_values(|h: NoteHistory| h@);
                let mut present = false;
                let n = self.spendables.len();
                let mut i: usize = 0;
                while i < n
                    invariant
                        i <= n,
                        n == self.spendables@.len(),
                        before == self.spendables@.map_values(|h: NoteHistory| h@),
                        present == exists|j: int|
                            0 <= j < i && before[j].current_note == history.current_note,
                    decreases n - i,
                {
                    proof {
                        assert(before[i as int] == self.spendables@[i as int]@);
                    }
                    if note_eq(&self.spendables[i].current_note, &history.current_note) {
                        present = true;
                        proof {
                            assert(before[i as int].current_note == history.current_note);
                        }
                    }
                    i += 1;
                }
                if !present {
                    self.spendables.push(history.duplicate());
                    proof {
                        assert(self.spendables@.map_values(|h: NoteHistory| h@) =~= before.push(
                            history@,
                        ));
                    }
                }
                Ok(())
            },
            Err(e) => Err(e),
        }
    }
}

/// The double-spend signal: the nullifier of a split is a function of the
/// spent note and the nullifier key alone, so any two histories split from
/// the same parent note by the same authority publish the same nullifier.
pub proof fn lemma_same_parent_same_nullifier(
    parent: Note,
    key: Seq<u8>,
    nullifier_a: Seq<u8>,
    nullifier_b: Seq<u8>,
)
    requires
        nullifier_a == nullifier_of(note_hash_of(parent), key),
        nullifier_b == nullifier_of(note_hash_of(parent), key),
    ensures
        nullifier_a == nullifier_b,
{
}

/// Whether two notes are equal, field by field.
pub fn note_eq(a: &Note, b: &Note) -> (r: bool)
    ensures
        r == (*a == *b),
{
    let ix_eq = match (a.out_index, b.out_index) {
        (NoteOutIndex::Out0, NoteOutIndex::Out0) => true,
        (NoteOutIndex::Out1, NoteOutIndex::Out1) => true,
        _ => false,
    };
    let r = a.asset_hash.eq_fe(&b.asset_hash) && a.owner.eq_fe(&b.owner) && a.value == b.value
        && a.step == b.step && a.parent_note.eq_fe(&b.parent_note) && ix_eq && a.blind.eq_fe(
        &b.blind,
    );
    proof {
        if a.asset_hash@ == b.asset_hash@ && a.owner@ == b.owner@ && a.parent_note@
            == b.parent_note@ && a.blind@ == b.blind@ {
            assert(a.asset_hash.bytes@ =~= b.asset_hash.bytes@);
            assert(a.asset_hash.bytes =~= b.asset_hash.bytes);
            assert(a.owner.bytes =~= b.owner.bytes);
            assert(a.parent_note.bytes =~= b.parent_note.bytes);
            assert(a.blind.bytes =~= b.blind.bytes);
        }
    }
    r
}

} // verus!
