//! Notes and their commitments, the per-step record of the proof chain, and
//! note histories. The canonical field-element sequence hashed for a note
//! is exactly `[asset_hash, owner, value, step, parent_note, out_index]`;
//! deviating from this order would break compatibility with the circuit.

use vstd::prelude::*;

use crate::asset::Asset;
use crate::fe::fe_of_u64;
use crate::fe::Fe;
use crate::hash::hash2;
use crate::hash::poseidon2;
use crate::hash::poseidon6;
use crate::hash::poseidon_of;

verus! {

/// Which of a split's two outputs a note is. The first output (`Out0`)
/// conventionally returns change to the sender; the second (`Out1`) goes to
/// the receiver. Issued notes carry `Out1`.
#[derive(Debug, Clone, Copy, PartialEq, Eq, Structural)]
pub enum NoteOutIndex {
    Out0,
    Out1,
}

/// The numeric tag a note's output index contributes to its commitment.
pub open spec fn out_index_code(ix: NoteOutIndex) -> u64 {
    match ix {
        NoteOutIndex::Out0 => 1,
        NoteOutIndex::Out1 => 2,
    }
}

impl NoteOutIndex {
    /// The numeric tag of this output index.
    pub fn code(&self) -> (r: u64)
        ensures
            r == out_index_code(*self),
    {
        match self {
            NoteOutIndex::Out0 => 1,
            NoteOutIndex::Out1 => 2,
        }
    }
}

/// A note: a value bound to an owner inside an asset's note tree, together
/// with its position (step and output index), its parent commitment, and a
/// blinding factor.
#[derive(Debug, Clone, Copy, PartialEq, Eq)]
pub struct Note {
    pub asset_hash: Fe,
    pub owner: Fe,
    pub value: u64,
    pub step: u32,
    pub parent_note: Fe,
    pub out_index: NoteOutIndex,
    pub blind: Fe,
}

/// The commitment to a note's parts: Poseidon over the canonical sequence
/// `[asset_hash, owner, value, step, parent, out_index]`, with the integers
/// embedded into the field.
pub open spec fn note_commit(
    asset_hash: Seq<u8>,
    owner: Seq<u8>,
    value: u64,
    step: u64,
    parent: Seq<u8>,
    ix: u64,
) -> Seq<u8> {
    poseidon_of(seq![asset_hash, owner, fe_of_u64(value), fe_of_u64(step), parent, fe_of_u64(ix)])
}

/// The canonical field-element sequence committed to for a note.
pub open spec fn note_fields_of(n: Note) -> Seq<Seq<u8>> {
    seq![
        n.asset_hash@,
        n.owner@,
        fe_of_u64(n.value),
        fe_of_u64(n.step as u64),
        n.parent_note@,
        fe_of_u64(out_index_code(n.out_index)),
    ]
}

/// The note hash: Poseidon over the canonical sequence.
pub open spec fn note_hash_of(n: Note) -> Seq<u8> {
    note_commit(
        n.asset_hash@,
        n.owner@,
        n.value,
        n.step as u64,
        n.parent_note@,
        out_index_code(n.out_index),
    )
}

/// The blinded note hash: Poseidon of the note hash and the blind.
pub open spec fn blind_note_hash_of(n: Note) -> Seq<u8> {
    hash2(note_hash_of(n), n.blind@)
}

/// A state commitment over two blinded child notes.
pub open spec fn state_of(out0: Seq<u8>, out1: Seq<u8>) -> Seq<u8> {
    hash2(out0, out1)
}

/// The nullifier of a spent note: Poseidon of its note hash and the
/// spender's nullifier key.
pub open spec fn nullifier_of(note_hash: Seq<u8>, key: Seq<u8>) -> Seq<u8> {
    hash2(note_hash, key)
}

/// Serialization into the field elements a commitment consumes.
pub trait ToCRH {
    /// The canonical field-element sequence of this record.
    fn to_crh(&self) -> Vec<Fe>;
}

impl ToCRH for Note {
    fn to_crh(&self) -> (r: Vec<Fe>)
        ensures
            r@.map_values(|f: Fe| f@) == note_fields_of(*self),
    {
        let mut v: Vec<Fe> = Vec::new();
        v.push(self.asset_hash);
        v.push(self.owner);
        v.push(Fe::from_u64(self.value));
        v.push(Fe::from_u32(self.step));
        v.push(self.parent_note);
        v.push(Fe::from_u64(self.out_index.code()));
        proof {
            assert(v@.map_values(|f: Fe| f@) =~= note_fields_of(*self));
        }
        v
    }
}

impl Note {
    /// A note from its parts.
    pub fn new(
        asset_hash: &Fe,
        owner: &Fe,
        value: u64,
        step: u32,
        out_index: &NoteOutIndex,
        parent_note: &Fe,
        blind: Fe,
    ) -> (r: Note)
        ensures
            r == (Note {
                asset_hash: *asset_hash,
                owner: *owner,
                value,
                step,
                parent_note: *parent_note,
                out_index: *out_index,
                blind,
            }),
    {
        Note {
            asset_hash: *asset_hash,
            owner: *owner,
            value,
            step,
            parent_note: *parent_note,
            out_index: *out_index,
            blind,
        }
    }

    /// The note hash.
    pub fn hash(&self) -> (r: Fe)
        ensures
            r@ == note_hash_of(*self),
    {
        let fields: [Fe; 6] = [
            self.asset_hash,
            self.owner,
            Fe::from_u64(self.value),
            Fe::from_u32(self.step),
            self.parent_note,
            Fe::from_u64(self.out_index.code()),
        ];
        let r = poseidon6(&fields);
        proof {
            assert(seq![
                fields@[0]@,
                fields@[1]@,
                fields@[2]@,
                fields@[3]@,
                fields@[4]@,
                fields@[5]@,
            ] =~= note_fields_of(*self));
        }
        r
    }

    /// The blinded note hash.
    pub fn blinded_hash(&self) -> (r: Fe)
        ensures
            r@ == blind_note_hash_of(*self),
    {
        let h = self.hash();
        poseidon2(&h, &self.blind)
    }
}

/// One step of the proof chain: the proof itself, the output state, the
/// nullifier of the note spent at this step (zero for the issue step), and
/// the signer of the step.
#[derive(Debug, PartialEq, Eq)]
pub struct IVCStep {
    pub proof: Vec<u8>,
    pub state: Fe,
    pub nullifier: Fe,
    pub sender: Fe,
}

/// The mathematical content of a step: the proof bytes and the three field
/// elements.
#[verifier::ext_equal]
pub ghost struct IVCStepV {
    pub proof: Seq<u8>,
    pub state: Seq<u8>,
    pub nullifier: Seq<u8>,
    pub sender: Seq<u8>,
}

impl View for IVCStep {
    type V = IVCStepV;

    open spec fn view(&self) -> IVCStepV {
        IVCStepV {
            proof: self.proof@,
            state: self.state@,
            nullifier: self.nullifier@,
            sender: self.sender@,
        }
    }
}

impl IVCStep {
    /// A step from its parts.
    pub fn new(proof: &Vec<u8>, state: &Fe, nullifier: &Fe, sender: &Fe) -> (r: IVCStep)
        ensures
            r@ == (IVCStepV { proof: proof@, state: state@, nullifier: nullifier@, sender: sender@ }),
    {
        let r = IVCStep {
            proof: clone_bytes(proof),
            state: *state,
            nullifier: *nullifier,
            sender: *sender,
        };
        proof {
            assert(r@ =~= (IVCStepV {
                proof: proof@,
                state: state@,
                nullifier: nullifier@,
                sender: sender@,
            }));
        }
        r
    }

    /// An equal copy of this step.
    pub fn duplicate(&self) -> (r: IVCStep)
        ensures
            r@ == self@,
    {
        let r = IVCStep {
            proof: clone_bytes(&self.proof),
            state: self.state,
            nullifier: self.nullifier,
            sender: self.sender,
        };
        proof {
            assert(r@ =~= self@);
        }
        r
    }
}

/// An equal copy of a byte vector.
pub fn clone_bytes(v: &Vec<u8>) -> (r: Vec<u8>)
    ensures
        r@ == v@,
{
    let mut out: Vec<u8> = Vec::new();
    let n = v.len();
    let mut i: usize = 0;
    while i < n
        invariant
            i <= n,
            n == v@.len(),
            out@ == v@.subrange(0, i as int),
        decreases n - i,
    {
        out.push(v[i]);
        i += 1;
    }
    proof {
        assert(v@.subrange(0, n as int) =~= v@);
    }
    out
}

/// A note history: the asset, the chain of proof steps, the current unspent
/// note, and the sibling commitment needed to recompute the latest state.
#[derive(Debug, PartialEq, Eq)]
pub struct NoteHistory {
    pub asset: Asset,
    pub steps: Vec<IVCStep>,
    pub current_note: Note,
    pub sibling: Fe,
}

/// The mathematical content of a history.
#[verifier::ext_equal]
pub ghost struct NoteHistoryV {
    pub asset: Asset,
    pub steps: Seq<IVCStepV>,
    pub current_note: Note,
    pub sibling: Seq<u8>,
}

impl View for NoteHistory {
    type V = NoteHistoryV;

    open spec fn view(&self) -> NoteHistoryV {
        NoteHistoryV {
            asset: self.asset,
            steps: self.steps@.map_values(|s: IVCStep| s@),
            current_note: self.current_note,
            sibling: self.sibling@,
        }
    }
}

/// The state recomputed from a history's current note and sibling: the
/// current note's blinded hash sits on the side named by its output index.
/// For an issued note the sibling is zero and the note sits on the right.
pub open spec fn history_state_of(h: NoteHistoryV) -> Seq<u8> {
    match h.current_note.out_index {
        NoteOutIndex::Out0 => state_of(blind_note_hash_of(h.current_note), h.sibling),
        NoteOutIndex::Out1 => state_of(h.sibling, blind_note_hash_of(h.current_note)),
    }
}

impl NoteHistory {
    /// The owner of the current note.
    pub fn owner(&self) -> (r: &Fe)
        ensures
            r == self.current_note.owner,
    {
        &self.current_note.owner
    }

    /// The output index of the current note.
    pub fn out_index(&self) -> (r: &NoteOutIndex)
        ensures
            r == self.current_note.out_index,
    {
        &self.current_note.out_index
    }

    /// The sibling of the current note.
    pub fn sibling(&self) -> (r: &Fe)
        ensures
            r == self.sibling,
    {
        &self.sibling
    }

    /// Recompute the state commitment from the current note and sibling.
    pub fn state(&self) -> (r: Fe)
        ensures
            r@ == history_state_of(self@),
    {
        let bnh = self.current_note.blinded_hash();
        match self.current_note.out_index {
            NoteOutIndex::Out0 => poseidon2(&bnh, &self.sibling),
            NoteOutIndex::Out1 => poseidon2(&self.sibling, &bnh),
        }
    }

    /// An equal copy of this history.
    pub fn duplicate(&self) -> (r: NoteHistory)
        ensures
            r@ == self@,
    {
        let mut steps: Vec<IVCStep> = Vec::new();
        let n = self.steps.len();
        let mut i: usize = 0;
        while i < n
            invariant
                i <= n,
                n == self.steps@.len(),
                steps@.len() == i,
                forall|j: int| 0 <= j < i ==> steps@[j]@ == self.steps@[j]@,
            decreases n - i,
        {
            steps.push(self.steps[i].duplicate());
            i += 1;
        }
        let r = NoteHistory {
            asset: self.asset,
            steps,
            current_note: self.current_note,
            sibling: self.sibling,
        };
        proof {
            assert(r@ =~~= self@);
        }
        r
    }
}

} // verus!
