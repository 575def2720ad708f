use ivcnotes::asset::{Asset, Terms, Unit};
use ivcnotes::fe::Fe;
use ivcnotes::hash::{fe_reduce, poseidon2, poseidon3, sha512};
use ivcnotes::note::{Note, NoteHistory, NoteOutIndex};

fn fe(v: u64) -> Fe {
    Fe::from_u64(v)
}

#[test]
fn from_u64_little_endian_bytes() {
    let f = Fe::from_u64(0x0102030405060708);
    assert_eq!(f.bytes[0], 0x08);
    assert_eq!(f.bytes[1], 0x07);
    assert_eq!(f.bytes[7], 0x01);
    for i in 8..32 {
        assert_eq!(f.bytes[i], 0);
    }
}

#[test]
fn zero_is_all_zero_bytes() {
    let z = Fe::zero();
    assert!(z.is_zero());
    assert_eq!(z, Fe::from_u64(0));
    assert!(!Fe::from_u64(1).is_zero());
}

#[test]
fn poseidon_is_deterministic_and_not_identity() {
    let a = fe(7);
    let b = fe(11);
    let h1 = poseidon2(&a, &b);
    let h2 = poseidon2(&a, &b);
    assert_eq!(h1, h2);
    // the digest differs from both inputs, so the wrapper computed something
    assert_ne!(h1, a);
    assert_ne!(h1, b);
    // argument order matters
    assert_ne!(poseidon2(&a, &b), poseidon2(&b, &a));
    // arity matters
    assert_ne!(poseidon3(&a, &b, &fe(0)), poseidon2(&a, &b));
}

#[test]
fn sha512_reduction_changes_input() {
    let bytes = vec![1u8, 2, 3];
    let digest = sha512(&bytes);
    assert_eq!(digest.len(), 64);
    let digest2 = sha512(&bytes);
    assert_eq!(digest, digest2);
    let f = fe_reduce(&digest);
    assert_ne!(f, Fe::zero());
}

#[test]
fn asset_hash_separates_issuers_and_terms() {
    let terms = Terms::iou(90, Unit::USD);
    let a1 = Asset::new(&fe(1), &terms);
    let a2 = Asset::new(&fe(2), &terms);
    let a3 = Asset::new(&fe(1), &Terms::iou(91, Unit::USD));
    assert_eq!(a1.hash(), Asset::new(&fe(1), &terms).hash());
    assert_ne!(a1.hash(), a2.hash());
    assert_ne!(a1.hash(), a3.hash());
}

#[test]
fn note_hash_depends_on_every_commitment_field() {
    let base = Note::new(&fe(1), &fe(2), 100, 0, &NoteOutIndex::Out1, &Fe::zero(), fe(9));
    let h = base.hash();
    let mut other = base;
    other.value = 101;
    assert_ne!(h, other.hash());
    let mut other = base;
    other.owner = fe(3);
    assert_ne!(h, other.hash());
    let mut other = base;
    other.step = 1;
    assert_ne!(h, other.hash());
    let mut other = base;
    other.out_index = NoteOutIndex::Out0;
    assert_ne!(h, other.hash());
    // the blind is not part of the note hash, only of the blinded hash
    let mut other = base;
    other.blind = fe(10);
    assert_eq!(h, other.hash());
    assert_ne!(base.blinded_hash(), other.blinded_hash());
}

#[test]
fn history_state_places_note_by_out_index() {
    let note = Note::new(&fe(1), &fe(2), 100, 0, &NoteOutIndex::Out1, &Fe::zero(), fe(9));
    let sibling = fe(77);
    let history = NoteHistory {
        asset: Asset::new(&fe(1), &Terms::iou(0, Unit::USD)),
        steps: Vec::new(),
        current_note: note,
        sibling,
    };
    let bnh = note.blinded_hash();
    assert_eq!(history.state(), poseidon2(&sibling, &bnh));

    let mut flipped = history.duplicate();
    flipped.current_note.out_index = NoteOutIndex::Out0;
    let bnh0 = flipped.current_note.blinded_hash();
    assert_eq!(flipped.state(), poseidon2(&bnh0, &sibling));
}

#[test]
fn out_index_codes() {
    assert_eq!(NoteOutIndex::Out0.code(), 1);
    assert_eq!(NoteOutIndex::Out1.code(), 2);
}

#[test]
fn the_canonicity_bound_is_the_field_modulus() {
    // the modulus bytes reduce to zero in the field, and sit exactly at
    // the boundary the canonicity check enforces
    let modulus_le = vec![
        0x01u8, 0x00, 0x00, 0xf0, 0x93, 0xf5, 0xe1, 0x43, 0x91, 0x70, 0xb9, 0x79, 0x48, 0xe8,
        0x33, 0x28, 0x5d, 0x58, 0x81, 0x81, 0xb6, 0x45, 0x50, 0xb8, 0x29, 0xa0, 0x31, 0xe1, 0x72,
        0x4e, 0x64, 0x30,
    ];
    assert_eq!(fe_reduce(&modulus_le), Fe::zero());
    let mut one_less = modulus_le.clone();
    one_less[0] = 0x00;
    assert_ne!(fe_reduce(&one_less), Fe::zero());
    assert_eq!(fe_reduce(&one_less).to_bytes_vec(), one_less);
}
