use ivcnotes::asset::{Asset, Terms, Unit};
use ivcnotes::cipher::{decrypt_history, encrypt_history};
use ivcnotes::fe::Fe;
use ivcnotes::id::Auth;
use ivcnotes::note::{IVCStep, Note, NoteHistory, NoteOutIndex};

fn fe(v: u64) -> Fe {
    Fe::from_u64(v)
}

fn sample_history() -> NoteHistory {
    let asset = Asset::new(&fe(5), &Terms::iou(365, Unit::USD));
    let note = Note::new(&fe(1), &fe(2), 100, 0, &NoteOutIndex::Out1, &Fe::zero(), fe(4));
    NoteHistory {
        asset,
        steps: vec![IVCStep::new(&vec![7; 64], &fe(10), &Fe::zero(), &fe(5))],
        current_note: note,
        sibling: Fe::zero(),
    }
}

#[test]
fn envelope_round_trips_under_one_key() {
    let key = vec![42u8; 32];
    let h = sample_history();
    let envelope = encrypt_history(&key, &h).unwrap();
    assert_ne!(envelope.data.len(), 0);
    let back = decrypt_history(&key, &envelope).unwrap();
    assert_eq!(back, h);
}

#[test]
fn envelope_rejects_the_wrong_key() {
    let key = vec![42u8; 32];
    let other = vec![43u8; 32];
    let h = sample_history();
    let envelope = encrypt_history(&key, &h).unwrap();
    // with overwhelming probability the padding or the decoding fails
    match decrypt_history(&other, &envelope) {
        Err(_) => {},
        Ok(recovered) => assert_ne!(recovered, h),
    }
}

#[test]
fn envelope_round_trips_between_two_authorities() {
    let sender = Auth::new(vec![1u8; 32]).unwrap();
    let receiver = Auth::new(vec![2u8; 32]).unwrap();
    let h = sample_history();
    let envelope = sender.encrypt(&receiver.public_key, &h).unwrap();
    let back = receiver.decrypt(&sender.public_key, &envelope).unwrap();
    assert_eq!(back, h);
}

#[test]
fn corrupted_envelope_fails_terminally() {
    let key = vec![9u8; 32];
    let h = sample_history();
    let mut envelope = encrypt_history(&key, &h).unwrap();
    let last = envelope.data.len() - 1;
    envelope.data[last] ^= 0xFF;
    match decrypt_history(&key, &envelope) {
        Err(_) => {},
        Ok(recovered) => assert_ne!(recovered, h),
    }
}

#[test]
fn envelope_is_one_padded_block_longer_than_the_bytes() {
    let key = vec![5u8; 32];
    let h = sample_history();
    let plain_len = ivcnotes::codec::encode_history(&h).unwrap().len();
    let envelope = encrypt_history(&key, &h).unwrap();
    assert_eq!(envelope.data.len(), 16 * (plain_len / 16 + 1));
}
