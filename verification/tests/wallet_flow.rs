use ivcnotes::asset::{Terms, Unit};
use ivcnotes::circuit::{check_step, groth16_verify, PublicInput};
use ivcnotes::fe::Fe;
use ivcnotes::id::Auth;
use ivcnotes::note::NoteOutIndex;
use ivcnotes::wallet::{Contact, Wallet};
use ivcnotes::Error;

fn fe(v: u64) -> Fe {
    Fe::from_u64(v)
}

fn auth(tag: u8) -> Auth {
    let mut s = vec![0u8; 32];
    s[0] = tag;
    Auth::new(s).unwrap()
}

fn contact_of(a: &Auth, name: &str) -> Contact {
    Contact { address: a.address, username: name.to_string(), public_key: a.public_key }
}

#[test]
fn issue_inputs_satisfy_the_step_relation() {
    let issuer = auth(1);
    let receiver = auth(2);
    let wallet = Wallet::new(&issuer, Vec::new(), "w0".to_string());
    let body = wallet
        .issue_prepare(&issuer, &Terms::iou(0, Unit::USD), 1000, &contact_of(&receiver, "w1"), fe(55))
        .unwrap();
    assert!(check_step(&body.public, &body.aux));
    // a tampered public input no longer satisfies the relation
    let mut bad = body.public;
    bad.state_in = fe(1);
    assert!(!check_step(&bad, &body.aux));
    let mut bad = body.public;
    bad.sender = receiver.address;
    assert!(!check_step(&bad, &body.aux));
}

#[test]
fn issue_history_has_the_issue_shape() {
    let issuer = auth(3);
    let receiver = auth(4);
    let wallet = Wallet::new(&issuer, Vec::new(), "w0".to_string());
    let body = wallet
        .issue_prepare(&issuer, &Terms::iou(0, Unit::USD), 1000, &contact_of(&receiver, "w1"), fe(55))
        .unwrap();
    let history = wallet.issue_finish(&body, &vec![0u8; 64]);
    assert_eq!(history.steps.len(), 1);
    assert!(history.steps[0].nullifier.is_zero());
    assert_eq!(history.steps[0].sender, issuer.address);
    assert_eq!(history.current_note.value, 1000);
    assert_eq!(history.current_note.owner, receiver.address);
    assert!(history.sibling.is_zero());
    // the recorded state is exactly the recomputed state
    assert_eq!(history.state(), history.steps[0].state);
}

#[test]
fn split_inputs_satisfy_the_step_relation_and_zero_sum() {
    let issuer = auth(5);
    let holder = auth(6);
    let receiver = auth(7);
    let w0 = Wallet::new(&issuer, Vec::new(), "w0".to_string());
    let body = w0
        .issue_prepare(&issuer, &Terms::iou(0, Unit::USD), 1000, &contact_of(&holder, "w1"), fe(8))
        .unwrap();
    let history = w0.issue_finish(&body, &vec![0u8; 64]);

    let w1 = Wallet::new(&holder, Vec::new(), "w1".to_string());
    let split = w1
        .split_prepare(&holder, &history, 800, &contact_of(&receiver, "w2"), fe(21), fe(22))
        .unwrap();
    assert!(check_step(&split.public, &split.aux));
    assert_eq!(split.note_out_0.value + split.note_out_1.value, 1000);
    assert_eq!(split.note_out_1.value, 800);
    assert_eq!(split.note_out_0.owner, holder.address);
    assert_eq!(split.note_out_1.owner, receiver.address);
    assert!(matches!(split.note_out_0.out_index, NoteOutIndex::Out0));
    assert!(matches!(split.note_out_1.out_index, NoteOutIndex::Out1));

    let (kept, sent) = w1.split_finish(&history, &split, &vec![1u8; 64]);
    assert_eq!(kept.steps.len(), 2);
    assert_eq!(sent.steps.len(), 2);
    assert_eq!(kept.current_note.value, 200);
    assert_eq!(sent.current_note.value, 800);
    assert_eq!(kept.sibling, split.note_out_1.blinded_hash());
    assert_eq!(sent.sibling, split.note_out_0.blinded_hash());
    assert_eq!(kept.state(), sent.state());
    assert_eq!(kept.state(), kept.steps[1].state);
}

#[test]
fn split_more_than_the_note_value_is_insufficient_funds() {
    let issuer = auth(8);
    let holder = auth(9);
    let w0 = Wallet::new(&issuer, Vec::new(), "w0".to_string());
    let body = w0
        .issue_prepare(&issuer, &Terms::iou(0, Unit::USD), 200, &contact_of(&holder, "w1"), fe(8))
        .unwrap();
    let history = w0.issue_finish(&body, &vec![0u8; 64]);
    let w1 = Wallet::new(&holder, Vec::new(), "w1".to_string());
    match w1.split_prepare(&holder, &history, 2000, &contact_of(&issuer, "w0"), fe(1), fe(2)) {
        Err(Error::Custom(_)) => {},
        other => panic!("expected insufficient funds, got {:?}", other.map(|_| ())),
    }
}

#[test]
fn splitting_someone_elses_note_is_rejected() {
    let issuer = auth(10);
    let holder = auth(11);
    let thief = auth(12);
    let w0 = Wallet::new(&issuer, Vec::new(), "w0".to_string());
    let body = w0
        .issue_prepare(&issuer, &Terms::iou(0, Unit::USD), 200, &contact_of(&holder, "w1"), fe(8))
        .unwrap();
    let history = w0.issue_finish(&body, &vec![0u8; 64]);
    let wt = Wallet::new(&thief, Vec::new(), "wt".to_string());
    assert!(wt
        .split_prepare(&thief, &history, 100, &contact_of(&issuer, "w0"), fe(1), fe(2))
        .is_err());
}

#[test]
fn double_spends_share_the_same_nullifier() {
    let issuer = auth(13);
    let holder = auth(14);
    let r1 = auth(15);
    let r2 = auth(16);
    let w0 = Wallet::new(&issuer, Vec::new(), "w0".to_string());
    let body = w0
        .issue_prepare(&issuer, &Terms::iou(0, Unit::USD), 1000, &contact_of(&holder, "w1"), fe(8))
        .unwrap();
    let history = w0.issue_finish(&body, &vec![0u8; 64]);
    let w1 = Wallet::new(&holder, Vec::new(), "w1".to_string());
    let s1 = w1
        .split_prepare(&holder, &history, 500, &contact_of(&r1, "w2"), fe(31), fe(32))
        .unwrap();
    let s2 = w1
        .split_prepare(&holder, &history, 400, &contact_of(&r2, "w3"), fe(33), fe(34))
        .unwrap();
    // different receivers, values and blinds — same spent note, same nullifier
    assert_eq!(s1.nullifier, s2.nullifier);
    // spending the change note instead yields a different nullifier
    let (kept, _) = w1.split_finish(&history, &s1, &vec![1u8; 64]);
    let s3 = w1
        .split_prepare(&holder, &kept, 100, &contact_of(&r2, "w3"), fe(35), fe(36))
        .unwrap();
    assert_ne!(s1.nullifier, s3.nullifier);
}

#[test]
fn unproven_history_is_rejected_and_wallet_untouched() {
    let issuer = auth(17);
    let holder = auth(18);
    let w0 = Wallet::new(&issuer, Vec::new(), "w0".to_string());
    let body = w0
        .issue_prepare(&issuer, &Terms::iou(0, Unit::USD), 1000, &contact_of(&holder, "w1"), fe(8))
        .unwrap();
    // the proof bytes are garbage, so verification must fail at step 0
    let history = w0.issue_finish(&body, &vec![0u8; 64]);
    let mut w1 = Wallet::new(&holder, vec![0u8; 16], "w1".to_string());
    assert!(w1.verify_incoming(&history).is_err());
    assert_eq!(w1.spendables.len(), 0);
}

#[test]
fn groth16_wrapper_rejects_garbage() {
    let inputs = vec![fe(1), fe(2), fe(3), fe(4), fe(5), fe(6)];
    assert!(!groth16_verify(&vec![0u8; 8], &inputs, &vec![0u8; 8]));
}

#[test]
fn public_inputs_recompute_the_chain() {
    let issuer = auth(19);
    let holder = auth(20);
    let w0 = Wallet::new(&issuer, Vec::new(), "w0".to_string());
    let body = w0
        .issue_prepare(&issuer, &Terms::iou(0, Unit::USD), 1000, &contact_of(&holder, "w1"), fe(8))
        .unwrap();
    let history = w0.issue_finish(&body, &vec![0u8; 64]);
    let inputs = history.public_inputs().unwrap();
    assert_eq!(inputs.len(), 1);
    let p: &PublicInput = &inputs[0];
    assert_eq!(p.step, 0);
    assert_eq!(p.sender, issuer.address);
    assert_eq!(p.state_in, history.asset.hash());
    assert_eq!(p.state_out, history.steps[0].state);
    assert!(p.nullifier.is_zero());
}

#[test]
fn corrupted_final_state_is_rejected() {
    let issuer = auth(21);
    let holder = auth(22);
    let w0 = Wallet::new(&issuer, Vec::new(), "w0".to_string());
    let body = w0
        .issue_prepare(&issuer, &Terms::iou(0, Unit::USD), 1000, &contact_of(&holder, "w1"), fe(8))
        .unwrap();
    let mut history = w0.issue_finish(&body, &vec![0u8; 64]);
    // corrupt the recorded output state of the last step
    history.steps[0].state = fe(999);
    let mut w1 = Wallet::new(&holder, vec![0u8; 16], "w1".to_string());
    match w1.verify_incoming(&history) {
        Err(Error::Verify(msg)) => assert!(msg.contains("state")),
        other => panic!("expected a state mismatch, got {:?}", other),
    }
}

#[test]
fn chain_of_splits_keeps_senders_and_values() {
    let w0a = auth(23);
    let w1a = auth(24);
    let w2a = auth(25);
    let w3a = auth(26);
    let w0 = Wallet::new(&w0a, Vec::new(), "w0".to_string());
    let body = w0
        .issue_prepare(&w0a, &Terms::iou(0, Unit::USD), 1000, &contact_of(&w1a, "w1"), fe(41))
        .unwrap();
    let h1 = w0.issue_finish(&body, &vec![0u8; 64]);

    let w1 = Wallet::new(&w1a, Vec::new(), "w1".to_string());
    let s1 = w1
        .split_prepare(&w1a, &h1, 800, &contact_of(&w2a, "w2"), fe(42), fe(43))
        .unwrap();
    assert!(check_step(&s1.public, &s1.aux));
    let (kept1, sent1) = w1.split_finish(&h1, &s1, &vec![1u8; 64]);
    assert_eq!(kept1.current_note.value, 200);

    let w2 = Wallet::new(&w2a, Vec::new(), "w2".to_string());
    let s2 = w2
        .split_prepare(&w2a, &sent1, 700, &contact_of(&w3a, "w3"), fe(44), fe(45))
        .unwrap();
    assert!(check_step(&s2.public, &s2.aux));
    let (kept2, sent2) = w2.split_finish(&sent1, &s2, &vec![2u8; 64]);

    assert_eq!(kept2.current_note.value, 100);
    assert_eq!(sent2.current_note.value, 700);
    assert_eq!(sent2.current_note.owner, w3a.address);
    assert_eq!(sent2.steps.len(), 3);
    // each step's sender is the party that produced it
    assert_eq!(sent2.steps[0].sender, w0a.address);
    assert_eq!(sent2.steps[1].sender, w1a.address);
    assert_eq!(sent2.steps[2].sender, w2a.address);
    // nullifiers differ pairwise (the issue step's is zero)
    assert!(sent2.steps[0].nullifier.is_zero());
    assert_ne!(sent2.steps[1].nullifier, sent2.steps[2].nullifier);
    assert!(!sent2.steps[1].nullifier.is_zero());
    assert!(!sent2.steps[2].nullifier.is_zero());
}

#[test]
fn test_tx() {
    // one issue of 100 and one split of 10, end to end through the wallet
    let auth_1 = auth(55);
    let auth_2 = auth(56);
    let wallet_1 = Wallet::new(&auth_1, Vec::new(), "wallet_1".to_string());
    let wallet_2 = Wallet::new(&auth_2, Vec::new(), "wallet_2".to_string());

    let body = wallet_1
        .issue_prepare(&auth_1, &Terms::iou(1, Unit::USD), 100, &contact_of(&auth_2, "wallet_2"), fe(57))
        .unwrap();
    assert!(check_step(&body.public, &body.aux));
    let history = wallet_1.issue_finish(&body, &vec![0u8; 64]);

    let split = wallet_2
        .split_prepare(&auth_2, &history, 10, &contact_of(&auth_1, "wallet_1"), fe(58), fe(59))
        .unwrap();
    assert!(check_step(&split.public, &split.aux));
    let (kept, sent) = wallet_2.split_finish(&history, &split, &vec![1u8; 64]);
    assert_eq!(kept.current_note.value, 90);
    assert_eq!(sent.current_note.value, 10);
}

#[test]
fn contacts_are_equal_by_username() {
    let a = auth(27);
    let b = auth(28);
    let c1 = contact_of(&a, "carol");
    let c2 = contact_of(&b, "carol");
    let c3 = contact_of(&a, "dave");
    assert_eq!(c1, c2);
    assert_ne!(c1, c3);
}
