use ivcnotes::eddsa::{te_xy, verify};
use ivcnotes::fe::Fe;
use ivcnotes::hash::poseidon3;
use ivcnotes::id::Auth;

fn seed(tag: u8) -> Vec<u8> {
    let mut s = vec![0u8; 32];
    s[0] = tag;
    s
}

#[test]
fn derivation_is_deterministic_in_the_seed() {
    let a1 = Auth::new(seed(1)).unwrap();
    let a2 = Auth::new(seed(1)).unwrap();
    let b = Auth::new(seed(2)).unwrap();
    assert_eq!(a1.address, a2.address);
    assert_eq!(a1.nullifier_key, a2.nullifier_key);
    assert_eq!(a1.public_key, a2.public_key);
    assert_ne!(a1.address, b.address);
    assert_ne!(a1.nullifier_key, b.nullifier_key);
    assert_eq!(a1.to_bytes(), seed(1));
}

#[test]
fn address_is_the_identity_commitment() {
    let a = Auth::new(seed(3)).unwrap();
    let (x, y) = te_xy(&a.public_key).unwrap();
    let recomputed = poseidon3(&a.nullifier_key, &x, &y);
    assert_eq!(recomputed, a.address);
}

#[test]
fn sign_then_verify_accepts() {
    let a = Auth::new(seed(4)).unwrap();
    let msg = Fe::from_u64(42);
    let sig = a.sign_tx(&msg).unwrap();
    assert!(verify(&a.public_key, &msg, &sig));
}

#[test]
fn verify_rejects_wrong_message_and_wrong_key() {
    let a = Auth::new(seed(5)).unwrap();
    let b = Auth::new(seed(6)).unwrap();
    let msg = Fe::from_u64(42);
    let sig = a.sign_tx(&msg).unwrap();
    assert!(!verify(&a.public_key, &Fe::from_u64(43), &sig));
    assert!(!verify(&b.public_key, &msg, &sig));
    let mut tampered = sig;
    tampered.s.bytes[0] ^= 1;
    assert!(!verify(&a.public_key, &msg, &tampered));
}

#[test]
fn shared_keys_agree_between_peers() {
    let a = Auth::new(seed(7)).unwrap();
    let b = Auth::new(seed(8)).unwrap();
    let kab = a.shared_key(&b.public_key).unwrap();
    let kba = b.shared_key(&a.public_key).unwrap();
    assert_eq!(kab, kba);
    assert_eq!(kab.len(), 32);
    let c = Auth::new(seed(9)).unwrap();
    assert_ne!(a.shared_key(&c.public_key).unwrap(), kab);
}

#[test]
fn seed_round_trips_through_to_bytes() {
    let a = Auth::new(seed(10)).unwrap();
    let bytes = a.to_bytes();
    assert_eq!(bytes, seed(10));
    let b = Auth::new(bytes).unwrap();
    assert_eq!(b.address, a.address);
    assert_eq!(b.nullifier_key, a.nullifier_key);
    assert_eq!(b.public_key, a.public_key);
}
