use ivcnotes::asset::{Asset, Terms, Unit};
use ivcnotes::codec::{
    decode_history, encode_history, read_fe, read_u32_le, read_u64_le, push_u32_le, push_u64_le,
};
use ivcnotes::fe::Fe;
use ivcnotes::note::{IVCStep, Note, NoteHistory, NoteOutIndex, ToCRH};

fn fe(v: u64) -> Fe {
    Fe::from_u64(v)
}

fn sample_history() -> NoteHistory {
    let asset = Asset::new(&fe(5), &Terms::iou(365, Unit::USD));
    let step0 = IVCStep::new(&vec![1, 2, 3, 4, 5], &fe(10), &Fe::zero(), &fe(5));
    let step1 = IVCStep::new(&vec![], &fe(11), &fe(12), &fe(13));
    let step2 = IVCStep::new(&vec![9; 128], &fe(14), &fe(15), &fe(16));
    let note = Note::new(&fe(1), &fe(2), 100, 2, &NoteOutIndex::Out0, &fe(3), fe(4));
    NoteHistory { asset, steps: vec![step0, step1, step2], current_note: note, sibling: fe(6) }
}

#[test]
fn integer_codecs_round_trip() {
    let mut buf: Vec<u8> = Vec::new();
    push_u64_le(&mut buf, 0xdeadbeef01020304);
    push_u32_le(&mut buf, 0xcafe1234);
    assert_eq!(read_u64_le(&buf, 0), Some(0xdeadbeef01020304));
    assert_eq!(read_u32_le(&buf, 8), Some(0xcafe1234));
    assert_eq!(read_u64_le(&buf, 8), None);
}

#[test]
fn fe_codec_round_trips() {
    let mut buf: Vec<u8> = Vec::new();
    ivcnotes::codec::push_fe(&mut buf, &fe(99));
    assert_eq!(read_fe(&buf, 0), Some(fe(99)));
    assert_eq!(read_fe(&buf, 1), None);
}

#[test]
fn history_round_trips_through_canonical_bytes() {
    let h = sample_history();
    let bytes = encode_history(&h).unwrap();
    let back = decode_history(&bytes).unwrap();
    assert_eq!(back, h);
}

#[test]
fn single_step_issue_history_round_trips() {
    let asset = Asset::new(&fe(1), &Terms::iou(0, Unit::USD));
    let note = Note::new(&fe(2), &fe(3), 1000, 0, &NoteOutIndex::Out1, &Fe::zero(), fe(7));
    let h = NoteHistory {
        asset,
        steps: vec![IVCStep::new(&vec![0xAA; 192], &fe(20), &Fe::zero(), &fe(1))],
        current_note: note,
        sibling: Fe::zero(),
    };
    let bytes = encode_history(&h).unwrap();
    let back = decode_history(&bytes).unwrap();
    assert_eq!(back, h);
}

#[test]
fn truncated_or_trailing_bytes_are_rejected() {
    let h = sample_history();
    let bytes = encode_history(&h).unwrap();
    let mut truncated = bytes.clone();
    truncated.pop();
    assert!(decode_history(&truncated).is_none());
    let mut extended = bytes.clone();
    extended.push(0);
    assert!(decode_history(&extended).is_none());
    assert!(decode_history(&Vec::new()).is_none());
}

#[test]
fn corrupt_out_index_byte_is_rejected() {
    let h = sample_history();
    let mut bytes = encode_history(&h).unwrap();
    // the output index byte of the current note sits 65 bytes from the end
    // (before the 32-byte blind and the 32-byte sibling)
    let pos = bytes.len() - 65;
    bytes[pos] = 7;
    assert!(decode_history(&bytes).is_none());
}

#[test]
fn contact_parts_round_trip() {
    let address = fe(123);
    let pk = ivcnotes::eddsa::Pt { bytes: [7u8; 32] };
    let username = "alice".to_string();
    let bytes =
        ivcnotes::codec::encode_contact(&address, &username.as_bytes().to_vec(), &pk).unwrap();
    let (a, name_bytes, p) = ivcnotes::codec::decode_contact(&bytes).unwrap();
    assert_eq!(a, address);
    assert_eq!(String::from_utf8(name_bytes).unwrap(), username);
    assert_eq!(p, pk);
    assert!(ivcnotes::codec::decode_contact(&vec![0u8; 10]).is_none());
}

#[test]
fn step_round_trips_through_its_encoding() {
    let step = IVCStep::new(&vec![1, 2, 3], &fe(1), &fe(2), &fe(3));
    let mut bytes: Vec<u8> = Vec::new();
    ivcnotes::codec::push_step(&mut bytes, &step);
    let (back, end) = ivcnotes::codec::read_step(&bytes, 0).unwrap();
    assert_eq!(back, step);
    assert_eq!(end, bytes.len());
}

#[test]
fn to_crh_lists_the_canonical_fields() {
    let note = Note::new(&fe(1), &fe(2), 100, 3, &NoteOutIndex::Out1, &fe(4), fe(5));
    let fields = note.to_crh();
    assert_eq!(fields.len(), 6);
    assert_eq!(fields[0], fe(1));
    assert_eq!(fields[1], fe(2));
    assert_eq!(fields[2], Fe::from_u64(100));
    assert_eq!(fields[3], Fe::from_u64(3));
    assert_eq!(fields[4], fe(4));
    assert_eq!(fields[5], Fe::from_u64(2));
}

#[test]
fn non_canonical_field_encodings_are_rejected() {
    let h = sample_history();
    let bytes = encode_history(&h).unwrap();
    // overwrite the sibling (the last 32 bytes) with the field modulus,
    // a congruent but non-canonical encoding of zero
    let modulus_le: [u8; 32] = [
        0x01, 0x00, 0x00, 0xf0, 0x93, 0xf5, 0xe1, 0x43, 0x91, 0x70, 0xb9, 0x79, 0x48, 0xe8, 0x33,
        0x28, 0x5d, 0x58, 0x81, 0x81, 0xb6, 0x45, 0x50, 0xb8, 0x29, 0xa0, 0x31, 0xe1, 0x72, 0x4e,
        0x64, 0x30,
    ];
    let mut tampered = bytes.clone();
    let start = tampered.len() - 32;
    for (i, b) in modulus_le.iter().enumerate() {
        tampered[start + i] = *b;
    }
    assert!(decode_history(&tampered).is_none());
    // the same bytes in a step's nullifier position are also rejected
    let mut tampered2 = bytes.clone();
    // first step: asset (48) + count (4) + proof prefix (4) + proof (5) + state (32)
    let nullifier_pos = 48 + 4 + 4 + 5 + 32;
    for (i, b) in modulus_le.iter().enumerate() {
        tampered2[nullifier_pos + i] = *b;
    }
    assert!(decode_history(&tampered2).is_none());
}

#[test]
fn fe_from_bytes_accepts_only_canonical_encodings() {
    let f = fe(77);
    let bytes = f.to_bytes_vec();
    assert_eq!(Fe::from_bytes(&bytes), Some(f));
    assert!(Fe::from_bytes(&vec![0u8; 31]).is_none());
    // the modulus itself is congruent to zero but not canonical
    let modulus_le = vec![
        0x01, 0x00, 0x00, 0xf0, 0x93, 0xf5, 0xe1, 0x43, 0x91, 0x70, 0xb9, 0x79, 0x48, 0xe8, 0x33,
        0x28, 0x5d, 0x58, 0x81, 0x81, 0xb6, 0x45, 0x50, 0xb8, 0x29, 0xa0, 0x31, 0xe1, 0x72, 0x4e,
        0x64, 0x30,
    ];
    assert!(Fe::from_bytes(&modulus_le).is_none());
    let mut below = modulus_le.clone();
    below[0] = 0x00;
    assert!(Fe::from_bytes(&below).is_some());
    let mut above = modulus_le.clone();
    above[31] = 0x31;
    assert!(Fe::from_bytes(&above).is_none());
    assert!(Fe::from_bytes(&vec![0xffu8; 32]).is_none());
}

#[test]
fn hex_codec_round_trips() {
    let bytes = vec![0x00u8, 0x01, 0x9f, 0xa0, 0xff];
    let hex = ivcnotes::codec::to_hex_bytes(&bytes);
    assert_eq!(String::from_utf8(hex.clone()).unwrap(), "00019fa0ff");
    assert_eq!(ivcnotes::codec::from_hex_bytes(&hex), Some(bytes));
    // odd length and non-digit bytes are rejected
    assert!(ivcnotes::codec::from_hex_bytes(&vec![b'a']).is_none());
    assert!(ivcnotes::codec::from_hex_bytes(&vec![b'z', b'z']).is_none());
}
