//! The canonical byte encoding of every commitment-bearing record: field
//! elements as their 32 raw bytes, integers little-endian with a fixed
//! width, variable-length byte strings with a 32-bit length prefix. The
//! decoders invert the encoders exactly, which is proved here.

use vstd::prelude::*;

use crate::asset::terms_bytes_of;
use crate::asset::Asset;
use crate::asset::Terms;
use crate::asset::Unit;
use crate::fe::fe_canon;
use crate::fe::u64_le_byte;
use crate::fe::Fe;
use crate::note::IVCStep;
use crate::note::IVCStepV;
use crate::note::Note;
use crate::note::NoteHistoryV;
use crate::note::NoteOutIndex;

verus! {

/// The eight little-endian bytes of a 64-bit value.
pub open spec fn u64_le(v: u64) -> Seq<u8> {
    Seq::new(8, |i: int| u64_le_byte(v, i))
}

/// The four little-endian bytes of a 32-bit value.
pub open spec fn u32_le(v: u32) -> Seq<u8> {
    Seq::new(4, |i: int| u64_le_byte(v as u64, i))
}

/// The 64-bit value read from eight little-endian bytes.
pub open spec fn u64_from_le(s: Seq<u8>) -> u64 {
    ((s[0] as u64) | ((s[1] as u64) << 8) | ((s[2] as u64) << 16) | ((s[3] as u64) << 24) | ((
    s[4] as u64) << 32) | ((s[5] as u64) << 40) | ((s[6] as u64) << 48) | ((s[7] as u64) << 56))
}

/// The 32-bit value read from four little-endian bytes.
pub open spec fn u32_from_le(s: Seq<u8>) -> u32 {
    ((s[0] as u32) | ((s[1] as u32) << 8) | ((s[2] as u32) << 16) | ((s[3] as u32) << 24))
}

/// Reading back the eight little-endian bytes of a value yields the value.
pub proof fn lemma_u64_le_round_trip(v: u64)
    ensures
        u64_from_le(u64_le(v)) == v,
{
    let s = u64_le(v);
    assert(s[0] == u64_le_byte(v, 0) && s[1] == u64_le_byte(v, 1) && s[2] == u64_le_byte(v, 2)
        && s[3] == u64_le_byte(v, 3) && s[4] == u64_le_byte(v, 4) && s[5] == u64_le_byte(v, 5)
        && s[6] == u64_le_byte(v, 6) && s[7] == u64_le_byte(v, 7));
    let b0 = ((v >> 0) & 0xff) as u8;
    let b1 = ((v >> 8) & 0xff) as u8;
    let b2 = ((v >> 16) & 0xff) as u8;
    let b3 = ((v >> 24) & 0xff) as u8;
    let b4 = ((v >> 32) & 0xff) as u8;
    let b5 = ((v >> 40) & 0xff) as u8;
    let b6 = ((v >> 48) & 0xff) as u8;
    let b7 = ((v >> 56) & 0xff) as u8;
    assert(((b0 as u64) | ((b1 as u64) << 8) | ((b2 as u64) << 16) | ((b3 as u64) << 24) | ((
    b4 as u64) << 32) | ((b5 as u64) << 40) | ((b6 as u64) << 48) | ((b7 as u64) << 56)) == v)
        by (bit_vector)
        requires
            b0 == ((v >> 0) & 0xff) as u8 && b1 == ((v >> 8) & 0xff) as u8 && b2 == ((v >> 16)
                & 0xff) as u8 && b3 == ((v >> 24) & 0xff) as u8 && b4 == ((v >> 32) & 0xff) as u8
                && b5 == ((v >> 40) & 0xff) as u8 && b6 == ((v >> 48) & 0xff) as u8 && b7 == ((v
                >> 56) & 0xff) as u8,
    ;
}

/// Reading back the four little-endian bytes of a value yields the value.
pub proof fn lemma_u32_le_round_trip(v: u32)
    ensures
        u32_from_le(u32_le(v)) == v,
{
    let s = u32_le(v);
    assert(s[0] == u64_le_byte(v as u64, 0) && s[1] == u64_le_byte(v as u64, 1) && s[2]
        == u64_le_byte(v as u64, 2) && s[3] == u64_le_byte(v as u64, 3));
    let w = v as u64;
    let b0 = ((w >> 0) & 0xff) as u8;
    let b1 = ((w >> 8) & 0xff) as u8;
    let b2 = ((w >> 16) & 0xff) as u8;
    let b3 = ((w >> 24) & 0xff) as u8;
    assert(((b0 as u32) | ((b1 as u32) << 8) | ((b2 as u32) << 16) | ((b3 as u32) << 24)) == v)
        by (bit_vector)
        requires
            w == v as u64 && b0 == ((w >> 0) & 0xff) as u8 && b1 == ((w >> 8) & 0xff) as u8 && b2
                == ((w >> 16) & 0xff) as u8 && b3 == ((w >> 24) & 0xff) as u8,
    ;
}

/// Append the eight little-endian bytes of a 64-bit value.
pub fn push_u64_le(buf: &mut Vec<u8>, v: u64)
    ensures
        final(buf)@ == old(buf)@ + u64_le(v),
{
    let b0: u8 = ((v >> 0) & 0xff) as u8;
    let b1: u8 = ((v >> 8) & 0xff) as u8;
    let b2: u8 = ((v >> 16) & 0xff) as u8;
    let b3: u8 = ((v >> 24) & 0xff) as u8;
    let b4: u8 = ((v >> 32) & 0xff) as u8;
    let b5: u8 = ((v >> 40) & 0xff) as u8;
    let b6: u8 = ((v >> 48) & 0xff) as u8;
    let b7: u8 = ((v >> 56) & 0xff) as u8;
    buf.push(b0);
    buf.push(b1);
    buf.push(b2);
    buf.push(b3);
    buf.push(b4);
    buf.push(b5);
    buf.push(b6);
    buf.push(b7);
    proof {
        assert(final(buf)@ =~= old(buf)@ + u64_le(v));
    }
}

/// Append the four little-endian bytes of a 32-bit value.
pub fn push_u32_le(buf: &mut Vec<u8>, v: u32)
    ensures
        final(buf)@ == old(buf)@ + u32_le(v),
{
    let w = v as u64;
    let b0: u8 = ((w >> 0) & 0xff) as u8;
    let b1: u8 = ((w >> 8) & 0xff) as u8;
    let b2: u8 = ((w >> 16) & 0xff) as u8;
    let b3: u8 = ((w >> 24) & 0xff) as u8;
    buf.push(b0);
    buf.push(b1);
    buf.push(b2);
    buf.push(b3);
    proof {
        assert(final(buf)@ =~= old(buf)@ + u32_le(v));
    }
}

/// Append the 32 bytes of a field element.
pub fn push_fe(buf: &mut Vec<u8>, f: &Fe)
    ensures
        final(buf)@ == old(buf)@ + f@,
{
    let mut i: usize = 0;
    while i < 32
        invariant
            i <= 32,
            buf@ == old(buf)@ + f@.subrange(0, i as int),
        decreases 32 - i,
    {
        buf.push(f.bytes[i]);
        i += 1;
    }
    proof {
        assert(old(buf)@ + f@.subrange(0, 32) =~= old(buf)@ + f@);
    }
}

/// Read eight little-endian bytes at `pos`.
pub fn read_u64_le(s: &Vec<u8>, pos: usize) -> (r: Option<u64>)
    ensures
        pos + 8 <= s@.len() ==> r == Some(u64_from_le(s@.subrange(pos as int, pos + 8))),
        pos + 8 > s@.len() ==> r is None,
{
    if pos >= s.len() || s.len() - pos < 8 {
        return None;
    }
    let v: u64 = (s[pos] as u64) | ((s[pos + 1] as u64) << 8) | ((s[pos + 2] as u64) << 16) | ((
    s[pos + 3] as u64) << 24) | ((s[pos + 4] as u64) << 32) | ((s[pos + 5] as u64) << 40) | ((
    s[pos + 6] as u64) << 48) | ((s[pos + 7] as u64) << 56);
    proof {
        let sub = s@.subrange(pos as int, pos + 8);
        assert(sub[0] == s@[pos as int] && sub[1] == s@[pos + 1] && sub[2] == s@[pos + 2] && sub[3]
            == s@[pos + 3] && sub[4] == s@[pos + 4] && sub[5] == s@[pos + 5] && sub[6] == s@[pos
            + 6] && sub[7] == s@[pos + 7]);
    }
    Some(v)
}

/// Read four little-endian bytes at `pos`.
pub fn read_u32_le(s: &Vec<u8>, pos: usize) -> (r: Option<u32>)
    ensures
        pos + 4 <= s@.len() ==> r == Some(u32_from_le(s@.subrange(pos as int, pos + 4))),
        pos + 4 > s@.len() ==> r is None,
{
    if pos >= s.len() || s.len() - pos < 4 {
        return None;
    }
    let v: u32 = (s[pos] as u32) | ((s[pos + 1] as u32) << 8) | ((s[pos + 2] as u32) << 16) | ((
    s[pos + 3] as u32) << 24);
    proof {
        let sub = s@.subrange(pos as int, pos + 4);
        assert(sub[0] == s@[pos as int] && sub[1] == s@[pos + 1] && sub[2] == s@[pos + 2] && sub[3]
            == s@[pos + 3]);
    }
    Some(v)
}

/// Read a field element's 32 bytes at `pos`.
pub fn read_fe(s: &Vec<u8>, pos: usize) -> (r: Option<Fe>)
    ensures
        pos + 32 <= s@.len() ==> (r matches Some(f) && f@ == s@.subrange(pos as int, pos + 32)),
        pos + 32 > s@.len() ==> r is None,
{
    if pos >= s.len() || s.len() - pos < 32 {
        return None;
    }
    let n: usize = s.len();
    let mut bytes = [0u8; 32];
    let mut i: usize = 0;
    while i < 32
        invariant
            i <= 32,
            n == s@.len(),
            pos + 32 <= n,
            forall|j: int| 0 <= j < i ==> bytes@[j] == s@[pos + j],
        decreases 32 - i,
    {
        bytes.set(i, s[pos + i]);
        i += 1;
    }
    let f = Fe { bytes };
    proof {
        assert(f@ =~= s@.subrange(pos as int, pos + 32));
    }
    Some(f)
}

/// The canonical encoding of an asset: the issuer's 32 bytes followed by
/// the 16 terms bytes.
pub open spec fn enc_asset(a: Asset) -> Seq<u8> {
    a.issuer@ + terms_bytes_of(a.terms)
}

/// The canonical encoding of a note: its six commitment fields in
/// canonical order (the output index as one byte) followed by the blind.
pub open spec fn enc_note(n: Note) -> Seq<u8> {
    n.asset_hash@ + n.owner@ + u64_le(n.value) + u32_le(n.step) + n.parent_note@ + seq![
        crate::note::out_index_code(n.out_index) as u8,
    ] + n.blind@
}

/// The canonical encoding of a chain step: the length-prefixed proof
/// bytes, then the state, nullifier and sender.
pub open spec fn enc_step(s: IVCStepV) -> Seq<u8> {
    u32_le(s.proof.len() as u32) + s.proof + s.state + s.nullifier + s.sender
}

/// The canonical encoding of a sequence of steps, in order.
pub open spec fn enc_steps(ss: Seq<IVCStepV>) -> Seq<u8>
    decreases ss.len(),
{
    if ss.len() == 0 {
        Seq::empty()
    } else {
        enc_step(ss[0]) + enc_steps(ss.drop_first())
    }
}

/// The canonical encoding of a history: the asset, the step count, the
/// steps, the current note, and the sibling.
pub open spec fn enc_history(h: NoteHistoryV) -> Seq<u8> {
    enc_asset(h.asset) + u32_le(h.steps.len() as u32) + enc_steps(h.steps) + enc_note(h.current_note)
        + h.sibling
}

/// What the step codec requires of a step: a proof short enough for its
/// length prefix, and field elements in canonical form.
pub open spec fn step_codec_wf(s: IVCStepV) -> bool {
    &&& s.proof.len() <= 0xffffffff
    &&& fe_canon(s.state)
    &&& fe_canon(s.nullifier)
    &&& fe_canon(s.sender)
}

/// What the note codec requires: every field element in canonical form.
pub open spec fn note_codec_wf(n: Note) -> bool {
    &&& fe_canon(n.asset_hash@)
    &&& fe_canon(n.owner@)
    &&& fe_canon(n.parent_note@)
    &&& fe_canon(n.blind@)
}

/// What the history codec requires: every step well-formed, a step count
/// that fits its prefix, and every field element in canonical form. The
/// decoders reject anything else, so a transported history cannot smuggle
/// in a congruent non-canonical encoding of a commitment.
pub open spec fn history_codec_wf(h: NoteHistoryV) -> bool {
    &&& h.steps.len() <= 0xffffffff
    &&& forall|i: int| 0 <= i < h.steps.len() ==> step_codec_wf(#[trigger] h.steps[i])
    &&& fe_canon(h.asset.issuer@)
    &&& note_codec_wf(h.current_note)
    &&& fe_canon(h.sibling)
}

// Spec-level decoders. Each parses at a position and yields the decoded
// value with the position just past it; the executable decoders below
// return exactly what these denote, and the round-trip lemmas show they
// invert the encoders.
/// Decode an asset at `pos`.
pub open spec fn dec_asset_at(s: Seq<u8>, pos: int) -> Option<(Asset, int)> {
    if pos + 48 <= s.len() {
        let issuer = s.subrange(pos, pos + 32);
        let maturity = u64_from_le(s.subrange(pos + 32, pos + 40));
        let unit_code = u64_from_le(s.subrange(pos + 40, pos + 48));
        if unit_code == 0 && fe_canon(issuer) {
            Some(
                (
                    Asset {
                        issuer: crate::fe::fe_from_seq(issuer),
                        terms: Terms::IOU { maturity, unit: Unit::USD },
                    },
                    pos + 48,
                ),
            )
        } else {
            None
        }
    } else {
        None
    }
}

/// Decode a note at `pos`.
pub open spec fn dec_note_at(s: Seq<u8>, pos: int) -> Option<(Note, int)> {
    if pos + 141 <= s.len() {
        let asset_hash = s.subrange(pos, pos + 32);
        let owner = s.subrange(pos + 32, pos + 64);
        let value = u64_from_le(s.subrange(pos + 64, pos + 72));
        let step = u32_from_le(s.subrange(pos + 72, pos + 76));
        let parent = s.subrange(pos + 76, pos + 108);
        let ix_byte = s[pos + 108];
        let blind = s.subrange(pos + 109, pos + 141);
        if (ix_byte == 1 || ix_byte == 2) && fe_canon(asset_hash) && fe_canon(owner) && fe_canon(
            parent,
        ) && fe_canon(blind) {
            Some(
                (
                    Note {
                        asset_hash: crate::fe::fe_from_seq(asset_hash),
                        owner: crate::fe::fe_from_seq(owner),
                        value,
                        step,
                        parent_note: crate::fe::fe_from_seq(parent),
                        out_index: if ix_byte == 1 {
                            NoteOutIndex::Out0
                        } else {
                            NoteOutIndex::Out1
                        },
                        blind: crate::fe::fe_from_seq(blind),
                    },
                    pos + 141,
                ),
            )
        } else {
            None
        }
    } else {
        None
    }
}

/// Decode a chain step at `pos`.
pub open spec fn dec_step_at(s: Seq<u8>, pos: int) -> Option<(IVCStepV, int)> {
    if pos + 4 <= s.len() {
        let plen = u32_from_le(s.subrange(pos, pos + 4)) as int;
        if pos + 4 + plen + 96 <= s.len() {
            let proof = s.subrange(pos + 4, pos + 4 + plen);
            let state = s.subrange(pos + 4 + plen, pos + 4 + plen + 32);
            let nullifier = s.subrange(pos + 4 + plen + 32, pos + 4 + plen + 64);
            let sender = s.subrange(pos + 4 + plen + 64, pos + 4 + plen + 96);
            if fe_canon(state) && fe_canon(nullifier) && fe_canon(sender) {
                Some((IVCStepV { proof, state, nullifier, sender }, pos + 4 + plen + 96))
            } else {
                None
            }
        } else {
            None
        }
    } else {
        None
    }
}

/// Decode `n` chain steps at `pos`.
pub open spec fn dec_steps_at(s: Seq<u8>, pos: int, n: int) -> Option<(Seq<IVCStepV>, int)>
    decreases n,
{
    if n <= 0 {
        Some((Seq::empty(), pos))
    } else {
        match dec_step_at(s, pos) {
            Some(head) => match dec_steps_at(s, head.1, n - 1) {
                Some(tail) => Some((seq![head.0] + tail.0, tail.1)),
                None => None,
            },
            None => None,
        }
    }
}

/// Decode a whole history; the encoding must occupy the bytes exactly.
pub open spec fn dec_history(s: Seq<u8>) -> Option<NoteHistoryV> {
    match dec_asset_at(s, 0) {
        Some((asset, p1)) => if p1 + 4 <= s.len() {
            let n = u32_from_le(s.subrange(p1, p1 + 4)) as int;
            match dec_steps_at(s, p1 + 4, n) {
                Some((steps, p2)) => match dec_note_at(s, p2) {
                    Some((note, p3)) => if p3 + 32 == s.len() && fe_canon(
                        s.subrange(p3, p3 + 32),
                    ) {
                        Some(
                            NoteHistoryV {
                                asset,
                                steps,
                                current_note: note,
                                sibling: s.subrange(p3, p3 + 32),
                            },
                        )
                    } else {
                        None
                    },
                    None => None,
                },
                None => None,
            }
        } else {
            None
        },
        None => None,
    }
}

/// Decoding inverts the asset encoding wherever it occurs.
pub proof fn lemma_dec_asset(s: Seq<u8>, pos: int, a: Asset)
    requires
        0 <= pos,
        fe_canon(a.issuer@),
        pos + 48 <= s.len(),
        s.subrange(pos, pos + 48) == enc_asset(a),
    ensures
        dec_asset_at(s, pos) == Some((a, pos + 48)),
{
    let e = enc_asset(a);
    let tb = terms_bytes_of(a.terms);
    assert(s.subrange(pos, pos + 32) =~= e.subrange(0, 32));
    assert(e.subrange(0, 32) =~= a.issuer@);
    assert(s.subrange(pos + 32, pos + 40) =~= e.subrange(32, 40));
    assert(s.subrange(pos + 40, pos + 48) =~= e.subrange(40, 48));
    match a.terms {
        Terms::IOU { maturity, unit } => {
            assert(e.subrange(32, 40) =~= u64_le(maturity));
            assert(e.subrange(40, 48) =~= u64_le(crate::asset::unit_code(unit)));
            lemma_u64_le_round_trip(maturity);
            lemma_u64_le_round_trip(crate::asset::unit_code(unit));
            crate::fe::lemma_fe_from_seq(a.issuer);
        },
    }
}

/// Decoding inverts the note encoding wherever it occurs.
pub proof fn lemma_dec_note(s: Seq<u8>, pos: int, n: Note)
    requires
        0 <= pos,
        note_codec_wf(n),
        pos + 141 <= s.len(),
        s.subrange(pos, pos + 141) == enc_note(n),
    ensures
        dec_note_at(s, pos) == Some((n, pos + 141)),
{
    let e = enc_note(n);
    assert(s.subrange(pos, pos + 32) =~= e.subrange(0, 32));
    assert(e.subrange(0, 32) =~= n.asset_hash@);
    assert(s.subrange(pos + 32, pos + 64) =~= e.subrange(32, 64));
    assert(e.subrange(32, 64) =~= n.owner@);
    assert(s.subrange(pos + 64, pos + 72) =~= e.subrange(64, 72));
    assert(e.subrange(64, 72) =~= u64_le(n.value));
    assert(s.subrange(pos + 72, pos + 76) =~= e.subrange(72, 76));
    assert(e.subrange(72, 76) =~= u32_le(n.step));
    assert(s.subrange(pos + 76, pos + 108) =~= e.subrange(76, 108));
    assert(e.subrange(76, 108) =~= n.parent_note@);
    assert(s[pos + 108] == e[108]);
    assert(e[108] == crate::note::out_index_code(n.out_index) as u8);
    assert(s.subrange(pos + 109, pos + 141) =~= e.subrange(109, 141));
    assert(e.subrange(109, 141) =~= n.blind@);
    lemma_u64_le_round_trip(n.value);
    lemma_u32_le_round_trip(n.step);
    crate::fe::lemma_fe_from_seq(n.asset_hash);
    crate::fe::lemma_fe_from_seq(n.owner);
    crate::fe::lemma_fe_from_seq(n.parent_note);
    crate::fe::lemma_fe_from_seq(n.blind);
}

/// Decoding inverts the step encoding wherever it occurs.
pub proof fn lemma_dec_step(s: Seq<u8>, pos: int, x: IVCStepV)
    requires
        0 <= pos,
        step_codec_wf(x),
        pos + enc_step(x).len() <= s.len(),
        s.subrange(pos, pos + enc_step(x).len()) == enc_step(x),
    ensures
        enc_step(x).len() == 4 + x.proof.len() + 96,
        dec_step_at(s, pos) == Some((x, pos + enc_step(x).len())),
{
    let e = enc_step(x);
    let plen = x.proof.len() as int;
    assert(e.len() == 4 + plen + 96);
    assert(s.subrange(pos, pos + 4) =~= e.subrange(0, 4));
    assert(e.subrange(0, 4) =~= u32_le(x.proof.len() as u32));
    lemma_u32_le_round_trip(x.proof.len() as u32);
    assert(u32_from_le(s.subrange(pos, pos + 4)) == x.proof.len() as u32);
    assert(s.subrange(pos + 4, pos + 4 + plen) =~= e.subrange(4, 4 + plen));
    assert(e.subrange(4, 4 + plen) =~= x.proof);
    assert(s.subrange(pos + 4 + plen, pos + 4 + plen + 32) =~= e.subrange(4 + plen, 4 + plen + 32));
    assert(e.subrange(4 + plen, 4 + plen + 32) =~= x.state);
    assert(s.subrange(pos + 4 + plen + 32, pos + 4 + plen + 64) =~= e.subrange(
        4 + plen + 32,
        4 + plen + 64,
    ));
    assert(e.subrange(4 + plen + 32, 4 + plen + 64) =~= x.nullifier);
    assert(s.subrange(pos + 4 + plen + 64, pos + 4 + plen + 96) =~= e.subrange(
        4 + plen + 64,
        4 + plen + 96,
    ));
    assert(e.subrange(4 + plen + 64, 4 + plen + 96) =~= x.sender);
}

/// Decoding inverts the encoding of a step sequence wherever it occurs.
pub proof fn lemma_dec_steps(s: Seq<u8>, pos: int, ss: Seq<IVCStepV>)
    requires
        0 <= pos,
        forall|i: int| 0 <= i < ss.len() ==> step_codec_wf(#[trigger] ss[i]),
        pos + enc_steps(ss).len() <= s.len(),
        s.subrange(pos, pos + enc_steps(ss).len()) == enc_steps(ss),
    ensures
        dec_steps_at(s, pos, ss.len() as int) == Some((ss, pos + enc_steps(ss).len())),
    decreases ss.len(),
{
    if ss.len() == 0 {
        assert(ss =~= Seq::<IVCStepV>::empty());
    } else {
        let head = ss[0];
        let tail = ss.drop_first();
        let e = enc_steps(ss);
        let eh = enc_step(head);
        let et = enc_steps(tail);
        assert(e == eh + et);
        assert(s.subrange(pos, pos + eh.len() as int) =~= e.subrange(0, eh.len() as int));
        assert(e.subrange(0, eh.len() as int) =~= eh);
        lemma_dec_step(s, pos, head);
        assert(s.subrange(pos + eh.len(), pos + e.len() as int) =~= e.subrange(
            eh.len() as int,
            e.len() as int,
        ));
        assert(e.subrange(eh.len() as int, e.len() as int) =~= et);
        lemma_dec_steps(s, pos + eh.len() as int, tail);
        assert(seq![head] + tail =~= ss);
    }
}

/// Serializing a history and deserializing the bytes yields an equal
/// history.
pub proof fn lemma_history_round_trip(h: NoteHistoryV)
    requires
        history_codec_wf(h),
    ensures
        dec_history(enc_history(h)) == Some(h),
{
    let s = enc_history(h);
    let ea = enc_asset(h.asset);
    let ec = u32_le(h.steps.len() as u32);
    let es = enc_steps(h.steps);
    let en = enc_note(h.current_note);
    assert(ea.len() == 48);
    lemma_enc_note_len(h.current_note);
    assert(s.subrange(0, 48) =~= ea);
    lemma_dec_asset(s, 0, h.asset);
    assert(s.subrange(48, 52) =~= ec);
    lemma_u32_le_round_trip(h.steps.len() as u32);
    let p2 = 52 + es.len() as int;
    assert(s.subrange(52, p2) =~= es);
    lemma_dec_steps(s, 52, h.steps);
    assert(s.subrange(p2, p2 + 141) =~= en);
    lemma_dec_note(s, p2, h.current_note);
    assert(s.subrange(p2 + 141, p2 + 141 + 32) =~= h.sibling);
}

/// The note encoding is 141 bytes long.
pub proof fn lemma_enc_note_len(n: Note)
    ensures
        enc_note(n).len() == 141,
{
}

/// The ASCII byte of one lower-case hex digit.
pub open spec fn hex_digit(v: u8) -> u8
    recommends
        v < 16,
{
    if v < 10 {
        (48 + v) as u8
    } else {
        (87 + v) as u8
    }
}

/// The lower-case hex encoding of a byte string: two ASCII digits per
/// byte, high nibble first.
pub open spec fn hex_of(s: Seq<u8>) -> Seq<u8>
    decreases s.len(),
{
    if s.len() == 0 {
        Seq::empty()
    } else {
        seq![hex_digit(s[0] / 16), hex_digit(s[0] % 16)] + hex_of(s.drop_first())
    }
}

/// Appending one byte extends the hex encoding by its two digits.
proof fn lemma_hex_of_take(s: Seq<u8>, i: int)
    requires
        0 <= i < s.len(),
    ensures
        hex_of(s.take(i + 1)) == hex_of(s.take(i)) + seq![
            hex_digit(s[i] / 16),
            hex_digit(s[i] % 16),
        ],
    decreases i,
{
    if i == 0 {
        assert(s.take(0) =~= Seq::<u8>::empty());
        assert(s.take(1) =~= seq![s[0]]);
        assert(s.take(1).drop_first() =~= Seq::<u8>::empty());
        assert(s.take(1).len() == 1 && s.take(1)[0] == s[0]);
        assert(hex_of(s.take(1)) == seq![
            hex_digit(s.take(1)[0] / 16),
            hex_digit(s.take(1)[0] % 16),
        ] + hex_of(s.take(1).drop_first()));
        assert(hex_of(s.take(1)) =~= seq![hex_digit(s[0] / 16), hex_digit(s[0] % 16)]);
        assert(hex_of(s.take(0)) + seq![hex_digit(s[0] / 16), hex_digit(s[0] % 16)] =~= hex_of(
            s.take(1),
        ));
    } else {
        let t1 = s.take(i + 1);
        let t0 = s.take(i);
        assert(t1[0] == s[0] && t0[0] == s[0]);
        assert(t1.drop_first() =~= s.drop_first().take(i));
        assert(t0.drop_first() =~= s.drop_first().take(i - 1));
        lemma_hex_of_take(s.drop_first(), i - 1);
        assert(s.drop_first()[i - 1] == s[i]);
        assert(hex_of(t1) =~= hex_of(t0) + seq![hex_digit(s[i] / 16), hex_digit(s[i] % 16)]);
    }
}

/// Encode bytes as lower-case ASCII hex digits.
pub fn to_hex_bytes(s: &Vec<u8>) -> (r: Vec<u8>)
    ensures
        r@ == hex_of(s@),
        r@.len() == 2 * s@.len(),
{
    let n = s.len();
    let mut out: Vec<u8> = Vec::new();
    let mut i: usize = 0;
    while i < n
        invariant
            i <= n,
            n == s@.len(),
            out@ == hex_of(s@.take(i as int)),
            out@.len() == 2 * i,
        decreases n - i,
    {
        let b = s[i];
        let hi = b / 16;
        let lo = b % 16;
        out.push(if hi < 10 { 48 + hi } else { 87 + hi });
        out.push(if lo < 10 { 48 + lo } else { 87 + lo });
        proof {
            lemma_hex_of_take(s@, i as int);
            assert(out@ =~= hex_of(s@.take(i + 1)));
        }
        i += 1;
    }
    proof {
        assert(s@.take(n as int) =~= s@);
    }
    out
}

/// Decode lower-case ASCII hex digits back to bytes. Sound: whatever is
/// accepted re-encodes to exactly the input.
pub fn from_hex_bytes(s: &Vec<u8>) -> (r: Option<Vec<u8>>)
    ensures
        r matches Some(v) ==> hex_of(v@) == s@ && 2 * v@.len() == s@.len(),
{
    let n = s.len();
    if n % 2 != 0 {
        return None;
    }
    let mut out: Vec<u8> = Vec::new();
    let mut i: usize = 0;
    while i < n / 2
        invariant
            i <= n / 2,
            n == s@.len(),
            n % 2 == 0,
            out@.len() == i,
            hex_of(out@) == s@.take(2 * i),
        decreases n / 2 - i,
    {
        let hi = match hex_val(s[2 * i]) {
            Some(v) => v,
            None => {
                return None;
            },
        };
        let lo = match hex_val(s[2 * i + 1]) {
            Some(v) => v,
            None => {
                return None;
            },
        };
        let b: u8 = hi * 16 + lo;
        let ghost before = out@;
        out.push(b);
        proof {
            lemma_hex_of_take(out@, i as int);
            assert(out@.take(i as int) =~= before);
            assert(out@.take(i + 1) =~= out@);
            assert(out@[i as int] == b);
            assert(b / 16 == hi && b % 16 == lo);
            assert(hex_of(out@) =~= s@.take(2 * (i + 1)));
        }
        i += 1;
    }
    proof {
        assert(s@.take(2 * (n / 2) as int) =~= s@);
    }
    Some(out)
}

/// The nibble of one lower-case hex digit, when the byte is one.
fn hex_val(c: u8) -> (r: Option<u8>)
    ensures
        r matches Some(v) ==> v < 16 && hex_digit(v) == c,
{
    if 48 <= c && c <= 57 {
        Some(c - 48)
    } else if 97 <= c && c <= 102 {
        Some(c - 87)
    } else {
        None
    }
}

/// The canonical encoding of a contact's parts: the address, the
/// length-prefixed UTF-8 bytes of the username, and the public key.
pub open spec fn enc_contact(address: Seq<u8>, username: Seq<u8>, pk: Seq<u8>) -> Seq<u8> {
    address + u32_le(username.len() as u32) + username + pk
}

/// Decode a contact's parts; the encoding must occupy the bytes exactly.
pub open spec fn dec_contact(s: Seq<u8>) -> Option<(Seq<u8>, Seq<u8>, Seq<u8>)> {
    if s.len() >= 36 {
        let address = s.subrange(0, 32);
        let nlen = u32_from_le(s.subrange(32, 36)) as int;
        if 36 + nlen + 32 == s.len() && fe_canon(s.subrange(0, 32)) {
            Some((address, s.subrange(36, 36 + nlen), s.subrange(36 + nlen, s.len() as int)))
        } else {
            None
        }
    } else {
        None
    }
}

/// Serialize a contact's parts into their canonical bytes. The username
/// is its UTF-8 bytes, as `str::as_bytes` yields them.
pub fn encode_contact(address: &Fe, username: &Vec<u8>, pk: &crate::eddsa::Pt) -> (r: Result<
    Vec<u8>,
    crate::Error,
>)
    ensures
        r matches Ok(out) ==> out@ == enc_contact(address@, username@, pk@) && username@.len()
            <= 0xffffffff && fe_canon(address@),
        r is Err <==> (username@.len() > 0xffffffff || !fe_canon(address@)),
{
    if username.len() > 0xffffffff || !address.is_canonical() {
        return Err(crate::Error::Data("contact outside codec bounds".to_string()));
    }
    let mut out: Vec<u8> = Vec::new();
    push_fe(&mut out, address);
    push_u32_le(&mut out, username.len() as u32);
    crate::id::append_bytes(&mut out, username);
    let mut i: usize = 0;
    while i < 32
        invariant
            i <= 32,
            out@ == address@ + u32_le(username@.len() as u32) + username@ + pk@.subrange(
                0,
                i as int,
            ),
        decreases 32 - i,
    {
        out.push(pk.bytes[i]);
        i += 1;
    }
    proof {
        assert(out@ =~= enc_contact(address@, username@, pk@));
    }
    Ok(out)
}

/// Deserialize a contact's parts from their canonical bytes.
pub fn decode_contact(s: &Vec<u8>) -> (r: Option<(Fe, Vec<u8>, crate::eddsa::Pt)>)
    ensures
        r matches Some(v) ==> Some((v.0@, v.1@, v.2@)) == dec_contact(s@),
        r is None ==> dec_contact(s@) is None,
{
    let n = s.len();
    if n < 36 {
        return None;
    }
    let address = read_fe(s, 0).unwrap();
    let nlen32 = read_u32_le(s, 32).unwrap();
    let nlen = nlen32 as usize;
    if n - 36 < nlen || n - 36 - nlen != 32 || !address.is_canonical() {
        return None;
    }
    let mut username: Vec<u8> = Vec::new();
    let mut i: usize = 0;
    while i < nlen
        invariant
            i <= nlen,
            36 + nlen + 32 == n == s@.len(),
            username@ == s@.subrange(36, 36 + i as int),
        decreases nlen - i,
    {
        username.push(s[36 + i]);
        proof {
            assert(s@.subrange(36, 36 + (i + 1) as int) =~= s@.subrange(36, 36 + i as int).push(
                s@[36 + i],
            ));
        }
        i += 1;
    }
    let mut pk_bytes = [0u8; 32];
    let mut j: usize = 0;
    while j < 32
        invariant
            j <= 32,
            36 + nlen + 32 == n == s@.len(),
            forall|k: int| 0 <= k < j ==> pk_bytes@[k] == s@[36 + nlen + k],
        decreases 32 - j,
    {
        pk_bytes.set(j, s[36 + nlen + j]);
        j += 1;
    }
    let pk = crate::eddsa::Pt { bytes: pk_bytes };
    proof {
        assert(address@ =~= dec_contact(s@).unwrap().0);
        assert(username@ =~= dec_contact(s@).unwrap().1);
        assert(pk@ =~= dec_contact(s@).unwrap().2);
    }
    Some((address, username, pk))
}

/// Serializing a contact's parts and deserializing the bytes yields the
/// same parts.
pub proof fn lemma_contact_round_trip(address: Seq<u8>, username: Seq<u8>, pk: Seq<u8>)
    requires
        fe_canon(address),
        pk.len() == 32,
        username.len() <= 0xffffffff,
    ensures
        dec_contact(enc_contact(address, username, pk)) == Some((address, username, pk)),
{
    let s = enc_contact(address, username, pk);
    let nlen = username.len() as int;
    assert(s.len() == 64 + nlen + 4);
    assert(s.subrange(0, 32) =~= address);
    assert(s.subrange(32, 36) =~= u32_le(username.len() as u32));
    lemma_u32_le_round_trip(username.len() as u32);
    assert(s.subrange(36, 36 + nlen) =~= username);
    assert(s.subrange(36 + nlen, s.len() as int) =~= pk);
}

/// Appending one step to a prefix extends its encoding by that step's.
pub proof fn lemma_enc_steps_take(ss: Seq<IVCStepV>, i: int)
    requires
        0 <= i < ss.len(),
    ensures
        enc_steps(ss.take(i + 1)) == enc_steps(ss.take(i)) + enc_step(ss[i]),
    decreases i,
{
    if i == 0 {
        assert(ss.take(0) =~= Seq::<IVCStepV>::empty());
        assert(ss.take(1) =~= seq![ss[0]]);
        assert(seq![ss[0]].drop_first() =~= Seq::<IVCStepV>::empty());
        assert(ss.take(1).len() == 1 && ss.take(1)[0] == ss[0]);
        assert(enc_steps(ss.take(1)) == enc_step(ss.take(1)[0]) + enc_steps(
            ss.take(1).drop_first(),
        ));
        assert(enc_steps(ss.take(1)) =~= enc_step(ss[0]));
        assert(enc_steps(ss.take(0)) + enc_step(ss[0]) =~= enc_step(ss[0]));
    } else {
        let t1 = ss.take(i + 1);
        let t0 = ss.take(i);
        assert(t1[0] == ss[0] && t0[0] == ss[0]);
        assert(t1.drop_first() =~= ss.drop_first().take(i));
        assert(t0.drop_first() =~= ss.drop_first().take(i - 1));
        lemma_enc_steps_take(ss.drop_first(), i - 1);
        assert(ss.drop_first()[i - 1] == ss[i]);
        assert(enc_steps(t1) == enc_step(ss[0]) + enc_steps(ss.drop_first().take(i)));
        assert(enc_steps(ss.drop_first().take(i)) == enc_steps(ss.drop_first().take(i - 1))
            + enc_step(ss[i]));
        assert(enc_steps(t1) =~= enc_steps(t0) + enc_step(ss[i]));
    }
}

/// Append the canonical encoding of one step.
pub fn push_step(buf: &mut Vec<u8>, s: &IVCStep)
    requires
        s.proof@.len() <= 0xffffffff,
    ensures
        final(buf)@ == old(buf)@ + enc_step(s@),
{
    push_u32_le(buf, s.proof.len() as u32);
    crate::id::append_bytes(buf, &s.proof);
    push_fe(buf, &s.state);
    push_fe(buf, &s.nullifier);
    push_fe(buf, &s.sender);
    proof {
        assert(final(buf)@ =~= old(buf)@ + enc_step(s@));
    }
}

/// Serialize a history into its canonical bytes.
pub fn encode_history(h: &crate::note::NoteHistory) -> (r: Result<Vec<u8>, crate::Error>)
    ensures
        r matches Ok(out) ==> out@ == enc_history(h@) && history_codec_wf(h@),
        r is Err ==> !history_codec_wf(h@),
{
    let n = h.steps.len();
    if n > 0xffffffff {
        return Err(crate::Error::Data("too many steps".to_string()));
    }
    let mut i: usize = 0;
    while i < n
        invariant
            i <= n,
            n == h.steps@.len(),
            forall|j: int| 0 <= j < i ==> step_codec_wf(#[trigger] h@.steps[j]),
        decreases n - i,
    {
        let step = &h.steps[i];
        if step.proof.len() > 0xffffffff || !step.state.is_canonical()
            || !step.nullifier.is_canonical() || !step.sender.is_canonical() {
            proof {
                assert(h@.steps[i as int] == h.steps@[i as int]@);
                assert(!step_codec_wf(h@.steps[i as int]));
            }
            return Err(crate::Error::Data("step outside codec bounds".to_string()));
        }
        i += 1;
    }
    if !h.asset.issuer.is_canonical() || !h.current_note.asset_hash.is_canonical()
        || !h.current_note.owner.is_canonical() || !h.current_note.parent_note.is_canonical()
        || !h.current_note.blind.is_canonical() || !h.sibling.is_canonical() {
        return Err(crate::Error::Data("non-canonical field encoding".to_string()));
    }
    let mut out: Vec<u8> = Vec::new();
    push_fe(&mut out, &h.asset.issuer);
    let mut terms = h.asset.terms.to_bytes();
    crate::id::append_bytes(&mut out, &terms);
    proof {
        assert(out@ =~= enc_asset(h.asset));
    }
    push_u32_le(&mut out, n as u32);
    let ghost base = out@;
    let mut k: usize = 0;
    while k < n
        invariant
            k <= n,
            n == h.steps@.len(),
            forall|j: int| 0 <= j < n ==> step_codec_wf(#[trigger] h@.steps[j]),
            out@ == base + enc_steps(h@.steps.take(k as int)),
        decreases n - k,
    {
        proof {
            assert(h@.steps[k as int] == h.steps@[k as int]@);
        }
        push_step(&mut out, &h.steps[k]);
        proof {
            lemma_enc_steps_take(h@.steps, k as int);
        }
        k += 1;
    }
    proof {
        assert(h@.steps.take(n as int) =~= h@.steps);
    }
    push_note(&mut out, &h.current_note);
    push_fe(&mut out, &h.sibling);
    proof {
        assert(out@ =~= enc_history(h@));
    }
    Ok(out)
}

/// Append the canonical encoding of a note.
pub fn push_note(buf: &mut Vec<u8>, n: &Note)
    ensures
        final(buf)@ == old(buf)@ + enc_note(*n),
{
    push_fe(buf, &n.asset_hash);
    push_fe(buf, &n.owner);
    push_u64_le(buf, n.value);
    push_u32_le(buf, n.step);
    push_fe(buf, &n.parent_note);
    let code = n.out_index.code();
    buf.push(code as u8);
    push_fe(buf, &n.blind);
    proof {
        assert(final(buf)@ =~= old(buf)@ + enc_note(*n));
    }
}

/// Read a note at `pos`.
pub fn read_note(s: &Vec<u8>, pos: usize) -> (r: Option<(Note, usize)>)
    ensures
        r matches Some(v) ==> Some((v.0, v.1 as int)) == dec_note_at(s@, pos as int),
        r is None ==> dec_note_at(s@, pos as int) is None,
{
    if pos >= s.len() || s.len() - pos < 141 {
        return None;
    }
    let asset_hash = read_fe(s, pos).unwrap();
    let owner = read_fe(s, pos + 32).unwrap();
    let value = read_u64_le(s, pos + 64).unwrap();
    let step = read_u32_le(s, pos + 72).unwrap();
    let parent = read_fe(s, pos + 76).unwrap();
    let ix_byte = s[pos + 108];
    let blind = read_fe(s, pos + 109).unwrap();
    let out_index = if ix_byte == 1 {
        NoteOutIndex::Out0
    } else if ix_byte == 2 {
        NoteOutIndex::Out1
    } else {
        return None;
    };
    if !asset_hash.is_canonical() || !owner.is_canonical() || !parent.is_canonical()
        || !blind.is_canonical() {
        return None;
    }
    let note = Note {
        asset_hash,
        owner,
        value,
        step,
        parent_note: parent,
        out_index,
        blind,
    };
    proof {
        crate::fe::lemma_fe_from_seq(asset_hash);
        crate::fe::lemma_fe_from_seq(owner);
        crate::fe::lemma_fe_from_seq(parent);
        crate::fe::lemma_fe_from_seq(blind);
    }
    Some((note, pos + 141))
}

/// Read an asset at `pos`.
pub fn read_asset(s: &Vec<u8>, pos: usize) -> (r: Option<(Asset, usize)>)
    ensures
        r matches Some(v) ==> Some((v.0, v.1 as int)) == dec_asset_at(s@, pos as int),
        r is None ==> dec_asset_at(s@, pos as int) is None,
{
    if pos >= s.len() || s.len() - pos < 48 {
        return None;
    }
    let issuer = read_fe(s, pos).unwrap();
    let maturity = read_u64_le(s, pos + 32).unwrap();
    let unit_code = read_u64_le(s, pos + 40).unwrap();
    if unit_code != 0 || !issuer.is_canonical() {
        return None;
    }
    proof {
        crate::fe::lemma_fe_from_seq(issuer);
    }
    Some((Asset { issuer, terms: Terms::IOU { maturity, unit: Unit::USD } }, pos + 48))
}

/// Read a chain step at `pos`.
pub fn read_step(s: &Vec<u8>, pos: usize) -> (r: Option<(IVCStep, usize)>)
    ensures
        r matches Some(v) ==> Some((v.0@, v.1 as int)) == dec_step_at(s@, pos as int),
        r is None ==> dec_step_at(s@, pos as int) is None,
{
    let plen32 = match read_u32_le(s, pos) {
        Some(v) => v,
        None => {
            return None;
        },
    };
    let plen = plen32 as usize;
    let n = s.len();
    if n - (pos + 4) < plen || n - (pos + 4) - plen < 96 {
        return None;
    }
    let mut proof_bytes: Vec<u8> = Vec::new();
    let mut i: usize = 0;
    while i < plen
        invariant
            i <= plen,
            pos + 4 + plen + 96 <= n == s@.len(),
            proof_bytes@ == s@.subrange(pos + 4, pos + 4 + i as int),
        decreases plen - i,
    {
        proof_bytes.push(s[pos + 4 + i]);
        proof {
            assert(s@.subrange(pos + 4, pos + 4 + (i + 1) as int) =~= s@.subrange(
                pos + 4,
                pos + 4 + i as int,
            ).push(s@[pos + 4 + i]));
        }
        i += 1;
    }
    let state = read_fe(s, pos + 4 + plen).unwrap();
    let nullifier = read_fe(s, pos + 4 + plen + 32).unwrap();
    let sender = read_fe(s, pos + 4 + plen + 64).unwrap();
    if !state.is_canonical() || !nullifier.is_canonical() || !sender.is_canonical() {
        return None;
    }
    let step = IVCStep { proof: proof_bytes, state, nullifier, sender };
    proof {
        assert(step@ =~= dec_step_at(s@, pos as int).unwrap().0);
    }
    Some((step, pos + 4 + plen + 96))
}

/// Deserialize a history from its canonical bytes.
pub fn decode_history(s: &Vec<u8>) -> (r: Option<crate::note::NoteHistory>)
    ensures
        r matches Some(h) ==> Some(h@) == dec_history(s@),
        r is None ==> dec_history(s@) is None,
{
    let (asset, p1) = match read_asset(s, 0) {
        Some(v) => v,
        None => {
            return None;
        },
    };
    let count32 = match read_u32_le(s, p1) {
        Some(v) => v,
        None => {
            return None;
        },
    };
    let count = count32 as usize;
    let mut steps: Vec<IVCStep> = Vec::new();
    let mut pos: usize = p1 + 4;
    let mut i: usize = 0;
    while i < count
        invariant
            i <= count,
            dec_asset_at(s@, 0) == Some((asset, p1 as int)),
            p1 + 4 <= s@.len(),
            count as int == u32_from_le(s@.subrange(p1 as int, p1 + 4)) as int,
            dec_steps_at(s@, p1 + 4, count as int) == (match dec_steps_at(
                s@,
                pos as int,
                (count - i) as int,
            ) {
                Some(tail) => Some(
                    (steps@.map_values(|x: IVCStep| x@) + tail.0, tail.1),
                ),
                None => None,
            }),
            steps@.len() == i,
        decreases count - i,
    {
        let (step, next) = match read_step(s, pos) {
            Some(v) => v,
            None => {
                proof {
                    assert(dec_steps_at(s@, pos as int, (count - i) as int) is None);
                    assert(dec_steps_at(s@, p1 + 4, count as int) is None);
                    assert(dec_history(s@) is None);
                }
                return None;
            },
        };
        proof {
            let collected = steps@.map_values(|x: IVCStep| x@);
            let tail_now = dec_steps_at(s@, pos as int, (count - i) as int);
            let tail_next = dec_steps_at(s@, next as int, (count - i - 1) as int);
            match tail_next {
                Some(t) => {
                    assert(tail_now == Some((seq![step@] + t.0, t.1)));
                    assert(collected + (seq![step@] + t.0) =~= (collected.push(step@)) + t.0);
                    assert(steps@.push(step).map_values(|x: IVCStep| x@) =~= collected.push(step@));
                },
                None => {
                    assert(tail_now is None);
                },
            }
        }
        steps.push(step);
        pos = next;
        i += 1;
    }
    proof {
        assert(dec_steps_at(s@, pos as int, 0) == Some((Seq::<IVCStepV>::empty(), pos as int)));
        assert(steps@.map_values(|x: IVCStep| x@) + Seq::<IVCStepV>::empty() =~= steps@.map_values(
            |x: IVCStep| x@,
        ));
    }
    let (note, p2) = match read_note(s, pos) {
        Some(v) => v,
        None => {
            return None;
        },
    };
    if s.len() < 32 || p2 != s.len() - 32 {
        return None;
    }
    let sibling = read_fe(s, p2).unwrap();
    if !sibling.is_canonical() {
        proof {
            assert(!fe_canon(s@.subrange(p2 as int, p2 + 32)));
            assert(dec_history(s@) is None);
        }
        return None;
    }
    let h = crate::note::NoteHistory { asset, steps, current_note: note, sibling };
    proof {
        crate::fe::lemma_fe_from_seq(sibling);
        assert(h@ =~~= dec_history(s@).unwrap());
    }
    Some(h)
}

} // verus!
