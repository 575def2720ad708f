use vstd::prelude::*;

verus! {

/// A scalar of the proof system's application field, held as its
/// little-endian 32-byte serialization. Values produced by the hashing and
/// curve wrappers are always in canonical (reduced) form; a value decoded
/// from transported bytes is taken as-is, since a non-canonical element can
/// never equal one that was honestly computed.
#[derive(Debug, Clone, Copy)]
pub struct Fe {
    pub bytes: [u8; 32],
}

impl View for Fe {
    type V = Seq<u8>;

    open spec fn view(&self) -> Seq<u8> {
        self.bytes@
    }
}

impl PartialEq for Fe {
    fn eq(&self, other: &Fe) -> (r: bool) {
        self.eq_fe(other)
    }
}

impl Eq for Fe {

}

impl vstd::std_specs::cmp::PartialEqSpecImpl for Fe {
    open spec fn obeys_eq_spec() -> bool {
        true
    }

    open spec fn eq_spec(&self, other: &Fe) -> bool {
        self@ == other@
    }
}

/// Byte `i` of the little-endian encoding of a 64-bit value.
pub open spec fn u64_le_byte(v: u64, i: int) -> u8 {
    ((v >> (8 * i)) & 0xff) as u8
}

/// The canonical field encoding of a 64-bit value: its eight little-endian
/// bytes followed by twenty-four zero bytes.
pub open spec fn fe_of_u64(v: u64) -> Seq<u8> {
    Seq::new(32, |i: int| if i < 8 { u64_le_byte(v, i) } else { 0u8 })
}

/// The zero field element: thirty-two zero bytes.
pub open spec fn fe_zero() -> Seq<u8> {
    Seq::new(32, |i: int| 0u8)
}

impl Fe {
    /// Embed a 64-bit value into the field. Every value below 2^64 is far
    /// below the field modulus, so the encoding is already canonical.
    pub fn from_u64(v: u64) -> (r: Fe)
        ensures
            r@ == fe_of_u64(v),
    {
        let b0: u8 = ((v >> 0) & 0xff) as u8;
        let b1: u8 = ((v >> 8) & 0xff) as u8;
        let b2: u8 = ((v >> 16) & 0xff) as u8;
        let b3: u8 = ((v >> 24) & 0xff) as u8;
        let b4: u8 = ((v >> 32) & 0xff) as u8;
        let b5: u8 = ((v >> 40) & 0xff) as u8;
        let b6: u8 = ((v >> 48) & 0xff) as u8;
        let b7: u8 = ((v >> 56) & 0xff) as u8;
        let r = Fe {
            bytes: [
                b0, b1, b2, b3, b4, b5, b6, b7, 0, 0, 0, 0, 0, 0, 0, 0, 0, 0, 0, 0, 0, 0, 0, 0,
                0, 0, 0, 0, 0, 0, 0, 0,
            ],
        };
        proof {
            assert(r@ =~= fe_of_u64(v));
        }
        r
    }

    /// Embed a 32-bit value into the field.
    pub fn from_u32(v: u32) -> (r: Fe)
        ensures
            r@ == fe_of_u64(v as u64),
    {
        Fe::from_u64(v as u64)
    }

    /// The zero element.
    pub fn zero() -> (r: Fe)
        ensures
            r@ == fe_zero(),
    {
        let r = Fe { bytes: [0u8; 32] };
        proof {
            assert(r@ =~= fe_zero());
        }
        r
    }

    /// Byte-wise equality, which on canonical encodings is field equality.
    pub fn eq_fe(&self, other: &Fe) -> (r: bool)
        ensures
            r == (self@ == other@),
    {
        let mut i: usize = 0;
        while i < 32
            invariant
                i <= 32,
                forall|j: int| 0 <= j < i ==> self@[j] == other@[j],
            decreases 32 - i,
        {
            if self.bytes[i] != other.bytes[i] {
                return false;
            }
            i += 1;
        }
        proof {
            assert(self@ =~= other@);
        }
        true
    }

    /// The bytes of this element as a vector.
    pub fn to_bytes_vec(&self) -> (r: Vec<u8>)
        ensures
            r@ == self@,
    {
        let mut out: Vec<u8> = Vec::new();
        let mut i: usize = 0;
        while i < 32
            invariant
                i <= 32,
                out@ == self@.subrange(0, i as int),
            decreases 32 - i,
        {
            out.push(self.bytes[i]);
            i += 1;
        }
        proof {
            assert(self@.subrange(0, 32) =~= self@);
        }
        out
    }

    /// Whether this is the zero element (on canonical encodings).
    pub fn is_zero(&self) -> (r: bool)
        ensures
            r == (self@ == fe_zero()),
    {
        let z = Fe::zero();
        self.eq_fe(&z)
    }
}

/// The little-endian bytes of the application field's prime modulus.
pub open spec fn fr_modulus_le() -> Seq<u8> {
    seq![
        0x01u8, 0x00u8, 0x00u8, 0xf0u8, 0x93u8, 0xf5u8, 0xe1u8, 0x43u8, 0x91u8, 0x70u8, 0xb9u8,
        0x79u8, 0x48u8, 0xe8u8, 0x33u8, 0x28u8, 0x5du8, 0x58u8, 0x81u8, 0x81u8, 0xb6u8, 0x45u8,
        0x50u8, 0xb8u8, 0x29u8, 0xa0u8, 0x31u8, 0xe1u8, 0x72u8, 0x4eu8, 0x64u8, 0x30u8,
    ]
}

/// Strict less-than of two byte strings read little-endian, decided from
/// byte `i` downwards.
pub open spec fn bytes_lt_from(a: Seq<u8>, b: Seq<u8>, i: int) -> bool
    decreases i + 1,
{
    if i < 0 {
        false
    } else if a[i] != b[i] {
        a[i] < b[i]
    } else {
        bytes_lt_from(a, b, i - 1)
    }
}

/// Whether 32 bytes are the canonical encoding of a field element: read
/// little-endian, they lie strictly below the modulus. Honestly computed
/// elements are canonical; transported bytes are checked against this.
pub open spec fn fe_canon(s: Seq<u8>) -> bool {
    s.len() == 32 && bytes_lt_from(s, fr_modulus_le(), 31)
}

/// The modulus bytes as a value.
fn fr_modulus_bytes() -> (r: [u8; 32])
    ensures
        r@ == fr_modulus_le(),
{
    let r: [u8; 32] = [
        0x01, 0x00, 0x00, 0xf0, 0x93, 0xf5, 0xe1, 0x43, 0x91, 0x70, 0xb9, 0x79, 0x48, 0xe8, 0x33,
        0x28, 0x5d, 0x58, 0x81, 0x81, 0xb6, 0x45, 0x50, 0xb8, 0x29, 0xa0, 0x31, 0xe1, 0x72, 0x4e,
        0x64, 0x30,
    ];
    proof {
        assert(r@ =~= fr_modulus_le());
    }
    r
}

/// The field encoding of a 64-bit value is canonical: its high bytes are
/// zero, far below the modulus.
pub proof fn lemma_fe_of_u64_canon(v: u64)
    ensures
        fe_canon(fe_of_u64(v)),
{
    assert(fe_of_u64(v)[31] == 0 && fr_modulus_le()[31] == 0x30);
    assert(bytes_lt_from(fe_of_u64(v), fr_modulus_le(), 31));
}

/// The zero element is canonical.
pub proof fn lemma_fe_zero_canon()
    ensures
        fe_canon(fe_zero()),
{
    assert(fe_zero()[31] == 0 && fr_modulus_le()[31] == 0x30);
    assert(bytes_lt_from(fe_zero(), fr_modulus_le(), 31));
}

impl Fe {
    /// Whether this element's bytes are canonical.
    pub fn is_canonical(&self) -> (r: bool)
        ensures
            r == fe_canon(self@),
    {
        let m = fr_modulus_bytes();
        let mut i: usize = 32;
        while i > 0
            invariant
                i <= 32,
                m@ == fr_modulus_le(),
                bytes_lt_from(self@, fr_modulus_le(), 31) == bytes_lt_from(
                    self@,
                    fr_modulus_le(),
                    i as int - 1,
                ),
            decreases i,
        {
            i -= 1;
            if self.bytes[i] != m[i] {
                return self.bytes[i] < m[i];
            }
        }
        false
    }

    /// The element carried by exactly these bytes, when they are a
    /// canonical 32-byte encoding; nothing otherwise.
    pub fn from_bytes(bytes: &Vec<u8>) -> (r: Option<Fe>)
        ensures
            r matches Some(f) ==> f@ == bytes@ && fe_canon(bytes@),
            r is None <==> !fe_canon(bytes@),
    {
        if bytes.len() != 32 {
            return None;
        }
        let mut raw = [0u8; 32];
        let mut i: usize = 0;
        while i < 32
            invariant
                i <= 32,
                bytes@.len() == 32,
                forall|j: int| 0 <= j < i ==> raw@[j] == bytes@[j],
            decreases 32 - i,
        {
            raw.set(i, bytes[i]);
            i += 1;
        }
        let f = Fe { bytes: raw };
        proof {
            assert(f@ =~= bytes@);
        }
        if f.is_canonical() {
            Some(f)
        } else {
            None
        }
    }
}

/// The element whose bytes are the given sequence (meaningful for
/// sequences of length 32, which are exactly the views of elements).
pub open spec fn fe_from_seq(s: Seq<u8>) -> Fe {
    choose|f: Fe| f@ == s
}

/// Reading an element's bytes back yields the element.
pub proof fn lemma_fe_from_seq(f: Fe)
    ensures
        fe_from_seq(f@) == f,
{
    assert(f@ == f@);
    let g = choose|x: Fe| x@ == f@;
    assert(g@ == f@);
    assert(g.bytes =~= f.bytes);
}

/// A 64-bit value round-trips through its field encoding: the low eight
/// bytes are exactly its little-endian digits.
pub proof fn lemma_fe_of_u64_injective(a: u64, b: u64)
    ensures
        fe_of_u64(a) == fe_of_u64(b) ==> a == b,
{
    if fe_of_u64(a) == fe_of_u64(b) {
        assert(forall|i: int| 0 <= i < 8 ==> u64_le_byte(a, i) == u64_le_byte(b, i)) by {
            assert(forall|i: int|
                0 <= i < 8 ==> fe_of_u64(a)[i] == u64_le_byte(a, i) && fe_of_u64(b)[i]
                    == u64_le_byte(b, i));
        }
        lemma_u64_le_bytes_injective(a, b);
    }
}

proof fn lemma_u64_le_bytes_injective(a: u64, b: u64)
    requires
        forall|i: int| 0 <= i < 8 ==> u64_le_byte(a, i) == u64_le_byte(b, i),
    ensures
        a == b,
{
    assert(u64_le_byte(a, 0) == u64_le_byte(b, 0) && u64_le_byte(a, 1) == u64_le_byte(b, 1)
        && u64_le_byte(a, 2) == u64_le_byte(b, 2) && u64_le_byte(a, 3) == u64_le_byte(b, 3)
        && u64_le_byte(a, 4) == u64_le_byte(b, 4) && u64_le_byte(a, 5) == u64_le_byte(b, 5)
        && u64_le_byte(a, 6) == u64_le_byte(b, 6) && u64_le_byte(a, 7) == u64_le_byte(b, 7));
    assert(((((a >> 0) & 0xff) as u8 == ((b >> 0) & 0xff) as u8) && (((a >> 8) & 0xff) as u8 == ((
    b >> 8) & 0xff) as u8) && (((a >> 16) & 0xff) as u8 == ((b >> 16) & 0xff) as u8) && (((a
        >> 24) & 0xff) as u8 == ((b >> 24) & 0xff) as u8) && (((a >> 32) & 0xff) as u8 == ((b
        >> 32) & 0xff) as u8) && (((a >> 40) & 0xff) as u8 == ((b >> 40) & 0xff) as u8) && (((a
        >> 48) & 0xff) as u8 == ((b >> 48) & 0xff) as u8) && (((a >> 56) & 0xff) as u8 == ((b
        >> 56) & 0xff) as u8)) ==> a == b) by (bit_vector);
}

} // verus!
