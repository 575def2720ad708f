//! Assets: an issuer together with the terms of the obligation the notes
//! stand for. The asset hash is computed outside the circuit (it is never
//! proven in-circuit), as a SHA-512 of the terms and issuer bytes reduced
//! into the application field.

use vstd::prelude::*;

use crate::codec::push_u64_le;
use crate::codec::u64_le;
use crate::fe::Fe;
use crate::hash::fe_mod_of;
use crate::hash::fe_reduce;
use crate::hash::sha512;
use crate::hash::sha512_of;

verus! {

/// The unit an asset's value is denominated in.
#[derive(Debug, Clone, Copy, PartialEq, Eq)]
pub enum Unit {
    USD,
}

/// The numeric tag of a unit.
pub open spec fn unit_code(u: Unit) -> u64 {
    match u {
        Unit::USD => 0,
    }
}

/// The terms of an asset; the single current variant is an IOU.
#[derive(Debug, Clone, Copy, PartialEq, Eq)]
pub enum Terms {
    IOU { maturity: u64, unit: Unit },
}

/// The canonical bytes of the terms: the little-endian maturity followed by
/// the little-endian unit tag.
pub open spec fn terms_bytes_of(t: Terms) -> Seq<u8> {
    match t {
        Terms::IOU { maturity, unit } => u64_le(maturity) + u64_le(unit_code(unit)),
    }
}

impl Terms {
    /// An IOU with the given maturity and unit.
    pub fn iou(maturity: u64, unit: Unit) -> (r: Terms)
        ensures
            r == (Terms::IOU { maturity, unit }),
    {
        Terms::IOU { maturity, unit }
    }

    /// The canonical bytes of the terms.
    pub fn to_bytes(&self) -> (r: Vec<u8>)
        ensures
            r@ == terms_bytes_of(*self),
    {
        let mut out: Vec<u8> = Vec::new();
        match self {
            Terms::IOU { maturity, unit } => {
                push_u64_le(&mut out, *maturity);
                let code: u64 = match unit {
                    Unit::USD => 0,
                };
                push_u64_le(&mut out, code);
            },
        }
        proof {
            assert(out@ =~= terms_bytes_of(*self));
        }
        out
    }
}

/// An asset: an issuer address and the terms it stands behind.
#[derive(Debug, Clone, Copy, PartialEq, Eq)]
pub struct Asset {
    pub issuer: Fe,
    pub terms: Terms,
}

/// The asset hash: SHA-512 of the terms bytes followed by the issuer bytes,
/// reduced into the field.
pub open spec fn asset_hash_of(a: Asset) -> Seq<u8> {
    fe_mod_of(sha512_of(terms_bytes_of(a.terms) + a.issuer@))
}

impl Asset {
    /// An asset from an issuer and terms.
    pub fn new(issuer: &Fe, terms: &Terms) -> (r: Asset)
        ensures
            r == (Asset { issuer: *issuer, terms: *terms }),
    {
        Asset { issuer: *issuer, terms: *terms }
    }

    /// Compute the asset hash.
    pub fn hash(&self) -> (r: Fe)
        ensures
            r@ == asset_hash_of(*self),
    {
        let mut bytes = self.terms.to_bytes();
        crate::codec::push_fe(&mut bytes, &self.issuer);
        let digest = sha512(&bytes);
        fe_reduce(&digest)
    }
}

} // verus!
