//! A privacy-preserving transferable note scheme built on an incrementally
//! verifiable chain of SNARK proofs.
//!
//! Each note carries a value and an owner; transferring a note appends a
//! *split* step to its history, and every step is backed by a proof that the
//! step obeys the transition relation (note integrity, zero sum, nullifier
//! integrity, identity binding and a signature check). A receiver verifies a
//! note by checking the proof of every step against public inputs that are
//! recomputed locally from the history itself.

use vstd::prelude::*;

pub mod asset;
pub mod cipher;
pub mod circuit;
pub mod codec;
pub mod eddsa;
pub mod fe;
pub mod hash;
pub mod id;
pub mod note;
pub mod schema;
pub mod tx;
pub mod wallet;

verus! {

/// Errors surfaced by the note engine. Every failure is explicit: verified
/// code in this crate never panics on adversarial input.
#[derive(Debug, Clone, PartialEq, Eq)]
pub enum Error {
    /// A caller-visible, non-terminal failure (for example insufficient funds).
    Custom(String),
    /// Malformed persisted or transported data.
    Data(String),
    /// A failure reported by an outside library.
    External(String),
    /// A history or transaction that fails verification.
    Verify(String),
    /// A transport / service failure, retryable by the caller.
    Service(String),
}

} // verus!
