//! Deterministic derivation of fixed-width binary identifiers: a logical
//! name's on-wire identifier is the Blake2b-256 digest of its bytes, so two
//! independent invocations naming the same thing agree without an
//! out-of-band exchange.

use crate::validation::{spec_validate, validate_identifier, ValidationError};
use vstd::prelude::*;
use vstd::string::*;

verus! {

/// The Blake2b-256 digest of a byte sequence, as the `blake2` crate
/// computes it: a function of the input bytes alone.
pub uninterp spec fn blake2b_256(input: Seq<u8>) -> Seq<u8>;

/// Relies on `blake2::Blake2b256` (`Digest::digest`): a Blake2b digest with
/// a 32-byte output, depending on the input bytes alone.
#[verifier::external_body]
fn blake2b_hash(input: &[u8]) -> (r: Vec<u8>)
    ensures
        r@ == blake2b_256(input@),
        r@.len() == 32,
{
    let digest = <blake2::Blake2b256 as blake2::Digest>::digest(input);
    digest.to_vec()
}

/// A fixed-size (32-byte) binary identifier, either derived from a logical
/// name or handed over pre-encoded.
#[derive(Clone, Debug, PartialEq, Eq)]
pub struct Digest32 {
    bytes: Vec<u8>,
}

impl View for Digest32 {
    type V = Seq<u8>;

    closed spec fn view(&self) -> Seq<u8> {
        self.bytes@
    }
}

impl Digest32 {
    /// A well-formed identifier holds exactly 32 bytes.
    pub open spec fn wf(&self) -> bool {
        self@.len() == 32
    }

    /// Wraps 32 raw bytes as given.
    pub fn from_bytes(bytes: Vec<u8>) -> (r: Digest32)
        requires
            bytes@.len() == 32,
        ensures
            r@ == bytes@,
            r.wf(),
    {
        Digest32 { bytes }
    }

    /// The identifier's bytes.
    pub fn as_bytes(&self) -> (r: &Vec<u8>)
        ensures
            r@ == self@,
    {
        &self.bytes
    }
}

/// Derives the binary identifier of a byte string.
pub fn derive(input: &[u8]) -> (r: Digest32)
    ensures
        r@ == blake2b_256(input@),
        r.wf(),
{
    let bytes = blake2b_hash(input);
    Digest32 { bytes }
}

/// Derives the binary identifier of a logical name given as text.
pub fn derive_name(name: &str) -> (r: Digest32)
    ensures
        r@ == blake2b_256(name.spec_bytes()),
        r.wf(),
{
    derive(name.as_bytes())
}

/// Validates a channel name against the channel bounds (10 to 64) and, on
/// success, derives its binary identifier; an invalid name is rejected, not
/// derived.
pub fn derive_channel_identifier(id: &str) -> (r: Result<Digest32, ValidationError>)
    ensures
        match r {
            Ok(d) => spec_validate(id@, 10, 64) == Ok::<(), ValidationError>(()) && d@
                == blake2b_256(id.spec_bytes()) && d.wf(),
            Err(e) => spec_validate(id@, 10, 64) == Err::<(), ValidationError>(e),
        },
{
    match validate_identifier(id, 10, 64) {
        Ok(()) => Ok(derive_name(id)),
        Err(e) => Err(e),
    }
}

/// Derivation is deterministic: identical input bytes yield the identical
/// 32-byte identifier.
pub proof fn lemma_derive_deterministic(a: Seq<u8>, b: Seq<u8>)
    requires
        a == b,
    ensures
        blake2b_256(a) == blake2b_256(b),
{
}

} // verus!
