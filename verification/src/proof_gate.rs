//! Proof-verification gate.
//!
//! The proof system itself is an opaque boolean-valued oracle supplied by the
//! host: it parses a verification key, then checks a proof against public
//! inputs. This module holds the key material and the deterministic mapping
//! from the oracle's two-stage outcome to this crate's error taxonomy.

use vstd::prelude::*;

verus! {

/// Why proof verification was refused.
#[derive(Clone, Copy, Debug, PartialEq, Eq, PartialOrd, Ord, Structural)]
pub enum VerifierError {
    /// Verification key could not be parsed
    InvalidVk,
    /// Proof verification failed (invalid proof or mismatched inputs)
    VerificationFailed,
}

/// Holds the serialized verification key the oracle checks proofs against.
pub struct UltraHonkVerifierContract {
    vk: Vec<u8>,
}

impl View for UltraHonkVerifierContract {
    type V = Seq<u8>;

    closed spec fn view(&self) -> Seq<u8> {
        self.vk@
    }
}

impl UltraHonkVerifierContract {
    /// Initialize the verifier with a serialized verification key.
    pub fn new(vk_bytes: Vec<u8>) -> (r: UltraHonkVerifierContract)
        ensures
            r@ == vk_bytes@,
    {
        UltraHonkVerifierContract { vk: vk_bytes }
    }

    /// The stored verification key bytes, to hand to the oracle.
    pub fn vk_bytes(&self) -> (r: &Vec<u8>)
        ensures
            r@ == self@,
    {
        &self.vk
    }

    /// Map the oracle's two-stage outcome to a verification result: a key
    /// that did not parse is `InvalidVk`, a parsed key with a failing proof
    /// is `VerificationFailed`, and only a parsed key with a passing proof
    /// verifies.
    pub fn verify_outcome(vk_parsed: bool, proof_valid: bool) -> (r: Result<(), VerifierError>)
        ensures
            r == if !vk_parsed {
                Err::<(), VerifierError>(VerifierError::InvalidVk)
            } else if !proof_valid {
                Err::<(), VerifierError>(VerifierError::VerificationFailed)
            } else {
                Ok::<(), VerifierError>(())
            },
    {
        if !vk_parsed {
            return Err(VerifierError::InvalidVk);
        }
        if !proof_valid {
            return Err(VerifierError::VerificationFailed);
        }
        Ok(())
    }
}

} // verus!
