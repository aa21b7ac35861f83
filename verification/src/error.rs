//! The error taxonomy: every way an instruction can be rejected.

use vstd::prelude::*;

verus! {

/// Errors that may be returned by the registry.
///
/// Every validation failure is detected before any write and aborts the
/// whole instruction, with one documented exception: a liege's vassal list
/// is persisted before the new Title account is allocated, so an
/// `AllocationConflict` can leave the liege already mutated.
#[derive(Clone, Copy, Debug, PartialEq, Eq, Structural)]
pub enum TitleError {
    /// A required signer did not sign.
    MissingSignature,
    /// An account that must be writable is not.
    InvalidWritability,
    /// The account-creation capability is not the expected system allocator.
    WrongAllocatorIdentity,
    /// A bad rank, kind or vassal index, or a rank/liege mismatch.
    InvalidArgument,
    /// A supplied account does not match the recomputed derived address.
    AddressDerivationMismatch,
    /// The caller's House is not the holder of the liege Title.
    AuthorityMismatch,
    /// An existing record could not be deserialized.
    DeserializationFailure,
    /// The target address already holds an account.
    AllocationConflict,
    /// No bump seed yields an off-curve derived address.
    DerivationExhausted,
}

impl TitleError {
    /// A short human-readable description.
    pub fn message(&self) -> (r: &'static str)
        ensures
            match self {
                TitleError::MissingSignature => r@ == "missing required signature"@,
                TitleError::InvalidWritability => r@ == "account is not writable"@,
                TitleError::WrongAllocatorIdentity => r@ == "unexpected system allocator"@,
                TitleError::InvalidArgument => r@ == "invalid argument"@,
                TitleError::AddressDerivationMismatch => r@
                    == "account does not match seed derivation"@,
                TitleError::AuthorityMismatch => r@ == "incorrect authority"@,
                TitleError::DeserializationFailure => r@ == "could not deserialize record"@,
                TitleError::AllocationConflict => r@ == "address already in use"@,
                TitleError::DerivationExhausted => r@ == "no viable bump seed"@,
            },
    {
        let m = match self {
            TitleError::MissingSignature => "missing required signature",
            TitleError::InvalidWritability => "account is not writable",
            TitleError::WrongAllocatorIdentity => "unexpected system allocator",
            TitleError::InvalidArgument => "invalid argument",
            TitleError::AddressDerivationMismatch => "account does not match seed derivation",
            TitleError::AuthorityMismatch => "incorrect authority",
            TitleError::DeserializationFailure => "could not deserialize record",
            TitleError::AllocationConflict => "address already in use",
            TitleError::DerivationExhausted => "no viable bump seed",
        };
        proof {
            reveal_strlit("missing required signature");
            reveal_strlit("account is not writable");
            reveal_strlit("unexpected system allocator");
            reveal_strlit("invalid argument");
            reveal_strlit("account does not match seed derivation");
            reveal_strlit("incorrect authority");
            reveal_strlit("could not deserialize record");
            reveal_strlit("address already in use");
            reveal_strlit("no viable bump seed");
        }
        m
    }
}

} // verus!
