//! The failure taxonomy: every request fails as a unit with one of these.

use vstd::prelude::*;

verus! {

/// Everything a request can fail with before or while building its one
/// downstream call.
#[derive(Clone, Copy, Debug, PartialEq, Eq, Structural)]
pub enum RoosterError {
    /// A required authorizing (signing) participant is absent.
    NotASigner,
    /// The supplied custody account does not match the derivation (Init).
    AddressMismatch,
    /// The supplied authority account does not match the derivation (guard).
    AuthorityMismatch,
    /// The inbound payload does not decode to a command.
    MalformedCommand,
    /// The derivation scan found no usable nonce (practically unreachable).
    DerivationExhausted,
    /// The downstream transfer instruction could not be constructed.
    TransferBuilderFailed,
    /// The downstream delegation instruction could not be constructed.
    DelegateBuilderFailed,
    /// The request supplied fewer participants than the operation needs.
    NotEnoughAccounts,
}

impl RoosterError {
    /// A stable numeric code for reporting the error across the program
    /// boundary.
    pub fn code(&self) -> (c: u32)
        ensures
            c == match *self {
                RoosterError::NotASigner => 0u32,
                RoosterError::AddressMismatch => 1u32,
                RoosterError::AuthorityMismatch => 2u32,
                RoosterError::MalformedCommand => 3u32,
                RoosterError::DerivationExhausted => 4u32,
                RoosterError::TransferBuilderFailed => 5u32,
                RoosterError::DelegateBuilderFailed => 6u32,
                RoosterError::NotEnoughAccounts => 7u32,
            },
    {
        match *self {
            RoosterError::NotASigner => 0,
            RoosterError::AddressMismatch => 1,
            RoosterError::AuthorityMismatch => 2,
            RoosterError::MalformedCommand => 3,
            RoosterError::DerivationExhausted => 4,
            RoosterError::TransferBuilderFailed => 5,
            RoosterError::DelegateBuilderFailed => 6,
            RoosterError::NotEnoughAccounts => 7,
        }
    }
}

} // verus!
