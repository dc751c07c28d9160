//! The well-known program and sysvar addresses that the participant lists
//! and downstream calls name.

use vstd::prelude::*;

use crate::address::Address;

verus! {

/// This custody program's own address.
pub const ROOSTER_PROGRAM_ID: [u8; 32] = [
    5, 95, 97, 151, 16, 169, 200, 77, 26, 116, 158, 147, 16, 152, 239, 167, 139, 173, 81, 14, 13,
    106, 21, 138, 126, 234, 24, 200, 0, 0, 0, 0,
];

/// The token program that ledgers token accounts.
pub const SPL_TOKEN_PROGRAM_ID: [u8; 32] = [
    6, 221, 246, 225, 215, 101, 161, 147, 217, 203, 225, 70, 206, 235, 121, 172, 28, 180, 133,
    237, 95, 91, 55, 145, 58, 140, 245, 133, 126, 255, 0, 169,
];

/// The associated-token-account program.
pub const SPL_ATA_PROGRAM_ID: [u8; 32] = [
    140, 151, 37, 143, 78, 36, 137, 241, 187, 61, 16, 41, 20, 142, 13, 131, 11, 90, 19, 153, 218,
    255, 16, 132, 4, 142, 123, 216, 219, 233, 248, 89,
];

/// The authorization-rules program consulted by the external transfer program.
pub const AUTH_RULES_PROGRAM_ID: [u8; 32] = [
    8, 175, 248, 148, 195, 250, 103, 192, 22, 58, 48, 242, 52, 163, 61, 52, 103, 240, 58, 161,
    100, 23, 49, 94, 180, 184, 20, 39, 189, 155, 166, 237,
];

/// The external token-metadata program that performs transfers and delegations.
pub const TOKEN_METADATA_PROGRAM_ID: [u8; 32] = [
    11, 112, 101, 177, 227, 209, 124, 69, 56, 157, 82, 127, 107, 4, 195, 205, 88, 184, 108, 115,
    26, 160, 253, 181, 73, 182, 209, 188, 3, 248, 41, 70,
];

/// The system (account-allocation) program.
pub const SYSTEM_PROGRAM_ID: [u8; 32] = [
    0, 0, 0, 0, 0, 0, 0, 0, 0, 0, 0, 0, 0, 0, 0, 0, 0, 0, 0, 0, 0, 0, 0, 0, 0, 0, 0, 0, 0, 0, 0,
    0,
];

/// The instruction-introspection sysvar account.
pub const SYSVAR_INSTRUCTIONS_ID: [u8; 32] = [
    6, 167, 213, 23, 24, 123, 209, 102, 53, 218, 212, 4, 85, 253, 194, 192, 193, 36, 198, 143, 33,
    86, 117, 165, 219, 186, 203, 95, 8, 0, 0, 0,
];

pub fn rooster_program_address() -> (a: Address)
    ensures
        a@ == ROOSTER_PROGRAM_ID@,
{
    Address { bytes: ROOSTER_PROGRAM_ID }
}

pub fn spl_token_program_address() -> (a: Address)
    ensures
        a@ == SPL_TOKEN_PROGRAM_ID@,
{
    Address { bytes: SPL_TOKEN_PROGRAM_ID }
}

pub fn spl_ata_program_address() -> (a: Address)
    ensures
        a@ == SPL_ATA_PROGRAM_ID@,
{
    Address { bytes: SPL_ATA_PROGRAM_ID }
}

pub fn auth_rules_program_address() -> (a: Address)
    ensures
        a@ == AUTH_RULES_PROGRAM_ID@,
{
    Address { bytes: AUTH_RULES_PROGRAM_ID }
}

pub fn token_metadata_program_address() -> (a: Address)
    ensures
        a@ == TOKEN_METADATA_PROGRAM_ID@,
{
    Address { bytes: TOKEN_METADATA_PROGRAM_ID }
}

pub fn system_program_address() -> (a: Address)
    ensures
        a@ == SYSTEM_PROGRAM_ID@,
{
    Address { bytes: SYSTEM_PROGRAM_ID }
}

pub fn sysvar_instructions_address() -> (a: Address)
    ensures
        a@ == SYSVAR_INSTRUCTIONS_ID@,
{
    Address { bytes: SYSVAR_INSTRUCTIONS_ID }
}

} // verus!
