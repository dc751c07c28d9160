//! Deterministic derivation of the custody authority address, and the
//! guard that every operation runs before trusting a supplied authority.

use vstd::prelude::*;

use solana_program::pubkey::Pubkey;

use crate::address::Address;
use crate::error::RoosterError;
use crate::ids;

verus! {

/// What the ledger's canonical address derivation returns for a two-part
/// seed (a fixed literal, then an owner identity) under a program: the
/// first nonce from 255 downward whose derived address has no private key,
/// together with that address; or nothing when the scan is exhausted. A
/// pure function of its arguments.
pub uninterp spec fn pda_of(seed: Seq<u8>, owner: Seq<u8>, program_id: Seq<u8>) -> Option<
    (Seq<u8>, u8),
>;

/// What the external metadata program derives as the token-record account
/// for a mint and a token account. A pure function of its arguments.
pub uninterp spec fn token_record_pda_of(mint: Seq<u8>, token: Seq<u8>) -> (Seq<u8>, u8);

/// The fixed textual seed of every custody derivation: "rooster".
pub open spec fn rooster_seed() -> Seq<u8> {
    seq![114u8, 111u8, 111u8, 115u8, 116u8, 101u8, 114u8]
}

/// The seed literal as bytes.
pub fn rooster_seed_bytes() -> (v: Vec<u8>)
    ensures
        v@ == rooster_seed(),
{
    let v: Vec<u8> = vec![114, 111, 111, 115, 116, 101, 114];
    proof {
        assert(v@ =~= rooster_seed());
    }
    v
}

/// The one (address, nonce) pair the derivation yields for an owner under
/// this program.
pub open spec fn rooster_pda_of(owner: Seq<u8>) -> Option<(Seq<u8>, u8)> {
    pda_of(rooster_seed(), owner, ids::ROOSTER_PROGRAM_ID@)
}

/// Relies on solana_program's `Pubkey::try_find_program_address` over the
/// seed list [seed, owner]: a deterministic derivation that returns the
/// first viable (address, nonce) pair scanning nonces 255 downward, or
/// None in the statistically improbable event that none is viable.
#[verifier::external_body]
fn try_find_pda(seed: &Vec<u8>, owner: &Address, program_id: &Address) -> (r: Option<
    (Address, u8),
>)
    ensures
        (r is Some) == (pda_of(seed@, owner@, program_id@) is Some),
        r matches Some(p) ==> pda_of(seed@, owner@, program_id@) == Some((p.0@, p.1)),
{
    let pid = Pubkey::new_from_array(program_id.bytes);
    match Pubkey::try_find_program_address(&[seed.as_slice(), &owner.bytes], &pid) {
        Some((a, b)) => Some((Address { bytes: a.to_bytes() }, b)),
        None => None,
    }
}

/// Relies on mpl_token_metadata's `pda::find_token_record_account`: a
/// deterministic derivation from the mint and token account under the
/// metadata program's fixed seeds. It diverges only if no nonce is viable,
/// which is statistically unreachable.
#[verifier::external_body]
pub(crate) fn find_token_record_pda(mint: &Address, token: &Address) -> (r: (Address, u8))
    ensures
        r.0@ == token_record_pda_of(mint@, token@).0,
        r.1 == token_record_pda_of(mint@, token@).1,
{
    let (a, b) = mpl_token_metadata::pda::find_token_record_account(
        &Pubkey::new_from_array(mint.bytes),
        &Pubkey::new_from_array(token.bytes),
    );
    (Address { bytes: a.to_bytes() }, b)
}

/// Derive the custody authority address and nonce for an owner.
pub fn find_rooster_pda(authority: &Address) -> (r: Result<(Address, u8), RoosterError>)
    ensures
        match r {
            Ok(p) => rooster_pda_of(authority@) == Some((p.0@, p.1)),
            Err(e) => rooster_pda_of(authority@) is None && e
                == RoosterError::DerivationExhausted,
        },
{
    let seed = rooster_seed_bytes();
    let program_id = ids::rooster_program_address();
    match try_find_pda(&seed, authority, &program_id) {
        Some(p) => Ok(p),
        None => Err(RoosterError::DerivationExhausted),
    }
}

/// The authority guard: accept exactly when the supplied custody address
/// equals the derivation for the claimed owner, and hand back the derived
/// nonce — the only seed material ever used for signing.
pub fn check_rooster_pda(rooster_pda: &Address, authority: &Address) -> (r: Result<
    u8,
    RoosterError,
>)
    ensures
        match r {
            Ok(bump) => rooster_pda_of(authority@) == Some((rooster_pda@, bump)),
            Err(e) => match rooster_pda_of(authority@) {
                Some(d) => d.0 != rooster_pda@ && e == RoosterError::AuthorityMismatch,
                None => e == RoosterError::DerivationExhausted,
            },
        },
{
    match find_rooster_pda(authority) {
        Ok(p) => {
            if p.0.equals(rooster_pda) {
                Ok(p.1)
            } else {
                Err(RoosterError::AuthorityMismatch)
            }
        },
        Err(e) => Err(e),
    }
}

/// Derivation is deterministic: any two results of the derivation for the
/// same owner are the same (address, nonce) pair.
pub proof fn lemma_derivation_deterministic(
    owner: Seq<u8>,
    r1: Option<(Seq<u8>, u8)>,
    r2: Option<(Seq<u8>, u8)>,
)
    requires
        r1 == rooster_pda_of(owner),
        r2 == rooster_pda_of(owner),
    ensures
        r1 == r2,
{
}

} // verus!
