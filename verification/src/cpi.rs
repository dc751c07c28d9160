//! Construction of the one downstream call each operation issues, through
//! the external metadata program's instruction builders.

use vstd::prelude::*;

use borsh::BorshDeserialize;
use mpl_token_metadata::instruction::builders::{DelegateBuilder, TransferBuilder};
use mpl_token_metadata::instruction::DelegateArgs as MplDelegateArgs;
use mpl_token_metadata::instruction::{InstructionBuilder, TransferArgs};
use mpl_token_metadata::processor::AuthorizationData;
use solana_program::pubkey::Pubkey;

use crate::address::Address;
use crate::instruction::{AccountMeta, Instruction};

verus! {

/// The plain shape of a constructed downstream call: program id, ordered
/// account metas, payload.
pub open spec fn parts_model(p: ([u8; 32], Vec<([u8; 32], bool, bool)>, Vec<u8>)) -> (
    Seq<u8>,
    Seq<(Seq<u8>, bool, bool)>,
    Seq<u8>,
) {
    (p.0@, p.1@.map_values(|t: ([u8; 32], bool, bool)| (t.0@, t.1, t.2)), p.2@)
}

/// What the external metadata program's transfer builder constructs for the
/// given accounts (in order: token, token owner, destination, destination
/// owner, mint, metadata, edition, rule set, authority, payer), amount and
/// authorization payload: a pure function of its arguments, None exactly
/// when the payload is not a well-formed authorization structure.
pub uninterp spec fn transfer_cpi_of(
    token: Seq<u8>,
    token_owner: Seq<u8>,
    destination: Seq<u8>,
    destination_owner: Seq<u8>,
    mint: Seq<u8>,
    metadata: Seq<u8>,
    edition: Seq<u8>,
    rule_set: Seq<u8>,
    authority: Seq<u8>,
    payer: Seq<u8>,
    amount: u64,
    auth_data: Seq<u8>,
) -> Option<(Seq<u8>, Seq<(Seq<u8>, bool, bool)>, Seq<u8>)>;

/// What the external metadata program's delegate builder constructs for the
/// given accounts (in order: delegate, authority, delegate record, token,
/// mint, metadata, edition, payer) and amount, with no authorization
/// payload: a pure function of its arguments.
pub uninterp spec fn delegate_cpi_of(
    delegate: Seq<u8>,
    authority: Seq<u8>,
    delegate_record: Seq<u8>,
    token: Seq<u8>,
    mint: Seq<u8>,
    metadata: Seq<u8>,
    edition: Seq<u8>,
    payer: Seq<u8>,
    amount: u64,
) -> (Seq<u8>, Seq<(Seq<u8>, bool, bool)>, Seq<u8>);

/// Relies on mpl_token_metadata's generated `TransferBuilder` and
/// `Transfer::instruction`: with every required account set (in `a`, in
/// the order the name's parameters list) the builder constructs exactly
/// one transfer instruction, deterministically from its arguments; it
/// fails only when `d` does not deserialize as the external program's
/// authorization-data structure.
#[verifier::external_body]
fn build_transfer_cpi(a: &Vec<[u8; 32]>, amount: u64, d: &Vec<u8>) -> (r: Option<
    ([u8; 32], Vec<([u8; 32], bool, bool)>, Vec<u8>),
>)
    requires
        a@.len() == 10,
    ensures
        (r is Some) == (transfer_cpi_of(
            a@[0]@,
            a@[1]@,
            a@[2]@,
            a@[3]@,
            a@[4]@,
            a@[5]@,
            a@[6]@,
            a@[7]@,
            a@[8]@,
            a@[9]@,
            amount,
            d@,
        ) is Some),
        r matches Some(p) ==> Some(parts_model(p)) == transfer_cpi_of(
            a@[0]@,
            a@[1]@,
            a@[2]@,
            a@[3]@,
            a@[4]@,
            a@[5]@,
            a@[6]@,
            a@[7]@,
            a@[8]@,
            a@[9]@,
            amount,
            d@,
        ),
{
    let k = |i| Pubkey::new_from_array(a[i]);
    let ix = TransferBuilder::new().token(k(0)).token_owner(k(1)).destination(k(2))
        .destination_owner(k(3)).mint(k(4)).metadata(k(5)).edition(k(6)).authorization_rules(k(7))
        .authority(k(8)).payer(k(9)).build(TransferArgs::V1 {
        amount,
        authorization_data: Some(AuthorizationData::try_from_slice(d).ok()?),
    }).ok()?.instruction();
    Some((ix.program_id.to_bytes(), ix.accounts.iter().map(
        |m| (m.pubkey.to_bytes(), m.is_signer, m.is_writable),
    ).collect(), ix.data))
}

/// Relies on mpl_token_metadata's generated `DelegateBuilder` and
/// `Delegate::instruction`: with every required account set (in `a`, in
/// the order the name's parameters list) the builder constructs exactly
/// one transfer-delegation instruction, deterministically from its
/// arguments, and cannot fail.
#[verifier::external_body]
fn build_delegate_cpi(a: &Vec<[u8; 32]>, amount: u64) -> (r: Option<
    ([u8; 32], Vec<([u8; 32], bool, bool)>, Vec<u8>),
>)
    requires
        a@.len() == 8,
    ensures
        r is Some,
        r matches Some(p) ==> parts_model(p) == delegate_cpi_of(
            a@[0]@,
            a@[1]@,
            a@[2]@,
            a@[3]@,
            a@[4]@,
            a@[5]@,
            a@[6]@,
            a@[7]@,
            amount,
        ),
{
    let k = |i| Pubkey::new_from_array(a[i]);
    let ix = DelegateBuilder::new().delegate(k(0)).authority(k(1)).delegate_record(k(2))
        .token(k(3)).mint(k(4)).metadata(k(5)).master_edition(k(6)).payer(k(7))
        .build(MplDelegateArgs::TransferV1 { amount, authorization_data: None }).ok()?
        .instruction();
    Some((ix.program_id.to_bytes(), ix.accounts.iter().map(
        |m| (m.pubkey.to_bytes(), m.is_signer, m.is_writable),
    ).collect(), ix.data))
}

/// Assemble a request object from its plain parts.
fn instruction_from_parts(p: ([u8; 32], Vec<([u8; 32], bool, bool)>, Vec<u8>)) -> (ix:
    Instruction)
    ensures
        ix@ == parts_model(p),
{
    let (program_id, metas, data) = p;
    let ghost gp = (program_id, metas, data);
    let mut accounts: Vec<AccountMeta> = Vec::new();
    let mut i: usize = 0;
    while i < metas.len()
        invariant
            i <= metas@.len(),
            accounts@.len() == i,
            forall|j: int|
                0 <= j < i ==> accounts@[j]@ == (metas@[j].0@, metas@[j].1, metas@[j].2),
        decreases metas@.len() - i,
    {
        let m = metas[i];
        accounts.push(
            AccountMeta { address: Address { bytes: m.0 }, is_signer: m.1, is_writable: m.2 },
        );
        i += 1;
    }
    let ix = Instruction { program_id: Address { bytes: program_id }, accounts, data };
    proof {
        assert(ix.metas() =~= gp.1@.map_values(|t: ([u8; 32], bool, bool)| (t.0@, t.1, t.2)));
    }
    ix
}

/// Build the downstream transfer call for a withdraw: the custody authority
/// is both token owner and transfer authority, the owner pays, and the
/// caller's authorization payload is attached unchanged.
pub(crate) fn transfer_cpi(
    token: Address,
    destination: Address,
    destination_owner: Address,
    mint: Address,
    metadata: Address,
    edition: Address,
    rule_set: Address,
    rooster_pda: Address,
    payer: Address,
    amount: u64,
    auth_data: &Vec<u8>,
) -> (r: Option<Instruction>)
    ensures
        (r is Some) == (transfer_cpi_of(
            token@,
            rooster_pda@,
            destination@,
            destination_owner@,
            mint@,
            metadata@,
            edition@,
            rule_set@,
            rooster_pda@,
            payer@,
            amount,
            auth_data@,
        ) is Some),
        r matches Some(ix) ==> Some(ix@) == transfer_cpi_of(
            token@,
            rooster_pda@,
            destination@,
            destination_owner@,
            mint@,
            metadata@,
            edition@,
            rule_set@,
            rooster_pda@,
            payer@,
            amount,
            auth_data@,
        ),
{
    let mut a: Vec<[u8; 32]> = Vec::new();
    a.push(token.bytes);
    a.push(rooster_pda.bytes);
    a.push(destination.bytes);
    a.push(destination_owner.bytes);
    a.push(mint.bytes);
    a.push(metadata.bytes);
    a.push(edition.bytes);
    a.push(rule_set.bytes);
    a.push(rooster_pda.bytes);
    a.push(payer.bytes);
    match build_transfer_cpi(&a, amount, auth_data) {
        Some(p) => Some(instruction_from_parts(p)),
        None => None,
    }
}

/// Build the downstream delegation call: the custody authority approves,
/// the delegate pays, and no authorization payload is attached.
pub(crate) fn delegate_cpi(
    delegate_party: Address,
    rooster_pda: Address,
    delegate_record: Address,
    token: Address,
    mint: Address,
    metadata: Address,
    edition: Address,
    amount: u64,
) -> (r: Option<Instruction>)
    ensures
        r is Some,
        r matches Some(ix) ==> ix@ == delegate_cpi_of(
            delegate_party@,
            rooster_pda@,
            delegate_record@,
            token@,
            mint@,
            metadata@,
            edition@,
            delegate_party@,
            amount,
        ),
{
    let mut a: Vec<[u8; 32]> = Vec::new();
    a.push(delegate_party.bytes);
    a.push(rooster_pda.bytes);
    a.push(delegate_record.bytes);
    a.push(token.bytes);
    a.push(mint.bytes);
    a.push(metadata.bytes);
    a.push(edition.bytes);
    a.push(delegate_party.bytes);
    match build_delegate_cpi(&a, amount) {
        Some(p) => Some(instruction_from_parts(p)),
        None => None,
    }
}

} // verus!
