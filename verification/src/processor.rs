//! The operation handlers: decode the request, run the authority guard, and
//! turn each operation into the one effect the surrounding runtime must
//! perform — persisting a new custody record, or issuing one signed
//! downstream call.

use vstd::prelude::*;

use crate::address::Address;
use crate::cpi::{delegate_cpi, delegate_cpi_of, transfer_cpi, transfer_cpi_of};
use crate::error::RoosterError;
use crate::instruction::{
    decode_command, spec_decode, CommandModel, DelegateArgs, Instruction, RoosterCommand,
    WithdrawArgs,
};
use crate::pda::{check_rooster_pda, rooster_pda_of, rooster_seed};
use crate::state::Rooster;

verus! {

/// One entry of the inbound participant list: an address and whether the
/// request carries its authorization (signature) and write access.
#[derive(Clone, Copy, Debug)]
pub struct Participant {
    pub address: Address,
    pub is_signer: bool,
    pub is_writable: bool,
}

/// The derivation proof a handler signs a downstream call with: the seeds
/// are the fixed literal, the owner identity, and the guarded nonce.
#[derive(Clone, Copy, Debug)]
pub struct SignerSeeds {
    pub owner: Address,
    pub bump: u8,
}

impl SignerSeeds {
    /// The seed list replayed as the signature: ("rooster", owner, [bump]).
    pub open spec fn model(&self) -> Seq<Seq<u8>> {
        seq![rooster_seed(), self.owner@, seq![self.bump]]
    }
}

/// The single effect a successful request asks of the surrounding runtime.
pub enum Action {
    /// Create the custody record account at `target`, funded by `funder`,
    /// owned by `program_id`, sized and filled with the serialized record,
    /// with the account creation signed by `seeds`.
    CreateRecord {
        program_id: Address,
        target: Address,
        funder: Address,
        record: Rooster,
        seeds: SignerSeeds,
    },
    /// Issue `instruction` as a cross-program call signed by `seeds`.
    InvokeSigned { instruction: Instruction, seeds: SignerSeeds },
}

/// What Init must produce: after the derivation succeeds, the supplied
/// custody account must match it, the owner must sign, and the record
/// created at that address holds exactly the derived nonce.
pub open spec fn init_post(
    program_id: Address,
    accounts: Seq<Participant>,
    r: Result<Action, RoosterError>,
) -> bool {
    if accounts.len() < 3 {
        r == Err::<Action, RoosterError>(RoosterError::NotEnoughAccounts)
    } else {
        let owner = accounts[0];
        let pda = accounts[1];
        match rooster_pda_of(owner.address@) {
            Option::None => r == Err::<Action, RoosterError>(RoosterError::DerivationExhausted),
            Option::Some(d) => {
                if pda.address@ != d.0 {
                    r == Err::<Action, RoosterError>(RoosterError::AddressMismatch)
                } else if !owner.is_signer {
                    r == Err::<Action, RoosterError>(RoosterError::NotASigner)
                } else {
                    &&& r matches Ok(a)
                    &&& a matches Action::CreateRecord {
                        program_id: p,
                        target,
                        funder,
                        record,
                        seeds,
                    }
                    &&& p@ == program_id@
                    &&& target@ == pda.address@
                    &&& funder@ == owner.address@
                    &&& record.bump == d.1
                    &&& seeds.owner@ == owner.address@
                    &&& seeds.bump == d.1
                }
            },
        }
    }
}

/// What Withdraw must produce: the guard must accept the supplied custody
/// account for the owner before anything is built; then exactly one
/// downstream transfer call, for amount 1 with the caller's authorization
/// payload attached unchanged, signed with the owner's derivation proof.
pub open spec fn withdraw_post(
    accounts: Seq<Participant>,
    auth_data: Seq<u8>,
    r: Result<Action, RoosterError>,
) -> bool {
    if accounts.len() < 16 {
        r == Err::<Action, RoosterError>(RoosterError::NotEnoughAccounts)
    } else {
        let owner = accounts[0];
        let pda = accounts[1];
        match rooster_pda_of(owner.address@) {
            Option::None => r == Err::<Action, RoosterError>(RoosterError::DerivationExhausted),
            Option::Some(d) => {
                if pda.address@ != d.0 {
                    r == Err::<Action, RoosterError>(RoosterError::AuthorityMismatch)
                } else {
                    match transfer_cpi_of(
                        accounts[2].address@,
                        pda.address@,
                        accounts[4].address@,
                        accounts[3].address@,
                        accounts[5].address@,
                        accounts[6].address@,
                        accounts[7].address@,
                        accounts[15].address@,
                        pda.address@,
                        owner.address@,
                        1u64,
                        auth_data,
                    ) {
                        Option::None => r == Err::<Action, RoosterError>(
                            RoosterError::TransferBuilderFailed,
                        ),
                        Option::Some(ix) => {
                            &&& r matches Ok(a)
                            &&& a matches Action::InvokeSigned { instruction, seeds }
                            &&& instruction@ == ix
                            &&& seeds.owner@ == owner.address@
                            &&& seeds.bump == d.1
                        },
                    }
                }
            },
        }
    }
}

/// What Delegate must produce: the owner identity and nonce supplied in the
/// arguments must be consistent with the derivation and the supplied
/// custody account; then exactly one downstream delegation call carrying
/// the requested amount and no authorization payload, signed with the
/// re-derived nonce, never the raw caller-supplied one.
pub open spec fn delegate_post(
    accounts: Seq<Participant>,
    amount: u64,
    authority: Seq<u8>,
    bump: u8,
    r: Result<Action, RoosterError>,
) -> bool {
    if accounts.len() < 11 {
        r == Err::<Action, RoosterError>(RoosterError::NotEnoughAccounts)
    } else {
        let delegate_party = accounts[0];
        let pda = accounts[1];
        match rooster_pda_of(authority) {
            Option::None => r == Err::<Action, RoosterError>(RoosterError::DerivationExhausted),
            Option::Some(d) => {
                if pda.address@ != d.0 || bump != d.1 {
                    r == Err::<Action, RoosterError>(RoosterError::AuthorityMismatch)
                } else {
                    &&& r matches Ok(a)
                    &&& a matches Action::InvokeSigned { instruction, seeds }
                    &&& instruction@ == delegate_cpi_of(
                        delegate_party.address@,
                        pda.address@,
                        accounts[6].address@,
                        accounts[2].address@,
                        accounts[3].address@,
                        accounts[4].address@,
                        accounts[5].address@,
                        delegate_party.address@,
                        amount,
                    )
                    &&& seeds.owner@ == authority
                    &&& seeds.bump == d.1
                }
            },
        }
    }
}

pub struct Processor;

impl Processor {
    /// Decode the inbound payload and run the selected operation over the
    /// supplied participant list.
    pub fn process_instruction(
        program_id: &Address,
        accounts: &Vec<Participant>,
        instruction_data: &[u8],
    ) -> (r: Result<Action, RoosterError>)
        ensures
            match spec_decode(instruction_data@) {
                Option::None => r == Err::<Action, RoosterError>(RoosterError::MalformedCommand),
                Option::Some(c) => match c {
                    CommandModel::Init => init_post(*program_id, accounts@, r),
                    CommandModel::Withdraw { auth_data } => withdraw_post(accounts@, auth_data, r),
                    CommandModel::Delegate { amount, authority, bump } => delegate_post(
                        accounts@,
                        amount,
                        authority,
                        bump,
                        r,
                    ),
                },
            },
    {
        let command = match decode_command(instruction_data) {
            Ok(c) => c,
            Err(e) => {
                return Err(e);
            },
        };
        match command {
            RoosterCommand::Init => init(program_id, accounts),
            RoosterCommand::Withdraw(args) => withdraw(program_id, accounts, args),
            RoosterCommand::Delegate(args) => delegate(program_id, accounts, args),
        }
    }
}

/// Run the Init operation: derive, check the supplied custody account and
/// the owner's signature, and ask for the record account to be created and
/// filled.
fn init(program_id: &Address, accounts: &Vec<Participant>) -> (r: Result<Action, RoosterError>)
    ensures
        init_post(*program_id, accounts@, r),
{
    if accounts.len() < 3 {
        return Err(RoosterError::NotEnoughAccounts);
    }
    let owner = accounts[0];
    let pda = accounts[1];
    let derived = match crate::pda::find_rooster_pda(&owner.address) {
        Ok(p) => p,
        Err(e) => {
            return Err(e);
        },
    };
    if !derived.0.equals(&pda.address) {
        return Err(RoosterError::AddressMismatch);
    }
    if !owner.is_signer {
        return Err(RoosterError::NotASigner);
    }
    let record = Rooster::new(derived.1);
    Ok(
        Action::CreateRecord {
            program_id: *program_id,
            target: pda.address,
            funder: owner.address,
            record,
            seeds: SignerSeeds { owner: owner.address, bump: derived.1 },
        },
    )
}

/// Run the Withdraw operation: guard the supplied authority, then build the
/// one downstream transfer call (amount fixed at 1, authorization payload
/// attached unchanged) to be signed with the derivation proof.
pub fn withdraw(
    _program_id: &Address,
    accounts: &Vec<Participant>,
    args: WithdrawArgs,
) -> (r: Result<Action, RoosterError>)
    ensures
        withdraw_post(accounts@, args.auth_data@, r),
{
    if accounts.len() < 16 {
        return Err(RoosterError::NotEnoughAccounts);
    }
    let owner = accounts[0];
    let pda = accounts[1];
    let bump = match check_rooster_pda(&pda.address, &owner.address) {
        Ok(b) => b,
        Err(e) => {
            return Err(e);
        },
    };
    let built = transfer_cpi(
        accounts[2].address,
        accounts[4].address,
        accounts[3].address,
        accounts[5].address,
        accounts[6].address,
        accounts[7].address,
        accounts[15].address,
        pda.address,
        owner.address,
        1,
        &args.auth_data,
    );
    match built {
        Some(instruction) => Ok(
            Action::InvokeSigned {
                instruction,
                seeds: SignerSeeds { owner: owner.address, bump },
            },
        ),
        None => Err(RoosterError::TransferBuilderFailed),
    }
}

/// Run the Delegate operation: re-derive from the owner identity supplied
/// in the arguments, reject anything inconsistent, then build the one
/// downstream delegation call for the requested amount.
pub fn delegate(
    _program_id: &Address,
    accounts: &Vec<Participant>,
    args: DelegateArgs,
) -> (r: Result<Action, RoosterError>)
    ensures
        delegate_post(accounts@, args.amount, args.authority@, args.bump, r),
{
    if accounts.len() < 11 {
        return Err(RoosterError::NotEnoughAccounts);
    }
    let delegate_party = accounts[0];
    let pda = accounts[1];
    let bump = match check_rooster_pda(&pda.address, &args.authority) {
        Ok(b) => b,
        Err(e) => {
            return Err(e);
        },
    };
    if bump != args.bump {
        return Err(RoosterError::AuthorityMismatch);
    }
    let built = delegate_cpi(
        delegate_party.address,
        pda.address,
        accounts[6].address,
        accounts[2].address,
        accounts[3].address,
        accounts[4].address,
        accounts[5].address,
        args.amount,
    );
    match built {
        Some(instruction) => Ok(
            Action::InvokeSigned {
                instruction,
                seeds: SignerSeeds { owner: args.authority, bump },
            },
        ),
        None => Err(RoosterError::DelegateBuilderFailed),
    }
}

/// Init, success: whenever the owner is an authorizing party and the
/// supplied custody account equals the derivation, the record is created
/// with the derived nonce, one byte long, and the creation is signed with
/// the owner's derivation proof.
pub proof fn lemma_init_creates_record(
    program_id: Address,
    accounts: Seq<Participant>,
    r: Result<Action, RoosterError>,
    d: (Seq<u8>, u8),
)
    requires
        init_post(program_id, accounts, r),
        accounts.len() >= 3,
        rooster_pda_of(accounts[0].address@) == Some(d),
        accounts[1].address@ == d.0,
        accounts[0].is_signer,
    ensures
        r matches Ok(a) && a matches Action::CreateRecord { record, seeds, .. } && {
            &&& record.bump == d.1
            &&& record.spec_serialized() == seq![d.1]
            &&& record.spec_serialized().len() == 1
            &&& seeds.owner@ == accounts[0].address@
            &&& seeds.bump == d.1
        },
{
}

/// Init, refusal: whenever the owner is not an authorizing party (and the
/// address check before it passes), the operation fails with NotASigner
/// and creates nothing.
pub proof fn lemma_init_requires_signer(
    program_id: Address,
    accounts: Seq<Participant>,
    r: Result<Action, RoosterError>,
    d: (Seq<u8>, u8),
)
    requires
        init_post(program_id, accounts, r),
        accounts.len() >= 3,
        rooster_pda_of(accounts[0].address@) == Some(d),
        accounts[1].address@ == d.0,
        !accounts[0].is_signer,
    ensures
        r == Err::<Action, RoosterError>(RoosterError::NotASigner),
{
}

/// Withdraw, success: with the guard satisfied, the result is exactly one
/// downstream transfer call — the one the external builder constructs for
/// these accounts with amount 1 and the caller's authorization payload
/// unchanged — signed with the seeds ("rooster", owner, derived nonce).
pub proof fn lemma_withdraw_one_transfer(
    accounts: Seq<Participant>,
    auth_data: Seq<u8>,
    r: Result<Action, RoosterError>,
    d: (Seq<u8>, u8),
    ix: (Seq<u8>, Seq<(Seq<u8>, bool, bool)>, Seq<u8>),
)
    requires
        withdraw_post(accounts, auth_data, r),
        accounts.len() >= 16,
        rooster_pda_of(accounts[0].address@) == Some(d),
        accounts[1].address@ == d.0,
        transfer_cpi_of(
            accounts[2].address@,
            accounts[1].address@,
            accounts[4].address@,
            accounts[3].address@,
            accounts[5].address@,
            accounts[6].address@,
            accounts[7].address@,
            accounts[15].address@,
            accounts[1].address@,
            accounts[0].address@,
            1u64,
            auth_data,
        ) == Some(ix),
    ensures
        r matches Ok(a) && a matches Action::InvokeSigned { instruction, seeds } && {
            &&& instruction@ == ix
            &&& seeds.owner@ == accounts[0].address@
            &&& seeds.bump == d.1
            &&& seeds.model() == seq![rooster_seed(), accounts[0].address@, seq![d.1]]
        },
{
    let a = r->Ok_0;
    let seeds = a->InvokeSigned_seeds;
    assert(seeds.model() =~= seq![rooster_seed(), accounts[0].address@, seq![d.1]]);
}

/// Withdraw, refusal: whenever the supplied authority account disagrees
/// with the derivation for the owner, the guard fails the request with
/// AuthorityMismatch and no downstream call is produced.
pub proof fn lemma_withdraw_guard_rejects(
    accounts: Seq<Participant>,
    auth_data: Seq<u8>,
    r: Result<Action, RoosterError>,
    d: (Seq<u8>, u8),
)
    requires
        withdraw_post(accounts, auth_data, r),
        accounts.len() >= 16,
        rooster_pda_of(accounts[0].address@) == Some(d),
        accounts[1].address@ != d.0,
    ensures
        r == Err::<Action, RoosterError>(RoosterError::AuthorityMismatch),
{
}

/// Delegate, success: with consistent arguments, the result is exactly one
/// downstream delegation call — the one the external builder constructs
/// for these accounts carrying the requested amount and no authorization
/// payload — and the signing nonce is the re-derived one.
pub proof fn lemma_delegate_carries_amount(
    accounts: Seq<Participant>,
    amount: u64,
    authority: Seq<u8>,
    bump: u8,
    r: Result<Action, RoosterError>,
    d: (Seq<u8>, u8),
)
    requires
        delegate_post(accounts, amount, authority, bump, r),
        accounts.len() >= 11,
        rooster_pda_of(authority) == Some(d),
        accounts[1].address@ == d.0,
        bump == d.1,
    ensures
        r matches Ok(a) && a matches Action::InvokeSigned { instruction, seeds } && {
            &&& instruction@ == delegate_cpi_of(
                accounts[0].address@,
                accounts[1].address@,
                accounts[6].address@,
                accounts[2].address@,
                accounts[3].address@,
                accounts[4].address@,
                accounts[5].address@,
                accounts[0].address@,
                amount,
            )
            &&& seeds.owner@ == authority
            &&& seeds.bump == d.1
            &&& seeds.model() == seq![rooster_seed(), authority, seq![d.1]]
        },
{
    let a = r->Ok_0;
    let seeds = a->InvokeSigned_seeds;
    assert(seeds.model() =~= seq![rooster_seed(), authority, seq![d.1]]);
}

/// End to end: a record created by Init for an owner carries the derived
/// nonce, and a later Withdraw that references the same owner and custody
/// account re-derives that same nonce and signs with the seeds
/// ("rooster", owner, nonce).
pub proof fn lemma_record_reauthorizes(
    program_id: Address,
    init_accounts: Seq<Participant>,
    withdraw_accounts: Seq<Participant>,
    auth_data: Seq<u8>,
    a1: Action,
    a2: Action,
)
    requires
        init_post(program_id, init_accounts, Ok(a1)),
        withdraw_post(withdraw_accounts, auth_data, Ok(a2)),
        init_accounts.len() >= 3,
        withdraw_accounts.len() >= 16,
        withdraw_accounts[0].address@ == init_accounts[0].address@,
    ensures
        a1 matches Action::CreateRecord { record, seeds: s1, .. } && a2
            matches Action::InvokeSigned { seeds: s2, .. } && {
            &&& s1.bump == record.bump
            &&& s2.bump == record.bump
            &&& s2.owner@ == init_accounts[0].address@
            &&& rooster_pda_of(init_accounts[0].address@) == Some(
                (withdraw_accounts[1].address@, record.bump),
            )
            &&& s2.model() == seq![
                rooster_seed(),
                init_accounts[0].address@,
                seq![record.bump],
            ]
        },
{
    let record = a1->CreateRecord_record;
    let s2 = a2->InvokeSigned_seeds;
    assert(s2.model() =~= seq![rooster_seed(), init_accounts[0].address@, seq![record.bump]]);
}

} // verus!
