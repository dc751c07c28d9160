//! The command protocol: the strictly-ordered binary wire format that selects
//! an operation and carries its typed arguments, plus the client-facing
//! request constructors.

use vstd::prelude::*;

use crate::address::Address;
use crate::error::RoosterError;
use crate::ids;
use crate::pda::{find_token_record_pda, token_record_pda_of};

verus! {

/// Arguments of the Withdraw operation: an opaque authorization payload whose
/// internal shape is owned by the external transfer program.
#[derive(Clone, Debug)]
pub struct WithdrawArgs {
    pub auth_data: Vec<u8>,
}

/// Arguments of the Delegate operation.
#[derive(Clone, Copy, Debug)]
pub struct DelegateArgs {
    pub amount: u64,
    pub authority: Address,
    pub bump: u8,
}

/// A decoded request: the operation to run and its arguments.
#[derive(Clone, Debug)]
pub enum RoosterCommand {
    Init,
    Withdraw(WithdrawArgs),
    Delegate(DelegateArgs),
}

/// The mathematical shape of a command, used by all contracts.
pub enum CommandModel {
    Init,
    Withdraw { auth_data: Seq<u8> },
    Delegate { amount: u64, authority: Seq<u8>, bump: u8 },
}

impl CommandModel {
    /// What every command built from the executable types satisfies: an
    /// authority identity is exactly 32 bytes.
    pub open spec fn wf(&self) -> bool {
        match *self {
            CommandModel::Delegate { authority, .. } => authority.len() == 32,
            _ => true,
        }
    }
}

impl View for RoosterCommand {
    type V = CommandModel;

    open spec fn view(&self) -> CommandModel {
        match *self {
            RoosterCommand::Init => CommandModel::Init,
            RoosterCommand::Withdraw(a) => CommandModel::Withdraw { auth_data: a.auth_data@ },
            RoosterCommand::Delegate(a) => CommandModel::Delegate {
                amount: a.amount,
                authority: a.authority@,
                bump: a.bump,
            },
        }
    }
}

/// The little-endian byte image of a 64-bit amount.
pub open spec fn u64_le_bytes(x: u64) -> Seq<u8> {
    seq![
        (x & 0xff) as u8,
        ((x >> 8) & 0xff) as u8,
        ((x >> 16) & 0xff) as u8,
        ((x >> 24) & 0xff) as u8,
        ((x >> 32) & 0xff) as u8,
        ((x >> 40) & 0xff) as u8,
        ((x >> 48) & 0xff) as u8,
        ((x >> 56) & 0xff) as u8,
    ]
}

/// The 64-bit amount read back from eight little-endian bytes.
pub open spec fn u64_from_le(b: Seq<u8>) -> u64
    recommends
        b.len() == 8,
{
    (b[0] as u64) | ((b[1] as u64) << 8) | ((b[2] as u64) << 16) | ((b[3] as u64) << 24)
        | ((b[4] as u64) << 32) | ((b[5] as u64) << 40) | ((b[6] as u64) << 48)
        | ((b[7] as u64) << 56)
}

/// Reading back the little-endian image of an amount yields the amount.
pub proof fn lemma_u64_le_roundtrip(x: u64)
    ensures
        u64_from_le(u64_le_bytes(x)) == x,
{
    assert(((x & 0xff) as u8 as u64) | (((x >> 8) & 0xff) as u8 as u64) << 8
        | (((x >> 16) & 0xff) as u8 as u64) << 16 | (((x >> 24) & 0xff) as u8 as u64) << 24
        | (((x >> 32) & 0xff) as u8 as u64) << 32 | (((x >> 40) & 0xff) as u8 as u64) << 40
        | (((x >> 48) & 0xff) as u8 as u64) << 48 | (((x >> 56) & 0xff) as u8 as u64) << 56
        == x) by (bit_vector);
}

/// Discriminant bytes of the wire format.
pub const INIT_TAG: u8 = 0;

pub const WITHDRAW_TAG: u8 = 1;

pub const DELEGATE_TAG: u8 = 2;

/// Byte length of an encoded Delegate payload: tag, amount, authority, bump.
pub const DELEGATE_LEN: usize = 42;

/// The wire image of a command: a discriminant byte followed by the
/// operation's argument structure in declaration order, with no padding.
pub open spec fn spec_encode(c: CommandModel) -> Seq<u8> {
    match c {
        CommandModel::Init => seq![INIT_TAG],
        CommandModel::Withdraw { auth_data } => seq![WITHDRAW_TAG] + auth_data,
        CommandModel::Delegate { amount, authority, bump } => seq![DELEGATE_TAG]
            + u64_le_bytes(amount) + authority + seq![bump],
    }
}

/// The command a byte string decodes to, if any. Rejects an unknown
/// discriminant and a remainder whose length does not fit the selected
/// argument structure; the Withdraw payload is opaque and may have any
/// length.
pub open spec fn spec_decode(b: Seq<u8>) -> Option<CommandModel> {
    if b.len() == 0 {
        None
    } else if b[0] == INIT_TAG {
        if b.len() == 1 {
            Some(CommandModel::Init)
        } else {
            None
        }
    } else if b[0] == WITHDRAW_TAG {
        Some(CommandModel::Withdraw { auth_data: b.subrange(1, b.len() as int) })
    } else if b[0] == DELEGATE_TAG {
        if b.len() == DELEGATE_LEN {
            Some(CommandModel::Delegate {
                amount: u64_from_le(b.subrange(1, 9)),
                authority: b.subrange(9, 41),
                bump: b[41],
            })
        } else {
            None
        }
    } else {
        None
    }
}

/// Encode a command for the wire.
pub fn encode_command(c: &RoosterCommand) -> (r: Vec<u8>)
    ensures
        r@ == spec_encode(c@),
{
    let mut v: Vec<u8> = Vec::new();
    match c {
        RoosterCommand::Init => {
            v.push(INIT_TAG);
            proof {
                assert(v@ =~= spec_encode(c@));
            }
        },
        RoosterCommand::Withdraw(a) => {
            v.push(WITHDRAW_TAG);
            let mut i: usize = 0;
            while i < a.auth_data.len()
                invariant
                    i <= a.auth_data@.len(),
                    v@.len() == 1 + i,
                    v@[0] == WITHDRAW_TAG,
                    forall|j: int| 0 <= j < i ==> v@[1 + j] == a.auth_data@[j],
                decreases a.auth_data@.len() - i,
            {
                v.push(a.auth_data[i]);
                i += 1;
            }
            proof {
                assert(v@ =~= spec_encode(c@));
            }
        },
        RoosterCommand::Delegate(a) => {
            v.push(DELEGATE_TAG);
            push_u64_le(&mut v, a.amount);
            let mut i: usize = 0;
            while i < 32
                invariant
                    i <= 32,
                    v@.len() == 9 + i,
                    v@.subrange(0, 9) == seq![DELEGATE_TAG] + u64_le_bytes(a.amount),
                    forall|j: int| 0 <= j < i ==> v@[9 + j] == a.authority.bytes@[j],
                decreases 32 - i,
            {
                v.push(a.authority.bytes[i]);
                i += 1;
            }
            v.push(a.bump);
            proof {
                assert(v@ =~= spec_encode(c@));
            }
        },
    }
    v
}

/// Append the little-endian image of an amount.
fn push_u64_le(v: &mut Vec<u8>, x: u64)
    ensures
        final(v)@ == old(v)@ + u64_le_bytes(x),
{
    proof {
        assert((x & 0xff) < 256 && ((x >> 8) & 0xff) < 256 && ((x >> 16) & 0xff) < 256
            && ((x >> 24) & 0xff) < 256 && ((x >> 32) & 0xff) < 256 && ((x >> 40) & 0xff) < 256
            && ((x >> 48) & 0xff) < 256 && ((x >> 56) & 0xff) < 256) by (bit_vector);
    }
    v.push((x & 0xff) as u8);
    v.push(((x >> 8) & 0xff) as u8);
    v.push(((x >> 16) & 0xff) as u8);
    v.push(((x >> 24) & 0xff) as u8);
    v.push(((x >> 32) & 0xff) as u8);
    v.push(((x >> 40) & 0xff) as u8);
    v.push(((x >> 48) & 0xff) as u8);
    v.push(((x >> 56) & 0xff) as u8);
    proof {
        assert(v@ =~= old(v)@ + u64_le_bytes(x));
    }
}

/// Decode an inbound payload, rejecting anything the wire format does not
/// describe.
pub fn decode_command(data: &[u8]) -> (r: Result<RoosterCommand, RoosterError>)
    ensures
        match r {
            Ok(c) => spec_decode(data@) == Some(c@),
            Err(e) => spec_decode(data@) is None && e == RoosterError::MalformedCommand,
        },
{
    if data.len() == 0 {
        return Err(RoosterError::MalformedCommand);
    }
    let tag = data[0];
    if tag == INIT_TAG {
        if data.len() == 1 {
            Ok(RoosterCommand::Init)
        } else {
            Err(RoosterError::MalformedCommand)
        }
    } else if tag == WITHDRAW_TAG {
        let mut auth_data: Vec<u8> = Vec::new();
        let mut i: usize = 1;
        while i < data.len()
            invariant
                1 <= i <= data@.len(),
                auth_data@.len() == i - 1,
                forall|j: int| 0 <= j < i - 1 ==> auth_data@[j] == data@[1 + j],
            decreases data@.len() - i,
        {
            auth_data.push(data[i]);
            i += 1;
        }
        proof {
            assert(auth_data@ =~= data@.subrange(1, data@.len() as int));
        }
        Ok(RoosterCommand::Withdraw(WithdrawArgs { auth_data }))
    } else if tag == DELEGATE_TAG {
        if data.len() != DELEGATE_LEN {
            return Err(RoosterError::MalformedCommand);
        }
        let amount = read_u64_le(data);
        let mut bytes: [u8; 32] = [0; 32];
        let mut i: usize = 0;
        while i < 32
            invariant
                i <= 32,
                data@.len() == 42,
                forall|j: int| 0 <= j < i ==> bytes@[j] == data@[9 + j],
            decreases 32 - i,
        {
            bytes[i] = data[9 + i];
            i += 1;
        }
        proof {
            assert(bytes@ =~= data@.subrange(9, 41));
        }
        let authority = Address { bytes };
        let bump = data[41];
        Ok(RoosterCommand::Delegate(DelegateArgs { amount, authority, bump }))
    } else {
        Err(RoosterError::MalformedCommand)
    }
}

/// Read the amount from bytes 1..9 of an encoded Delegate payload.
fn read_u64_le(data: &[u8]) -> (x: u64)
    requires
        data@.len() >= 9,
    ensures
        x == u64_from_le(data@.subrange(1, 9)),
{
    let x = (data[1] as u64) | ((data[2] as u64) << 8) | ((data[3] as u64) << 16)
        | ((data[4] as u64) << 24) | ((data[5] as u64) << 32) | ((data[6] as u64) << 40)
        | ((data[7] as u64) << 48) | ((data[8] as u64) << 56);
    proof {
        let b = data@.subrange(1, 9);
        assert(b[0] == data@[1] && b[1] == data@[2] && b[2] == data@[3] && b[3] == data@[4]
            && b[4] == data@[5] && b[5] == data@[6] && b[6] == data@[7] && b[7] == data@[8]);
    }
    x
}

/// Round trip: every constructible command decodes back from its own
/// encoding.
pub proof fn lemma_decode_encode(c: CommandModel)
    requires
        c.wf(),
    ensures
        spec_decode(spec_encode(c)) == Some(c),
{
    match c {
        CommandModel::Init => {},
        CommandModel::Withdraw { auth_data } => {
            let b = spec_encode(c);
            assert(b.subrange(1, b.len() as int) =~= auth_data);
        },
        CommandModel::Delegate { amount, authority, bump } => {
            let b = spec_encode(c);
            assert(b.subrange(1, 9) =~= u64_le_bytes(amount));
            assert(b.subrange(9, 41) =~= authority);
            lemma_u64_le_roundtrip(amount);
        },
    }
}

/// One entry of a participant account list: an address with its access
/// flags.
#[derive(Clone, Copy, Debug)]
pub struct AccountMeta {
    pub address: Address,
    pub is_signer: bool,
    pub is_writable: bool,
}

impl View for AccountMeta {
    type V = (Seq<u8>, bool, bool);

    open spec fn view(&self) -> (Seq<u8>, bool, bool) {
        (self.address@, self.is_signer, self.is_writable)
    }
}

/// A fully-formed request object: the target program, the ordered
/// participant list with access flags, and the encoded payload.
#[derive(Clone, Debug)]
pub struct Instruction {
    pub program_id: Address,
    pub accounts: Vec<AccountMeta>,
    pub data: Vec<u8>,
}

impl View for Instruction {
    type V = (Seq<u8>, Seq<(Seq<u8>, bool, bool)>, Seq<u8>);

    open spec fn view(&self) -> (Seq<u8>, Seq<(Seq<u8>, bool, bool)>, Seq<u8>) {
        (self.program_id@, self.metas(), self.data@)
    }
}

impl Instruction {
    /// The ordered participant list, as plain values.
    pub open spec fn metas(&self) -> Seq<(Seq<u8>, bool, bool)> {
        self.accounts@.map_values(|m: AccountMeta| m@)
    }
}

/// Build a request for the Init operation: owner, custody account, and the
/// account-allocation program, with an empty-argument payload.
pub fn init(authority: Address, rooster_pda: Address) -> (ix: Instruction)
    ensures
        ix.program_id@ == ids::ROOSTER_PROGRAM_ID@,
        ix.metas() == seq![
            (authority@, true, true),
            (rooster_pda@, false, true),
            (ids::SYSTEM_PROGRAM_ID@, false, false),
        ],
        ix.data@ == spec_encode(CommandModel::Init),
{
    let mut accounts: Vec<AccountMeta> = Vec::new();
    accounts.push(AccountMeta { address: authority, is_signer: true, is_writable: true });
    accounts.push(AccountMeta { address: rooster_pda, is_signer: false, is_writable: true });
    accounts.push(
        AccountMeta {
            address: ids::system_program_address(),
            is_signer: false,
            is_writable: false,
        },
    );
    let data = encode_command(&RoosterCommand::Init);
    let ix = Instruction { program_id: ids::rooster_program_address(), accounts, data };
    proof {
        assert(ix.metas() =~= seq![
            (authority@, true, true),
            (rooster_pda@, false, true),
            (ids::SYSTEM_PROGRAM_ID@, false, false),
        ]);
    }
    ix
}

/// Build a request for the Withdraw operation: the full fixed-order
/// participant list the external transfer program needs, the token-record
/// account derived from the mint and the custody account, and the opaque
/// authorization payload attached unchanged.
pub fn withdraw(
    authority: Address,
    rooster_pda: Address,
    token: Address,
    destination_owner: Address,
    destination: Address,
    mint: Address,
    metadata: Address,
    edition: Address,
    rule_set: Address,
    args: WithdrawArgs,
) -> (ix: Instruction)
    ensures
        ix.program_id@ == ids::ROOSTER_PROGRAM_ID@,
        ix.metas() == seq![
            (authority@, true, true),
            (rooster_pda@, false, true),
            (token@, false, true),
            (destination_owner@, false, false),
            (destination@, false, true),
            (mint@, false, false),
            (metadata@, false, true),
            (edition@, false, false),
            (token_record_pda_of(mint@, rooster_pda@).0, false, false),
            (ids::TOKEN_METADATA_PROGRAM_ID@, false, false),
            (ids::SYSTEM_PROGRAM_ID@, false, false),
            (ids::SYSVAR_INSTRUCTIONS_ID@, false, false),
            (ids::SPL_TOKEN_PROGRAM_ID@, false, false),
            (ids::SPL_ATA_PROGRAM_ID@, false, false),
            (ids::AUTH_RULES_PROGRAM_ID@, false, false),
            (rule_set@, false, false),
        ],
        ix.data@ == spec_encode(CommandModel::Withdraw { auth_data: args.auth_data@ }),
{
    let (token_record, _) = find_token_record_pda(&mint, &rooster_pda);
    let mut accounts: Vec<AccountMeta> = Vec::new();
    accounts.push(AccountMeta { address: authority, is_signer: true, is_writable: true });
    accounts.push(AccountMeta { address: rooster_pda, is_signer: false, is_writable: true });
    accounts.push(AccountMeta { address: token, is_signer: false, is_writable: true });
    accounts.push(
        AccountMeta { address: destination_owner, is_signer: false, is_writable: false },
    );
    accounts.push(AccountMeta { address: destination, is_signer: false, is_writable: true });
    accounts.push(AccountMeta { address: mint, is_signer: false, is_writable: false });
    accounts.push(AccountMeta { address: metadata, is_signer: false, is_writable: true });
    accounts.push(AccountMeta { address: edition, is_signer: false, is_writable: false });
    accounts.push(AccountMeta { address: token_record, is_signer: false, is_writable: false });
    accounts.push(
        AccountMeta {
            address: ids::token_metadata_program_address(),
            is_signer: false,
            is_writable: false,
        },
    );
    accounts.push(
        AccountMeta {
            address: ids::system_program_address(),
            is_signer: false,
            is_writable: false,
        },
    );
    accounts.push(
        AccountMeta {
            address: ids::sysvar_instructions_address(),
            is_signer: false,
            is_writable: false,
        },
    );
    accounts.push(
        AccountMeta {
            address: ids::spl_token_program_address(),
            is_signer: false,
            is_writable: false,
        },
    );
    accounts.push(
        AccountMeta {
            address: ids::spl_ata_program_address(),
            is_signer: false,
            is_writable: false,
        },
    );
    accounts.push(
        AccountMeta {
            address: ids::auth_rules_program_address(),
            is_signer: false,
            is_writable: false,
        },
    );
    accounts.push(AccountMeta { address: rule_set, is_signer: false, is_writable: false });
    let data = encode_command(&RoosterCommand::Withdraw(args));
    let ix = Instruction { program_id: ids::rooster_program_address(), accounts, data };
    proof {
        assert(ix.metas() =~= seq![
            (authority@, true, true),
            (rooster_pda@, false, true),
            (token@, false, true),
            (destination_owner@, false, false),
            (destination@, false, true),
            (mint@, false, false),
            (metadata@, false, true),
            (edition@, false, false),
            (token_record_pda_of(mint@, rooster_pda@).0, false, false),
            (ids::TOKEN_METADATA_PROGRAM_ID@, false, false),
            (ids::SYSTEM_PROGRAM_ID@, false, false),
            (ids::SYSVAR_INSTRUCTIONS_ID@, false, false),
            (ids::SPL_TOKEN_PROGRAM_ID@, false, false),
            (ids::SPL_ATA_PROGRAM_ID@, false, false),
            (ids::AUTH_RULES_PROGRAM_ID@, false, false),
            (rule_set@, false, false),
        ]);
    }
    ix
}

/// Build a request for the Delegate operation: the fixed-order participant
/// list for a downstream delegation, with the delegate-record account
/// derived from the mint and the custody account.
pub fn delegate(
    delegate_party: Address,
    rooster_pda: Address,
    token: Address,
    mint: Address,
    metadata: Address,
    edition: Address,
    args: DelegateArgs,
) -> (ix: Instruction)
    ensures
        ix.program_id@ == ids::ROOSTER_PROGRAM_ID@,
        ix.metas() == seq![
            (delegate_party@, true, true),
            (rooster_pda@, false, true),
            (token@, false, true),
            (mint@, false, false),
            (metadata@, false, true),
            (edition@, false, false),
            (token_record_pda_of(mint@, rooster_pda@).0, false, false),
            (ids::TOKEN_METADATA_PROGRAM_ID@, false, false),
            (ids::SYSTEM_PROGRAM_ID@, false, false),
            (ids::SYSVAR_INSTRUCTIONS_ID@, false, false),
            (ids::SPL_TOKEN_PROGRAM_ID@, false, false),
        ],
        ix.data@ == spec_encode(
            CommandModel::Delegate {
                amount: args.amount,
                authority: args.authority@,
                bump: args.bump,
            },
        ),
{
    let (token_record, _) = find_token_record_pda(&mint, &rooster_pda);
    let mut accounts: Vec<AccountMeta> = Vec::new();
    accounts.push(AccountMeta { address: delegate_party, is_signer: true, is_writable: true });
    accounts.push(AccountMeta { address: rooster_pda, is_signer: false, is_writable: true });
    accounts.push(AccountMeta { address: token, is_signer: false, is_writable: true });
    accounts.push(AccountMeta { address: mint, is_signer: false, is_writable: false });
    accounts.push(AccountMeta { address: metadata, is_signer: false, is_writable: true });
    accounts.push(AccountMeta { address: edition, is_signer: false, is_writable: false });
    accounts.push(AccountMeta { address: token_record, is_signer: false, is_writable: false });
    accounts.push(
        AccountMeta {
            address: ids::token_metadata_program_address(),
            is_signer: false,
            is_writable: false,
        },
    );
    accounts.push(
        AccountMeta {
            address: ids::system_program_address(),
            is_signer: false,
            is_writable: false,
        },
    );
    accounts.push(
        AccountMeta {
            address: ids::sysvar_instructions_address(),
            is_signer: false,
            is_writable: false,
        },
    );
    accounts.push(
        AccountMeta {
            address: ids::spl_token_program_address(),
            is_signer: false,
            is_writable: false,
        },
    );
    let data = encode_command(&RoosterCommand::Delegate(args));
    let ix = Instruction { program_id: ids::rooster_program_address(), accounts, data };
    proof {
        assert(ix.metas() =~= seq![
            (delegate_party@, true, true),
            (rooster_pda@, false, true),
            (token@, false, true),
            (mint@, false, false),
            (metadata@, false, true),
            (edition@, false, false),
            (token_record_pda_of(mint@, rooster_pda@).0, false, false),
            (ids::TOKEN_METADATA_PROGRAM_ID@, false, false),
            (ids::SYSTEM_PROGRAM_ID@, false, false),
            (ids::SYSVAR_INSTRUCTIONS_ID@, false, false),
            (ids::SPL_TOKEN_PROGRAM_ID@, false, false),
        ]);
    }
    ix
}

/// Rejection: decoding fails exactly on an empty payload, an unknown
/// discriminant, or a remainder of the wrong length for the selected
/// operation.
pub proof fn lemma_decode_rejects(b: Seq<u8>)
    ensures
        (spec_decode(b) is None) <==> (b.len() == 0 || b[0] > DELEGATE_TAG || (b[0] == INIT_TAG
            && b.len() != 1) || (b[0] == DELEGATE_TAG && b.len() != DELEGATE_LEN)),
{
}

} // verus!
