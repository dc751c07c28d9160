use borsh::{BorshDeserialize, BorshSerialize};
use mpl_token_metadata::instruction::builders::{DelegateBuilder, TransferBuilder};
use mpl_token_metadata::instruction::{
    DelegateArgs as MplDelegateArgs, InstructionBuilder, TransferArgs,
};
use mpl_token_metadata::processor::AuthorizationData;
use solana_program::pubkey::Pubkey;

use rooster::address::Address;
use rooster::error::RoosterError;
use rooster::ids;
use rooster::instruction::{
    decode_command, delegate, encode_command, init, withdraw, DelegateArgs, RoosterCommand,
    WithdrawArgs,
};
use rooster::pda::{check_rooster_pda, find_rooster_pda, rooster_seed_bytes};
use rooster::processor::{Action, Participant, Processor};
use rooster::state::Rooster;

fn addr(seed: u8) -> Address {
    let mut bytes = [0u8; 32];
    for (i, b) in bytes.iter_mut().enumerate() {
        *b = seed.wrapping_add(i as u8).wrapping_mul(31);
    }
    Address { bytes }
}

fn part(address: Address, is_signer: bool, is_writable: bool) -> Participant {
    Participant {
        address,
        is_signer,
        is_writable,
    }
}

fn pk(a: &Address) -> Pubkey {
    Pubkey::new_from_array(a.bytes)
}

fn empty_auth_blob() -> Vec<u8> {
    AuthorizationData::new_empty().try_to_vec().unwrap()
}

/// The participant list the Withdraw operation expects, in its fixed order.
fn withdraw_accounts(owner: Address, pda: Address) -> Vec<Participant> {
    vec![
        part(owner, true, true),
        part(pda, false, true),
        part(addr(10), false, true),  // token
        part(addr(11), false, false), // destination owner
        part(addr(12), false, true),  // destination
        part(addr(13), false, false), // mint
        part(addr(14), false, true),  // metadata
        part(addr(15), false, false), // edition
        part(addr(16), false, false), // token record
        part(Address { bytes: ids::TOKEN_METADATA_PROGRAM_ID }, false, false),
        part(Address { bytes: ids::SYSTEM_PROGRAM_ID }, false, false),
        part(Address { bytes: ids::SYSVAR_INSTRUCTIONS_ID }, false, false),
        part(Address { bytes: ids::SPL_TOKEN_PROGRAM_ID }, false, false),
        part(Address { bytes: ids::SPL_ATA_PROGRAM_ID }, false, false),
        part(Address { bytes: ids::AUTH_RULES_PROGRAM_ID }, false, false),
        part(addr(17), false, false), // rule set
    ]
}

/// The participant list the Delegate operation expects, in its fixed order.
fn delegate_accounts(delegate_party: Address, pda: Address) -> Vec<Participant> {
    vec![
        part(delegate_party, true, true),
        part(pda, false, true),
        part(addr(20), false, true),  // token
        part(addr(21), false, false), // mint
        part(addr(22), false, true),  // metadata
        part(addr(23), false, false), // edition
        part(addr(24), false, false), // delegate record
        part(Address { bytes: ids::TOKEN_METADATA_PROGRAM_ID }, false, false),
        part(Address { bytes: ids::SYSTEM_PROGRAM_ID }, false, false),
        part(Address { bytes: ids::SYSVAR_INSTRUCTIONS_ID }, false, false),
        part(Address { bytes: ids::SPL_TOKEN_PROGRAM_ID }, false, false),
    ]
}

#[test]
fn derive_is_deterministic() {
    let owner = addr(1);
    let a = find_rooster_pda(&owner).unwrap();
    let b = find_rooster_pda(&owner).unwrap();
    assert_eq!(a.0.bytes, b.0.bytes);
    assert_eq!(a.1, b.1);
}

#[test]
fn derive_matches_ledger_derivation() {
    let owner = addr(2);
    let (address, bump) = find_rooster_pda(&owner).unwrap();
    let program_id = Pubkey::new_from_array(ids::ROOSTER_PROGRAM_ID);
    let (expected, expected_bump) =
        Pubkey::find_program_address(&[b"rooster", &owner.bytes], &program_id);
    assert_eq!(address.bytes, expected.to_bytes());
    assert_eq!(bump, expected_bump);
}

#[test]
fn derive_differs_per_owner() {
    let a = find_rooster_pda(&addr(3)).unwrap();
    let b = find_rooster_pda(&addr(4)).unwrap();
    assert_ne!(a.0.bytes, b.0.bytes);
}

#[test]
fn seed_literal_is_rooster() {
    assert_eq!(rooster_seed_bytes(), b"rooster".to_vec());
}

#[test]
fn guard_accepts_derived_address() {
    let owner = addr(5);
    let (pda, bump) = find_rooster_pda(&owner).unwrap();
    assert_eq!(check_rooster_pda(&pda, &owner), Ok(bump));
}

#[test]
fn guard_rejects_every_single_bit_mutation() {
    let owner = addr(6);
    let (pda, _) = find_rooster_pda(&owner).unwrap();
    for byte in 0..32 {
        for bit in 0..8 {
            let mut mutated = pda;
            mutated.bytes[byte] ^= 1 << bit;
            assert_eq!(
                check_rooster_pda(&mutated, &owner),
                Err(RoosterError::AuthorityMismatch)
            );
        }
    }
}

#[test]
fn encode_init_is_one_tag_byte() {
    assert_eq!(encode_command(&RoosterCommand::Init), vec![0u8]);
}

#[test]
fn decode_init_roundtrip() {
    match decode_command(&[0u8]) {
        Ok(RoosterCommand::Init) => {}
        other => panic!("expected Init, got {:?}", other),
    }
}

#[test]
fn decode_rejects_unknown_discriminant() {
    assert_eq!(
        decode_command(&[3u8]).unwrap_err(),
        RoosterError::MalformedCommand
    );
    assert_eq!(
        decode_command(&[255u8, 0, 0]).unwrap_err(),
        RoosterError::MalformedCommand
    );
}

#[test]
fn decode_rejects_wrong_lengths() {
    assert_eq!(
        decode_command(&[]).unwrap_err(),
        RoosterError::MalformedCommand
    );
    assert_eq!(
        decode_command(&[0u8, 0]).unwrap_err(),
        RoosterError::MalformedCommand
    );
    let short = [2u8; 41];
    assert_eq!(
        decode_command(&short).unwrap_err(),
        RoosterError::MalformedCommand
    );
    let long = [2u8; 43];
    assert_eq!(
        decode_command(&long).unwrap_err(),
        RoosterError::MalformedCommand
    );
}

#[test]
fn encode_withdraw_roundtrip() {
    let args = WithdrawArgs {
        auth_data: vec![9, 8, 7],
    };
    let bytes = encode_command(&RoosterCommand::Withdraw(args));
    assert_eq!(bytes, vec![1u8, 9, 8, 7]);
    match decode_command(&bytes) {
        Ok(RoosterCommand::Withdraw(a)) => assert_eq!(a.auth_data, vec![9, 8, 7]),
        other => panic!("expected Withdraw, got {:?}", other),
    }
}

#[test]
fn decode_withdraw_accepts_empty_payload() {
    match decode_command(&[1u8]) {
        Ok(RoosterCommand::Withdraw(a)) => assert!(a.auth_data.is_empty()),
        other => panic!("expected Withdraw, got {:?}", other),
    }
}

#[test]
fn encode_delegate_roundtrip_exact_bytes() {
    let authority = addr(7);
    let args = DelegateArgs {
        amount: 0x0102030405060708,
        authority,
        bump: 254,
    };
    let bytes = encode_command(&RoosterCommand::Delegate(args));
    let mut expected = vec![2u8, 8, 7, 6, 5, 4, 3, 2, 1];
    expected.extend_from_slice(&authority.bytes);
    expected.push(254);
    assert_eq!(bytes, expected);
    match decode_command(&bytes) {
        Ok(RoosterCommand::Delegate(d)) => {
            assert_eq!(d.amount, 0x0102030405060708);
            assert_eq!(d.authority.bytes, authority.bytes);
            assert_eq!(d.bump, 254);
        }
        other => panic!("expected Delegate, got {:?}", other),
    }
}

#[test]
fn process_rejects_malformed_payload() {
    let program_id = Address { bytes: ids::ROOSTER_PROGRAM_ID };
    let accounts = vec![];
    assert!(matches!(
        Processor::process_instruction(&program_id, &accounts, &[99]),
        Err(RoosterError::MalformedCommand)
    ));
}

#[test]
fn init_creates_record_with_derived_nonce() {
    let program_id = Address { bytes: ids::ROOSTER_PROGRAM_ID };
    let owner = addr(30);
    let (pda, bump) = find_rooster_pda(&owner).unwrap();
    let accounts = vec![
        part(owner, true, true),
        part(pda, false, true),
        part(Address { bytes: ids::SYSTEM_PROGRAM_ID }, false, false),
    ];
    match Processor::process_instruction(&program_id, &accounts, &[0]).unwrap() {
        Action::CreateRecord {
            program_id: p,
            target,
            funder,
            record,
            seeds,
        } => {
            assert_eq!(p.bytes, ids::ROOSTER_PROGRAM_ID);
            assert_eq!(target.bytes, pda.bytes);
            assert_eq!(funder.bytes, owner.bytes);
            assert_eq!(record.bump, bump);
            assert_eq!(record.serialized(), vec![bump]);
            assert_eq!(seeds.owner.bytes, owner.bytes);
            assert_eq!(seeds.bump, bump);
        }
        Action::InvokeSigned { .. } => panic!("init must not invoke"),
    }
}

#[test]
fn init_rejects_non_signer() {
    let program_id = Address { bytes: ids::ROOSTER_PROGRAM_ID };
    let owner = addr(31);
    let (pda, _) = find_rooster_pda(&owner).unwrap();
    let accounts = vec![
        part(owner, false, true),
        part(pda, false, true),
        part(Address { bytes: ids::SYSTEM_PROGRAM_ID }, false, false),
    ];
    assert!(matches!(
        Processor::process_instruction(&program_id, &accounts, &[0]),
        Err(RoosterError::NotASigner)
    ));
}

#[test]
fn init_rejects_wrong_custody_address() {
    let program_id = Address { bytes: ids::ROOSTER_PROGRAM_ID };
    let owner = addr(32);
    let accounts = vec![
        part(owner, true, true),
        part(addr(33), false, true),
        part(Address { bytes: ids::SYSTEM_PROGRAM_ID }, false, false),
    ];
    assert!(matches!(
        Processor::process_instruction(&program_id, &accounts, &[0]),
        Err(RoosterError::AddressMismatch)
    ));
}

#[test]
fn init_rejects_short_account_list() {
    let program_id = Address { bytes: ids::ROOSTER_PROGRAM_ID };
    let accounts = vec![part(addr(34), true, true)];
    assert!(matches!(
        Processor::process_instruction(&program_id, &accounts, &[0]),
        Err(RoosterError::NotEnoughAccounts)
    ));
}

#[test]
fn withdraw_builds_the_one_transfer_call() {
    let program_id = Address { bytes: ids::ROOSTER_PROGRAM_ID };
    let owner = addr(40);
    let (pda, bump) = find_rooster_pda(&owner).unwrap();
    let accounts = withdraw_accounts(owner, pda);
    let blob = empty_auth_blob();
    let mut payload = vec![1u8];
    payload.extend_from_slice(&blob);

    let action = Processor::process_instruction(&program_id, &accounts, &payload).unwrap();
    let (instruction, seeds) = match action {
        Action::InvokeSigned {
            instruction,
            seeds,
        } => (instruction, seeds),
        Action::CreateRecord { .. } => panic!("withdraw must invoke"),
    };
    assert_eq!(seeds.owner.bytes, owner.bytes);
    assert_eq!(seeds.bump, bump);

    let mut b = TransferBuilder::new();
    b.token(pk(&accounts[2].address))
        .token_owner(pk(&pda))
        .destination(pk(&accounts[4].address))
        .destination_owner(pk(&accounts[3].address))
        .mint(pk(&accounts[5].address))
        .metadata(pk(&accounts[6].address))
        .edition(pk(&accounts[7].address))
        .authorization_rules(pk(&accounts[15].address))
        .authority(pk(&pda))
        .payer(pk(&owner));
    let expected = b
        .build(TransferArgs::V1 {
            amount: 1,
            authorization_data: Some(AuthorizationData::try_from_slice(&blob).unwrap()),
        })
        .unwrap()
        .instruction();

    assert_eq!(instruction.program_id.bytes, expected.program_id.to_bytes());
    assert_eq!(instruction.data, expected.data);
    assert_eq!(instruction.accounts.len(), expected.accounts.len());
    for (got, want) in instruction.accounts.iter().zip(expected.accounts.iter()) {
        assert_eq!(got.address.bytes, want.pubkey.to_bytes());
        assert_eq!(got.is_signer, want.is_signer);
        assert_eq!(got.is_writable, want.is_writable);
    }
    assert_eq!(
        expected.program_id.to_bytes(),
        ids::TOKEN_METADATA_PROGRAM_ID
    );
}

#[test]
fn withdraw_rejects_mismatched_authority() {
    let program_id = Address { bytes: ids::ROOSTER_PROGRAM_ID };
    let owner = addr(41);
    let accounts = withdraw_accounts(owner, addr(42));
    let mut payload = vec![1u8];
    payload.extend_from_slice(&empty_auth_blob());
    assert!(matches!(
        Processor::process_instruction(&program_id, &accounts, &payload),
        Err(RoosterError::AuthorityMismatch)
    ));
}

#[test]
fn withdraw_rejects_malformed_auth_payload() {
    let program_id = Address { bytes: ids::ROOSTER_PROGRAM_ID };
    let owner = addr(43);
    let (pda, _) = find_rooster_pda(&owner).unwrap();
    let accounts = withdraw_accounts(owner, pda);
    // One byte cannot hold the payload's length-prefixed map.
    let payload = vec![1u8, 7];
    assert!(matches!(
        Processor::process_instruction(&program_id, &accounts, &payload),
        Err(RoosterError::TransferBuilderFailed)
    ));
}

#[test]
fn delegate_builds_the_one_delegation_call() {
    let program_id = Address { bytes: ids::ROOSTER_PROGRAM_ID };
    let owner = addr(50);
    let delegate_party = addr(51);
    let (pda, bump) = find_rooster_pda(&owner).unwrap();
    let accounts = delegate_accounts(delegate_party, pda);
    let amount: u64 = 5;
    let args = DelegateArgs {
        amount,
        authority: owner,
        bump,
    };
    let payload = encode_command(&RoosterCommand::Delegate(args));

    let action = Processor::process_instruction(&program_id, &accounts, &payload).unwrap();
    let (instruction, seeds) = match action {
        Action::InvokeSigned {
            instruction,
            seeds,
        } => (instruction, seeds),
        Action::CreateRecord { .. } => panic!("delegate must invoke"),
    };
    assert_eq!(seeds.owner.bytes, owner.bytes);
    assert_eq!(seeds.bump, bump);

    let mut b = DelegateBuilder::new();
    b.delegate(pk(&delegate_party))
        .authority(pk(&pda))
        .delegate_record(pk(&accounts[6].address))
        .token(pk(&accounts[2].address))
        .mint(pk(&accounts[3].address))
        .metadata(pk(&accounts[4].address))
        .master_edition(pk(&accounts[5].address))
        .payer(pk(&delegate_party));
    let expected = b
        .build(MplDelegateArgs::TransferV1 {
            amount,
            authorization_data: None,
        })
        .unwrap()
        .instruction();

    assert_eq!(instruction.program_id.bytes, expected.program_id.to_bytes());
    assert_eq!(instruction.data, expected.data);
    assert_eq!(instruction.accounts.len(), expected.accounts.len());
    for (got, want) in instruction.accounts.iter().zip(expected.accounts.iter()) {
        assert_eq!(got.address.bytes, want.pubkey.to_bytes());
        assert_eq!(got.is_signer, want.is_signer);
        assert_eq!(got.is_writable, want.is_writable);
    }
}

#[test]
fn delegate_rejects_inconsistent_nonce() {
    let program_id = Address { bytes: ids::ROOSTER_PROGRAM_ID };
    let owner = addr(52);
    let (pda, bump) = find_rooster_pda(&owner).unwrap();
    let accounts = delegate_accounts(addr(53), pda);
    let args = DelegateArgs {
        amount: 1,
        authority: owner,
        bump: bump.wrapping_add(1),
    };
    let payload = encode_command(&RoosterCommand::Delegate(args));
    assert!(matches!(
        Processor::process_instruction(&program_id, &accounts, &payload),
        Err(RoosterError::AuthorityMismatch)
    ));
}

#[test]
fn delegate_rejects_inconsistent_authority() {
    let program_id = Address { bytes: ids::ROOSTER_PROGRAM_ID };
    let owner = addr(54);
    let (pda, bump) = find_rooster_pda(&owner).unwrap();
    let accounts = delegate_accounts(addr(55), pda);
    let args = DelegateArgs {
        amount: 1,
        authority: addr(56),
        bump,
    };
    let payload = encode_command(&RoosterCommand::Delegate(args));
    assert!(matches!(
        Processor::process_instruction(&program_id, &accounts, &payload),
        Err(RoosterError::AuthorityMismatch)
    ));
}

#[test]
fn init_request_has_fixed_account_list() {
    let owner = addr(60);
    let (pda, _) = find_rooster_pda(&owner).unwrap();
    let ix = init(owner, pda);
    assert_eq!(ix.program_id.bytes, ids::ROOSTER_PROGRAM_ID);
    assert_eq!(ix.data, vec![0u8]);
    assert_eq!(ix.accounts.len(), 3);
    assert_eq!(ix.accounts[0].address.bytes, owner.bytes);
    assert!(ix.accounts[0].is_signer && ix.accounts[0].is_writable);
    assert_eq!(ix.accounts[1].address.bytes, pda.bytes);
    assert!(!ix.accounts[1].is_signer && ix.accounts[1].is_writable);
    assert_eq!(ix.accounts[2].address.bytes, ids::SYSTEM_PROGRAM_ID);
    assert_eq!(
        ix.accounts[2].address.bytes,
        solana_program::system_program::ID.to_bytes()
    );
}

#[test]
fn withdraw_request_has_fixed_account_list() {
    let owner = addr(61);
    let (pda, _) = find_rooster_pda(&owner).unwrap();
    let token = addr(62);
    let destination_owner = addr(63);
    let destination = addr(64);
    let mint = addr(65);
    let metadata = addr(66);
    let edition = addr(67);
    let rule_set = addr(68);
    let args = WithdrawArgs {
        auth_data: vec![4, 5],
    };
    let ix = withdraw(
        owner,
        pda,
        token,
        destination_owner,
        destination,
        mint,
        metadata,
        edition,
        rule_set,
        args,
    );
    let (token_record, _) = mpl_token_metadata::pda::find_token_record_account(&pk(&mint), &pk(&pda));
    assert_eq!(ix.program_id.bytes, ids::ROOSTER_PROGRAM_ID);
    assert_eq!(ix.data, vec![1u8, 4, 5]);
    let got: Vec<([u8; 32], bool, bool)> = ix
        .accounts
        .iter()
        .map(|m| (m.address.bytes, m.is_signer, m.is_writable))
        .collect();
    let expected: Vec<([u8; 32], bool, bool)> = vec![
        (owner.bytes, true, true),
        (pda.bytes, false, true),
        (token.bytes, false, true),
        (destination_owner.bytes, false, false),
        (destination.bytes, false, true),
        (mint.bytes, false, false),
        (metadata.bytes, false, true),
        (edition.bytes, false, false),
        (token_record.to_bytes(), false, false),
        (ids::TOKEN_METADATA_PROGRAM_ID, false, false),
        (ids::SYSTEM_PROGRAM_ID, false, false),
        (ids::SYSVAR_INSTRUCTIONS_ID, false, false),
        (ids::SPL_TOKEN_PROGRAM_ID, false, false),
        (ids::SPL_ATA_PROGRAM_ID, false, false),
        (ids::AUTH_RULES_PROGRAM_ID, false, false),
        (rule_set.bytes, false, false),
    ];
    assert_eq!(got, expected);
    assert_eq!(
        ids::SYSVAR_INSTRUCTIONS_ID,
        solana_program::sysvar::instructions::ID.to_bytes()
    );
    assert_eq!(ids::SPL_TOKEN_PROGRAM_ID, spl_token::ID.to_bytes());
    assert_eq!(
        ids::TOKEN_METADATA_PROGRAM_ID,
        mpl_token_metadata::ID.to_bytes()
    );
}

#[test]
fn delegate_request_has_fixed_account_list() {
    let owner = addr(70);
    let delegate_party = addr(71);
    let (pda, bump) = find_rooster_pda(&owner).unwrap();
    let token = addr(72);
    let mint = addr(73);
    let metadata = addr(74);
    let edition = addr(75);
    let args = DelegateArgs {
        amount: 9,
        authority: owner,
        bump,
    };
    let ix = delegate(delegate_party, pda, token, mint, metadata, edition, args);
    let (token_record, _) = mpl_token_metadata::pda::find_token_record_account(&pk(&mint), &pk(&pda));
    assert_eq!(ix.program_id.bytes, ids::ROOSTER_PROGRAM_ID);
    assert_eq!(ix.data, encode_command(&RoosterCommand::Delegate(args)));
    let got: Vec<([u8; 32], bool, bool)> = ix
        .accounts
        .iter()
        .map(|m| (m.address.bytes, m.is_signer, m.is_writable))
        .collect();
    let expected: Vec<([u8; 32], bool, bool)> = vec![
        (delegate_party.bytes, true, true),
        (pda.bytes, false, true),
        (token.bytes, false, true),
        (mint.bytes, false, false),
        (metadata.bytes, false, true),
        (edition.bytes, false, false),
        (token_record.to_bytes(), false, false),
        (ids::TOKEN_METADATA_PROGRAM_ID, false, false),
        (ids::SYSTEM_PROGRAM_ID, false, false),
        (ids::SYSVAR_INSTRUCTIONS_ID, false, false),
        (ids::SPL_TOKEN_PROGRAM_ID, false, false),
    ];
    assert_eq!(got, expected);
}

#[test]
fn record_round_trips_nonce() {
    let record = Rooster::new(7);
    assert_eq!(record.bump, 7);
    assert_eq!(record.serialized(), vec![7u8]);
}

#[test]
fn error_codes_are_stable() {
    assert_eq!(RoosterError::NotASigner.code(), 0);
    assert_eq!(RoosterError::AddressMismatch.code(), 1);
    assert_eq!(RoosterError::AuthorityMismatch.code(), 2);
    assert_eq!(RoosterError::MalformedCommand.code(), 3);
    assert_eq!(RoosterError::DerivationExhausted.code(), 4);
    assert_eq!(RoosterError::TransferBuilderFailed.code(), 5);
    assert_eq!(RoosterError::DelegateBuilderFailed.code(), 6);
    assert_eq!(RoosterError::NotEnoughAccounts.code(), 7);
}

#[test]
fn end_to_end_init_then_withdraw_replays_same_nonce() {
    let program_id = Address { bytes: ids::ROOSTER_PROGRAM_ID };
    let owner = addr(80);
    let (pda, bump) = find_rooster_pda(&owner).unwrap();

    let init_accounts = vec![
        part(owner, true, true),
        part(pda, false, true),
        part(Address { bytes: ids::SYSTEM_PROGRAM_ID }, false, false),
    ];
    let record = match Processor::process_instruction(&program_id, &init_accounts, &[0]).unwrap() {
        Action::CreateRecord { record, .. } => record,
        Action::InvokeSigned { .. } => panic!("init must not invoke"),
    };
    assert_eq!(record.bump, bump);
    assert_eq!(record.serialized().len(), 1);

    let accounts = withdraw_accounts(owner, pda);
    let mut payload = vec![1u8];
    payload.extend_from_slice(&empty_auth_blob());
    let seeds = match Processor::process_instruction(&program_id, &accounts, &payload).unwrap() {
        Action::InvokeSigned { seeds, .. } => seeds,
        Action::CreateRecord { .. } => panic!("withdraw must invoke"),
    };
    assert_eq!(seeds.owner.bytes, owner.bytes);
    assert_eq!(seeds.bump, record.bump);
    // The replayed seed list is exactly (b"rooster", owner, [nonce]).
    assert_eq!(rooster_seed_bytes(), b"rooster".to_vec());
}
