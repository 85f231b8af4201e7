#![allow(deprecated)]

use solana_program::pubkey::Pubkey;
use solana_program::system_instruction;
use token_escrow::account::Account;
use token_escrow::address::{
    find_escrow_address, find_holding_address, Address, ASSOCIATED_TOKEN_PROGRAM_ID,
    SYSTEM_PROGRAM_ID, TOKEN_PROGRAM_ID,
};
use token_escrow::error::EscrowError;
use token_escrow::instruction::{AccountMeta, Instruction};
use token_escrow::instructions::{
    escrow_pda_create, escrow_pda_create_with, open_holding_account, transfer_pda_to_buyer,
    transfer_pda_to_buyer_with, transfer_tokens, BuyTokensArgs, TransferTokensArgs,
};
use token_escrow::address::DerivedAuthority;
use token_escrow::plan::{Invocation, Plan};
use token_escrow::processor::process_instruction;

fn address(seed: u8) -> Address {
    let mut bytes = [0u8; 32];
    for (i, byte) in bytes.iter_mut().enumerate() {
        *byte = seed.wrapping_mul(31).wrapping_add(i as u8);
    }
    Address::new(bytes)
}

fn key(address: &Address) -> Pubkey {
    Pubkey::new_from_array(address.bytes)
}

fn model(built: solana_program::instruction::Instruction) -> Instruction {
    Instruction {
        program_id: Address::new(built.program_id.to_bytes()),
        accounts: built
            .accounts
            .iter()
            .map(|meta| AccountMeta {
                pubkey: Address::new(meta.pubkey.to_bytes()),
                is_signer: meta.is_signer,
                is_writable: meta.is_writable,
            })
            .collect(),
        data: built.data,
    }
}

fn meta(pubkey: Address, is_signer: bool, is_writable: bool) -> AccountMeta {
    AccountMeta { pubkey, is_signer, is_writable }
}

fn rejected(error: EscrowError) -> Plan {
    Plan { invocations: vec![], outcome: Err(error) }
}

const PROGRAM: u8 = 200;
const SELLER: u8 = 1;
const MINT: u8 = 2;
const BUYER: u8 = 3;
const SELLER_HOLDING: u8 = 4;
const PAYER: u8 = 5;

fn derived() -> DerivedAuthority {
    find_escrow_address(&address(PROGRAM), &address(MINT)).unwrap()
}

fn custodian() -> (Address, u8) {
    (derived().address(), derived().bump())
}

fn holding_of(wallet: &Address) -> Address {
    find_holding_address(wallet, &address(MINT)).unwrap().0
}

fn create_accounts(target: Address) -> Vec<Account> {
    vec![
        Account::new(address(SELLER), true, 1_000_000),
        Account::new(address(MINT), false, 1),
        Account::new(target, false, 0),
    ]
}

/// mint, seller's holding, custodial holding, owner, custodial account, payer,
/// system program, token program
fn deposit_accounts(custodial_holding_lamports: u64) -> Vec<Account> {
    let (custodian, _) = custodian();
    vec![
        Account::new(address(MINT), false, 1),
        Account::new(address(SELLER_HOLDING), false, 2_039_280),
        Account::new(holding_of(&custodian), false, custodial_holding_lamports),
        Account::new(address(SELLER), true, 1_000_000),
        Account::new(custodian, false, 1_447_680),
        Account::new(address(PAYER), true, 5_000_000),
        Account::new(Address::new(SYSTEM_PROGRAM_ID), false, 1),
        Account::new(Address::new(TOKEN_PROGRAM_ID), false, 1),
    ]
}

/// mint, custodial holding, buyer's holding, custodial account, buyer, payer,
/// seller, system program, token program
fn settle_accounts(buyer_holding_lamports: u64) -> Vec<Account> {
    let (custodian, _) = custodian();
    vec![
        Account::new(address(MINT), false, 1),
        Account::new(holding_of(&custodian), false, 2_039_280),
        Account::new(holding_of(&address(BUYER)), false, buyer_holding_lamports),
        Account::new(custodian, false, 1_447_680),
        Account::new(address(BUYER), true, 5_000_000),
        Account::new(address(BUYER), true, 5_000_000),
        Account::new(address(SELLER), false, 1_000_000),
        Account::new(Address::new(SYSTEM_PROGRAM_ID), false, 1),
        Account::new(Address::new(TOKEN_PROGRAM_ID), false, 1),
    ]
}

// ---- creating an escrow ----

#[test]
fn create_asks_for_the_account_at_the_derived_address() {
    let authority = derived();
    let target = authority.address();
    let plan = escrow_pda_create(&address(PROGRAM), &create_accounts(target), 1_447_680);
    let expected = system_instruction::create_account(
        &key(&address(SELLER)),
        &key(&target),
        1_447_680,
        80,
        &key(&address(PROGRAM)),
    );
    assert_eq!(
        plan,
        Plan {
            invocations: vec![Invocation {
                instruction: model(expected),
                accounts: vec![0, 2],
                authority: Some(authority),
            }],
            outcome: Ok(()),
        }
    );
}

#[test]
fn create_instruction_is_spelled_out() {
    let (target, _) = custodian();
    let plan = escrow_pda_create(&address(PROGRAM), &create_accounts(target), 0x0102_0304);
    let instruction = &plan.invocations[0].instruction;
    assert_eq!(instruction.program_id, Address::new([0; 32]));
    assert_eq!(
        instruction.accounts,
        vec![meta(address(SELLER), true, true), meta(target, true, true)]
    );
    let mut data = vec![0u8, 0, 0, 0, 4, 3, 2, 1, 0, 0, 0, 0, 80, 0, 0, 0, 0, 0, 0, 0];
    data.extend_from_slice(&address(PROGRAM).bytes);
    assert_eq!(instruction.data, data);
}

#[test]
fn create_without_the_sellers_signature_is_refused() {
    let (target, _) = custodian();
    let mut accounts = create_accounts(target);
    accounts[0].is_signer = false;
    let plan = escrow_pda_create(&address(PROGRAM), &accounts, 1_447_680);
    assert_eq!(plan, rejected(EscrowError::MissingRequiredSignature));
}

#[test]
fn create_at_another_address_is_refused() {
    let (target, _) = custodian();
    let mut other = target.bytes;
    other[7] ^= 1;
    for wrong in [Address::new(other), address(SELLER), address(MINT), Address::new([0; 32])] {
        let plan = escrow_pda_create(&address(PROGRAM), &create_accounts(wrong), 1_447_680);
        assert_eq!(plan, rejected(EscrowError::InvalidArgument));
    }
}

#[test]
fn create_checks_the_signature_before_the_address() {
    let mut accounts = create_accounts(address(99));
    accounts[0].is_signer = false;
    let plan = escrow_pda_create(&address(PROGRAM), &accounts, 1_447_680);
    assert_eq!(plan, rejected(EscrowError::MissingRequiredSignature));
}

#[test]
fn create_for_another_asset_or_program_has_another_address() {
    let (target, _) = custodian();
    let mut accounts = create_accounts(target);
    accounts[1].key = address(MINT + 1);
    assert_eq!(
        escrow_pda_create(&address(PROGRAM), &accounts, 1),
        rejected(EscrowError::InvalidArgument)
    );
    assert_eq!(
        escrow_pda_create(&address(PROGRAM + 1), &create_accounts(target), 1),
        rejected(EscrowError::InvalidArgument)
    );
}

#[test]
fn create_twice_asks_for_the_same_address() {
    let (target, _) = custodian();
    let first = escrow_pda_create(&address(PROGRAM), &create_accounts(target), 10);
    let mut accounts = create_accounts(target);
    accounts[0].key = address(BUYER);
    let second = escrow_pda_create(&address(PROGRAM), &accounts, 20);
    assert_eq!(first.outcome, Ok(()));
    assert_eq!(second.outcome, Ok(()));
    assert_eq!(
        first.invocations[0].instruction.accounts[1].pubkey,
        second.invocations[0].instruction.accounts[1].pubkey
    );
    assert_eq!(first.invocations[0].authority, second.invocations[0].authority);
}

#[test]
fn create_against_a_derivation_made_before() {
    let (target, _) = custodian();
    let accounts = create_accounts(target);
    assert_eq!(
        escrow_pda_create_with(&address(PROGRAM), &accounts, 7, Some(derived())),
        escrow_pda_create(&address(PROGRAM), &accounts, 7)
    );
}

#[test]
fn create_against_a_derivation_for_something_else_is_refused() {
    let (target, _) = custodian();
    let other_asset = find_escrow_address(&address(PROGRAM), &address(MINT + 1)).unwrap();
    let other_program = find_escrow_address(&address(PROGRAM + 1), &address(MINT)).unwrap();
    for derived in [other_asset, other_program] {
        for accounts in [create_accounts(target), create_accounts(derived.address())] {
            assert_eq!(
                escrow_pda_create_with(&address(PROGRAM), &accounts, 7, Some(derived)),
                rejected(EscrowError::InvalidArgument)
            );
        }
    }
}

#[test]
fn create_without_a_derived_address_is_refused() {
    let (target, _) = custodian();
    assert_eq!(
        escrow_pda_create_with(&address(PROGRAM), &create_accounts(target), 7, None),
        rejected(EscrowError::NoViableAddress)
    );
}

// ---- depositing ----

fn expected_opening(payer: u8, wallet: &Address, handed: Vec<usize>) -> Invocation {
    let built = spl_associated_token_account::instruction::create_associated_token_account(
        &key(&address(payer)),
        &key(wallet),
        &key(&address(MINT)),
        &spl_token::id(),
    );
    Invocation { instruction: model(built), accounts: handed, authority: None }
}

fn expected_deposit(quantity: u64) -> Invocation {
    let accounts = deposit_accounts(1);
    let owner = key(&accounts[3].key);
    let built = spl_token::instruction::transfer(
        &spl_token::id(),
        &key(&accounts[1].key),
        &key(&accounts[2].key),
        &owner,
        &[&owner],
        quantity,
    )
    .unwrap();
    Invocation { instruction: model(built), accounts: vec![1, 2, 3, 3], authority: None }
}

#[test]
fn deposit_into_an_existing_holding_account_only_transfers() {
    let args = TransferTokensArgs { quantity: 10, bump_seed: custodian().1 };
    let plan = transfer_tokens(&deposit_accounts(2_039_280), args);
    assert_eq!(plan, Plan { invocations: vec![expected_deposit(10)], outcome: Ok(()) });
}

#[test]
fn deposit_creates_a_missing_holding_account_first() {
    let args = TransferTokensArgs { quantity: 10, bump_seed: custodian().1 };
    let plan = transfer_tokens(&deposit_accounts(0), args);
    assert_eq!(
        plan,
        Plan {
            invocations: vec![
                expected_opening(PAYER, &custodian().0, vec![5, 2, 4, 0, 6, 7]),
                expected_deposit(10),
            ],
            outcome: Ok(()),
        }
    );
}

#[test]
fn deposit_instruction_is_spelled_out() {
    let accounts = deposit_accounts(7);
    let plan = transfer_tokens(&accounts, TransferTokensArgs { quantity: 0x0A0B, bump_seed: 0 });
    let instruction = &plan.invocations[0].instruction;
    assert_eq!(instruction.program_id, Address::new(TOKEN_PROGRAM_ID));
    assert_eq!(
        instruction.accounts,
        vec![
            meta(accounts[1].key, false, true),
            meta(accounts[2].key, false, true),
            meta(accounts[3].key, false, false),
            meta(accounts[3].key, true, false),
        ]
    );
    assert_eq!(instruction.data, vec![3u8, 0x0B, 0x0A, 0, 0, 0, 0, 0, 0]);
}

#[test]
fn opening_instruction_is_spelled_out() {
    let accounts = deposit_accounts(0);
    let plan = transfer_tokens(&accounts, TransferTokensArgs { quantity: 1, bump_seed: 0 });
    let opening = &plan.invocations[0];
    assert_eq!(opening.instruction.program_id, Address::new(ASSOCIATED_TOKEN_PROGRAM_ID));
    assert_eq!(
        opening.instruction.accounts,
        vec![
            meta(address(PAYER), true, true),
            meta(holding_of(&custodian().0), false, true),
            meta(custodian().0, false, false),
            meta(address(MINT), false, false),
            meta(Address::new(SYSTEM_PROGRAM_ID), false, false),
            meta(Address::new(TOKEN_PROGRAM_ID), false, false),
        ]
    );
    assert_eq!(opening.instruction.data, vec![0u8]);
    assert_eq!(opening.accounts, vec![5, 2, 4, 0, 6, 7]);
    assert_eq!(opening.authority, None);
}

#[test]
fn opening_is_built_for_the_positions_given() {
    let accounts = settle_accounts(0);
    let opening = open_holding_account(&accounts, 7, 8).unwrap();
    assert_eq!(opening, expected_opening(BUYER, &address(BUYER), vec![5, 2, 4, 0, 7, 8]));
}

#[test]
fn deposit_with_too_few_accounts_is_refused() {
    let args = TransferTokensArgs { quantity: 10, bump_seed: 0 };
    let accounts = deposit_accounts(0);
    for len in 0..8 {
        assert_eq!(
            transfer_tokens(&accounts[..len], args),
            rejected(EscrowError::NotEnoughAccountKeys)
        );
    }
}

#[test]
fn deposit_through_another_token_program_fails_after_the_opening() {
    let args = TransferTokensArgs { quantity: 10, bump_seed: 0 };
    let mut accounts = deposit_accounts(5);
    accounts[7].key = address(42);
    assert_eq!(transfer_tokens(&accounts, args), rejected(EscrowError::IncorrectProgramId));
    accounts[2].lamports = 0;
    assert_eq!(
        transfer_tokens(&accounts, args),
        Plan {
            invocations: vec![expected_opening(PAYER, &custodian().0, vec![5, 2, 4, 0, 6, 7])],
            outcome: Err(EscrowError::IncorrectProgramId),
        }
    );
}

#[test]
fn deposit_holds_neither_owner_nor_quantity_against_anything() {
    let mut accounts = deposit_accounts(5);
    accounts[3] = Account::new(address(BUYER), false, 0);
    let plan = transfer_tokens(&accounts, TransferTokensArgs { quantity: u64::MAX, bump_seed: 0 });
    assert_eq!(plan.outcome, Ok(()));
    assert_eq!(plan.invocations.len(), 1);
    assert_eq!(plan.invocations[0].instruction.accounts[2].pubkey, address(BUYER));
    assert_eq!(plan.invocations[0].instruction.data, vec![3u8, 255, 255, 255, 255, 255, 255, 255, 255]);
}

// ---- settling ----

fn expected_release(quantity: u64) -> Invocation {
    let accounts = settle_accounts(1);
    let built = spl_token::instruction::transfer(
        &spl_token::id(),
        &key(&accounts[1].key),
        &key(&accounts[2].key),
        &key(&accounts[3].key),
        &[],
        quantity,
    )
    .unwrap();
    Invocation {
        instruction: model(built),
        accounts: vec![1, 2, 3],
        authority: Some(derived()),
    }
}

fn expected_payment(price: u64) -> Invocation {
    let built = system_instruction::transfer(&key(&address(BUYER)), &key(&address(SELLER)), price);
    Invocation { instruction: model(built), accounts: vec![5, 6, 7], authority: None }
}

fn settle_args() -> BuyTokensArgs {
    BuyTokensArgs { quantity: 10, bump_seed: custodian().1, price: 500 }
}

#[test]
fn settle_releases_the_asset_and_then_pays() {
    let plan = transfer_pda_to_buyer(&address(PROGRAM), &settle_accounts(2_039_280), settle_args());
    assert_eq!(
        plan,
        Plan { invocations: vec![expected_release(10), expected_payment(500)], outcome: Ok(()) }
    );
}

#[test]
fn settle_creates_a_missing_holding_account_first() {
    let plan = transfer_pda_to_buyer(&address(PROGRAM), &settle_accounts(0), settle_args());
    assert_eq!(
        plan,
        Plan {
            invocations: vec![
                expected_opening(BUYER, &address(BUYER), vec![5, 2, 4, 0, 7, 8]),
                expected_release(10),
                expected_payment(500),
            ],
            outcome: Ok(()),
        }
    );
}

#[test]
fn settle_instructions_are_spelled_out() {
    let accounts = settle_accounts(9);
    let plan = transfer_pda_to_buyer(&address(PROGRAM), &accounts, settle_args());
    let release = &plan.invocations[0].instruction;
    assert_eq!(release.program_id, Address::new(TOKEN_PROGRAM_ID));
    assert_eq!(
        release.accounts,
        vec![
            meta(accounts[1].key, false, true),
            meta(accounts[2].key, false, true),
            meta(accounts[3].key, true, false),
        ]
    );
    assert_eq!(release.data, vec![3u8, 10, 0, 0, 0, 0, 0, 0, 0]);
    let payment = &plan.invocations[1].instruction;
    assert_eq!(payment.program_id, Address::new(SYSTEM_PROGRAM_ID));
    assert_eq!(
        payment.accounts,
        vec![meta(address(BUYER), true, true), meta(address(SELLER), false, true)]
    );
    assert_eq!(payment.data, vec![2u8, 0, 0, 0, 0xF4, 1, 0, 0, 0, 0, 0, 0]);
}

#[test]
fn settle_with_too_few_accounts_is_refused() {
    let accounts = settle_accounts(0);
    for len in 0..9 {
        assert_eq!(
            transfer_pda_to_buyer(&address(PROGRAM), &accounts[..len], settle_args()),
            rejected(EscrowError::NotEnoughAccountKeys)
        );
    }
}

#[test]
fn settle_without_the_payers_signature_is_refused() {
    let mut accounts = settle_accounts(0);
    accounts[5].is_signer = false;
    assert_eq!(
        transfer_pda_to_buyer(&address(PROGRAM), &accounts, settle_args()),
        rejected(EscrowError::MissingRequiredSignature)
    );
}

#[test]
fn settle_from_another_custodial_account_is_refused() {
    let mut accounts = settle_accounts(0);
    accounts[3].key = address(SELLER);
    assert_eq!(
        transfer_pda_to_buyer(&address(PROGRAM), &accounts, settle_args()),
        rejected(EscrowError::InvalidArgument)
    );
    assert_eq!(
        transfer_pda_to_buyer(&address(PROGRAM + 1), &settle_accounts(0), settle_args()),
        rejected(EscrowError::InvalidArgument)
    );
}

#[test]
fn settle_with_any_other_bump_is_refused() {
    let (_, bump) = custodian();
    for other in 0..=255u8 {
        let args = BuyTokensArgs { quantity: 10, bump_seed: other, price: 500 };
        let plan = transfer_pda_to_buyer(&address(PROGRAM), &settle_accounts(0), args);
        if other == bump {
            assert_eq!(plan.outcome, Ok(()));
        } else {
            assert_eq!(plan, rejected(EscrowError::InvalidArgument));
        }
    }
}

#[test]
fn settle_through_another_token_program_fails_after_the_opening() {
    let mut accounts = settle_accounts(5);
    accounts[8].key = address(42);
    assert_eq!(
        transfer_pda_to_buyer(&address(PROGRAM), &accounts, settle_args()),
        rejected(EscrowError::IncorrectProgramId)
    );
    accounts[2].lamports = 0;
    assert_eq!(
        transfer_pda_to_buyer(&address(PROGRAM), &accounts, settle_args()),
        Plan {
            invocations: vec![expected_opening(BUYER, &address(BUYER), vec![5, 2, 4, 0, 7, 8])],
            outcome: Err(EscrowError::IncorrectProgramId),
        }
    );
}

#[test]
fn settle_holds_neither_quantity_nor_price_against_anything() {
    let args = BuyTokensArgs { quantity: 0, bump_seed: custodian().1, price: u64::MAX };
    let plan = transfer_pda_to_buyer(&address(PROGRAM), &settle_accounts(1), args);
    assert_eq!(
        plan,
        Plan { invocations: vec![expected_release(0), expected_payment(u64::MAX)], outcome: Ok(()) }
    );
}

#[test]
fn settle_against_a_derivation_made_before() {
    let accounts = settle_accounts(0);
    assert_eq!(
        transfer_pda_to_buyer_with(&address(PROGRAM), &accounts, settle_args(), Some(derived())),
        transfer_pda_to_buyer(&address(PROGRAM), &accounts, settle_args())
    );
}

#[test]
fn settle_against_a_derivation_for_something_else_is_refused() {
    let other_asset = find_escrow_address(&address(PROGRAM), &address(MINT + 1)).unwrap();
    let other_program = find_escrow_address(&address(PROGRAM + 1), &address(MINT)).unwrap();
    for derived in [other_asset, other_program] {
        let mut accounts = settle_accounts(0);
        let args = BuyTokensArgs { quantity: 10, bump_seed: derived.bump(), price: 500 };
        assert_eq!(
            transfer_pda_to_buyer_with(&address(PROGRAM), &accounts, args, Some(derived)),
            rejected(EscrowError::InvalidArgument)
        );
        accounts[3].key = derived.address();
        assert_eq!(
            transfer_pda_to_buyer_with(&address(PROGRAM), &accounts, args, Some(derived)),
            rejected(EscrowError::InvalidArgument)
        );
    }
}

#[test]
fn settle_without_a_derived_address_is_refused() {
    assert_eq!(
        transfer_pda_to_buyer_with(&address(PROGRAM), &settle_accounts(0), settle_args(), None),
        rejected(EscrowError::NoViableAddress)
    );
}

// ---- routing ----

#[test]
fn tag_zero_creates() {
    let (target, _) = custodian();
    let accounts = create_accounts(target);
    assert_eq!(
        process_instruction(&address(PROGRAM), &accounts, &[0], 1_447_680),
        escrow_pda_create(&address(PROGRAM), &accounts, 1_447_680)
    );
    assert_eq!(
        process_instruction(&address(PROGRAM), &accounts, &[0, 1, 2, 3], 5),
        escrow_pda_create(&address(PROGRAM), &accounts, 5)
    );
}

#[test]
fn tag_one_deposits() {
    let accounts = deposit_accounts(0);
    let args = TransferTokensArgs { quantity: 10, bump_seed: 254 };
    let mut data = vec![1u8];
    data.extend_from_slice(&args.to_bytes());
    let plan = process_instruction(&address(PROGRAM), &accounts, &data, 0);
    assert_eq!(plan, transfer_tokens(&accounts, args));
    assert_eq!(plan.invocations.len(), 2);
}

#[test]
fn tag_two_settles() {
    let accounts = settle_accounts(0);
    let mut data = vec![2u8];
    data.extend_from_slice(&settle_args().to_bytes());
    let plan = process_instruction(&address(PROGRAM), &accounts, &data, 0);
    assert_eq!(plan, transfer_pda_to_buyer(&address(PROGRAM), &accounts, settle_args()));
    assert_eq!(plan.invocations.len(), 3);
}

#[test]
fn any_other_tag_is_no_instruction() {
    let accounts = settle_accounts(0);
    for tag in 3..=255u8 {
        assert_eq!(
            process_instruction(&address(PROGRAM), &accounts, &[tag], 0),
            rejected(EscrowError::InvalidInstructionData)
        );
        assert_eq!(
            process_instruction(&address(PROGRAM), &[], &[tag, 0, 0, 0, 0, 0, 0, 0, 0, 0], 0),
            rejected(EscrowError::InvalidInstructionData)
        );
    }
}

#[test]
fn arguments_of_the_wrong_length_are_malformed() {
    let accounts = settle_accounts(0);
    assert_eq!(
        process_instruction(&address(PROGRAM), &accounts, &[1], 0),
        rejected(EscrowError::MalformedArguments)
    );
    assert_eq!(
        process_instruction(&address(PROGRAM), &accounts, &[1; 11], 0),
        rejected(EscrowError::MalformedArguments)
    );
    assert_eq!(
        process_instruction(&address(PROGRAM), &accounts, &[2; 10], 0),
        rejected(EscrowError::MalformedArguments)
    );
    assert_eq!(
        process_instruction(&address(PROGRAM), &accounts, &[2; 19], 0),
        rejected(EscrowError::MalformedArguments)
    );
}

#[test]
fn arguments_are_decoded_before_the_accounts_are_counted() {
    assert_eq!(
        process_instruction(&address(PROGRAM), &[], &[1, 0], 0),
        rejected(EscrowError::MalformedArguments)
    );
    assert_eq!(
        process_instruction(&address(PROGRAM), &[], &[1; 10], 0),
        rejected(EscrowError::NotEnoughAccountKeys)
    );
}

#[test]
fn plans_are_built_step_by_step() {
    let mut plan = Plan::empty();
    assert_eq!(plan, Plan { invocations: vec![], outcome: Ok(()) });
    plan.push(expected_payment(1));
    plan.push(expected_payment(2));
    assert_eq!(plan.invocations, vec![expected_payment(1), expected_payment(2)]);
    plan.fail_with(EscrowError::IncorrectProgramId);
    assert_eq!(plan.invocations.len(), 2);
    assert_eq!(plan.outcome, Err(EscrowError::IncorrectProgramId));
    assert_eq!(Plan::reject(EscrowError::InvalidArgument), rejected(EscrowError::InvalidArgument));
    assert!(Account::new(address(1), false, 1).is_funded());
    assert!(!Account::new(address(1), true, 0).is_funded());
}
