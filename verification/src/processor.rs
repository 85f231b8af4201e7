use vstd::prelude::*;
use vstd::slice::slice_subrange;
use crate::account::Account;
use crate::address::Address;
use crate::error::EscrowError;
use crate::instructions::escrow::{create_plan, escrow_pda_create};
use crate::instructions::nfttransfer::{deposit_plan, transfer_tokens, TransferTokensArgs};
use crate::instructions::pdatobuyer::{settle_plan, transfer_pda_to_buyer, BuyTokensArgs};
use crate::plan::{rejected, Plan, PlanView};

verus! {

/// What an instruction asks of the ledger. The first byte of the data selects the
/// operation: 0 creates an escrow, 1 deposits, 2 settles. The bytes after it are
/// the operation's arguments.
pub open spec fn route(program: Seq<u8>, accounts: Seq<Account>, data: Seq<u8>, lamports: u64) -> PlanView
    recommends
        data.len() > 0,
        data[0] == 0 ==> accounts.len() >= 3,
{
    let arguments = data.subrange(1, data.len() as int);
    if data[0] == 0 {
        create_plan(program, accounts, lamports)
    } else if data[0] == 1 {
        match TransferTokensArgs::decoding(arguments) {
            Ok(args) => deposit_plan(accounts, args),
            Err(error) => rejected(error),
        }
    } else if data[0] == 2 {
        match BuyTokensArgs::decoding(arguments) {
            Ok(args) => settle_plan(program, accounts, args),
            Err(error) => rejected(error),
        }
    } else {
        rejected(EscrowError::InvalidInstructionData)
    }
}

/// Plans the operation that the instruction data selects. `lamports` is the least
/// balance that the ledger asks for an account of the size of an escrow record; only
/// the creation of an escrow reads it.
pub fn process_instruction(
    program_id: &Address,
    accounts: &[Account],
    instruction_data: &[u8],
    lamports: u64,
) -> (plan: Plan)
    requires
        instruction_data.len() > 0,
        instruction_data[0] == 0 ==> accounts.len() >= 3,
    ensures
        plan@ == route(program_id@, accounts@, instruction_data@, lamports),
{
    let arguments = slice_subrange(instruction_data, 1, instruction_data.len());
    let tag = instruction_data[0];
    if tag == 0 {
        escrow_pda_create(program_id, accounts, lamports)
    } else if tag == 1 {
        match TransferTokensArgs::try_from_slice(arguments) {
            Ok(args) => transfer_tokens(accounts, args),
            Err(error) => Plan::reject(error),
        }
    } else if tag == 2 {
        match BuyTokensArgs::try_from_slice(arguments) {
            Ok(args) => transfer_pda_to_buyer(program_id, accounts, args),
            Err(error) => Plan::reject(error),
        }
    } else {
        Plan::reject(EscrowError::InvalidInstructionData)
    }
}

} // verus!
