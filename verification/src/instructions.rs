use vstd::prelude::*;
use crate::account::Account;
use crate::address::{find_holding_address, holding_address, Address, TOKEN_PROGRAM_ID};
use crate::instruction::{create_associated_token_account, create_holding_instruction};
use crate::plan::{Invocation, InvocationView};

pub mod escrow;
pub mod nfttransfer;
pub mod pdatobuyer;

pub use escrow::{escrow_pda_create, escrow_pda_create_with};
pub use nfttransfer::{transfer_tokens, TransferTokensArgs};
pub use pdatobuyer::{transfer_pda_to_buyer, transfer_pda_to_buyer_with, BuyTokensArgs};

verus! {

/// The invocation that creates the receiving holding account of a deposit or of a
/// settlement. Both operations list the asset first, the receiving holding account
/// third, its owner fifth and the payer sixth; the system and the token program
/// stand at the positions given.
pub open spec fn open_holding_invocation(
    accounts: Seq<Account>,
    system_program: usize,
    token_program: usize,
) -> InvocationView
    recommends
        accounts.len() >= 6,
        holding_address(accounts[4].key@, accounts[0].key@) is Some,
{
    InvocationView {
        instruction: create_holding_instruction(accounts[5].key@, accounts[4].key@, accounts[0].key@),
        accounts: seq![5usize, 2usize, 4usize, 0usize, system_program, token_program],
        authority: None,
    }
}

/// Builds the invocation that creates the receiving holding account, or gives
/// `None` where no address can be derived for that account.
pub fn open_holding_account(accounts: &[Account], system_program: usize, token_program: usize) -> (invocation:
    Option<Invocation>)
    requires
        accounts.len() >= 6,
    ensures
        invocation is Some <==> holding_address(accounts[4].key@, accounts[0].key@) is Some,
        invocation matches Some(invocation) ==> invocation@ == open_holding_invocation(
            accounts@,
            system_program,
            token_program,
        ),
{
    let mint = accounts[0];
    let recipient = accounts[4];
    let payer = accounts[5];
    match find_holding_address(&recipient.key, &mint.key) {
        None => None,
        Some(_) => {
            let instruction = create_associated_token_account(
                &payer.key,
                &recipient.key,
                &mint.key,
                &Address::new(TOKEN_PROGRAM_ID),
            );
            let handed: Vec<usize> = vec![5, 2, 4, 0, system_program, token_program];
            Some(Invocation { instruction, accounts: handed, authority: None })
        },
    }
}

} // verus!
