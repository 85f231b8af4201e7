use vstd::prelude::*;
use crate::account::Account;
use crate::address::{holding_address, Address, ASSOCIATED_TOKEN_PROGRAM_ID, TOKEN_PROGRAM_ID};
use crate::codec::{
    lemma_u64_from_le_write_back, lemma_u64_le_read_back, push_u64_le, read_u64_le, u64_from_le,
    u64_le,
};
use crate::error::EscrowError;
use crate::instruction::{address_list, asset_transfer, asset_transfer_instruction};
use crate::instructions::{open_holding_account, open_holding_invocation};
use crate::plan::{rejected, Invocation, InvocationView, Plan, PlanView};

verus! {

/// The arguments of a deposit.
#[derive(Clone, Copy, Debug, PartialEq, Eq, Structural)]
pub struct TransferTokensArgs {
    /// Units of the asset that go into custody.
    pub quantity: u64,
    /// The bump of the custodial address, as the caller derived it. A deposit
    /// carries it and does not read it.
    pub bump_seed: u8,
}

/// Number of bytes in the encoding of `TransferTokensArgs`.
pub const TRANSFER_TOKENS_ARGS_SIZE: usize = 9;

impl TransferTokensArgs {
    /// The encoding: the quantity as 8 little-endian bytes, then the bump.
    pub open spec fn encoding(self) -> Seq<u8> {
        u64_le(self.quantity) + seq![self.bump_seed]
    }

    /// What a byte string decodes to: it has to be exactly one encoding long.
    pub open spec fn decoding(data: Seq<u8>) -> Result<TransferTokensArgs, EscrowError> {
        if data.len() == TRANSFER_TOKENS_ARGS_SIZE {
            Ok(
                TransferTokensArgs {
                    quantity: u64_from_le(data.subrange(0, 8)) as u64,
                    bump_seed: data[8],
                },
            )
        } else {
            Err(EscrowError::MalformedArguments)
        }
    }

    /// Decodes the arguments from the bytes that follow the instruction tag.
    pub fn try_from_slice(data: &[u8]) -> (args: Result<TransferTokensArgs, EscrowError>)
        ensures
            args == Self::decoding(data@),
    {
        if data.len() != TRANSFER_TOKENS_ARGS_SIZE {
            return Err(EscrowError::MalformedArguments);
        }
        let quantity = read_u64_le(data, 0);
        let bump_seed = data[8];
        proof {
            lemma_u64_from_le_write_back(data@.subrange(0, 8));
        }
        Ok(TransferTokensArgs { quantity, bump_seed })
    }

    /// Encodes the arguments.
    pub fn to_bytes(&self) -> (data: Vec<u8>)
        ensures
            data@ == self.encoding(),
    {
        let mut data: Vec<u8> = Vec::new();
        push_u64_le(&mut data, self.quantity);
        data.push(self.bump_seed);
        assert(data@ =~= self.encoding());
        data
    }

    /// Decoding an encoding gives the arguments back, and only an encoding decodes.
    pub proof fn lemma_round_trip(self, data: Seq<u8>)
        ensures
            Self::decoding(self.encoding()) == Ok::<TransferTokensArgs, EscrowError>(self),
            Self::decoding(data) == Ok::<TransferTokensArgs, EscrowError>(self) ==> data
                == self.encoding(),
    {
        lemma_u64_le_read_back(self.quantity);
        let encoded = self.encoding();
        assert(encoded.subrange(0, 8) =~= u64_le(self.quantity));
        if Self::decoding(data) == Ok::<TransferTokensArgs, EscrowError>(self) {
            lemma_u64_from_le_write_back(data.subrange(0, 8));
            assert(data =~= data.subrange(0, 8) + seq![data[8]]);
        }
    }
}

/// The invocation that moves `quantity` units from the seller's holding account to
/// the custodial one. The stated owner is the authority and is also listed as the
/// one signer, so it is handed over twice.
pub open spec fn deposit_invocation(accounts: Seq<Account>, quantity: u64) -> InvocationView
    recommends
        accounts.len() >= 8,
{
    InvocationView {
        instruction: asset_transfer_instruction(
            accounts[1].key@,
            accounts[2].key@,
            accounts[3].key@,
            seq![accounts[3].key@],
            quantity,
        ),
        accounts: seq![1usize, 2usize, 3usize, 3usize],
        authority: None,
    }
}

/// What a deposit asks of the ledger.
///
/// The accounts are, in order: the asset, the seller's holding account, the
/// custodial holding account, the owner of the seller's holding account, the
/// custodial account as the owner of the receiving account, the payer, the system
/// program, the token program.
///
/// The custodial holding account is created first where its balance of native
/// currency is zero. Then the asset is moved. Neither the owner nor the quantity is
/// held against anything.
pub open spec fn deposit_plan(accounts: Seq<Account>, args: TransferTokensArgs) -> PlanView {
    if accounts.len() < 8 {
        rejected(EscrowError::NotEnoughAccountKeys)
    } else if accounts[2].lamports == 0 && holding_address(accounts[4].key@, accounts[0].key@)
        is None {
        rejected(EscrowError::NoViableAddress)
    } else {
        let opening = if accounts[2].lamports == 0 {
            seq![open_holding_invocation(accounts, 6, 7)]
        } else {
            Seq::empty()
        };
        if accounts[7].key@ != TOKEN_PROGRAM_ID@ {
            PlanView { invocations: opening, outcome: Err(EscrowError::IncorrectProgramId) }
        } else {
            PlanView {
                invocations: opening + seq![deposit_invocation(accounts, args.quantity)],
                outcome: Ok(()),
            }
        }
    }
}

/// Plans a deposit: the asset goes from the seller's holding account into custody.
pub fn transfer_tokens(accounts: &[Account], args: TransferTokensArgs) -> (plan: Plan)
    ensures
        plan@ == deposit_plan(accounts@, args),
{
    if accounts.len() < 8 {
        return Plan::reject(EscrowError::NotEnoughAccountKeys);
    }
    let from_holding = accounts[1];
    let to_holding = accounts[2];
    let owner = accounts[3];
    let token_program = accounts[7];

    let mut plan = Plan::empty();
    if !to_holding.is_funded() {
        match open_holding_account(accounts, 6, 7) {
            None => {
                return Plan::reject(EscrowError::NoViableAddress);
            },
            Some(invocation) => {
                plan.push(invocation);
            },
        }
    }
    let ghost opening = plan@.invocations;
    assert(opening =~= if accounts[2].lamports == 0 {
        seq![open_holding_invocation(accounts@, 6, 7)]
    } else {
        Seq::empty()
    });

    let signers: Vec<Address> = vec![owner.key];
    assert(address_list(signers@) =~= seq![accounts[3].key@]);
    let deposit = match asset_transfer(
        &token_program.key,
        &from_holding.key,
        &to_holding.key,
        &owner.key,
        &signers,
        args.quantity,
    ) {
        Err(_) => {
            plan.fail_with(EscrowError::IncorrectProgramId);
            return plan;
        },
        Ok(instruction) => instruction,
    };
    plan.push(Invocation { instruction: deposit, accounts: vec![1, 2, 3, 3], authority: None });
    assert(plan@.invocations =~= opening + seq![deposit_invocation(accounts@, args.quantity)]);
    plan
}

/// A deposit that goes ahead ends with exactly one transfer: the quantity of the
/// asset from the seller's holding account to the custodial one. Before it stands at
/// most the creation of the custodial holding account.
pub proof fn lemma_deposit_transfers(accounts: Seq<Account>, args: TransferTokensArgs)
    requires
        deposit_plan(accounts, args).outcome is Ok,
    ensures
        accounts.len() >= 8,
        ({
            let plan = deposit_plan(accounts, args);
            let n = plan.invocations.len();
            &&& 1 <= n <= 2
            &&& n == 2 <==> accounts[2].lamports == 0
            &&& n == 2 ==> plan.invocations[0] == open_holding_invocation(accounts, 6, 7)
            &&& plan.invocations[n - 1] == deposit_invocation(accounts, args.quantity)
        }),
{
}

/// A deposit into a holding account that is there already never asks for its
/// creation, and does not fail for it: it succeeds wherever the accounts are all
/// there and the token program is the token program, and then asks for the transfer
/// alone.
pub proof fn lemma_deposit_keeps_existing_holding(accounts: Seq<Account>, args: TransferTokensArgs)
    requires
        accounts.len() >= 3,
        accounts[2].lamports != 0,
    ensures
        forall|i: int|
            0 <= i < deposit_plan(accounts, args).invocations.len() ==> (#[trigger] deposit_plan(
                accounts,
                args,
            ).invocations[i]).instruction.program_id != ASSOCIATED_TOKEN_PROGRAM_ID@,
        deposit_plan(accounts, args).outcome is Ok <==> accounts.len() >= 8 && accounts[7].key@
            == TOKEN_PROGRAM_ID@,
        deposit_plan(accounts, args).outcome is Ok ==> deposit_plan(accounts, args).invocations
            == seq![deposit_invocation(accounts, args.quantity)],
{
    assert(Seq::<InvocationView>::empty() + seq![deposit_invocation(accounts, args.quantity)]
        =~= seq![deposit_invocation(accounts, args.quantity)]);
    assert(TOKEN_PROGRAM_ID@[0] != ASSOCIATED_TOKEN_PROGRAM_ID@[0]);
}

} // verus!
