use vstd::prelude::*;
use crate::account::Account;
use crate::address::{
    derivation, derived_view, escrow_address, find_escrow_address, holding_address, Address,
    AuthorityView, DerivedAuthority, ASSOCIATED_TOKEN_PROGRAM_ID, SYSTEM_PROGRAM_ID,
    TOKEN_PROGRAM_ID,
};
use crate::codec::{
    lemma_u64_from_le_write_back, lemma_u64_le_read_back, push_u64_le, read_u64_le, u64_from_le,
    u64_le,
};
use crate::error::EscrowError;
use crate::instruction::{
    address_list, asset_transfer, asset_transfer_instruction, currency_transfer,
    currency_transfer_instruction,
};
use crate::instructions::{open_holding_account, open_holding_invocation};
use crate::plan::{rejected, Invocation, InvocationView, Plan, PlanView};

verus! {

/// The arguments of a settlement.
#[derive(Clone, Copy, Debug, PartialEq, Eq, Structural)]
pub struct BuyTokensArgs {
    /// Units of the asset that go to the buyer.
    pub quantity: u64,
    /// The bump of the custodial address, as the caller derived it.
    pub bump_seed: u8,
    /// Native currency that the buyer pays to the seller.
    pub price: u64,
}

/// Number of bytes in the encoding of `BuyTokensArgs`.
pub const BUY_TOKENS_ARGS_SIZE: usize = 17;

impl BuyTokensArgs {
    /// The encoding: the quantity as 8 little-endian bytes, the bump, the price as 8
    /// little-endian bytes.
    pub open spec fn encoding(self) -> Seq<u8> {
        u64_le(self.quantity) + seq![self.bump_seed] + u64_le(self.price)
    }

    /// What a byte string decodes to: it has to be exactly one encoding long.
    pub open spec fn decoding(data: Seq<u8>) -> Result<BuyTokensArgs, EscrowError> {
        if data.len() == BUY_TOKENS_ARGS_SIZE {
            Ok(
                BuyTokensArgs {
                    quantity: u64_from_le(data.subrange(0, 8)) as u64,
                    bump_seed: data[8],
                    price: u64_from_le(data.subrange(9, 17)) as u64,
                },
            )
        } else {
            Err(EscrowError::MalformedArguments)
        }
    }

    /// Decodes the arguments from the bytes that follow the instruction tag.
    pub fn try_from_slice(data: &[u8]) -> (args: Result<BuyTokensArgs, EscrowError>)
        ensures
            args == Self::decoding(data@),
    {
        if data.len() != BUY_TOKENS_ARGS_SIZE {
            return Err(EscrowError::MalformedArguments);
        }
        let quantity = read_u64_le(data, 0);
        let bump_seed = data[8];
        let price = read_u64_le(data, 9);
        proof {
            lemma_u64_from_le_write_back(data@.subrange(0, 8));
            lemma_u64_from_le_write_back(data@.subrange(9, 17));
        }
        Ok(BuyTokensArgs { quantity, bump_seed, price })
    }

    /// Encodes the arguments.
    pub fn to_bytes(&self) -> (data: Vec<u8>)
        ensures
            data@ == self.encoding(),
    {
        let mut data: Vec<u8> = Vec::new();
        push_u64_le(&mut data, self.quantity);
        data.push(self.bump_seed);
        push_u64_le(&mut data, self.price);
        assert(data@ =~= self.encoding());
        data
    }

    /// Decoding an encoding gives the arguments back, and only an encoding decodes.
    pub proof fn lemma_round_trip(self, data: Seq<u8>)
        ensures
            Self::decoding(self.encoding()) == Ok::<BuyTokensArgs, EscrowError>(self),
            Self::decoding(data) == Ok::<BuyTokensArgs, EscrowError>(self) ==> data == self.encoding(),
    {
        lemma_u64_le_read_back(self.quantity);
        lemma_u64_le_read_back(self.price);
        let encoded = self.encoding();
        assert(encoded.subrange(0, 8) =~= u64_le(self.quantity));
        assert(encoded.subrange(9, 17) =~= u64_le(self.price));
        if Self::decoding(data) == Ok::<BuyTokensArgs, EscrowError>(self) {
            lemma_u64_from_le_write_back(data.subrange(0, 8));
            lemma_u64_from_le_write_back(data.subrange(9, 17));
            assert(data =~= data.subrange(0, 8) + seq![data[8]] + data.subrange(9, 17));
        }
    }
}

/// The invocation that releases `quantity` units from the custodial holding account
/// to the buyer's holding account. The custodial account is the authority, and the
/// program signs for it with the authority's seed tuple.
pub open spec fn release_invocation(accounts: Seq<Account>, quantity: u64, authority: AuthorityView) -> InvocationView
    recommends
        accounts.len() >= 9,
{
    InvocationView {
        instruction: asset_transfer_instruction(
            accounts[1].key@,
            accounts[2].key@,
            accounts[3].key@,
            Seq::empty(),
            quantity,
        ),
        accounts: seq![1usize, 2usize, 3usize],
        authority: Some(authority),
    }
}

/// The invocation that pays `price` of native currency from the buyer to the seller.
pub open spec fn payment_invocation(accounts: Seq<Account>, price: u64) -> InvocationView
    recommends
        accounts.len() >= 9,
{
    InvocationView {
        instruction: currency_transfer_instruction(accounts[5].key@, accounts[6].key@, price),
        accounts: seq![5usize, 6usize, 7usize],
        authority: None,
    }
}

/// What a settlement asks of the ledger once the accounts are known to be all there
/// and the payer to have signed, and the derivation has given `derived`.
///
/// The derivation has to be that of the asset under the program, and the custodial
/// account and the bump the derived ones. The buyer's holding account is created
/// first where its balance of native currency is zero. Then the asset is released,
/// then the price is paid.
pub open spec fn settle_plan_with(
    program: Seq<u8>,
    accounts: Seq<Account>,
    args: BuyTokensArgs,
    derived: Option<AuthorityView>,
) -> PlanView
    recommends
        accounts.len() >= 9,
{
    match derived {
        None => rejected(EscrowError::NoViableAddress),
        Some(authority) => {
            if authority.program_id != program || authority.asset_id != accounts[0].key@
                || authority.address != accounts[3].key@ || authority.bump != args.bump_seed {
                rejected(EscrowError::InvalidArgument)
            } else if accounts[2].lamports == 0 && holding_address(accounts[4].key@, accounts[0].key@)
                is None {
                rejected(EscrowError::NoViableAddress)
            } else {
                let opening = if accounts[2].lamports == 0 {
                    seq![open_holding_invocation(accounts, 7, 8)]
                } else {
                    Seq::empty()
                };
                if accounts[8].key@ != TOKEN_PROGRAM_ID@ {
                    PlanView { invocations: opening, outcome: Err(EscrowError::IncorrectProgramId) }
                } else {
                    PlanView {
                        invocations: opening + seq![
                            release_invocation(accounts, args.quantity, authority),
                            payment_invocation(accounts, args.price),
                        ],
                        outcome: Ok(()),
                    }
                }
            }
        },
    }
}

/// What a settlement asks of the ledger.
///
/// The accounts are, in order: the asset, the custodial holding account, the buyer's
/// holding account, the custodial account, the buyer as the owner of the receiving
/// account, the buyer as payer, the seller, the system program, the token program.
///
/// The payer has to sign, and the custodial account and the bump have to be the ones
/// derived from the program and the asset. Neither the quantity nor the price is
/// held against anything.
pub open spec fn settle_plan(program: Seq<u8>, accounts: Seq<Account>, args: BuyTokensArgs) -> PlanView {
    if accounts.len() < 9 {
        rejected(EscrowError::NotEnoughAccountKeys)
    } else if !accounts[5].is_signer {
        rejected(EscrowError::MissingRequiredSignature)
    } else {
        settle_plan_with(program, accounts, args, derivation(program, accounts[0].key@))
    }
}

/// Plans a settlement against a derivation made before. A derivation for another
/// program or another asset is refused like a custodial account or a bump that is
/// not the derived one. So whatever derivation is handed in, a plan that asks
/// anything of the ledger releases from the address, and signs with the bump, derived
/// from this program and this asset.
pub fn transfer_pda_to_buyer_with(
    program_id: &Address,
    accounts: &[Account],
    args: BuyTokensArgs,
    derived: Option<DerivedAuthority>,
) -> (plan: Plan)
    requires
        accounts.len() >= 9,
    ensures
        plan@ == settle_plan_with(program_id@, accounts@, args, derived_view(derived)),
        plan@.invocations.len() > 0 ==> escrow_address(program_id@, accounts[0].key@) == Some(
            (accounts[3].key@, args.bump_seed),
        ),
{
    let mint = accounts[0];
    let from_holding = accounts[1];
    let to_holding = accounts[2];
    let owner = accounts[3];
    let payer = accounts[5];
    let seller = accounts[6];
    let token_program = accounts[8];

    let authority = match derived {
        None => {
            return Plan::reject(EscrowError::NoViableAddress);
        },
        Some(authority) => authority,
    };
    if !authority.program_id().same(program_id) || !authority.asset_id().same(&mint.key) {
        return Plan::reject(EscrowError::InvalidArgument);
    }
    if !authority.address().same(&owner.key) {
        return Plan::reject(EscrowError::InvalidArgument);
    }
    if authority.bump() != args.bump_seed {
        return Plan::reject(EscrowError::InvalidArgument);
    }
    let mut plan = Plan::empty();
    if !to_holding.is_funded() {
        match open_holding_account(accounts, 7, 8) {
            None => {
                return Plan::reject(EscrowError::NoViableAddress);
            },
            Some(invocation) => {
                plan.push(invocation);
            },
        }
    }
    let ghost opening = plan@.invocations;
    assert(opening =~= if accounts[2].lamports == 0 {
        seq![open_holding_invocation(accounts@, 7, 8)]
    } else {
        Seq::empty()
    });

    let signers: Vec<Address> = Vec::new();
    assert(address_list(signers@) =~= Seq::empty());
    let release = match asset_transfer(
        &token_program.key,
        &from_holding.key,
        &to_holding.key,
        &owner.key,
        &signers,
        args.quantity,
    ) {
        Err(_) => {
            plan.fail_with(EscrowError::IncorrectProgramId);
            return plan;
        },
        Ok(instruction) => instruction,
    };
    plan.push(Invocation { instruction: release, accounts: vec![1, 2, 3], authority: Some(authority) });

    let payment = currency_transfer(&payer.key, &seller.key, args.price);
    plan.push(Invocation { instruction: payment, accounts: vec![5, 6, 7], authority: None });
    assert(plan@.invocations =~= opening + seq![
        release_invocation(accounts@, args.quantity, authority@),
        payment_invocation(accounts@, args.price),
    ]);
    plan
}

/// Plans a settlement: the asset goes from the custodial holding account to the
/// buyer's, and the price from the buyer to the seller.
pub fn transfer_pda_to_buyer(program_id: &Address, accounts: &[Account], args: BuyTokensArgs) -> (plan: Plan)
    ensures
        plan@ == settle_plan(program_id@, accounts@, args),
        plan@.invocations.len() > 0 ==> accounts.len() >= 9 && escrow_address(
            program_id@,
            accounts[0].key@,
        ) == Some((accounts[3].key@, args.bump_seed)),
{
    if accounts.len() < 9 {
        return Plan::reject(EscrowError::NotEnoughAccountKeys);
    }
    let mint = accounts[0];
    let payer = accounts[5];
    if !payer.is_signer {
        return Plan::reject(EscrowError::MissingRequiredSignature);
    }
    let derived = find_escrow_address(program_id, &mint.key);
    transfer_pda_to_buyer_with(program_id, accounts, args, derived)
}

/// The authority that a settlement signs with: that of the asset under the program,
/// with the custodial account and the bump handed in.
pub open spec fn derived_authority(program: Seq<u8>, accounts: Seq<Account>, args: BuyTokensArgs) -> AuthorityView
    recommends
        accounts.len() >= 9,
{
    AuthorityView {
        program_id: program,
        asset_id: accounts[0].key@,
        address: accounts[3].key@,
        bump: args.bump_seed,
    }
}

/// No caller-supplied custodial address or bump but the derived pair is accepted:
/// with any other, the settlement asks nothing of the ledger and fails, and where
/// the accounts are all there, the payer signed and an address can be derived, it
/// fails as an argument error.
pub proof fn lemma_settle_rejects_forged_authority(program: Seq<u8>, accounts: Seq<Account>, args: BuyTokensArgs)
    requires
        accounts.len() >= 4,
        escrow_address(program, accounts[0].key@) != Some((accounts[3].key@, args.bump_seed)),
    ensures
        settle_plan(program, accounts, args).invocations.len() == 0,
        settle_plan(program, accounts, args).outcome is Err,
        accounts.len() >= 9 && accounts[5].is_signer && escrow_address(program, accounts[0].key@)
            is Some ==> settle_plan(
            program,
            accounts,
            args,
        ) == rejected(EscrowError::InvalidArgument),
{
}

/// A settlement that goes ahead ends with exactly two transfers, in this order: the
/// quantity of the asset from the custodial holding account to the buyer's, signed
/// for with the derived authority, and the price from the buyer to the seller.
/// Before them stands at most the creation of the buyer's holding account.
pub proof fn lemma_settle_transfers(program: Seq<u8>, accounts: Seq<Account>, args: BuyTokensArgs)
    requires
        settle_plan(program, accounts, args).outcome is Ok,
    ensures
        accounts.len() >= 9,
        escrow_address(program, accounts[0].key@) == Some((accounts[3].key@, args.bump_seed)),
        ({
            let plan = settle_plan(program, accounts, args);
            let n = plan.invocations.len();
            &&& 2 <= n <= 3
            &&& n == 3 <==> accounts[2].lamports == 0
            &&& n == 3 ==> plan.invocations[0] == open_holding_invocation(accounts, 7, 8)
            &&& plan.invocations[n - 2] == release_invocation(
                accounts,
                args.quantity,
                derived_authority(program, accounts, args),
            )
            &&& plan.invocations[n - 1] == payment_invocation(accounts, args.price)
        }),
{
}

/// A settlement into a holding account that is there already never asks for its
/// creation, and does not fail for it: it succeeds wherever the accounts are all
/// there, the payer signed, the custodial account and the bump are the derived ones
/// and the token program is the token program, and then asks for the two transfers
/// alone.
pub proof fn lemma_settle_keeps_existing_holding(program: Seq<u8>, accounts: Seq<Account>, args: BuyTokensArgs)
    requires
        accounts.len() >= 3,
        accounts[2].lamports != 0,
    ensures
        forall|i: int|
            0 <= i < settle_plan(program, accounts, args).invocations.len() ==> (
            #[trigger] settle_plan(program, accounts, args).invocations[i]).instruction.program_id
                != ASSOCIATED_TOKEN_PROGRAM_ID@,
        settle_plan(program, accounts, args).outcome is Ok <==> accounts.len() >= 9
            && accounts[5].is_signer && escrow_address(program, accounts[0].key@) == Some(
            (accounts[3].key@, args.bump_seed),
        ) && accounts[8].key@ == TOKEN_PROGRAM_ID@,
        settle_plan(program, accounts, args).outcome is Ok ==> settle_plan(
            program,
            accounts,
            args,
        ).invocations == seq![
            release_invocation(accounts, args.quantity, derived_authority(program, accounts, args)),
            payment_invocation(accounts, args.price),
        ],
{
    let opening = Seq::<InvocationView>::empty();
    assert(opening + seq![
        release_invocation(accounts, args.quantity, derived_authority(program, accounts, args)),
        payment_invocation(accounts, args.price),
    ] =~= seq![
        release_invocation(accounts, args.quantity, derived_authority(program, accounts, args)),
        payment_invocation(accounts, args.price),
    ]);
    assert(TOKEN_PROGRAM_ID@[0] != ASSOCIATED_TOKEN_PROGRAM_ID@[0]);
    assert(SYSTEM_PROGRAM_ID@[0] != ASSOCIATED_TOKEN_PROGRAM_ID@[0]);
}

} // verus!
