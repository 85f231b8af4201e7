use vstd::prelude::*;
use crate::account::Account;
use crate::address::{
    derivation, derived_view, escrow_address, find_escrow_address, is_escrow_address, Address,
    AuthorityView, DerivedAuthority,
};
use crate::error::EscrowError;
use crate::instruction::{create_account, create_account_instruction};
use crate::plan::{rejected, Invocation, InvocationView, Plan, PlanView};
use crate::record::ESCROW_STATE_SIZE;

verus! {

/// The invocation that creates the custodial account: the seller funds it with
/// `lamports`, it gets room for one escrow record and the program as its owner, and
/// the program signs for it with the authority's seed tuple.
pub open spec fn create_invocation(
    program: Seq<u8>,
    accounts: Seq<Account>,
    lamports: u64,
    authority: AuthorityView,
) -> InvocationView
    recommends
        accounts.len() >= 3,
{
    InvocationView {
        instruction: create_account_instruction(
            accounts[0].key@,
            accounts[2].key@,
            lamports,
            ESCROW_STATE_SIZE as u64,
            program,
        ),
        accounts: seq![0usize, 2usize],
        authority: Some(authority),
    }
}

/// What creating an escrow asks of the ledger once the seller is known to have
/// signed and the derivation has given `derived`: the derivation has to be that of
/// the asset under the program, and the custodial account the derived one.
pub open spec fn create_plan_with(
    program: Seq<u8>,
    accounts: Seq<Account>,
    lamports: u64,
    derived: Option<AuthorityView>,
) -> PlanView
    recommends
        accounts.len() >= 3,
{
    match derived {
        None => rejected(EscrowError::NoViableAddress),
        Some(authority) => {
            if authority.program_id != program || authority.asset_id != accounts[1].key@
                || authority.address != accounts[2].key@ {
                rejected(EscrowError::InvalidArgument)
            } else {
                PlanView {
                    invocations: seq![create_invocation(program, accounts, lamports, authority)],
                    outcome: Ok(()),
                }
            }
        },
    }
}

/// What creating an escrow asks of the ledger.
///
/// The accounts are, in order: the seller, the asset, the custodial account to
/// create. `lamports` is the least balance that the ledger asks for an account of
/// the size of an escrow record.
///
/// The seller has to sign, and the custodial account has to be the one derived from
/// the program and the asset.
pub open spec fn create_plan(program: Seq<u8>, accounts: Seq<Account>, lamports: u64) -> PlanView
    recommends
        accounts.len() >= 3,
{
    if !accounts[0].is_signer {
        rejected(EscrowError::MissingRequiredSignature)
    } else {
        create_plan_with(program, accounts, lamports, derivation(program, accounts[1].key@))
    }
}

/// Plans the creation of an escrow against a derivation made before. A derivation
/// for another program or another asset is refused like a custodial account that is
/// not the derived one. So whatever derivation is handed in, a plan that goes ahead
/// creates the address derived from this program and this asset.
pub fn escrow_pda_create_with(
    program_id: &Address,
    accounts: &[Account],
    lamports: u64,
    derived: Option<DerivedAuthority>,
) -> (plan: Plan)
    requires
        accounts.len() >= 3,
    ensures
        plan@ == create_plan_with(program_id@, accounts@, lamports, derived_view(derived)),
        plan@.outcome is Ok ==> is_escrow_address(program_id@, accounts[1].key@, accounts[2].key@),
{
    let seller = accounts[0];
    let mint = accounts[1];
    let pda_account = accounts[2];
    let authority = match derived {
        None => {
            return Plan::reject(EscrowError::NoViableAddress);
        },
        Some(authority) => authority,
    };
    if !authority.program_id().same(program_id) || !authority.asset_id().same(&mint.key)
        || !authority.address().same(&pda_account.key) {
        return Plan::reject(EscrowError::InvalidArgument);
    }
    let instruction = create_account(
        &seller.key,
        &pda_account.key,
        lamports,
        ESCROW_STATE_SIZE as u64,
        program_id,
    );
    let mut plan = Plan::empty();
    plan.push(Invocation { instruction, accounts: vec![0, 2], authority: Some(authority) });
    assert(plan@.invocations =~= seq![
        create_invocation(program_id@, accounts@, lamports, authority@),
    ]);
    plan
}

/// Plans the creation of the escrow of an asset: the custodial account at the
/// derived address.
pub fn escrow_pda_create(program_id: &Address, accounts: &[Account], lamports: u64) -> (plan: Plan)
    requires
        accounts.len() >= 3,
    ensures
        plan@ == create_plan(program_id@, accounts@, lamports),
        plan@.outcome is Ok ==> is_escrow_address(program_id@, accounts[1].key@, accounts[2].key@),
{
    let seller = accounts[0];
    let mint = accounts[1];
    if !seller.is_signer {
        return Plan::reject(EscrowError::MissingRequiredSignature);
    }
    let derived = find_escrow_address(program_id, &mint.key);
    escrow_pda_create_with(program_id, accounts, lamports, derived)
}

/// No caller-supplied custodial address but the derived one is accepted: with any
/// other, the creation asks nothing of the ledger and fails, and where the seller
/// signed and an address can be derived, it fails as an argument error.
pub proof fn lemma_create_rejects_foreign_address(program: Seq<u8>, accounts: Seq<Account>, lamports: u64)
    requires
        accounts.len() >= 3,
        !is_escrow_address(program, accounts[1].key@, accounts[2].key@),
    ensures
        create_plan(program, accounts, lamports).invocations.len() == 0,
        create_plan(program, accounts, lamports).outcome is Err,
        accounts[0].is_signer && escrow_address(program, accounts[1].key@) is Some ==> create_plan(
            program,
            accounts,
            lamports,
        ) == rejected(EscrowError::InvalidArgument),
{
}

/// A creation that goes ahead creates one account and no other: the one at the
/// address derived from the program and the asset. So any two creations for one
/// asset under one program ask the ledger for the same address.
pub proof fn lemma_create_targets_derived_address(program: Seq<u8>, accounts: Seq<Account>, lamports: u64)
    requires
        accounts.len() >= 3,
        create_plan(program, accounts, lamports).outcome is Ok,
    ensures
        create_plan(program, accounts, lamports).invocations.len() == 1,
        derivation(program, accounts[1].key@) matches Some(authority) && create_plan(
            program,
            accounts,
            lamports,
        ).invocations[0] == create_invocation(program, accounts, lamports, authority)
            && create_plan(program, accounts, lamports).invocations[0].instruction.accounts[1].pubkey
            == authority.address,
{
}

} // verus!
