use vstd::prelude::*;
use crate::address::{AuthorityView, DerivedAuthority};
use crate::error::EscrowError;
use crate::instruction::{Instruction, InstructionView};

verus! {

/// One call of another program: the instruction, the accounts to hand over with it,
/// by their positions in the operation's account list, and the authority to sign
/// with, where the custodial account has to sign.
#[derive(Debug, PartialEq, Eq)]
pub struct Invocation {
    pub instruction: Instruction,
    pub accounts: Vec<usize>,
    pub authority: Option<DerivedAuthority>,
}

/// An `Invocation` as plain values.
pub struct InvocationView {
    pub instruction: InstructionView,
    pub accounts: Seq<usize>,
    pub authority: Option<AuthorityView>,
}

impl View for Invocation {
    type V = InvocationView;

    open spec fn view(&self) -> InvocationView {
        InvocationView {
            instruction: self.instruction@,
            accounts: self.accounts@,
            authority: match self.authority {
                Some(authority) => Some(authority@),
                None => None,
            },
        }
    }
}

/// What an operation asks of the ledger. The invocations are made in order, and the
/// first that fails ends the operation with its error. Once all have succeeded, the
/// operation ends as `outcome` says.
#[derive(Debug, PartialEq, Eq)]
pub struct Plan {
    pub invocations: Vec<Invocation>,
    pub outcome: Result<(), EscrowError>,
}

/// A `Plan` as plain values.
pub struct PlanView {
    pub invocations: Seq<InvocationView>,
    pub outcome: Result<(), EscrowError>,
}

impl View for Plan {
    type V = PlanView;

    open spec fn view(&self) -> PlanView {
        PlanView {
            invocations: Seq::new(self.invocations@.len(), |i: int| self.invocations@[i]@),
            outcome: self.outcome,
        }
    }
}

/// The plan of an operation that is refused before it asks anything of the ledger.
pub open spec fn rejected(error: EscrowError) -> PlanView {
    PlanView { invocations: Seq::empty(), outcome: Err(error) }
}

impl Plan {
    /// A plan that asks nothing of the ledger and ends with `error`.
    pub fn reject(error: EscrowError) -> (plan: Plan)
        ensures
            plan@ == rejected(error),
    {
        let plan = Plan { invocations: Vec::new(), outcome: Err(error) };
        assert(plan@.invocations =~= Seq::empty());
        plan
    }

    /// A plan that asks nothing of the ledger yet and ends in success.
    pub fn empty() -> (plan: Plan)
        ensures
            plan@ == (PlanView { invocations: Seq::empty(), outcome: Ok(()) }),
    {
        let plan = Plan { invocations: Vec::new(), outcome: Ok(()) };
        assert(plan@.invocations =~= Seq::empty());
        plan
    }

    /// Adds one more invocation at the end.
    pub fn push(&mut self, invocation: Invocation)
        ensures
            final(self)@ == (PlanView {
                invocations: old(self)@.invocations.push(invocation@),
                outcome: old(self)@.outcome,
            }),
    {
        self.invocations.push(invocation);
        assert(self@.invocations =~= old(self)@.invocations.push(invocation@));
    }

    /// Lets the plan end with `error` once its invocations have succeeded.
    pub fn fail_with(&mut self, error: EscrowError)
        ensures
            final(self)@ == (PlanView { invocations: old(self)@.invocations, outcome: Err(error) }),
    {
        self.outcome = Err(error);
    }
}

} // verus!
