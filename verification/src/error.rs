use vstd::prelude::*;

verus! {

/// Why an operation of the escrow program ends without success before, between or
/// after its invocations of other programs.
#[derive(Clone, Copy, Debug, PartialEq, Eq, Structural)]
pub enum EscrowError {
    /// A party that has to authorise the operation did not sign the transaction.
    MissingRequiredSignature,
    /// A custodial address or bump handed in by the caller is not the derived one.
    InvalidArgument,
    /// The account list is shorter than the operation's fixed layout.
    NotEnoughAccountKeys,
    /// The first byte of the instruction data selects no operation.
    InvalidInstructionData,
    /// The bytes after the tag are not the operation's fixed argument layout.
    MalformedArguments,
    /// The account given as the token program is not the token program.
    IncorrectProgramId,
    /// No bump in 255 down to 1 leads to an address off the signing curve.
    NoViableAddress,
}

} // verus!
