use vstd::prelude::*;
use crate::address::{
    associated_address, holding_address, Address, ASSOCIATED_TOKEN_PROGRAM_ID, SYSTEM_PROGRAM_ID,
    TOKEN_PROGRAM_ID,
};
use crate::codec::u64_le;

verus! {

/// An account that an instruction names, and what the instruction may do with it.
#[derive(Clone, Copy, Debug, PartialEq, Eq)]
pub struct AccountMeta {
    pub pubkey: Address,
    pub is_signer: bool,
    pub is_writable: bool,
}

/// An `AccountMeta` with the address taken by its bytes.
pub struct AccountMetaView {
    pub pubkey: Seq<u8>,
    pub is_signer: bool,
    pub is_writable: bool,
}

impl View for AccountMeta {
    type V = AccountMetaView;

    open spec fn view(&self) -> AccountMetaView {
        AccountMetaView {
            pubkey: self.pubkey@,
            is_signer: self.is_signer,
            is_writable: self.is_writable,
        }
    }
}

/// A request to another program: the program, the accounts it is to work on and the
/// bytes that tell it what to do.
#[derive(Debug, PartialEq, Eq)]
pub struct Instruction {
    pub program_id: Address,
    pub accounts: Vec<AccountMeta>,
    pub data: Vec<u8>,
}

/// An `Instruction` as sequences of plain values.
pub struct InstructionView {
    pub program_id: Seq<u8>,
    pub accounts: Seq<AccountMetaView>,
    pub data: Seq<u8>,
}

impl View for Instruction {
    type V = InstructionView;

    open spec fn view(&self) -> InstructionView {
        InstructionView {
            program_id: self.program_id@,
            accounts: Seq::new(self.accounts@.len(), |i: int| self.accounts@[i]@),
            data: self.data@,
        }
    }
}

pub open spec fn meta(pubkey: Seq<u8>, is_signer: bool, is_writable: bool) -> AccountMetaView {
    AccountMetaView { pubkey, is_signer, is_writable }
}

/// The system program's instruction that creates the account `to` with `lamports`
/// of native currency taken from `from`, `space` bytes of data and `owner` as its
/// owning program. Both accounts sign and are written.
pub open spec fn create_account_instruction(
    from: Seq<u8>,
    to: Seq<u8>,
    lamports: u64,
    space: u64,
    owner: Seq<u8>,
) -> InstructionView {
    InstructionView {
        program_id: SYSTEM_PROGRAM_ID@,
        accounts: seq![meta(from, true, true), meta(to, true, true)],
        data: seq![0u8, 0u8, 0u8, 0u8] + u64_le(lamports) + u64_le(space) + owner,
    }
}

/// The system program's instruction that moves `lamports` of native currency from
/// `from`, which signs, to `to`.
pub open spec fn currency_transfer_instruction(from: Seq<u8>, to: Seq<u8>, lamports: u64) -> InstructionView {
    InstructionView {
        program_id: SYSTEM_PROGRAM_ID@,
        accounts: seq![meta(from, true, true), meta(to, false, true)],
        data: seq![2u8, 0u8, 0u8, 0u8] + u64_le(lamports),
    }
}

/// The addresses of a list, each by its bytes.
pub open spec fn address_list(addresses: Seq<Address>) -> Seq<Seq<u8>> {
    Seq::new(addresses.len(), |i: int| addresses[i]@)
}

/// The token program's instruction that moves `amount` units from the holding
/// account `source` to the holding account `destination`. The authority signs itself
/// where `signers` is empty; otherwise each of `signers` does, and is listed after it.
pub open spec fn asset_transfer_instruction(
    source: Seq<u8>,
    destination: Seq<u8>,
    authority: Seq<u8>,
    signers: Seq<Seq<u8>>,
    amount: u64,
) -> InstructionView {
    InstructionView {
        program_id: TOKEN_PROGRAM_ID@,
        accounts: seq![
            meta(source, false, true),
            meta(destination, false, true),
            meta(authority, signers.len() == 0, false),
        ] + Seq::new(signers.len(), |i: int| meta(signers[i], true, false)),
        data: seq![3u8] + u64_le(amount),
    }
}

/// What asking for an asset transfer gives: the transfer, and nothing where
/// `token_program` is not the token program.
pub open spec fn asset_transfer_outcome(
    token_program: Seq<u8>,
    source: Seq<u8>,
    destination: Seq<u8>,
    authority: Seq<u8>,
    signers: Seq<Seq<u8>>,
    amount: u64,
) -> Option<InstructionView> {
    if token_program == TOKEN_PROGRAM_ID@ {
        Some(asset_transfer_instruction(source, destination, authority, signers, amount))
    } else {
        None
    }
}

/// The error type of the ledger's programs, which the instruction builders of
/// `spl_token` return. Nothing is read of its values here.
#[verifier::external_type_specification]
#[verifier::external_body]
pub struct ExProgramError(solana_program::program_error::ProgramError);

/// The bytes of an address that was found, or none where none was.
pub open spec fn found_key(found: Option<(Seq<u8>, u8)>) -> Seq<u8> {
    match found {
        Some((address, _)) => address,
        None => Seq::empty(),
    }
}

/// The associated-token-account program's instruction that creates the account of
/// `wallet` for the asset `mint` under `token_program`, paid by `funder`, who signs.
/// The second account is the new account's derived address.
pub open spec fn create_associated_instruction(
    funder: Seq<u8>,
    wallet: Seq<u8>,
    mint: Seq<u8>,
    token_program: Seq<u8>,
) -> InstructionView
    recommends
        associated_address(wallet, mint, token_program) is Some,
{
    InstructionView {
        program_id: ASSOCIATED_TOKEN_PROGRAM_ID@,
        accounts: seq![
            meta(funder, true, true),
            meta(found_key(associated_address(wallet, mint, token_program)), false, true),
            meta(wallet, false, false),
            meta(mint, false, false),
            meta(SYSTEM_PROGRAM_ID@, false, false),
            meta(token_program, false, false),
        ],
        data: seq![0u8],
    }
}

/// The instruction that creates the holding account of `wallet` for the asset
/// `mint`, paid by `funder`.
pub open spec fn create_holding_instruction(funder: Seq<u8>, wallet: Seq<u8>, mint: Seq<u8>) -> InstructionView
    recommends
        holding_address(wallet, mint) is Some,
{
    create_associated_instruction(funder, wallet, mint, TOKEN_PROGRAM_ID@)
}

/// A built instruction as plain values, or nothing where building failed.
pub open spec fn built_view(
    built: Result<Instruction, solana_program::program_error::ProgramError>,
) -> Option<InstructionView> {
    match built {
        Ok(instruction) => Some(instruction@),
        Err(_) => None,
    }
}

/// Calls `system_instruction::create_account` of `solana_program`. The contract
/// states the instruction that the function builds: the system program as its
/// program, the funding and the new account as signing, writable accounts, and as
/// data the 4-byte little-endian variant number 0 followed by `lamports` and `space`
/// as 8 little-endian bytes each and the 32 bytes of `owner`.
#[verifier::external_body]
#[allow(deprecated)]
pub(crate) fn create_account(
    from: &Address,
    to: &Address,
    lamports: u64,
    space: u64,
    owner: &Address,
) -> (instruction: Instruction)
    ensures
        instruction@ == create_account_instruction(from@, to@, lamports, space, owner@),
{
    let built = solana_program::system_instruction::create_account(
        &from.bytes.into(), &to.bytes.into(), lamports, space, &owner.bytes.into());
    Instruction {
        program_id: Address { bytes: built.program_id.to_bytes() },
        accounts: built.accounts.iter().map(|m| AccountMeta {
            pubkey: Address { bytes: m.pubkey.to_bytes() },
            is_signer: m.is_signer,
            is_writable: m.is_writable,
        }).collect(),
        data: built.data,
    }
}

/// Calls `system_instruction::transfer` of `solana_program`. The contract states the
/// instruction that the function builds: the system program as its program, the
/// paying account as signing and writable, the receiving account as writable, and as
/// data the 4-byte little-endian variant number 2 followed by `lamports` as 8
/// little-endian bytes.
#[verifier::external_body]
#[allow(deprecated)]
pub(crate) fn currency_transfer(from: &Address, to: &Address, lamports: u64) -> (instruction: Instruction)
    ensures
        instruction@ == currency_transfer_instruction(from@, to@, lamports),
{
    let built = solana_program::system_instruction::transfer(
        &from.bytes.into(), &to.bytes.into(), lamports);
    Instruction {
        program_id: Address { bytes: built.program_id.to_bytes() },
        accounts: built.accounts.iter().map(|m| AccountMeta {
            pubkey: Address { bytes: m.pubkey.to_bytes() },
            is_signer: m.is_signer,
            is_writable: m.is_writable,
        }).collect(),
        data: built.data,
    }
}

/// Calls `instruction::transfer` of `spl_token`. The function fails exactly where
/// `token_program` is not the token program's address, and then always with the
/// error for an incorrect program. Else it builds the instruction that the contract
/// states: that program, the source and the destination as writable accounts, the
/// authority as a read-only account that signs only where no signers are given, each
/// signer as a read-only signing account, and as data the byte 3 followed by
/// `amount` as 8 little-endian bytes.
#[verifier::external_body]
pub(crate) fn asset_transfer(
    token_program: &Address,
    source: &Address,
    destination: &Address,
    authority: &Address,
    signers: &Vec<Address>,
    amount: u64,
) -> (built: Result<Instruction, solana_program::program_error::ProgramError>)
    ensures
        built_view(built) == asset_transfer_outcome(
            token_program@,
            source@,
            destination@,
            authority@,
            address_list(signers@),
            amount,
        ),
{
    let keys: Vec<solana_program::pubkey::Pubkey> = signers.iter().map(|s| s.bytes.into()).collect();
    let key_refs: Vec<&solana_program::pubkey::Pubkey> = keys.iter().collect();
    let built = spl_token::instruction::transfer(&token_program.bytes.into(), &source.bytes.into(),
        &destination.bytes.into(), &authority.bytes.into(), &key_refs, amount)?;
    Ok(Instruction {
        program_id: Address { bytes: built.program_id.to_bytes() },
        accounts: built.accounts.iter().map(|m| AccountMeta {
            pubkey: Address { bytes: m.pubkey.to_bytes() },
            is_signer: m.is_signer,
            is_writable: m.is_writable,
        }).collect(),
        data: built.data,
    })
}

/// Calls `instruction::create_associated_token_account` of
/// `spl_associated_token_account`. The function derives the new account's address
/// and panics where there is none, which `requires` leaves out. The contract states
/// the instruction that it builds: the associated-token-account program as its
/// program; the funder as signing and writable, the derived address as writable,
/// then the wallet, the mint, the system program and the token program as read-only
/// accounts; and the one byte 0 as data.
#[verifier::external_body]
pub(crate) fn create_associated_token_account(
    funder: &Address,
    wallet: &Address,
    mint: &Address,
    token_program: &Address,
) -> (instruction: Instruction)
    requires
        associated_address(wallet@, mint@, token_program@) is Some,
    ensures
        instruction@ == create_associated_instruction(funder@, wallet@, mint@, token_program@),
{
    let built = spl_associated_token_account::instruction::create_associated_token_account(
        &funder.bytes.into(), &wallet.bytes.into(), &mint.bytes.into(), &token_program.bytes.into());
    Instruction {
        program_id: Address { bytes: built.program_id.to_bytes() },
        accounts: built.accounts.iter().map(|m| AccountMeta {
            pubkey: Address { bytes: m.pubkey.to_bytes() },
            is_signer: m.is_signer,
            is_writable: m.is_writable,
        }).collect(),
        data: built.data,
    }
}

} // verus!
