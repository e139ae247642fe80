//! The token program's two instructions, as this crate hands them on.

use vstd::prelude::*;
use vstd::bytes::spec_u64_to_le_bytes;
use anchor_lang::solana_program::pubkey::Pubkey;
use anchor_spl::token::spl_token::instruction::mint_to;
use anchor_spl::token::spl_token::instruction::transfer;
use crate::identity::Identity;

verus! {

/// First byte of the data of an issue instruction.
pub const ISSUE_TAG: u8 = 7;

/// First byte of the data of a transfer instruction.
pub const TRANSFER_TAG: u8 = 3;

/// The token program's reason code for an instruction addressed to another
/// program than itself.
pub const INCORRECT_PROGRAM_ID: u64 = 0x7_0000_0000;

/// The token program's own identity
/// (`TokenkegQfeZyiNwAJbNbGKPFXCWuBvf9Ss623VQ5DA`).
pub open spec fn token_program_id() -> Seq<u8> {
    seq![
        6u8, 221, 246, 225, 215, 101, 161, 147, 217, 203, 225, 70, 206, 235, 121, 172,
        28, 180, 133, 237, 95, 91, 55, 145, 58, 140, 245, 133, 126, 255, 0, 169,
    ]
}

/// The token program's own identity.
pub fn token_program() -> (id: Identity)
    ensures
        id@ == token_program_id(),
{
    let id = Identity {
        bytes: [
            6u8, 221, 246, 225, 215, 101, 161, 147, 217, 203, 225, 70, 206, 235, 121, 172,
            28, 180, 133, 237, 95, 91, 55, 145, 58, 140, 245, 133, 126, 255, 0, 169,
        ],
    };
    assert(id@ =~= token_program_id());
    id
}

/// An account as an instruction names it.
#[derive(Clone, Copy, Debug, PartialEq, Eq)]
pub struct AccountRef {
    pub key: Identity,
    pub is_signer: bool,
    pub is_writable: bool,
}

impl AccountRef {
    /// An account reference from its parts.
    pub fn new(key: [u8; 32], is_signer: bool, is_writable: bool) -> (account: AccountRef)
        ensures
            account == (AccountRef { key: Identity { bytes: key }, is_signer, is_writable }),
    {
        AccountRef { key: Identity { bytes: key }, is_signer, is_writable }
    }
}

/// An instruction for the token program: the program it is addressed to,
/// the accounts it names, and its data.
#[derive(Clone, Debug, PartialEq, Eq)]
pub struct DelegatedInstruction {
    pub program: Identity,
    pub accounts: Vec<AccountRef>,
    pub data: Vec<u8>,
}

/// A [`DelegatedInstruction`] as a mathematical value.
pub struct InstructionView {
    pub program: Identity,
    pub accounts: Seq<AccountRef>,
    pub data: Seq<u8>,
}

impl View for DelegatedInstruction {
    type V = InstructionView;

    open spec fn view(&self) -> InstructionView {
        InstructionView { program: self.program, accounts: self.accounts@, data: self.data@ }
    }
}

/// The data of an instruction that carries an amount: the tag, then the
/// amount's eight bytes, lowest first.
pub open spec fn amount_data(tag: u8, amount: u64) -> Seq<u8> {
    seq![tag] + spec_u64_to_le_bytes(amount)
}

/// The accounts of both instructions: two accounts that the token program
/// writes to, then the authority, which signs and is only read.
pub open spec fn delegated_accounts(first: Identity, second: Identity, authority: Identity) -> Seq<
    AccountRef,
> {
    seq![
        AccountRef { key: first, is_signer: false, is_writable: true },
        AccountRef { key: second, is_signer: false, is_writable: true },
        AccountRef { key: authority, is_signer: true, is_writable: false },
    ]
}

/// The instruction that issues `amount` units of the token type `mint`
/// into `destination`, signed by `authority`.
pub open spec fn issue_instruction(
    token_program: Identity,
    mint: Identity,
    destination: Identity,
    authority: Identity,
    amount: u64,
) -> InstructionView {
    InstructionView {
        program: token_program,
        accounts: delegated_accounts(mint, destination, authority),
        data: amount_data(ISSUE_TAG, amount),
    }
}

/// The instruction that moves `amount` units from `source` to
/// `destination`, signed by `authority`.
pub open spec fn transfer_instruction(
    token_program: Identity,
    source: Identity,
    destination: Identity,
    authority: Identity,
    amount: u64,
) -> InstructionView {
    InstructionView {
        program: token_program,
        accounts: delegated_accounts(source, destination, authority),
        data: amount_data(TRANSFER_TAG, amount),
    }
}

/// Calls `spl_token::instruction::mint_to` with no co-signers, and turns a
/// refusal into its reason code with the platform's `u64::from`.
///
/// Trusted: the builder refuses, with `IncorrectProgramId`, exactly a
/// program identity other than the token program's own. Otherwise the
/// instruction is addressed to that program, names the mint and the account
/// as writable and the owner as a read-only signer, and its data is the tag
/// 7 followed by the amount in little-endian order.
#[verifier::external_body]
pub(crate) fn token_mint_to(
    token_program: &Identity,
    mint: &Identity,
    account: &Identity,
    owner: &Identity,
    amount: u64,
) -> (r: Result<DelegatedInstruction, u64>)
    ensures
        r is Ok <==> token_program@ == token_program_id(),
        r matches Ok(ix) ==> ix@ == issue_instruction(
            *token_program,
            *mint,
            *account,
            *owner,
            amount,
        ),
        r matches Err(code) ==> code == INCORRECT_PROGRAM_ID,
{
    let program_id = Pubkey::new_from_array(token_program.bytes);
    let mint = Pubkey::new_from_array(mint.bytes);
    let account = Pubkey::new_from_array(account.bytes);
    let owner = Pubkey::new_from_array(owner.bytes);
    match mint_to(&program_id, &mint, &account, &owner, &[], amount) {
        Ok(ix) => Ok(DelegatedInstruction {
            program: Identity::new(ix.program_id.to_bytes()),
            accounts: ix.accounts.iter().map(|m| AccountRef::new(m.pubkey.to_bytes(), m.is_signer, m.is_writable)).collect(),
            data: ix.data,
        }),
        Err(refusal) => Err(u64::from(refusal)),
    }
}

/// Calls `spl_token::instruction::transfer` with no co-signers, and turns a
/// refusal into its reason code with the platform's `u64::from`.
///
/// Trusted: the builder refuses, with `IncorrectProgramId`, exactly a
/// program identity other than the token program's own. Otherwise the
/// instruction is addressed to that program, names source and destination
/// as writable and the authority as a read-only signer, and its data is the
/// tag 3 followed by the amount in little-endian order.
#[verifier::external_body]
pub(crate) fn token_transfer(
    token_program: &Identity,
    source: &Identity,
    destination: &Identity,
    authority: &Identity,
    amount: u64,
) -> (r: Result<DelegatedInstruction, u64>)
    ensures
        r is Ok <==> token_program@ == token_program_id(),
        r matches Ok(ix) ==> ix@ == transfer_instruction(
            *token_program,
            *source,
            *destination,
            *authority,
            amount,
        ),
        r matches Err(code) ==> code == INCORRECT_PROGRAM_ID,
{
    let program_id = Pubkey::new_from_array(token_program.bytes);
    let source = Pubkey::new_from_array(source.bytes);
    let destination = Pubkey::new_from_array(destination.bytes);
    let authority = Pubkey::new_from_array(authority.bytes);
    match transfer(&program_id, &source, &destination, &authority, &[], amount) {
        Ok(ix) => Ok(DelegatedInstruction {
            program: Identity::new(ix.program_id.to_bytes()),
            accounts: ix.accounts.iter().map(|m| AccountRef::new(m.pubkey.to_bytes(), m.is_signer, m.is_writable)).collect(),
            data: ix.data,
        }),
        Err(refusal) => Err(u64::from(refusal)),
    }
}

} // verus!
