//! The delegated invocation dispatcher: from a request to the invocation
//! that the runtime is to perform, and from the runtime's answer to the
//! caller's result.

use vstd::prelude::*;
use crate::deriver::derivation;
use crate::deriver::derive_authority;
use crate::deriver::is_derivation;
use crate::deriver::lemma_derivation_found;
use crate::deriver::AuthorityView;
use crate::deriver::Capsule;
use crate::deriver::CapsuleView;
use crate::deriver::DerivedAuthority;
use crate::error::DispatchError;
use crate::identity::Identity;
use crate::instruction::issue_instruction;
use crate::instruction::token_mint_to;
use crate::instruction::token_program_id;
use crate::instruction::token_transfer;
use crate::instruction::transfer_instruction;
use crate::instruction::DelegatedInstruction;
use crate::instruction::InstructionView;
use crate::instruction::INCORRECT_PROGRAM_ID;

verus! {

/// The namespace label of authority identities: the bytes of `authority`.
pub open spec fn authority_namespace() -> Seq<u8> {
    seq![97u8, 117, 116, 104, 111, 114, 105, 116, 121]
}

/// The namespace label of authority identities.
pub fn authority_label() -> (label: Vec<u8>)
    ensures
        label@ == authority_namespace(),
{
    let label: Vec<u8> = vec![97u8, 117, 116, 104, 111, 114, 105, 116, 121];
    assert(label@ =~= authority_namespace());
    label
}

/// The two operations that the dispatcher delegates.
#[derive(Clone, Copy, Debug, PartialEq, Eq, Structural)]
pub enum Operation {
    /// Issue units of a token type into an account.
    Issue,
    /// Move units from one account to another.
    Transfer,
}

/// The accounts of an issue request, as the calling environment resolved
/// them. The dispatcher reads `signer`, `mint`, `token_account`,
/// `authority` and `token_program`; the others belong to account setup.
#[derive(Clone, Copy, Debug, PartialEq, Eq)]
pub struct MintTokens {
    pub owner: Identity,
    /// The signer whose identity seeds the authority.
    pub signer: Identity,
    /// The token type.
    pub mint: Identity,
    /// The account that receives the units.
    pub token_account: Identity,
    /// The derived authority that the accounts were set up with.
    pub authority: Identity,
    pub system_program: Identity,
    pub token_program: Identity,
    pub rent: Identity,
}

/// The accounts of a transfer request, as the calling environment resolved
/// them. The dispatcher reads all but `owner`.
#[derive(Clone, Copy, Debug, PartialEq, Eq)]
pub struct TransferTokens {
    pub owner: Identity,
    /// The signer whose identity seeds the authority.
    pub signer: Identity,
    /// The account that the units leave.
    pub source: Identity,
    /// The account that receives the units.
    pub destination: Identity,
    /// The derived authority that the source account was set up with.
    pub authority: Identity,
    pub token_program: Identity,
}

/// What the runtime is asked to perform: the instruction, and the capsule
/// by which the derived authority counts as having signed it.
#[derive(Clone, Debug, PartialEq, Eq)]
pub struct DelegatedInvocation {
    pub kind: Operation,
    pub amount: u64,
    pub instruction: DelegatedInstruction,
    pub capsule: Capsule,
}

/// A [`DelegatedInvocation`] as a mathematical value.
pub struct InvocationView {
    pub kind: Operation,
    pub amount: u64,
    pub instruction: InstructionView,
    pub capsule: CapsuleView,
}

impl View for DelegatedInvocation {
    type V = InvocationView;

    open spec fn view(&self) -> InvocationView {
        InvocationView {
            kind: self.kind,
            amount: self.amount,
            instruction: self.instruction@,
            capsule: self.capsule@,
        }
    }
}

/// The record of an operation that the token program performed.
#[derive(Clone, Copy, Debug, PartialEq, Eq, Structural)]
pub struct Confirmation {
    pub kind: Operation,
    pub amount: u64,
}

/// The capsule of an authority.
pub open spec fn capsule_of(authority: AuthorityView) -> CapsuleView {
    CapsuleView { namespace: authority.namespace, seed: authority.seed, bump: authority.bump }
}

/// What [`issue`] returns.
pub open spec fn issue_with(
    authority: AuthorityView,
    token_program: Identity,
    mint: Identity,
    destination: Identity,
    amount: u64,
) -> Result<InvocationView, DispatchError> {
    if token_program@ == token_program_id() {
        Ok(
            InvocationView {
                kind: Operation::Issue,
                amount,
                instruction: issue_instruction(
                    token_program,
                    mint,
                    destination,
                    authority.address,
                    amount,
                ),
                capsule: capsule_of(authority),
            },
        )
    } else {
        Err(DispatchError::InvocationRejected(INCORRECT_PROGRAM_ID))
    }
}

/// What [`transfer`] returns.
pub open spec fn transfer_with(
    authority: AuthorityView,
    token_program: Identity,
    source: Identity,
    destination: Identity,
    amount: u64,
) -> Result<InvocationView, DispatchError> {
    if token_program@ == token_program_id() {
        Ok(
            InvocationView {
                kind: Operation::Transfer,
                amount,
                instruction: transfer_instruction(
                    token_program,
                    source,
                    destination,
                    authority.address,
                    amount,
                ),
                capsule: capsule_of(authority),
            },
        )
    } else {
        Err(DispatchError::InvocationRejected(INCORRECT_PROGRAM_ID))
    }
}

/// The authority that `signer` derives under `program`, provided that it is
/// the authority `recorded` at account setup.
pub open spec fn regenerated(program: Identity, signer: Identity, recorded: Identity) -> Result<
    AuthorityView,
    DispatchError,
> {
    match derivation(authority_namespace(), signer@, program@) {
        None => Err(DispatchError::DerivationExhausted),
        Some((address, bump)) => if address == recorded@ {
            Ok(
                AuthorityView {
                    namespace: authority_namespace(),
                    seed: signer,
                    program,
                    address: recorded,
                    bump,
                },
            )
        } else {
            Err(DispatchError::BumpMismatch)
        },
    }
}

/// What [`mint_tokens`] returns.
pub open spec fn issue_outcome(program: Identity, accounts: MintTokens, amount: u64) -> Result<
    InvocationView,
    DispatchError,
> {
    match regenerated(program, accounts.signer, accounts.authority) {
        Ok(authority) => issue_with(
            authority,
            accounts.token_program,
            accounts.mint,
            accounts.token_account,
            amount,
        ),
        Err(e) => Err(e),
    }
}

/// What [`transfer_tokens`] returns.
pub open spec fn transfer_outcome(
    program: Identity,
    accounts: TransferTokens,
    amount: u64,
) -> Result<InvocationView, DispatchError> {
    match regenerated(program, accounts.signer, accounts.authority) {
        Ok(authority) => transfer_with(
            authority,
            accounts.token_program,
            accounts.source,
            accounts.destination,
            amount,
        ),
        Err(e) => Err(e),
    }
}

/// Whether an exec result is the spec result `expected`.
pub open spec fn is_outcome(
    r: Result<DelegatedInvocation, DispatchError>,
    expected: Result<InvocationView, DispatchError>,
) -> bool {
    match r {
        Ok(invocation) => expected == Ok::<InvocationView, DispatchError>(invocation@),
        Err(e) => expected == Err::<InvocationView, DispatchError>(e),
    }
}

/// Derives the authority of `signer` under `program` again and holds it
/// against the authority `recorded` at account setup.
///
/// The bump is never taken from the caller: it is the one that the
/// derivation settles on. Where the address it gives is not the recorded
/// one, seed and setup disagree.
pub fn regenerate(program: &Identity, signer: &Identity, recorded: &Identity) -> (r: Result<
    DerivedAuthority,
    DispatchError,
>)
    ensures
        match r {
            Ok(authority) => regenerated(*program, *signer, *recorded) == Ok::<
                AuthorityView,
                DispatchError,
            >(authority@) && authority@.is_derived(),
            Err(e) => regenerated(*program, *signer, *recorded) == Err::<
                AuthorityView,
                DispatchError,
            >(e),
        },
{
    let label = authority_label();
    match derive_authority(label.as_slice(), signer, program) {
        Ok(authority) => {
            let address = authority.address();
            if address.same(recorded) {
                Ok(authority)
            } else {
                Err(DispatchError::BumpMismatch)
            }
        },
        Err(e) => Err(e),
    }
}

/// Builds the invocation that issues `amount` units of `mint` into
/// `destination` under `authority`.
pub fn issue(
    authority: &DerivedAuthority,
    token_program: &Identity,
    mint: &Identity,
    destination: &Identity,
    amount: u64,
) -> (r: Result<DelegatedInvocation, DispatchError>)
    ensures
        is_outcome(r, issue_with(authority@, *token_program, *mint, *destination, amount)),
{
    let signing = authority.address();
    match token_mint_to(token_program, mint, destination, &signing, amount) {
        Ok(instruction) => Ok(
            DelegatedInvocation {
                kind: Operation::Issue,
                amount,
                instruction,
                capsule: authority.capsule(),
            },
        ),
        Err(code) => Err(DispatchError::InvocationRejected(code)),
    }
}

/// Builds the invocation that moves `amount` units from `source` to
/// `destination` under `authority`.
pub fn transfer(
    authority: &DerivedAuthority,
    token_program: &Identity,
    source: &Identity,
    destination: &Identity,
    amount: u64,
) -> (r: Result<DelegatedInvocation, DispatchError>)
    ensures
        is_outcome(r, transfer_with(authority@, *token_program, *source, *destination, amount)),
{
    let signing = authority.address();
    match token_transfer(token_program, source, destination, &signing, amount) {
        Ok(instruction) => Ok(
            DelegatedInvocation {
                kind: Operation::Transfer,
                amount,
                instruction,
                capsule: authority.capsule(),
            },
        ),
        Err(code) => Err(DispatchError::InvocationRejected(code)),
    }
}

/// The issue operation: the invocation that issues `amount` units into the
/// request's token account, signed by the authority of its signer.
pub fn mint_tokens(program: &Identity, accounts: &MintTokens, amount: u64) -> (r: Result<
    DelegatedInvocation,
    DispatchError,
>)
    ensures
        is_outcome(r, issue_outcome(*program, *accounts, amount)),
{
    match regenerate(program, &accounts.signer, &accounts.authority) {
        Ok(authority) => issue(
            &authority,
            &accounts.token_program,
            &accounts.mint,
            &accounts.token_account,
            amount,
        ),
        Err(e) => Err(e),
    }
}

/// The transfer operation: the invocation that moves `amount` units from the
/// request's source to its destination, signed by the authority of its
/// signer.
pub fn transfer_tokens(program: &Identity, accounts: &TransferTokens, amount: u64) -> (r: Result<
    DelegatedInvocation,
    DispatchError,
>)
    ensures
        is_outcome(r, transfer_outcome(*program, *accounts, amount)),
{
    match regenerate(program, &accounts.signer, &accounts.authority) {
        Ok(authority) => transfer(
            &authority,
            &accounts.token_program,
            &accounts.source,
            &accounts.destination,
            amount,
        ),
        Err(e) => Err(e),
    }
}

/// What [`conclude`] returns.
pub open spec fn conclusion(invocation: InvocationView, answer: Result<(), u64>) -> Result<
    Confirmation,
    DispatchError,
> {
    match answer {
        Ok(_) => Ok(Confirmation { kind: invocation.kind, amount: invocation.amount }),
        Err(code) => Err(DispatchError::InvocationRejected(code)),
    }
}

/// Maps the runtime's answer to a submitted invocation to the caller's
/// result: a confirmation where the token program performed the operation,
/// and its reason code, unchanged, where it declined.
pub fn conclude(invocation: &DelegatedInvocation, answer: Result<(), u64>) -> (r: Result<
    Confirmation,
    DispatchError,
>)
    ensures
        r == conclusion(invocation@, answer),
        r is Ok <==> answer is Ok,
        answer matches Err(code) ==> r == Err::<Confirmation, DispatchError>(
            DispatchError::InvocationRejected(code),
        ),
{
    match answer {
        Ok(_) => Ok(Confirmation { kind: invocation.kind, amount: invocation.amount }),
        Err(code) => Err(DispatchError::InvocationRejected(code)),
    }
}

/// Bump stability: let `address` and `bump` be what the signer's seed
/// derived when the accounts were set up. Deriving again settles on the
/// same bump. Where the recorded authority is that address, the authority
/// is regenerated with exactly that bump; where it is any other identity,
/// the operation ends in `BumpMismatch`.
pub proof fn lemma_bump_stability(
    program: Identity,
    signer: Identity,
    recorded: Identity,
    address: Seq<u8>,
    bump: u8,
)
    requires
        is_derivation(authority_namespace(), signer@, program@, address, bump),
    ensures
        derivation(authority_namespace(), signer@, program@) == Some((address, bump)),
        address == recorded@ ==> regenerated(program, signer, recorded) == Ok::<
            AuthorityView,
            DispatchError,
        >(
            AuthorityView {
                namespace: authority_namespace(),
                seed: signer,
                program,
                address: recorded,
                bump,
            },
        ),
        address != recorded@ ==> regenerated(program, signer, recorded) == Err::<
            AuthorityView,
            DispatchError,
        >(DispatchError::BumpMismatch),
{
    lemma_derivation_found(authority_namespace(), signer@, program@, address, bump);
}

/// A regenerated authority is the recorded one, and its capsule proves
/// that the program controls it.
pub proof fn lemma_regenerated_is_recorded(program: Identity, signer: Identity, recorded: Identity)
    ensures
        regenerated(program, signer, recorded) matches Ok(authority) ==> {
            &&& authority.address == recorded
            &&& authority.is_derived()
            &&& capsule_of(authority).proves_control(program, recorded)
        },
{
    if regenerated(program, signer, recorded) is Ok {
        let (address, bump) = choose|address: Seq<u8>, bump: u8|
            is_derivation(authority_namespace(), signer@, program@, address, bump);
        assert(is_derivation(authority_namespace(), signer@, program@, address, bump));
    }
}

/// No issue succeeds under another authority than the recorded one: the
/// invocation names the recorded authority as its only signer, and carries
/// the capsule that proves control of it.
pub proof fn lemma_issue_signs_as_recorded(program: Identity, accounts: MintTokens, amount: u64)
    ensures
        issue_outcome(program, accounts, amount) matches Ok(invocation) ==> {
            &&& invocation.instruction == issue_instruction(
                accounts.token_program,
                accounts.mint,
                accounts.token_account,
                accounts.authority,
                amount,
            )
            &&& invocation.capsule.proves_control(program, accounts.authority)
            &&& invocation.capsule.namespace == authority_namespace()
            &&& invocation.capsule.seed == accounts.signer
            &&& invocation.kind == Operation::Issue
            &&& invocation.amount == amount
        },
{
    lemma_regenerated_is_recorded(program, accounts.signer, accounts.authority);
}

/// No transfer succeeds under another authority than the recorded one: the
/// invocation names the recorded authority as its only signer, and carries
/// the capsule that proves control of it.
pub proof fn lemma_transfer_signs_as_recorded(
    program: Identity,
    accounts: TransferTokens,
    amount: u64,
)
    ensures
        transfer_outcome(program, accounts, amount) matches Ok(invocation) ==> {
            &&& invocation.instruction == transfer_instruction(
                accounts.token_program,
                accounts.source,
                accounts.destination,
                accounts.authority,
                amount,
            )
            &&& invocation.capsule.proves_control(program, accounts.authority)
            &&& invocation.capsule.namespace == authority_namespace()
            &&& invocation.capsule.seed == accounts.signer
            &&& invocation.kind == Operation::Transfer
            &&& invocation.amount == amount
        },
{
    lemma_regenerated_is_recorded(program, accounts.signer, accounts.authority);
}

/// Construction is pure: two results built from the same request are the
/// same error or hold the same invocation. Nothing of a first construction
/// or submission is kept that could change a second.
pub proof fn lemma_construction_repeatable(
    first: Result<DelegatedInvocation, DispatchError>,
    second: Result<DelegatedInvocation, DispatchError>,
    expected: Result<InvocationView, DispatchError>,
)
    requires
        is_outcome(first, expected),
        is_outcome(second, expected),
    ensures
        first is Ok <==> second is Ok,
        first matches Ok(a) ==> second matches Ok(b) && a@ == b@,
        first matches Err(e) ==> second matches Err(f) && e == f,
{
}

/// Rejection propagation: whatever the invocation, an answer that declines
/// never concludes in success, and the reason code is handed on unchanged.
pub proof fn lemma_rejection_propagates(invocation: InvocationView, code: u64)
    ensures
        conclusion(invocation, Err(code)) == Err::<Confirmation, DispatchError>(
            DispatchError::InvocationRejected(code),
        ),
        forall|answer: Result<(), u64>| #[trigger]
            conclusion(invocation, answer) is Ok <==> answer is Ok,
{
}

} // verus!
