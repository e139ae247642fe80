use anchor_lang::solana_program::instruction::AccountMeta;
use anchor_lang::solana_program::program_error::ProgramError;
use anchor_lang::solana_program::pubkey::Pubkey;
use anchor_spl::token::spl_token;
use delegated_signing::deriver::derive_authority;
use delegated_signing::dispatcher::issue;
use delegated_signing::dispatcher::transfer;
use delegated_signing::instruction::token_program;
use delegated_signing::instruction::INCORRECT_PROGRAM_ID;
use delegated_signing::instruction::ISSUE_TAG;
use delegated_signing::instruction::TRANSFER_TAG;
use delegated_signing::AccountRef;
use delegated_signing::DelegatedInstruction;
use delegated_signing::DispatchError;
use delegated_signing::Identity;
use delegated_signing::Operation;

const PROGRAM: [u8; 32] = [42u8; 32];
const S1: [u8; 32] = [8u8; 32];
const A1: [u8; 32] = [
    55, 223, 217, 203, 62, 216, 75, 136, 211, 29, 30, 71, 195, 6, 56, 177, 70, 183, 26, 237, 35,
    143, 45, 253, 132, 77, 18, 188, 236, 4, 127, 168,
];
const MINT: [u8; 32] = [1u8; 32];
const FIRST: [u8; 32] = [2u8; 32];
const SECOND: [u8; 32] = [3u8; 32];

fn pubkey(id: &Identity) -> Pubkey {
    Pubkey::new_from_array(id.bytes)
}

fn metas(ix: &DelegatedInstruction) -> Vec<AccountMeta> {
    ix.accounts
        .iter()
        .map(|a| AccountMeta {
            pubkey: pubkey(&a.key),
            is_signer: a.is_signer,
            is_writable: a.is_writable,
        })
        .collect()
}

#[test]
fn token_program_is_the_platforms() {
    assert_eq!(pubkey(&token_program()), spl_token::id());
    assert_eq!(
        pubkey(&token_program()).to_string(),
        "TokenkegQfeZyiNwAJbNbGKPFXCWuBvf9Ss623VQ5DA"
    );
}

#[test]
fn rejection_code_is_the_platforms() {
    assert_eq!(INCORRECT_PROGRAM_ID, u64::from(ProgramError::IncorrectProgramId));
    assert_eq!(INCORRECT_PROGRAM_ID, 7u64 << 32);
}

#[test]
fn issue_of_500_has_the_expected_instruction() {
    let authority =
        derive_authority(b"authority", &Identity::new(S1), &Identity::new(PROGRAM)).unwrap();
    let invocation = issue(
        &authority,
        &token_program(),
        &Identity::new(MINT),
        &Identity::new(FIRST),
        500,
    )
    .unwrap();
    assert_eq!(invocation.kind, Operation::Issue);
    assert_eq!(invocation.amount, 500);
    assert_eq!(invocation.capsule, authority.capsule());
    let ix = &invocation.instruction;
    assert_eq!(ix.program, token_program());
    assert_eq!(ix.data, vec![7u8, 0xf4, 0x01, 0, 0, 0, 0, 0, 0]);
    assert_eq!(ix.data[0], ISSUE_TAG);
    assert_eq!(
        ix.accounts,
        vec![
            AccountRef { key: Identity::new(MINT), is_signer: false, is_writable: true },
            AccountRef { key: Identity::new(FIRST), is_signer: false, is_writable: true },
            AccountRef { key: Identity::new(A1), is_signer: true, is_writable: false },
        ]
    );
}

#[test]
fn transfer_of_200_has_the_expected_instruction() {
    let authority =
        derive_authority(b"authority", &Identity::new(S1), &Identity::new(PROGRAM)).unwrap();
    let invocation = transfer(
        &authority,
        &token_program(),
        &Identity::new(FIRST),
        &Identity::new(SECOND),
        200,
    )
    .unwrap();
    assert_eq!(invocation.kind, Operation::Transfer);
    assert_eq!(invocation.amount, 200);
    assert_eq!(invocation.capsule, authority.capsule());
    let ix = &invocation.instruction;
    assert_eq!(ix.program, token_program());
    assert_eq!(ix.data, vec![3u8, 200, 0, 0, 0, 0, 0, 0, 0]);
    assert_eq!(ix.data[0], TRANSFER_TAG);
    assert_eq!(
        ix.accounts,
        vec![
            AccountRef { key: Identity::new(FIRST), is_signer: false, is_writable: true },
            AccountRef { key: Identity::new(SECOND), is_signer: false, is_writable: true },
            AccountRef { key: Identity::new(A1), is_signer: true, is_writable: false },
        ]
    );
}

#[test]
fn amounts_are_written_lowest_byte_first() {
    let authority =
        derive_authority(b"authority", &Identity::new(S1), &Identity::new(PROGRAM)).unwrap();
    let mint = Identity::new(MINT);
    let first = Identity::new(FIRST);
    let data = |amount: u64| {
        issue(&authority, &token_program(), &mint, &first, amount).unwrap().instruction.data
    };
    assert_eq!(data(0), vec![7u8, 0, 0, 0, 0, 0, 0, 0, 0]);
    assert_eq!(data(0x0102030405060708), vec![7u8, 8, 7, 6, 5, 4, 3, 2, 1]);
    assert_eq!(data(u64::MAX), vec![7u8, 255, 255, 255, 255, 255, 255, 255, 255]);
}

#[test]
fn instructions_are_the_token_programs_own() {
    let authority =
        derive_authority(b"authority", &Identity::new(S1), &Identity::new(PROGRAM)).unwrap();
    let a1 = Pubkey::new_from_array(A1);
    for amount in [0u64, 1, 500, 1 << 40, u64::MAX] {
        let issued = issue(
            &authority,
            &token_program(),
            &Identity::new(MINT),
            &Identity::new(FIRST),
            amount,
        )
        .unwrap()
        .instruction;
        let expected = spl_token::instruction::mint_to(
            &spl_token::id(),
            &Pubkey::new_from_array(MINT),
            &Pubkey::new_from_array(FIRST),
            &a1,
            &[],
            amount,
        )
        .unwrap();
        assert_eq!(pubkey(&issued.program), expected.program_id);
        assert_eq!(metas(&issued), expected.accounts);
        assert_eq!(issued.data, expected.data);

        let moved = transfer(
            &authority,
            &token_program(),
            &Identity::new(FIRST),
            &Identity::new(SECOND),
            amount,
        )
        .unwrap()
        .instruction;
        let expected = spl_token::instruction::transfer(
            &spl_token::id(),
            &Pubkey::new_from_array(FIRST),
            &Pubkey::new_from_array(SECOND),
            &a1,
            &[],
            amount,
        )
        .unwrap();
        assert_eq!(pubkey(&moved.program), expected.program_id);
        assert_eq!(metas(&moved), expected.accounts);
        assert_eq!(moved.data, expected.data);
    }
}

#[test]
fn another_program_than_the_token_program_is_declined() {
    let authority =
        derive_authority(b"authority", &Identity::new(S1), &Identity::new(PROGRAM)).unwrap();
    let stranger = Identity::new([9u8; 32]);
    let issued = issue(&authority, &stranger, &Identity::new(MINT), &Identity::new(FIRST), 500);
    assert_eq!(issued, Err(DispatchError::InvocationRejected(0x7_0000_0000)));
    let moved = transfer(&authority, &stranger, &Identity::new(FIRST), &Identity::new(SECOND), 1);
    assert_eq!(moved, Err(DispatchError::InvocationRejected(0x7_0000_0000)));
}

#[test]
fn account_reference_keeps_its_parts() {
    let account = AccountRef::new(MINT, true, false);
    assert_eq!(
        account,
        AccountRef { key: Identity::new(MINT), is_signer: true, is_writable: false }
    );
}
