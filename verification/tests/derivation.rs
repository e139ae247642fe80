use anchor_lang::solana_program::pubkey::Pubkey;
use delegated_signing::deriver::derive_authority;
use delegated_signing::dispatcher::authority_label;
use delegated_signing::DispatchError;
use delegated_signing::Identity;

const PROGRAM: [u8; 32] = [42u8; 32];
const S1: [u8; 32] = [8u8; 32];
const A1: [u8; 32] = [
    55, 223, 217, 203, 62, 216, 75, 136, 211, 29, 30, 71, 195, 6, 56, 177, 70, 183, 26, 237, 35,
    143, 45, 253, 132, 77, 18, 188, 236, 4, 127, 168,
];

fn pubkey(id: &Identity) -> Pubkey {
    Pubkey::new_from_array(id.bytes)
}

#[test]
fn authority_label_spells_authority() {
    assert_eq!(authority_label(), b"authority".to_vec());
}

#[test]
fn derivation_of_s1_settles_on_bump_254() {
    let authority =
        derive_authority(b"authority", &Identity::new(S1), &Identity::new(PROGRAM)).unwrap();
    assert_eq!(authority.bump(), 254);
    assert_eq!(authority.address(), Identity::new(A1));
    assert_eq!(authority.seed(), Identity::new(S1));
    assert_eq!(authority.program(), Identity::new(PROGRAM));
    assert_eq!(authority.namespace().as_slice(), b"authority");
}

#[test]
fn bump_255_gives_no_address_for_s1() {
    let program = Pubkey::new_from_array(PROGRAM);
    assert!(Pubkey::create_program_address(&[b"authority", &S1, &[255]], &program).is_err());
    assert_eq!(
        Pubkey::create_program_address(&[b"authority", &S1, &[254]], &program).unwrap(),
        Pubkey::new_from_array(A1)
    );
}

#[test]
fn repeated_derivation_returns_the_same_pair() {
    let program = Identity::new(PROGRAM);
    for i in 0u8..=255 {
        let signer = Identity::new([i; 32]);
        let first = derive_authority(b"authority", &signer, &program).unwrap();
        let second = derive_authority(b"authority", &signer, &program).unwrap();
        assert_eq!(first.address(), second.address());
        assert_eq!(first.bump(), second.bump());
    }
}

#[test]
fn derivation_agrees_with_the_platform_search() {
    let program = Identity::new(PROGRAM);
    for i in 0u8..=255 {
        let signer = Identity::new([i; 32]);
        let authority = derive_authority(b"authority", &signer, &program).unwrap();
        let (address, bump) =
            Pubkey::find_program_address(&[b"authority", &signer.bytes], &pubkey(&program));
        assert_eq!(pubkey(&authority.address()), address);
        assert_eq!(authority.bump(), bump);
        assert!(authority.bump() >= 1);
    }
}

#[test]
fn derived_address_is_off_the_curve_and_differs_from_the_seed() {
    let program = Identity::new(PROGRAM);
    let signer = Identity::new(S1);
    let authority = derive_authority(b"authority", &signer, &program).unwrap();
    assert!(!pubkey(&authority.address()).is_on_curve());
    assert_ne!(authority.address(), signer);
}

#[test]
fn namespace_and_program_separate_identities() {
    let signer = Identity::new(S1);
    let program = Identity::new(PROGRAM);
    let authority = derive_authority(b"authority", &signer, &program).unwrap();
    let mint = derive_authority(b"mint", &signer, &program).unwrap();
    let elsewhere = derive_authority(b"authority", &signer, &Identity::new([43u8; 32])).unwrap();
    assert_ne!(authority.address(), mint.address());
    assert_ne!(authority.address(), elsewhere.address());
}

#[test]
fn empty_label_derives() {
    let signer = Identity::new(S1);
    let program = Identity::new(PROGRAM);
    let authority = derive_authority(b"", &signer, &program).unwrap();
    let (address, bump) = Pubkey::find_program_address(&[b"", &S1], &pubkey(&program));
    assert_eq!(pubkey(&authority.address()), address);
    assert_eq!(authority.bump(), bump);
}

#[test]
fn label_of_32_bytes_derives() {
    let label = [b'a'; 32];
    let signer = Identity::new(S1);
    let program = Identity::new(PROGRAM);
    let authority = derive_authority(&label, &signer, &program).unwrap();
    let (address, bump) = Pubkey::find_program_address(&[&label, &S1], &pubkey(&program));
    assert_eq!(pubkey(&authority.address()), address);
    assert_eq!(authority.bump(), bump);
}

#[test]
fn label_of_33_bytes_exhausts_the_derivation() {
    let label = [b'a'; 33];
    let signer = Identity::new(S1);
    let program = Identity::new(PROGRAM);
    let r = derive_authority(&label, &signer, &program);
    assert!(matches!(r, Err(DispatchError::DerivationExhausted)));
    assert!(Pubkey::try_find_program_address(&[&label, &S1], &pubkey(&program)).is_none());
}

#[test]
fn capsule_holds_label_seed_and_bump() {
    let authority =
        derive_authority(b"authority", &Identity::new(S1), &Identity::new(PROGRAM)).unwrap();
    let capsule = authority.capsule();
    assert_eq!(capsule.namespace, b"authority".to_vec());
    assert_eq!(capsule.seed, Identity::new(S1));
    assert_eq!(capsule.bump, 254);
    assert_eq!(capsule.seeds(), vec![b"authority".to_vec(), S1.to_vec(), vec![254u8]]);
}

#[test]
fn capsule_controls_its_authority_and_no_other() {
    let program = Identity::new(PROGRAM);
    let authority = derive_authority(b"authority", &Identity::new(S1), &program).unwrap();
    let capsule = authority.capsule();
    assert!(capsule.controls(&program, &Identity::new(A1)));
    assert!(!capsule.controls(&program, &Identity::new(S1)));
    assert!(!capsule.controls(&Identity::new([43u8; 32]), &Identity::new(A1)));

    let mut on_curve = capsule.clone();
    on_curve.bump = 255;
    assert!(!on_curve.controls(&program, &Identity::new(A1)));

    let mut too_long = capsule.clone();
    too_long.namespace = vec![b'a'; 33];
    assert!(!too_long.controls(&program, &Identity::new(A1)));
}

#[test]
fn capsule_with_a_lower_bump_controls_a_different_identity() {
    let program = Identity::new(PROGRAM);
    let authority = derive_authority(b"authority", &Identity::new(S1), &program).unwrap();
    let mut capsule = authority.capsule();
    let mut lower = None;
    for bump in (1u8..254).rev() {
        if let Ok(address) =
            Pubkey::create_program_address(&[b"authority", &S1, &[bump]], &pubkey(&program))
        {
            lower = Some((bump, address));
            break;
        }
    }
    let (bump, address) = lower.unwrap();
    capsule.bump = bump;
    assert_ne!(address.to_bytes(), A1);
    assert!(capsule.controls(&program, &Identity::new(address.to_bytes())));
    assert!(!capsule.controls(&program, &Identity::new(A1)));
}

#[test]
fn identities_compare_by_their_bytes() {
    let a = Identity::new(S1);
    let b = Identity::new(S1);
    let mut other = S1;
    other[31] = 9;
    let c = Identity::new(other);
    assert!(a.same(&b));
    assert!(!a.same(&c));
    assert_eq!(a.to_vec(), S1.to_vec());
}
