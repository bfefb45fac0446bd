use notabot::addressing::{derive_record_address, seed_tag};
use notabot::errors::ProgramError;
use notabot::instructions::initialize_verification::InitializeVerification;
use notabot::registry::Registry;
use solana_program::pubkey::Pubkey;

const PROGRAM_ID: [u8; 32] = [1u8; 32];

fn user(tag: u8) -> [u8; 32] {
    let mut u = [0u8; 32];
    u[0] = tag;
    u
}

#[test]
fn seed_tag_is_the_verification_label() {
    assert_eq!(seed_tag().as_ref(), b"verification");
}

#[test]
fn derivation_is_deterministic() {
    let u = user(1);
    let first = derive_record_address(&u, &PROGRAM_ID);
    let second = derive_record_address(&u, &PROGRAM_ID);
    assert!(first.is_some());
    assert_eq!(first, second);
}

#[test]
fn distinct_users_get_distinct_addresses() {
    let (a1, _) = derive_record_address(&user(1), &PROGRAM_ID).expect("derivable");
    let (a2, _) = derive_record_address(&user(2), &PROGRAM_ID).expect("derivable");
    assert_ne!(a1, a2);
}

#[test]
fn derivation_matches_the_host_scheme() {
    // the wrapper must agree with a direct call of the host derivation on the
    // same seeds; a wrapper that handed its argument back would fail here
    let u = user(3);
    let (address, bump) = derive_record_address(&u, &PROGRAM_ID).expect("derivable");
    let program = Pubkey::new_from_array(PROGRAM_ID);
    let tag = seed_tag();
    let (expected, expected_bump) =
        Pubkey::find_program_address(&[tag.as_ref(), u.as_ref()], &program);
    assert_eq!(address, expected.to_bytes());
    assert_eq!(bump, expected_bump);
    assert_ne!(address, u);
}

#[test]
fn stored_nonce_is_the_derived_bump() {
    let mut reg = Registry::new(user(0x77), PROGRAM_ID);
    let u = user(4);
    let (_, bump) = derive_record_address(&u, &PROGRAM_ID).expect("derivable");
    let ctx = InitializeVerification { user: u, payer: user(0xAA) };
    assert_eq!(
        notabot::initialize_verification(&mut reg, &ctx, 42),
        Ok::<(), ProgramError>(())
    );
    let rec = reg.get_record(&u).expect("record must exist");
    assert_eq!(rec.bump, bump);
}
