use notabot::errors::{NotABotError, ProgramError};
use notabot::instructions::initialize_verification::InitializeVerification;
use notabot::instructions::is_verified::CheckVerified;
use notabot::instructions::verify_user::VerifyUser;
use notabot::registry::Registry;

const AUTHORITY: [u8; 32] = [7u8; 32];
const PROGRAM_ID: [u8; 32] = [1u8; 32];
const NOW: i64 = 1_700_000_000;

fn fresh_registry() -> Registry {
    Registry::new(AUTHORITY, PROGRAM_ID)
}

fn user(tag: u8) -> [u8; 32] {
    let mut u = [0u8; 32];
    u[0] = tag;
    u
}

fn init(reg: &mut Registry, u: [u8; 32]) -> Result<(), ProgramError> {
    let ctx = InitializeVerification { user: u, payer: user(0xAA) };
    notabot::initialize_verification(reg, &ctx, NOW)
}

fn verify(
    reg: &mut Registry,
    u: [u8; 32],
    authority: [u8; 32],
    source: &[u8],
    unique_id: &[u8],
) -> Result<(), ProgramError> {
    let ctx = VerifyUser { user: u, authority };
    notabot::verify_user(reg, &ctx, source.to_vec(), unique_id.to_vec(), NOW + 60)
}

fn queries(reg: &Registry, u: [u8; 32]) -> (Result<bool, ProgramError>, Result<u64, ProgramError>) {
    let ctx = CheckVerified { user: u };
    (
        notabot::is_verified(reg, &ctx),
        notabot::get_trust_score(reg, &ctx),
    )
}

#[test]
fn initialize_succeeds_once() {
    let mut reg = fresh_registry();
    let u = user(1);
    assert_eq!(init(&mut reg, u), Ok(()));
    assert_eq!(init(&mut reg, u), Err(ProgramError::AccountAlreadyExists));
    // the failed second creation mutated nothing
    let (v, s) = queries(&reg, u);
    assert_eq!(v, Ok(false));
    assert_eq!(s, Ok(0));
}

#[test]
fn pre_verify_defaults() {
    let mut reg = fresh_registry();
    let u = user(2);
    assert_eq!(init(&mut reg, u), Ok(()));
    let (v, s) = queries(&reg, u);
    assert_eq!(v, Ok(false));
    assert_eq!(s, Ok(0));
    let rec = reg.get_record(&u).expect("record must exist");
    assert_eq!(rec.user, u);
    assert!(!rec.is_verified);
    assert!(rec.source.is_empty());
    assert!(rec.unique_id.is_empty());
    assert_eq!(rec.timestamp, NOW);
    assert_eq!(rec.trust_score, 0);
}

#[test]
fn unauthorized_verify_leaves_record_unchanged() {
    let mut reg = fresh_registry();
    let u = user(3);
    assert_eq!(init(&mut reg, u), Ok(()));
    let impostor = user(0x66);
    assert_eq!(
        verify(&mut reg, u, impostor, b"twitter", b"abc123"),
        Err(ProgramError::Custom(NotABotError::Unauthorized))
    );
    let (v, s) = queries(&reg, u);
    assert_eq!(v, Ok(false));
    assert_eq!(s, Ok(0));
    let rec = reg.get_record(&u).expect("record must exist");
    assert!(rec.source.is_empty());
    assert!(rec.unique_id.is_empty());
}

#[test]
fn post_verify_state() {
    let mut reg = fresh_registry();
    let u = user(4);
    assert_eq!(init(&mut reg, u), Ok(()));
    assert_eq!(verify(&mut reg, u, AUTHORITY, b"twitter", b"abc123"), Ok(()));
    let (v, s) = queries(&reg, u);
    assert_eq!(v, Ok(true));
    assert_eq!(s, Ok(100));
    let rec = reg.get_record(&u).expect("record must exist");
    assert_eq!(rec.source, b"twitter".to_vec());
    assert_eq!(rec.unique_id, b"abc123".to_vec());
    assert_eq!(rec.timestamp, NOW + 60);
}

#[test]
fn source_bound_is_exact() {
    let mut reg = fresh_registry();
    let u = user(5);
    assert_eq!(init(&mut reg, u), Ok(()));
    let long_source = [b's'; 33];
    assert_eq!(
        verify(&mut reg, u, AUTHORITY, &long_source, b"id"),
        Err(ProgramError::Custom(NotABotError::SourceTooLong))
    );
    let (v, _) = queries(&reg, u);
    assert_eq!(v, Ok(false));
    let max_source = [b's'; 32];
    assert_eq!(verify(&mut reg, u, AUTHORITY, &max_source, b"id"), Ok(()));
}

#[test]
fn unique_id_bound_is_exact() {
    let mut reg = fresh_registry();
    let u = user(6);
    assert_eq!(init(&mut reg, u), Ok(()));
    let long_id = [b'i'; 65];
    assert_eq!(
        verify(&mut reg, u, AUTHORITY, b"src", &long_id),
        Err(ProgramError::Custom(NotABotError::UniqueIdTooLong))
    );
    let (v, _) = queries(&reg, u);
    assert_eq!(v, Ok(false));
    let max_id = [b'i'; 64];
    assert_eq!(verify(&mut reg, u, AUTHORITY, b"src", &max_id), Ok(()));
}

#[test]
fn reverification_overwrites() {
    let mut reg = fresh_registry();
    let u = user(7);
    assert_eq!(init(&mut reg, u), Ok(()));
    assert_eq!(verify(&mut reg, u, AUTHORITY, b"a", b"1"), Ok(()));
    assert_eq!(verify(&mut reg, u, AUTHORITY, b"b", b"2"), Ok(()));
    let rec = reg.get_record(&u).expect("record must exist");
    assert!(rec.is_verified);
    assert_eq!(rec.source, b"b".to_vec());
    assert_eq!(rec.unique_id, b"2".to_vec());
    assert_eq!(rec.trust_score, 100);
}

#[test]
fn verify_without_record_fails() {
    let mut reg = fresh_registry();
    let u = user(8);
    assert_eq!(
        verify(&mut reg, u, AUTHORITY, b"src", b"id"),
        Err(ProgramError::AccountNotFound)
    );
}

#[test]
fn queries_without_record_fail() {
    let reg = fresh_registry();
    let u = user(9);
    let (v, s) = queries(&reg, u);
    assert_eq!(v, Err(ProgramError::AccountNotFound));
    assert_eq!(s, Err(ProgramError::AccountNotFound));
    assert!(reg.get_record(&u).is_none());
}

#[test]
fn end_to_end_scenario() {
    let mut reg = fresh_registry();
    let u = user(10);
    assert_eq!(init(&mut reg, u), Ok(()));
    assert_eq!(verify(&mut reg, u, AUTHORITY, b"github", b"g-998"), Ok(()));
    let (v, s) = queries(&reg, u);
    assert_eq!(v, Ok(true));
    assert_eq!(s, Ok(100));
    let rec = reg.get_record(&u).expect("record must exist");
    assert_eq!(rec.source, b"github".to_vec());
    assert_eq!(rec.unique_id, b"g-998".to_vec());
}

#[test]
fn records_of_two_users_are_independent() {
    let mut reg = fresh_registry();
    let u1 = user(11);
    let u2 = user(12);
    assert_eq!(init(&mut reg, u1), Ok(()));
    assert_eq!(init(&mut reg, u2), Ok(()));
    assert_eq!(verify(&mut reg, u1, AUTHORITY, b"github", b"g-1"), Ok(()));
    let (v1, s1) = queries(&reg, u1);
    let (v2, s2) = queries(&reg, u2);
    assert_eq!(v1, Ok(true));
    assert_eq!(s1, Ok(100));
    assert_eq!(v2, Ok(false));
    assert_eq!(s2, Ok(0));
}
