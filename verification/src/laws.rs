use vstd::prelude::*;

use crate::addressing::{derive_result_matches, spec_record_address};
use crate::errors::{NotABotError, ProgramError};
use crate::instructions::verify_user::spec_verify_error;
use crate::state::{initialized_record, verified_record, RecordModel, UserVerification};

verus! {

/// Law: addressing is deterministic. Any two results that the contract of
/// `derive_record_address` allows for the same user and program are equal —
/// both fail, or both return the same address bytes and the same nonce.
pub proof fn lemma_addressing_deterministic(
    r1: Option<([u8; 32], u8)>,
    r2: Option<([u8; 32], u8)>,
    user: Seq<u8>,
    program: Seq<u8>,
)
    requires
        derive_result_matches(r1, spec_record_address(user, program)),
        derive_result_matches(r2, spec_record_address(user, program)),
    ensures
        match (r1, r2) {
            (Some(a), Some(b)) => a.0@ == b.0@ && a.1 == b.1,
            (None, None) => true,
            _ => false,
        },
{
}

/// Law: creation is one-time. After a successful Initialize the store holds a
/// record for the user, and by the contract of `initialize_verification` a
/// second Initialize for that user then fails with `AccountAlreadyExists` and
/// leaves the store unchanged.
pub proof fn lemma_one_time_creation(m: Map<Seq<u8>, RecordModel>, user: Seq<u8>, now: i64, bump: u8)
    ensures
        m.insert(user, initialized_record(user, now, bump)).contains_key(user),
{
}

/// Law: the authorization gate fails closed. On an existing record, a Verify
/// signed by any identity other than the configured oracle authority resolves
/// to `Unauthorized` — and by the contract of `verify_user` the store is then
/// left unchanged.
pub proof fn lemma_authorization_gate(
    m: Map<Seq<u8>, RecordModel>,
    authority: Seq<u8>,
    expected_authority: Seq<u8>,
    user: Seq<u8>,
    source: Seq<u8>,
    unique_id: Seq<u8>,
)
    requires
        m.contains_key(user),
        authority != expected_authority,
    ensures
        spec_verify_error(m, authority, expected_authority, user, source, unique_id)
            == Some(ProgramError::Custom(NotABotError::Unauthorized)),
{
}

/// Law: the byte bounds are enforced exactly. On an existing record and an
/// authorized signer, a Verify fails with `SourceTooLong` above 32 source
/// bytes, with `UniqueIdTooLong` above 64 unique-id bytes, and is owed
/// success at or below both bounds.
pub proof fn lemma_bounds_enforcement(
    m: Map<Seq<u8>, RecordModel>,
    authority: Seq<u8>,
    user: Seq<u8>,
    source: Seq<u8>,
    unique_id: Seq<u8>,
)
    requires
        m.contains_key(user),
    ensures
        source.len() > UserVerification::MAX_SOURCE_LEN
            ==> spec_verify_error(m, authority, authority, user, source, unique_id)
                == Some(ProgramError::Custom(NotABotError::SourceTooLong)),
        source.len() <= UserVerification::MAX_SOURCE_LEN
            && unique_id.len() > UserVerification::MAX_UNIQUE_ID_LEN
            ==> spec_verify_error(m, authority, authority, user, source, unique_id)
                == Some(ProgramError::Custom(NotABotError::UniqueIdTooLong)),
        source.len() <= UserVerification::MAX_SOURCE_LEN
            && unique_id.len() <= UserVerification::MAX_UNIQUE_ID_LEN
            ==> spec_verify_error(m, authority, authority, user, source, unique_id) is None,
{
}

/// Law: after a successful Verify, the user's record is verified, carries the
/// submitted proof metadata, and scores 100 — what `is_verified` and
/// `get_trust_score` then return.
pub proof fn lemma_post_verify_state(
    m: Map<Seq<u8>, RecordModel>,
    user: Seq<u8>,
    source: Seq<u8>,
    unique_id: Seq<u8>,
    now: i64,
)
    requires
        m.contains_key(user),
    ensures
        ({
            let m2 = m.insert(user, verified_record(m[user], source, unique_id, now));
            &&& m2.contains_key(user)
            &&& m2[user].is_verified == true
            &&& m2[user].trust_score == 100
            &&& m2[user].source == source
            &&& m2[user].unique_id == unique_id
            &&& m2[user].user == m[user].user
            &&& m2[user].bump == m[user].bump
        }),
{
}

/// Law: before any Verify, a freshly created record reads as unverified with
/// a zero trust score and empty proof metadata.
pub proof fn lemma_pre_verify_defaults(m: Map<Seq<u8>, RecordModel>, user: Seq<u8>, now: i64, bump: u8)
    ensures
        ({
            let m2 = m.insert(user, initialized_record(user, now, bump));
            &&& m2.contains_key(user)
            &&& m2[user].is_verified == false
            &&& m2[user].trust_score == 0
            &&& m2[user].source == Seq::<u8>::empty()
            &&& m2[user].unique_id == Seq::<u8>::empty()
        }),
{
}

/// Law: re-verification overwrites. Two successive Verifies of the same user
/// leave exactly the state of the second alone — no `AlreadyVerified`
/// rejection, no trace of the first outcome.
pub proof fn lemma_reverification_overwrites(
    m: Map<Seq<u8>, RecordModel>,
    user: Seq<u8>,
    source1: Seq<u8>,
    unique_id1: Seq<u8>,
    now1: i64,
    source2: Seq<u8>,
    unique_id2: Seq<u8>,
    now2: i64,
)
    requires
        m.contains_key(user),
    ensures
        ({
            let m1 = m.insert(user, verified_record(m[user], source1, unique_id1, now1));
            let m2 = m1.insert(user, verified_record(m1[user], source2, unique_id2, now2));
            m2 == m.insert(user, verified_record(m[user], source2, unique_id2, now2))
        }),
{
    let m1 = m.insert(user, verified_record(m[user], source1, unique_id1, now1));
    let m2 = m1.insert(user, verified_record(m1[user], source2, unique_id2, now2));
    assert(m1[user] == verified_record(m[user], source1, unique_id1, now1));
    assert(verified_record(m1[user], source2, unique_id2, now2)
        == verified_record(m[user], source2, unique_id2, now2));
    assert(m2 =~= m.insert(user, verified_record(m[user], source2, unique_id2, now2)));
}

} // verus!
