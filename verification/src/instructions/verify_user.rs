use vstd::prelude::*;

use crate::errors::{NotABotError, ProgramError};
use crate::registry::{bytes32_eq, lemma_view_index, lemma_view_update, Registry};
use crate::state::{verified_record, RecordModel, UserVerification};

verus! {

/// The accounts a Verify transaction carries: the identity whose record is to
/// be marked verified, and the signer claiming to be the oracle authority.
pub struct VerifyUser {
    pub user: [u8; 32],
    pub authority: [u8; 32],
}

/// Why a Verify request fails, in the order the checks run: the record must
/// exist, the signer must be the designated oracle authority, and the proof
/// metadata must respect its byte bounds. `None` means the request is owed
/// success.
pub open spec fn spec_verify_error(
    m: Map<Seq<u8>, RecordModel>,
    authority: Seq<u8>,
    expected_authority: Seq<u8>,
    user: Seq<u8>,
    source: Seq<u8>,
    unique_id: Seq<u8>,
) -> Option<ProgramError> {
    if !m.contains_key(user) {
        Some(ProgramError::AccountNotFound)
    } else if authority != expected_authority {
        Some(ProgramError::Custom(NotABotError::Unauthorized))
    } else if source.len() > UserVerification::MAX_SOURCE_LEN {
        Some(ProgramError::Custom(NotABotError::SourceTooLong))
    } else if unique_id.len() > UserVerification::MAX_UNIQUE_ID_LEN {
        Some(ProgramError::Custom(NotABotError::UniqueIdTooLong))
    } else {
        None
    }
}

/// Mark the record of `ctx.user` verified with the submitted proof metadata,
/// dated `now` by the host clock. Only the configured oracle authority may
/// call this; `source` is bounded by 32 bytes and `unique_id` by 64. A
/// repeated Verify overwrites the previous outcome — nothing raises
/// `AlreadyVerified`. Every failure leaves the store untouched.
pub fn handler(reg: &mut Registry, ctx: &VerifyUser, source: Vec<u8>, unique_id: Vec<u8>, now: i64) -> (r: Result<(), ProgramError>)
    requires
        old(reg).wf(),
    ensures
        final(reg).wf(),
        final(reg).authority == old(reg).authority,
        final(reg).program_id == old(reg).program_id,
        match r {
            Ok(()) => {
                &&& spec_verify_error(old(reg)@, ctx.authority@, old(reg).authority@, ctx.user@, source@, unique_id@) is None
                &&& final(reg)@ == old(reg)@.insert(
                    ctx.user@,
                    verified_record(old(reg)@[ctx.user@], source@, unique_id@, now),
                )
            },
            Err(e) => {
                &&& spec_verify_error(old(reg)@, ctx.authority@, old(reg).authority@, ctx.user@, source@, unique_id@) == Some(e)
                &&& final(reg)@ == old(reg)@
            },
        },
{
    let i = match reg.find_index(&ctx.user) {
        None => {
            return Err(ProgramError::AccountNotFound);
        },
        Some(i) => i,
    };
    proof {
        lemma_view_index(reg.records@, i as int);
    }
    if !bytes32_eq(&ctx.authority, &reg.authority) {
        return Err(ProgramError::Custom(NotABotError::Unauthorized));
    }
    if source.len() > UserVerification::MAX_SOURCE_LEN {
        return Err(ProgramError::Custom(NotABotError::SourceTooLong));
    }
    if unique_id.len() > UserVerification::MAX_UNIQUE_ID_LEN {
        return Err(ProgramError::Custom(NotABotError::UniqueIdTooLong));
    }
    let ghost source_view: Seq<u8> = source@;
    let ghost unique_id_view: Seq<u8> = unique_id@;
    let rec = UserVerification {
        user: ctx.user,
        is_verified: true,
        source,
        unique_id,
        timestamp: now,
        trust_score: 100,
        bump: reg.records[i].bump,
    };
    proof {
        assert(rec@ == verified_record(reg@[ctx.user@], source_view, unique_id_view, now));
        lemma_view_update(reg.records@, i as int, rec);
    }
    reg.records[i] = rec;
    Ok(())
}

} // verus!
