use vstd::prelude::*;

use crate::errors::ProgramError;
use crate::instructions::is_verified::CheckVerified;
use crate::registry::Registry;

verus! {

/// The trust score of `ctx.user`: 0 before any successful Verify, 100 after.
/// Fails exactly when no record exists for that user.
pub fn handler(reg: &Registry, ctx: &CheckVerified) -> (r: Result<u64, ProgramError>)
    requires
        reg.wf(),
    ensures
        match r {
            Ok(score) => reg@.contains_key(ctx.user@) && score == reg@[ctx.user@].trust_score,
            Err(e) => !reg@.contains_key(ctx.user@) && e == ProgramError::AccountNotFound,
        },
{
    match reg.get_record(&ctx.user) {
        Some(rec) => Ok(rec.trust_score),
        None => Err(ProgramError::AccountNotFound),
    }
}

} // verus!
