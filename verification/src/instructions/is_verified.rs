use vstd::prelude::*;

use crate::errors::ProgramError;
use crate::registry::Registry;

verus! {

/// The accounts a read-only query carries: the identity whose record is read.
/// No signature is required; any party may query.
pub struct CheckVerified {
    pub user: [u8; 32],
}

/// Whether Verify has ever succeeded for `ctx.user`. Fails exactly when no
/// record exists for that user.
pub fn handler(reg: &Registry, ctx: &CheckVerified) -> (r: Result<bool, ProgramError>)
    requires
        reg.wf(),
    ensures
        match r {
            Ok(b) => reg@.contains_key(ctx.user@) && b == reg@[ctx.user@].is_verified,
            Err(e) => !reg@.contains_key(ctx.user@) && e == ProgramError::AccountNotFound,
        },
{
    match reg.get_record(&ctx.user) {
        Some(rec) => Ok(rec.is_verified),
        None => Err(ProgramError::AccountNotFound),
    }
}

} // verus!
