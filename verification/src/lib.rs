pub mod addressing;
pub mod errors;
pub mod instructions;
pub mod laws;
pub mod registry;
pub mod state;

use vstd::prelude::*;

use crate::addressing::spec_record_address;
use crate::errors::ProgramError;
use crate::instructions::get_trust_score;
use crate::instructions::initialize_verification::{self, InitializeVerification};
use crate::instructions::is_verified::{self, CheckVerified};
use crate::instructions::verify_user::{self, spec_verify_error, VerifyUser};
use crate::registry::Registry;
use crate::state::{initialized_record, verified_record};

verus! {

/// Create the verification record for `ctx.user`: unverified, empty proof
/// metadata, zero trust score, dated `now`. Succeeds exactly when no record
/// exists yet for that user and an address can be derived.
pub fn initialize_verification(reg: &mut Registry, ctx: &InitializeVerification, now: i64) -> (r: Result<(), ProgramError>)
    requires
        old(reg).wf(),
    ensures
        final(reg).wf(),
        final(reg).authority == old(reg).authority,
        final(reg).program_id == old(reg).program_id,
        match r {
            Ok(()) => {
                &&& !old(reg)@.contains_key(ctx.user@)
                &&& spec_record_address(ctx.user@, old(reg).program_id@) is Some
                &&& final(reg)@ == old(reg)@.insert(
                    ctx.user@,
                    initialized_record(
                        ctx.user@,
                        now,
                        spec_record_address(ctx.user@, old(reg).program_id@)->Some_0.1,
                    ),
                )
            },
            Err(ProgramError::AccountAlreadyExists) => {
                &&& old(reg)@.contains_key(ctx.user@)
                &&& final(reg)@ == old(reg)@
            },
            Err(ProgramError::AddressNotDerivable) => {
                &&& !old(reg)@.contains_key(ctx.user@)
                &&& spec_record_address(ctx.user@, old(reg).program_id@) is None
                &&& final(reg)@ == old(reg)@
            },
            Err(_) => false,
        },
{
    initialize_verification::handler(reg, ctx, now)
}

/// Mark the record of `ctx.user` verified with the submitted proof metadata.
/// Only the configured oracle authority may call this; a repeated Verify
/// overwrites the previous outcome. Every failure leaves the store untouched.
pub fn verify_user(reg: &mut Registry, ctx: &VerifyUser, source: Vec<u8>, unique_id: Vec<u8>, now: i64) -> (r: Result<(), ProgramError>)
    requires
        old(reg).wf(),
    ensures
        final(reg).wf(),
        final(reg).authority == old(reg).authority,
        final(reg).program_id == old(reg).program_id,
        match r {
            Ok(()) => {
                &&& spec_verify_error(old(reg)@, ctx.authority@, old(reg).authority@, ctx.user@, source@, unique_id@) is None
                &&& final(reg)@ == old(reg)@.insert(
                    ctx.user@,
                    verified_record(old(reg)@[ctx.user@], source@, unique_id@, now),
                )
            },
            Err(e) => {
                &&& spec_verify_error(old(reg)@, ctx.authority@, old(reg).authority@, ctx.user@, source@, unique_id@) == Some(e)
                &&& final(reg)@ == old(reg)@
            },
        },
{
    verify_user::handler(reg, ctx, source, unique_id, now)
}

/// Whether Verify has ever succeeded for `ctx.user`. Read-only; fails exactly
/// when no record exists.
pub fn is_verified(reg: &Registry, ctx: &CheckVerified) -> (r: Result<bool, ProgramError>)
    requires
        reg.wf(),
    ensures
        match r {
            Ok(b) => reg@.contains_key(ctx.user@) && b == reg@[ctx.user@].is_verified,
            Err(e) => !reg@.contains_key(ctx.user@) && e == ProgramError::AccountNotFound,
        },
{
    is_verified::handler(reg, ctx)
}

/// The trust score of `ctx.user`: 0 before any successful Verify, 100 after.
/// Read-only; fails exactly when no record exists.
pub fn get_trust_score(reg: &Registry, ctx: &CheckVerified) -> (r: Result<u64, ProgramError>)
    requires
        reg.wf(),
    ensures
        match r {
            Ok(score) => reg@.contains_key(ctx.user@) && score == reg@[ctx.user@].trust_score,
            Err(e) => !reg@.contains_key(ctx.user@) && e == ProgramError::AccountNotFound,
        },
{
    get_trust_score::handler(reg, ctx)
}

} // verus!
