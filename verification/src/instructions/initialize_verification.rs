use vstd::prelude::*;

use crate::addressing::{derive_record_address, spec_record_address};
use crate::errors::ProgramError;
use crate::registry::{lemma_view_push, Registry};
use crate::state::{initialized_record, UserVerification};

verus! {

/// The accounts an Initialize transaction carries: the identity the record
/// will certify, and the party funding the record's creation. The user need
/// not co-sign; creation is permissionless per user.
pub struct InitializeVerification {
    pub user: [u8; 32],
    pub payer: [u8; 32],
}

/// Create the verification record for `ctx.user` at its derived address,
/// dated `now` by the host clock. Succeeds exactly when no record exists yet
/// for that user and an address can be derived; a second creation fails
/// before mutating anything.
pub fn handler(reg: &mut Registry, ctx: &InitializeVerification, now: i64) -> (r: Result<(), ProgramError>)
    requires
        old(reg).wf(),
    ensures
        final(reg).wf(),
        final(reg).authority == old(reg).authority,
        final(reg).program_id == old(reg).program_id,
        match r {
            Ok(()) => {
                &&& !old(reg)@.contains_key(ctx.user@)
                &&& spec_record_address(ctx.user@, old(reg).program_id@) is Some
                &&& final(reg)@ == old(reg)@.insert(
                    ctx.user@,
                    initialized_record(
                        ctx.user@,
                        now,
                        spec_record_address(ctx.user@, old(reg).program_id@)->Some_0.1,
                    ),
                )
            },
            Err(ProgramError::AccountAlreadyExists) => {
                &&& old(reg)@.contains_key(ctx.user@)
                &&& final(reg)@ == old(reg)@
            },
            Err(ProgramError::AddressNotDerivable) => {
                &&& !old(reg)@.contains_key(ctx.user@)
                &&& spec_record_address(ctx.user@, old(reg).program_id@) is None
                &&& final(reg)@ == old(reg)@
            },
            Err(_) => false,
        },
{
    if let Some(_i) = reg.find_index(&ctx.user) {
        return Err(ProgramError::AccountAlreadyExists);
    }
    match derive_record_address(&ctx.user, &reg.program_id) {
        None => Err(ProgramError::AddressNotDerivable),
        Some((_address, bump)) => {
            let rec = UserVerification {
                user: ctx.user,
                is_verified: false,
                source: Vec::new(),
                unique_id: Vec::new(),
                timestamp: now,
                trust_score: 0,
                bump,
            };
            proof {
                assert(rec@ == initialized_record(
                    ctx.user@,
                    now,
                    spec_record_address(ctx.user@, reg.program_id@)->Some_0.1,
                ));
                lemma_view_push(reg.records@, rec);
            }
            reg.records.push(rec);
            Ok(())
        },
    }
}

} // verus!
