use vstd::prelude::*;

verus! {

/// What the host's address derivation returns for given seeds and program
/// identity: a hash-based search for a bump seed, deterministic in its
/// arguments alone. `None` only when no bump seed yields a valid address.
pub uninterp spec fn derived_program_address(seeds: Seq<Seq<u8>>, program: Seq<u8>) -> Option<(Seq<u8>, u8)>;

/// The domain-separation tag (the bytes of "verification") under which every
/// record's address is derived from its owner's identity.
pub open spec fn spec_seed_tag() -> Seq<u8> {
    seq![118u8, 101u8, 114u8, 105u8, 102u8, 105u8, 99u8, 97u8, 116u8, 105u8, 111u8, 110u8]
}

pub fn seed_tag() -> (r: [u8; 12])
    ensures
        r@ == spec_seed_tag(),
{
    let r: [u8; 12] = [118u8, 101u8, 114u8, 105u8, 102u8, 105u8, 99u8, 97u8, 116u8, 105u8, 111u8, 110u8];
    proof {
        assert(r@ =~= spec_seed_tag());
    }
    r
}

/// The canonical storage address and address nonce of the record that
/// certifies `user`, under the program identified by `program`.
pub open spec fn spec_record_address(user: Seq<u8>, program: Seq<u8>) -> Option<(Seq<u8>, u8)> {
    derived_program_address(seq![spec_seed_tag(), user], program)
}

/// `r` is exactly what the derivation `d` allows: the same address bytes and
/// bump seed when the derivation succeeds, and nothing when it fails.
pub open spec fn derive_result_matches(r: Option<([u8; 32], u8)>, d: Option<(Seq<u8>, u8)>) -> bool {
    match r {
        Some(p) => d == Some((p.0@, p.1)),
        None => d is None,
    }
}

/// Relies on solana_program::pubkey::Pubkey::try_find_program_address: the
/// result is a function of the seeds and the program id alone (a search over
/// bump seeds of a SHA-256-based derivation), and `None` comes only in the
/// statistically improbable event that no bump seed yields a valid address.
#[verifier::external_body]
fn find_program_address_bytes(tag: &[u8], user: &[u8; 32], program: &[u8; 32]) -> (r: Option<([u8; 32], u8)>)
    ensures
        derive_result_matches(r, derived_program_address(seq![tag@, user@], program@)),
{
    let program_id = solana_program::pubkey::Pubkey::new_from_array(*program);
    let found = solana_program::pubkey::Pubkey::try_find_program_address(&[tag, user], &program_id);
    found.map(|(address, bump)| (address.to_bytes(), bump))
}

/// Derive the canonical record address and address nonce for `user` under
/// `program`. Any party can recompute it; the result is pinned to
/// `spec_record_address`, so two derivations for the same user and program
/// always agree.
pub fn derive_record_address(user: &[u8; 32], program: &[u8; 32]) -> (r: Option<([u8; 32], u8)>)
    ensures
        derive_result_matches(r, spec_record_address(user@, program@)),
{
    let tag = seed_tag();
    find_program_address_bytes(tag.as_slice(), user, program)
}

} // verus!
