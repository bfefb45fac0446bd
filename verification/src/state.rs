use vstd::prelude::*;

verus! {

/// Mathematical model of one verification record.
pub ghost struct RecordModel {
    pub user: Seq<u8>,
    pub is_verified: bool,
    pub source: Seq<u8>,
    pub unique_id: Seq<u8>,
    pub timestamp: i64,
    pub trust_score: u64,
    pub bump: u8,
}

/// One per-user verification record. Identities are 32-byte values; `source`
/// and `unique_id` are byte strings with the bounds below, enforced at
/// verification time.
pub struct UserVerification {
    pub user: [u8; 32],
    pub is_verified: bool,
    pub source: Vec<u8>,
    pub unique_id: Vec<u8>,
    pub timestamp: i64,
    pub trust_score: u64,
    pub bump: u8,
}

impl UserVerification {
    pub const MAX_SOURCE_LEN: usize = 32;
    pub const MAX_UNIQUE_ID_LEN: usize = 64;

    /// On-ledger capacity of one record: an 8-byte format discriminator, the
    /// owner identity, the verified flag, two length-prefixed byte strings at
    /// full capacity, the timestamp, the trust score and the address nonce.
    pub const SPACE: usize = 8 + 32 + 1 + 4 + 32 + 4 + 64 + 8 + 8 + 1;

    /// Both byte strings within their declared capacity.
    pub open spec fn wf(self) -> bool {
        &&& self.source@.len() <= Self::MAX_SOURCE_LEN
        &&& self.unique_id@.len() <= Self::MAX_UNIQUE_ID_LEN
    }
}

impl View for UserVerification {
    type V = RecordModel;

    open spec fn view(&self) -> RecordModel {
        RecordModel {
            user: self.user@,
            is_verified: self.is_verified,
            source: self.source@,
            unique_id: self.unique_id@,
            timestamp: self.timestamp,
            trust_score: self.trust_score,
            bump: self.bump,
        }
    }
}

/// The record that Initialize leaves for `user`: unverified, with empty proof
/// metadata, a zero trust score, the creation time, and the address nonce
/// chosen at derivation.
pub open spec fn initialized_record(user: Seq<u8>, now: i64, bump: u8) -> RecordModel {
    RecordModel {
        user,
        is_verified: false,
        source: Seq::empty(),
        unique_id: Seq::empty(),
        timestamp: now,
        trust_score: 0,
        bump,
    }
}

/// The record that a successful Verify leaves: the owner and address nonce of
/// the previous record, the submitted proof metadata, the verification time,
/// and the fixed trust score of 100.
pub open spec fn verified_record(prev: RecordModel, source: Seq<u8>, unique_id: Seq<u8>, now: i64) -> RecordModel {
    RecordModel {
        user: prev.user,
        is_verified: true,
        source,
        unique_id,
        timestamp: now,
        trust_score: 100,
        bump: prev.bump,
    }
}

} // verus!
