use vstd::prelude::*;

use crate::state::{RecordModel, UserVerification};

verus! {

/// Some record in `records` is owned by `u`.
pub open spec fn has_owner(records: Seq<UserVerification>, u: Seq<u8>) -> bool {
    exists|i: int| 0 <= i < records.len() && records[i].user@ == u
}

/// The position of the record owned by `u` (meaningful only under
/// `owners_unique` and `has_owner`).
pub open spec fn owner_index(records: Seq<UserVerification>, u: Seq<u8>) -> int {
    choose|i: int| 0 <= i < records.len() && records[i].user@ == u
}

/// No two records share an owner.
pub open spec fn owners_unique(records: Seq<UserVerification>) -> bool {
    forall|i: int, j: int|
        0 <= i < records.len() && 0 <= j < records.len() && i != j
            ==> records[i].user@ != records[j].user@
}

/// The store as a map from owner identity to record model.
pub open spec fn records_view(records: Seq<UserVerification>) -> Map<Seq<u8>, RecordModel> {
    Map::new(
        |u: Seq<u8>| has_owner(records, u),
        |u: Seq<u8>| records[owner_index(records, u)]@,
    )
}

/// The record store together with the configuration fixed at deployment: the
/// single oracle authority allowed to verify users, and the program identity
/// under which record addresses are derived. It stands for the host's
/// per-address account storage, keyed here by the owner identity that the
/// address is derived from.
pub struct Registry {
    pub authority: [u8; 32],
    pub program_id: [u8; 32],
    pub records: Vec<UserVerification>,
}

impl View for Registry {
    type V = Map<Seq<u8>, RecordModel>;

    open spec fn view(&self) -> Map<Seq<u8>, RecordModel> {
        records_view(self.records@)
    }
}

impl Registry {
    /// Owners are unique (the host stores at most one account per address)
    /// and every stored record respects the byte-string bounds.
    pub open spec fn wf(self) -> bool {
        &&& owners_unique(self.records@)
        &&& forall|i: int| 0 <= i < self.records@.len() ==> (#[trigger] self.records@[i]).wf()
    }

    /// An empty registry under the given deployment configuration.
    pub fn new(authority: [u8; 32], program_id: [u8; 32]) -> (r: Registry)
        ensures
            r.wf(),
            r@ == Map::<Seq<u8>, RecordModel>::empty(),
            r.authority == authority,
            r.program_id == program_id,
    {
        let r = Registry { authority, program_id, records: Vec::new() };
        proof {
            assert(r@ =~= Map::<Seq<u8>, RecordModel>::empty());
        }
        r
    }

    /// The position of the record owned by `user`, if one exists.
    pub(crate) fn find_index(&self, user: &[u8; 32]) -> (r: Option<usize>)
        ensures
            match r {
                Some(i) => i < self.records@.len() && self.records@[i as int].user@ == user@,
                None => !has_owner(self.records@, user@),
            },
    {
        let n = self.records.len();
        let mut i: usize = 0;
        while i < n
            invariant
                n == self.records@.len(),
                i <= n,
                forall|j: int| 0 <= j < i ==> self.records@[j].user@ != user@,
            decreases n - i,
        {
            if bytes32_eq(&self.records[i].user, user) {
                return Some(i);
            }
            i += 1;
        }
        None
    }

    /// Read the record certifying `user`, if one exists. Side-effect-free and
    /// open to any party.
    pub fn get_record(&self, user: &[u8; 32]) -> (r: Option<&UserVerification>)
        requires
            self.wf(),
        ensures
            match r {
                Some(rec) => self@.contains_key(user@) && rec@ == self@[user@],
                None => !self@.contains_key(user@),
            },
    {
        match self.find_index(user) {
            Some(i) => {
                proof {
                    lemma_view_index(self.records@, i as int);
                }
                Some(&self.records[i])
            },
            None => None,
        }
    }
}

/// Whether two 32-byte identities are equal.
pub fn bytes32_eq(a: &[u8; 32], b: &[u8; 32]) -> (r: bool)
    ensures
        r <==> a@ == b@,
{
    let mut i: usize = 0;
    while i < 32
        invariant
            i <= 32,
            forall|j: int| 0 <= j < i ==> a@[j] == b@[j],
        decreases 32 - i,
    {
        if a[i] != b[i] {
            return false;
        }
        i += 1;
    }
    proof {
        assert(a@ =~= b@);
    }
    true
}

/// Under unique owners, the map view sends the owner of the record at `i`
/// exactly to that record.
pub proof fn lemma_view_index(records: Seq<UserVerification>, i: int)
    requires
        owners_unique(records),
        0 <= i < records.len(),
    ensures
        records_view(records).contains_key(records[i].user@),
        records_view(records)[records[i].user@] == records[i]@,
{
    let u = records[i].user@;
    assert(has_owner(records, u));
    let j = owner_index(records, u);
    assert(0 <= j < records.len() && records[j].user@ == u);
    assert(j == i);
}

/// Appending a record with a fresh owner inserts it into the map view and
/// keeps the owners unique.
pub proof fn lemma_view_push(records: Seq<UserVerification>, rec: UserVerification)
    requires
        owners_unique(records),
        !has_owner(records, rec.user@),
    ensures
        owners_unique(records.push(rec)),
        records_view(records.push(rec)) == records_view(records).insert(rec.user@, rec@),
{
    let rs2 = records.push(rec);
    assert forall|i: int, j: int|
        0 <= i < rs2.len() && 0 <= j < rs2.len() && i != j implies rs2[i].user@ != rs2[j].user@ by {
        if i < records.len() && j < records.len() {
            assert(records[i].user@ != records[j].user@);
        } else if i == records.len() {
            assert(rs2[j] == records[j]);
            assert(records[j].user@ != rec.user@);
        } else {
            assert(rs2[i] == records[i]);
            assert(records[i].user@ != rec.user@);
        }
    }
    assert forall|u: Seq<u8>| has_owner(rs2, u) implies
        records_view(rs2)[u] == records_view(records).insert(rec.user@, rec@)[u] by {
        let k = owner_index(rs2, u);
        assert(0 <= k < rs2.len() && rs2[k].user@ == u);
        if u == rec.user@ {
            assert(k == records.len());
            assert(records_view(rs2)[u] == rec@);
        } else {
            assert(k < records.len());
            assert(has_owner(records, u));
            let k0 = owner_index(records, u);
            assert(0 <= k0 < records.len() && records[k0].user@ == u);
            assert(rs2[k0].user@ == u);
            assert(k0 == k);
            assert(records_view(rs2)[u] == records[k]@);
        }
    }
    assert forall|u: Seq<u8>| has_owner(records, u) || u == rec.user@ implies has_owner(rs2, u) by {
        if u == rec.user@ {
            assert(rs2[records.len() as int].user@ == u);
        } else {
            let k0 = owner_index(records, u);
            assert(0 <= k0 < records.len() && records[k0].user@ == u);
            assert(rs2[k0].user@ == u);
        }
    }
    assert forall|u: Seq<u8>| has_owner(rs2, u) implies has_owner(records, u) || u == rec.user@ by {
        let k = owner_index(rs2, u);
        assert(0 <= k < rs2.len() && rs2[k].user@ == u);
        if k < records.len() {
            assert(records[k].user@ == u);
        }
    }
    assert(records_view(rs2) =~= records_view(records).insert(rec.user@, rec@));
}

/// Replacing the record at `i` by one with the same owner updates the map
/// view at that owner and keeps the owners unique.
pub proof fn lemma_view_update(records: Seq<UserVerification>, i: int, rec: UserVerification)
    requires
        owners_unique(records),
        0 <= i < records.len(),
        rec.user@ == records[i].user@,
    ensures
        owners_unique(records.update(i, rec)),
        records_view(records.update(i, rec)) == records_view(records).insert(rec.user@, rec@),
{
    let rs2 = records.update(i, rec);
    assert forall|p: int, q: int|
        0 <= p < rs2.len() && 0 <= q < rs2.len() && p != q implies rs2[p].user@ != rs2[q].user@ by {
        assert(records[p].user@ != records[q].user@);
        assert(rs2[p].user@ == records[p].user@ && rs2[q].user@ == records[q].user@);
    }
    assert forall|u: Seq<u8>| has_owner(rs2, u) <==> has_owner(records, u) by {
        if has_owner(rs2, u) {
            let k = owner_index(rs2, u);
            assert(0 <= k < rs2.len() && rs2[k].user@ == u);
            assert(records[k].user@ == u);
        }
        if has_owner(records, u) {
            let k = owner_index(records, u);
            assert(0 <= k < records.len() && records[k].user@ == u);
            assert(rs2[k].user@ == u);
        }
    }
    assert forall|u: Seq<u8>| has_owner(rs2, u) implies
        records_view(rs2)[u] == records_view(records).insert(rec.user@, rec@)[u] by {
        let k = owner_index(rs2, u);
        assert(0 <= k < rs2.len() && rs2[k].user@ == u);
        if u == rec.user@ {
            assert(k == i);
            assert(records_view(rs2)[u] == rec@);
        } else {
            assert(k != i);
            let k0 = owner_index(records, u);
            assert(0 <= k0 < records.len() && records[k0].user@ == u);
            assert(k0 == k);
            assert(records_view(rs2)[u] == records[k]@);
        }
    }
    assert(records_view(rs2) =~= records_view(records).insert(rec.user@, rec@));
}

} // verus!
