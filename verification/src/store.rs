//! The pending-passcode table and the verified-phone set.
//!
//! Both are association lists with distinct keys, viewed abstractly as a
//! `Map` from phone number to `(code, expiry)` and as a `Set` of phone
//! numbers. At most one record exists per phone number at any time.

use vstd::prelude::*;
use vstd::map::*;
use vstd::assert_sets_equal;

verus! {

/// One pending passcode: the phone number it was issued for, the code
/// itself, and the nanosecond timestamp past which it is no longer valid.
pub struct OtpRecord {
    pub phone: String,
    pub code: String,
    pub expires_at: u64,
}

/// Whether some record in `s` carries the phone number `p`.
pub open spec fn has_phone(s: Seq<OtpRecord>, p: Seq<char>) -> bool {
    exists|i: int| 0 <= i < s.len() && (#[trigger] s[i].phone@) == p
}

/// The index of the record carrying `p`; unique when keys are distinct.
pub open spec fn phone_idx(s: Seq<OtpRecord>, p: Seq<char>) -> int {
    choose|i: int| 0 <= i < s.len() && (#[trigger] s[i].phone@) == p
}

/// All records carry pairwise distinct phone numbers.
pub open spec fn keys_distinct(s: Seq<OtpRecord>) -> bool {
    forall|i: int, j: int| 0 <= i < j < s.len() ==> s[i].phone@ != s[j].phone@
}

/// The map a record list stands for.
pub open spec fn records_map(s: Seq<OtpRecord>) -> Map<Seq<char>, (Seq<char>, u64)> {
    Map::new(
        |p: Seq<char>| has_phone(s, p),
        |p: Seq<char>| (s[phone_idx(s, p)].code@, s[phone_idx(s, p)].expires_at),
    )
}

/// Whole seconds until `expires_at`, clamped at zero once it has passed.
pub open spec fn remaining_secs(expires_at: u64, now: u64) -> int {
    if expires_at > now {
        (expires_at - now) / 1000000000
    } else {
        0
    }
}

/// With distinct keys, the chosen index for a phone number is the index of
/// the record that carries it.
proof fn lemma_phone_idx(s: Seq<OtpRecord>, i: int)
    requires
        keys_distinct(s),
        0 <= i < s.len(),
    ensures
        has_phone(s, s[i].phone@),
        phone_idx(s, s[i].phone@) == i,
{
    assert(has_phone(s, s[i].phone@)) by {
        assert(0 <= i < s.len() && s[i].phone@ == s[i].phone@);
    }
    let j = phone_idx(s, s[i].phone@);
    assert(0 <= j < s.len() && s[j].phone@ == s[i].phone@);
    if j < i {
        assert(s[j].phone@ != s[i].phone@);
    } else if i < j {
        assert(s[i].phone@ != s[j].phone@);
    }
}

/// Overwriting the record at the index already carrying its phone number
/// replaces that phone's map entry and touches nothing else.
proof fn lemma_records_update(s0: Seq<OtpRecord>, i: int, rec: OtpRecord)
    requires
        keys_distinct(s0),
        0 <= i < s0.len(),
        s0[i].phone@ == rec.phone@,
    ensures
        keys_distinct(s0.update(i, rec)),
        records_map(s0.update(i, rec)) == records_map(s0).insert(
            rec.phone@,
            (rec.code@, rec.expires_at),
        ),
{
    let s1 = s0.update(i, rec);
    assert forall|a: int, b: int| 0 <= a < b < s1.len() implies s1[a].phone@ != s1[b].phone@ by {
        assert(s1[a].phone@ == s0[a].phone@);
        assert(s1[b].phone@ == s0[b].phone@);
    }
    assert_maps_equal!(
        records_map(s1),
        records_map(s0).insert(rec.phone@, (rec.code@, rec.expires_at)),
        p => {
            if p == rec.phone@ {
                lemma_phone_idx(s1, i);
            } else {
                if has_phone(s1, p) {
                    let j = phone_idx(s1, p);
                    assert(0 <= j < s1.len() && s1[j].phone@ == p);
                    assert(j != i);
                    assert(s0[j].phone@ == p);
                    lemma_phone_idx(s0, j);
                    lemma_phone_idx(s1, j);
                }
                if has_phone(s0, p) {
                    let j = phone_idx(s0, p);
                    assert(0 <= j < s0.len() && s0[j].phone@ == p);
                    assert(j != i);
                    assert(s1[j].phone@ == p);
                    lemma_phone_idx(s1, j);
                    lemma_phone_idx(s0, j);
                }
            }
        }
    );
}

/// Appending a record whose phone number is fresh adds exactly that
/// phone's entry to the map.
proof fn lemma_records_push(s0: Seq<OtpRecord>, rec: OtpRecord)
    requires
        keys_distinct(s0),
        !has_phone(s0, rec.phone@),
    ensures
        keys_distinct(s0.push(rec)),
        records_map(s0.push(rec)) == records_map(s0).insert(
            rec.phone@,
            (rec.code@, rec.expires_at),
        ),
{
    let s1 = s0.push(rec);
    let n = s0.len() as int;
    assert(s1[n] == rec);
    assert forall|a: int, b: int| 0 <= a < b < s1.len() implies s1[a].phone@ != s1[b].phone@ by {
        if b < n {
            assert(s1[a].phone@ == s0[a].phone@);
            assert(s1[b].phone@ == s0[b].phone@);
        } else {
            assert(s1[a].phone@ == s0[a].phone@);
            if s0[a].phone@ == rec.phone@ {
                assert(has_phone(s0, rec.phone@));
            }
        }
    }
    assert_maps_equal!(
        records_map(s1),
        records_map(s0).insert(rec.phone@, (rec.code@, rec.expires_at)),
        p => {
            if p == rec.phone@ {
                lemma_phone_idx(s1, n);
            } else {
                if has_phone(s1, p) {
                    let j = phone_idx(s1, p);
                    assert(0 <= j < s1.len() && s1[j].phone@ == p);
                    assert(j != n);
                    assert(s0[j].phone@ == p);
                    lemma_phone_idx(s0, j);
                    lemma_phone_idx(s1, j);
                }
                if has_phone(s0, p) {
                    let j = phone_idx(s0, p);
                    assert(0 <= j < s0.len() && s0[j].phone@ == p);
                    assert(s1[j].phone@ == p);
                    lemma_phone_idx(s1, j);
                    lemma_phone_idx(s0, j);
                }
            }
        }
    );
}

/// Swapping the last record into index `i` and dropping the tail removes
/// exactly the entry of the phone number that stood at `i`.
proof fn lemma_records_swap_remove(s0: Seq<OtpRecord>, i: int)
    requires
        keys_distinct(s0),
        0 <= i < s0.len(),
    ensures
        keys_distinct(s0.update(i, s0.last()).drop_last()),
        records_map(s0.update(i, s0.last()).drop_last()) == records_map(s0).remove(s0[i].phone@),
{
    let s1 = s0.update(i, s0.last()).drop_last();
    let n = s0.len() as int;
    assert(s1.len() == n - 1);
    assert forall|k: int| 0 <= k < n - 1 implies s1[k] == if k == i {
        s0[n - 1]
    } else {
        s0[k]
    } by {}
    assert forall|a: int, b: int| 0 <= a < b < s1.len() implies s1[a].phone@ != s1[b].phone@ by {
        if a == i {
            assert(s1[a] == s0[n - 1]);
            assert(s1[b] == s0[b]);
        } else if b == i {
            assert(s1[b] == s0[n - 1]);
            assert(s1[a] == s0[a]);
        }
    }
    assert_maps_equal!(
        records_map(s1),
        records_map(s0).remove(s0[i].phone@),
        p => {
            if p == s0[i].phone@ {
                if has_phone(s1, p) {
                    let k = phone_idx(s1, p);
                    assert(0 <= k < s1.len() && s1[k].phone@ == p);
                    if k == i {
                        assert(s0[n - 1].phone@ == s0[i].phone@);
                        assert(i < n - 1 ==> s0[i].phone@ != s0[n - 1].phone@);
                    } else {
                        assert(s0[k].phone@ == s0[i].phone@);
                    }
                }
            } else {
                if has_phone(s1, p) {
                    let k = phone_idx(s1, p);
                    assert(0 <= k < s1.len() && s1[k].phone@ == p);
                    if k == i {
                        assert(s0[n - 1].phone@ == p);
                        lemma_phone_idx(s0, n - 1);
                    } else {
                        assert(s0[k].phone@ == p);
                        lemma_phone_idx(s0, k);
                    }
                    lemma_phone_idx(s1, k);
                }
                if has_phone(s0, p) {
                    let j = phone_idx(s0, p);
                    assert(0 <= j < s0.len() && s0[j].phone@ == p);
                    assert(j != i);
                    if j == n - 1 {
                        assert(i < n - 1);
                        assert(s1[i].phone@ == p);
                        lemma_phone_idx(s1, i);
                        lemma_phone_idx(s0, j);
                    } else {
                        assert(s1[j].phone@ == p);
                        lemma_phone_idx(s1, j);
                        lemma_phone_idx(s0, j);
                    }
                }
            }
        }
    );
}

/// The pending-passcode table, keyed by phone number.
pub struct OtpStore {
    records: Vec<OtpRecord>,
}

impl View for OtpStore {
    type V = Map<Seq<char>, (Seq<char>, u64)>;

    closed spec fn view(&self) -> Map<Seq<char>, (Seq<char>, u64)> {
        records_map(self.records@)
    }
}

impl OtpStore {
    /// At most one record per phone number.
    pub closed spec fn wf(&self) -> bool {
        keys_distinct(self.records@)
    }

    /// An empty table.
    pub fn new() -> (s: OtpStore)
        ensures
            s.wf(),
            s@ == Map::<Seq<char>, (Seq<char>, u64)>::empty(),
    {
        let s = OtpStore { records: Vec::new() };
        proof {
            assert(s@ =~= Map::<Seq<char>, (Seq<char>, u64)>::empty());
        }
        s
    }

    /// Read-only lookup of the pending record for `phone`.
    #[verifier::loop_isolation(false)]
    pub fn get(&self, phone: &String) -> (r: Option<(String, u64)>)
        requires
            self.wf(),
        ensures
            r is Some <==> self@.contains_key(phone@),
            r matches Some(v) ==> self@[phone@] == (v.0@, v.1),
    {
        let n = self.records.len();
        let mut i: usize = 0;
        while i < n
            invariant
                self.wf(),
                n == self.records@.len(),
                i <= n,
                forall|k: int| 0 <= k < i ==> (#[trigger] self.records@[k].phone@) != phone@,
            decreases n - i,
        {
            if self.records[i].phone == *phone {
                proof {
                    lemma_phone_idx(self.records@, i as int);
                }
                return Some((self.records[i].code.clone(), self.records[i].expires_at));
            }
            i += 1;
        }
        proof {
            assert(!has_phone(self.records@, phone@));
        }
        None
    }

    /// Creates or unconditionally overwrites the record for `phone`.
    #[verifier::loop_isolation(false)]
    pub fn put(&mut self, phone: &String, code: String, expires_at: u64)
        requires
            old(self).wf(),
        ensures
            final(self).wf(),
            final(self)@ == old(self)@.insert(phone@, (code@, expires_at)),
    {
        let rec = OtpRecord { phone: phone.clone(), code, expires_at };
        let ghost rec0 = rec;
        let ghost s0 = self.records@;
        let n = self.records.len();
        let mut i: usize = 0;
        while i < n
            invariant
                keys_distinct(s0),
                self.records@ == s0,
                n == s0.len(),
                i <= n,
                rec.phone@ == phone@,
                rec == rec0,
                forall|k: int| 0 <= k < i ==> (#[trigger] s0[k].phone@) != phone@,
            decreases n - i,
        {
            if self.records[i].phone == *phone {
                self.records[i] = rec;
                proof {
                    lemma_records_update(s0, i as int, rec0);
                }
                return ;
            }
            i += 1;
        }
        self.records.push(rec);
        proof {
            assert(!has_phone(s0, rec0.phone@));
            lemma_records_push(s0, rec0);
        }
    }

    /// Deletes the record for `phone` if present; a no-op otherwise.
    #[verifier::loop_isolation(false)]
    pub fn remove(&mut self, phone: &String)
        requires
            old(self).wf(),
        ensures
            final(self).wf(),
            final(self)@ == old(self)@.remove(phone@),
    {
        let ghost s0 = self.records@;
        let n = self.records.len();
        let mut i: usize = 0;
        while i < n
            invariant
                keys_distinct(s0),
                self.records@ == s0,
                n == s0.len(),
                i <= n,
                forall|k: int| 0 <= k < i ==> (#[trigger] s0[k].phone@) != phone@,
            decreases n - i,
        {
            if self.records[i].phone == *phone {
                self.records.swap_remove(i);
                proof {
                    lemma_records_swap_remove(s0, i as int);
                }
                return ;
            }
            i += 1;
        }
        proof {
            assert(!has_phone(s0, phone@));
            assert(self@ =~= old(self)@.remove(phone@));
        }
    }

    /// Diagnostic enumeration: every pending record with the whole seconds
    /// it has left at `now`, already-expired records clamped to zero.
    #[verifier::loop_isolation(false)]
    pub fn snapshot_all(&self, now: u64) -> (r: Vec<(String, String, u64)>)
        requires
            self.wf(),
        ensures
            forall|i: int|
                0 <= i < r@.len() ==> self@.contains_key(#[trigger] r@[i].0@)
                    && self@[r@[i].0@].0 == r@[i].1@
                    && r@[i].2 == remaining_secs(self@[r@[i].0@].1, now),
            forall|p: Seq<char>|
                #[trigger] self@.contains_key(p) ==> exists|i: int|
                    0 <= i < r@.len() && (#[trigger] r@[i].0@) == p,
            forall|i: int, j: int| 0 <= i < j < r@.len() ==> r@[i].0@ != r@[j].0@,
    {
        let n = self.records.len();
        let mut out: Vec<(String, String, u64)> = Vec::new();
        let mut i: usize = 0;
        while i < n
            invariant
                self.wf(),
                n == self.records@.len(),
                i <= n,
                out@.len() == i,
                forall|k: int|
                    0 <= k < i ==> (#[trigger] out@[k].0@) == self.records@[k].phone@
                        && out@[k].1@ == self.records@[k].code@
                        && out@[k].2 == remaining_secs(self.records@[k].expires_at, now),
            decreases n - i,
        {
            let rem: u64 = if self.records[i].expires_at > now {
                (self.records[i].expires_at - now) / 1000000000
            } else {
                0
            };
            out.push((self.records[i].phone.clone(), self.records[i].code.clone(), rem));
            i += 1;
        }
        proof {
            assert forall|k: int| 0 <= k < out@.len() implies self@.contains_key(
                #[trigger] out@[k].0@,
            ) && self@[out@[k].0@].0 == out@[k].1@ && out@[k].2 == remaining_secs(
                self@[out@[k].0@].1,
                now,
            ) by {
                lemma_phone_idx(self.records@, k);
            }
            assert forall|p: Seq<char>| #[trigger] self@.contains_key(p) implies exists|i: int|
                0 <= i < out@.len() && (#[trigger] out@[i].0@) == p by {
                let j = phone_idx(self.records@, p);
                assert(0 <= j < self.records@.len() && self.records@[j].phone@ == p);
                assert(out@[j].0@ == p);
            }
        }
        out
    }
}

/// Whether some entry of `s` is the phone number `p`.
pub open spec fn seq_has_str(s: Seq<String>, p: Seq<char>) -> bool {
    exists|i: int| 0 <= i < s.len() && (#[trigger] s[i]@) == p
}

/// All entries are pairwise distinct phone numbers.
pub open spec fn strs_distinct(s: Seq<String>) -> bool {
    forall|i: int, j: int| 0 <= i < j < s.len() ==> s[i]@ != s[j]@
}

/// The set of phone numbers that completed verification. Entries are never
/// removed; insertion is idempotent.
pub struct VerifiedSet {
    phones: Vec<String>,
}

impl View for VerifiedSet {
    type V = Set<Seq<char>>;

    closed spec fn view(&self) -> Set<Seq<char>> {
        Set::new(|p: Seq<char>| seq_has_str(self.phones@, p))
    }
}

impl VerifiedSet {
    /// No phone number is listed twice.
    pub closed spec fn wf(&self) -> bool {
        strs_distinct(self.phones@)
    }

    /// An empty set.
    pub fn new() -> (s: VerifiedSet)
        ensures
            s.wf(),
            s@ == Set::<Seq<char>>::empty(),
    {
        let s = VerifiedSet { phones: Vec::new() };
        proof {
            assert(s@ =~= Set::<Seq<char>>::empty());
        }
        s
    }

    /// Whether `phone` has completed verification.
    #[verifier::loop_isolation(false)]
    pub fn contains(&self, phone: &String) -> (r: bool)
        requires
            self.wf(),
        ensures
            r == self@.contains(phone@),
    {
        let n = self.phones.len();
        let mut i: usize = 0;
        while i < n
            invariant
                n == self.phones@.len(),
                i <= n,
                forall|k: int| 0 <= k < i ==> (#[trigger] self.phones@[k]@) != phone@,
            decreases n - i,
        {
            if self.phones[i] == *phone {
                return true;
            }
            i += 1;
        }
        proof {
            assert(!seq_has_str(self.phones@, phone@));
        }
        false
    }

    /// Marks `phone` verified; a no-op if it already is.
    #[verifier::loop_isolation(false)]
    pub fn insert(&mut self, phone: &String)
        requires
            old(self).wf(),
        ensures
            final(self).wf(),
            final(self)@ == old(self)@.insert(phone@),
    {
        if self.contains(phone) {
            proof {
                assert(self@ =~= old(self)@.insert(phone@));
            }
            return ;
        }
        let ghost s0 = self.phones@;
        self.phones.push(phone.clone());
        proof {
            let s1 = self.phones@;
            let n = s0.len() as int;
            assert(s1[n]@ == phone@);
            assert forall|a: int, b: int| 0 <= a < b < s1.len() implies s1[a]@ != s1[b]@ by {
                if b == n {
                    if s0[a]@ == phone@ {
                        assert(seq_has_str(s0, phone@));
                    }
                }
            }
            assert_sets_equal!(self@, old(self)@.insert(phone@), p => {
                if p != phone@ {
                    if seq_has_str(s1, p) {
                        let j = choose|j: int| 0 <= j < s1.len() && (#[trigger] s1[j]@) == p;
                        assert(s0[j]@ == p);
                    }
                    if seq_has_str(s0, p) {
                        let j = choose|j: int| 0 <= j < s0.len() && (#[trigger] s0[j]@) == p;
                        assert(s1[j]@ == p);
                    }
                }
            });
        }
    }

    /// Every verified phone number, each exactly once.
    #[verifier::loop_isolation(false)]
    pub fn list_all(&self) -> (r: Vec<String>)
        requires
            self.wf(),
        ensures
            forall|i: int| 0 <= i < r@.len() ==> self@.contains(#[trigger] r@[i]@),
            forall|p: Seq<char>|
                #[trigger] self@.contains(p) ==> exists|i: int|
                    0 <= i < r@.len() && (#[trigger] r@[i]@) == p,
            forall|i: int, j: int| 0 <= i < j < r@.len() ==> r@[i]@ != r@[j]@,
    {
        let n = self.phones.len();
        let mut out: Vec<String> = Vec::new();
        let mut i: usize = 0;
        while i < n
            invariant
                self.wf(),
                n == self.phones@.len(),
                i <= n,
                out@.len() == i,
                forall|k: int| 0 <= k < i ==> (#[trigger] out@[k]@) == self.phones@[k]@,
            decreases n - i,
        {
            out.push(self.phones[i].clone());
            i += 1;
        }
        proof {
            assert forall|p: Seq<char>| #[trigger] self@.contains(p) implies exists|i: int|
                0 <= i < out@.len() && (#[trigger] out@[i]@) == p by {
                let j = choose|j: int|
                    0 <= j < self.phones@.len() && (#[trigger] self.phones@[j]@) == p;
                assert(out@[j]@ == p);
            }
        }
        out
    }
}

} // verus!
