//! The latest record of every office, shared by all sessions and read whole.

use vstd::prelude::*;
use crate::models::OfficeAvailability;

verus! {

/// The number of offices in the service territory, and so the cache's capacity.
pub const OFFICE_COUNT: u64 = 117;

#[verifier::external_type_specification]
#[verifier::external_body]
#[verifier::reject_recursive_types(K)]
#[verifier::reject_recursive_types(V)]
#[verifier::reject_recursive_types(S)]
pub struct ExMokaCache<K, V, S>(moka::sync::Cache<K, V, S>);

/// The entries a moka cache holds, by the view of their key.
pub uninterp spec fn cache_entries(c: moka::sync::Cache<String, OfficeAvailability>) -> Map<Seq<char>, OfficeAvailability>;

/// The number of entries a moka cache was made to hold.
pub uninterp spec fn cache_capacity(c: moka::sync::Cache<String, OfficeAvailability>) -> nat;

/// Relies on moka's `Cache::new`: an empty cache bounded to `capacity` entries.
#[verifier::external_body]
fn moka_new(capacity: u64) -> (r: moka::sync::Cache<String, OfficeAvailability>)
    ensures
        cache_entries(r).dom() == Set::<Seq<char>>::empty(),
        cache_capacity(r) == capacity,
{
    moka::sync::Cache::new(capacity)
}

/// Relies on moka's `Cache::insert`: the key now holds the value. A new key is admitted
/// while the entries fit the capacity; beyond it, eviction may drop entries, so
/// only a part of the entries with the insertion is certain to remain.
#[verifier::external_body]
fn moka_insert(c: &mut moka::sync::Cache<String, OfficeAvailability>, key: String, value: OfficeAvailability)
    ensures
        cache_capacity(*final(c)) == cache_capacity(*old(c)),
        cache_entries(*final(c)).dom().finite(),
        cache_entries(*final(c)).submap_of(cache_entries(*old(c)).insert(key@, value)),
        cache_entries(*old(c)).insert(key@, value).dom().finite() && cache_entries(*old(c)).insert(
            key@,
            value,
        ).dom().len() <= cache_capacity(*old(c)) ==> cache_entries(*final(c)) == cache_entries(
            *old(c),
        ).insert(key@, value),
{
    c.insert(key, value)
}

/// Relies on moka's `Cache::iter`: every entry once, with no concurrent writer.
#[verifier::external_body]
fn moka_entries(c: &moka::sync::Cache<String, OfficeAvailability>) -> (r: Vec<(String, OfficeAvailability)>)
    ensures
        r@.len() == cache_entries(*c).dom().len(),
        forall|i: int| 0 <= i < r@.len() ==> cache_entries(*c).contains_key(#[trigger] r@[i].0@)
            && cache_entries(*c)[r@[i].0@] == r@[i].1,
        forall|i: int, j: int| 0 <= i < j < r@.len() ==> #[trigger] r@[i].0@ != #[trigger] r@[j].0@,
{
    c.iter().map(|(k, v)| ((*k).clone(), v)).collect()
}

/// The cache after writing one record under its office name.
pub open spec fn upsert_entry(m: Map<Seq<char>, OfficeAvailability>, rec: OfficeAvailability) -> Map<Seq<char>, OfficeAvailability> {
    m.insert(rec.office_name@, rec)
}

/// The cache after writing the records in order.
pub open spec fn apply_batch(m: Map<Seq<char>, OfficeAvailability>, recs: Seq<OfficeAvailability>) -> Map<Seq<char>, OfficeAvailability>
    decreases recs.len(),
{
    if recs.len() == 0 {
        m
    } else {
        upsert_entry(apply_batch(m, recs.drop_last()), recs.last())
    }
}

/// Writing the same record twice leaves one entry for its office, holding that record.
pub proof fn law_upsert_idempotent(m: Map<Seq<char>, OfficeAvailability>, rec: OfficeAvailability)
    ensures
        upsert_entry(upsert_entry(m, rec), rec) == upsert_entry(m, rec),
        upsert_entry(m, rec).contains_key(rec.office_name@),
        upsert_entry(m, rec)[rec.office_name@] == rec,
{
    assert(upsert_entry(upsert_entry(m, rec), rec) =~= upsert_entry(m, rec));
}

/// Writing `a` and then `b` for the same office leaves `b`, as if `a` had never been written.
pub proof fn law_last_write_wins(m: Map<Seq<char>, OfficeAvailability>, a: OfficeAvailability, b: OfficeAvailability)
    requires
        a.office_name@ == b.office_name@,
    ensures
        upsert_entry(upsert_entry(m, a), b) == upsert_entry(m, b),
        upsert_entry(upsert_entry(m, a), b)[b.office_name@] == b,
{
    assert(upsert_entry(upsert_entry(m, a), b) =~= upsert_entry(m, b));
}

proof fn lemma_apply_batch_finite(m: Map<Seq<char>, OfficeAvailability>, recs: Seq<OfficeAvailability>)
    requires
        m.dom().finite(),
    ensures
        apply_batch(m, recs).dom().finite(),
    decreases recs.len(),
{
    if recs.len() > 0 {
        lemma_apply_batch_finite(m, recs.drop_last());
    }
}

proof fn lemma_apply_batch_grows(m: Map<Seq<char>, OfficeAvailability>, recs: Seq<OfficeAvailability>, k: int)
    requires
        0 <= k <= recs.len(),
    ensures
        apply_batch(m, recs.subrange(0, k)).dom().subset_of(apply_batch(m, recs).dom()),
    decreases recs.len() - k,
{
    if k < recs.len() {
        lemma_apply_batch_grows(m, recs.drop_last(), k);
        assert(recs.drop_last().subrange(0, k) =~= recs.subrange(0, k));
    } else {
        assert(recs.subrange(0, k) =~= recs);
    }
}

/// The latest record of every office, keyed by office name.
pub struct AvailabilityCache {
    entries: moka::sync::Cache<String, OfficeAvailability>,
}

impl View for AvailabilityCache {
    type V = Map<Seq<char>, OfficeAvailability>;

    closed spec fn view(&self) -> Map<Seq<char>, OfficeAvailability> {
        cache_entries(self.entries)
    }
}

impl AvailabilityCache {
    /// The number of records the cache holds before it starts to evict.
    pub closed spec fn capacity(&self) -> nat {
        cache_capacity(self.entries)
    }

    /// The cache holds finitely many records, each under its own office name.
    pub open spec fn wf(&self) -> bool {
        &&& self@.dom().finite()
        &&& forall|k: Seq<char>| #[trigger] self@.contains_key(k) ==> self@[k].office_name@ == k
    }

    /// An empty cache for `capacity` offices.
    pub fn new(capacity: u64) -> (r: Self)
        ensures
            r.wf(),
            r@.dom() == Set::<Seq<char>>::empty(),
            r.capacity() == capacity,
    {
        AvailabilityCache { entries: moka_new(capacity) }
    }

    /// Writes a record under its office name. While the offices fit the capacity this is
    /// exactly an insertion; beyond it, the cache keeps a part of that.
    pub fn upsert(&mut self, rec: OfficeAvailability)
        requires
            old(self).wf(),
        ensures
            final(self).wf(),
            final(self).capacity() == old(self).capacity(),
            final(self)@.submap_of(upsert_entry(old(self)@, rec)),
            upsert_entry(old(self)@, rec).dom().len() <= old(self).capacity() ==> final(self)@
                == upsert_entry(old(self)@, rec),
    {
        let key = rec.office_name.clone();
        let ghost expected = upsert_entry(old(self)@, rec);
        moka_insert(&mut self.entries, key, rec);
        assert forall|k: Seq<char>| #[trigger] self@.contains_key(k) implies self@[k].office_name@ == k by {
            assert(expected.contains_key(k));
        }
    }

    /// Writes a batch of records in order.
    pub fn upsert_batch(&mut self, mut batch: Vec<OfficeAvailability>)
        requires
            old(self).wf(),
        ensures
            final(self).wf(),
            final(self).capacity() == old(self).capacity(),
            final(self)@.submap_of(apply_batch(old(self)@, batch@)),
            apply_batch(old(self)@, batch@).dom().len() <= old(self).capacity() ==> final(self)@
                == apply_batch(old(self)@, batch@),
    {
        let ghost start = self@;
        let ghost all = batch@;
        let n = batch.len();
        let ghost fits = apply_batch(start, batch@).dom().len() <= self.capacity();
        proof {
            lemma_apply_batch_finite(start, batch@);
        }
        let mut k: usize = 0;
        assert(batch@.subrange(0, 0) =~= Seq::<OfficeAvailability>::empty());
        while k < n
            invariant
                k <= n == all.len(),
                batch@ == all.subrange(k as int, n as int),
                self.wf(),
                start.dom().finite(),
                self.capacity() == old(self).capacity(),
                fits == (apply_batch(start, all).dom().len() <= self.capacity()),
                apply_batch(start, all).dom().finite(),
                self@.submap_of(apply_batch(start, all.subrange(0, k as int))),
                fits ==> self@ == apply_batch(start, all.subrange(0, k as int)),
            decreases n - k,
        {
            let ghost prefix = all.subrange(0, k as int);
            assert(all.subrange(0, k + 1).drop_last() =~= prefix);
            assert(all.subrange(0, k + 1).last() == all[k as int]);
            proof {
                lemma_apply_batch_grows(start, all, k + 1);
                lemma_apply_batch_finite(start, all.subrange(0, k + 1));
                if fits {
                    vstd::set_lib::lemma_len_subset(
                        apply_batch(start, all.subrange(0, k + 1)).dom(),
                        apply_batch(start, all).dom(),
                    );
                }
            }
            let ghost before = self@;
            let rec = batch.remove(0);
            assert(batch@ =~= all.subrange(k + 1, n as int));
            self.upsert(rec);
            proof {
                let a = apply_batch(start, prefix);
                let b = apply_batch(start, all.subrange(0, k + 1));
                assert forall|key: Seq<char>| #[trigger] self@.contains_key(key) implies b.contains_key(key) && self@[key] == b[key] by {
                    assert(upsert_entry(before, rec).contains_key(key));
                    if key != rec.office_name@ {
                        assert(before.contains_key(key));
                    }
                }
            }
            k = k + 1;
        }
        assert(all.subrange(0, n as int) =~= all);
    }

    /// Every cached record, each office once, in no particular order.
    pub fn snapshot(&self) -> (r: Vec<OfficeAvailability>)
        requires
            self.wf(),
        ensures
            r@.len() == self@.dom().len(),
            forall|i: int| 0 <= i < r@.len() ==> self@.contains_key(#[trigger] r@[i].office_name@)
                && self@[r@[i].office_name@] == r@[i],
            forall|i: int, j: int| 0 <= i < j < r@.len() ==> #[trigger] r@[i].office_name@ != #[trigger] r@[j].office_name@,
    {
        let mut entries = moka_entries(&self.entries);
        let ghost all = entries@;
        let n = entries.len();
        let mut out: Vec<OfficeAvailability> = Vec::new();
        let mut k: usize = 0;
        while k < n
            invariant
                k <= n == all.len(),
                entries@ == all.subrange(0, n - k),
                self.wf(),
                all.len() == self@.dom().len(),
                forall|i: int| 0 <= i < all.len() ==> self@.contains_key(#[trigger] all[i].0@)
                    && self@[all[i].0@] == all[i].1,
                forall|i: int, j: int| 0 <= i < j < all.len() ==> #[trigger] all[i].0@ != #[trigger] all[j].0@,
                out@.len() == k,
                forall|i: int| 0 <= i < k ==> #[trigger] out@[i] == all[n - 1 - i].1,
            decreases n - k,
        {
            let entry = entries.pop().unwrap();
            assert(entries@ =~= all.subrange(0, n - k - 1));
            let (_, rec) = entry;
            out.push(rec);
            k = k + 1;
        }
        assert forall|i: int| 0 <= i < out@.len() implies #[trigger] out@[i].office_name@ == all[n - 1 - i].0@ by {
            assert(self@.contains_key(all[n - 1 - i].0@));
        }
        assert forall|i: int, j: int| 0 <= i < j < out@.len() implies #[trigger] out@[i].office_name@ != #[trigger] out@[j].office_name@ by {
            assert(out@[i].office_name@ == all[n - 1 - i].0@);
            assert(out@[j].office_name@ == all[n - 1 - j].0@);
        }
        out
    }
}

/// The full current snapshot of the cache.
pub fn get_available_appointments(cache: &AvailabilityCache) -> (r: Vec<OfficeAvailability>)
    requires
        cache.wf(),
    ensures
        r@.len() == cache@.dom().len(),
        forall|i: int| 0 <= i < r@.len() ==> cache@.contains_key(#[trigger] r@[i].office_name@)
            && cache@[r@[i].office_name@] == r@[i],
{
    cache.snapshot()
}

} // verus!
