//! The allocation table: requests seen at a call's entry, resolved into
//! address ranges when the call returns, removed when they are freed.
use vstd::prelude::*;

verus! {

/// One allocation request, and the region it became once resolved.
#[derive(Clone, Copy, Debug, PartialEq, Eq, Structural)]
pub struct AllocationRecord {
    /// Requested size in bytes.
    pub size: u64,
    /// Requested protection, as asked for (before any rewrite).
    pub protection: u32,
    /// Correlating key: the return address of the requesting call.
    pub key: u64,
    /// Base address of the region; absent until the call returns.
    pub base: Option<u64>,
}

/// Half-open containment: `a` lies in `[base, base + size)` of a resolved record.
pub open spec fn record_contains(r: AllocationRecord, a: u64) -> bool {
    match r.base {
        Some(b) => b <= a && a < b + r.size,
        None => false,
    }
}

/// Whether a record is still waiting for its call to return with this key.
pub open spec fn is_pending_for(r: AllocationRecord, key: u64) -> bool {
    r.base is None && r.key == key
}

/// Whether freeing `(base, size)` releases this record; a zero size matches any size.
pub open spec fn is_released_by(r: AllocationRecord, base: u64, size: u64) -> bool {
    r.base == Some(base) && (size == 0 || r.size == size)
}

/// Index of the first record from `i` on that contains `a`.
pub open spec fn first_containing(s: Seq<AllocationRecord>, a: u64, i: int) -> Option<int>
    decreases s.len() - i,
{
    if i < 0 || i >= s.len() {
        None
    } else if record_contains(s[i], a) {
        Some(i)
    } else {
        first_containing(s, a, i + 1)
    }
}

/// Index of the first record from `i` on that is pending for `key`.
pub open spec fn first_pending(s: Seq<AllocationRecord>, key: u64, i: int) -> Option<int>
    decreases s.len() - i,
{
    if i < 0 || i >= s.len() {
        None
    } else if is_pending_for(s[i], key) {
        Some(i)
    } else {
        first_pending(s, key, i + 1)
    }
}

/// Index of the first record from `i` on that freeing `(base, size)` releases.
pub open spec fn first_released(s: Seq<AllocationRecord>, base: u64, size: u64, i: int) -> Option<int>
    decreases s.len() - i,
{
    if i < 0 || i >= s.len() {
        None
    } else if is_released_by(s[i], base, size) {
        Some(i)
    } else {
        first_released(s, base, size, i + 1)
    }
}

/// The table after a new request.
pub open spec fn begin_spec(s: Seq<AllocationRecord>, size: u64, protection: u32, key: u64) -> Seq<AllocationRecord> {
    s.push(AllocationRecord { size, protection, key, base: None })
}

/// The table after the call with `key` returned `base`.
pub open spec fn resolve_spec(s: Seq<AllocationRecord>, key: u64, base: u64) -> Seq<AllocationRecord> {
    match first_pending(s, key, 0) {
        Some(i) => s.update(i, AllocationRecord { base: Some(base), ..s[i] }),
        None => s,
    }
}

/// The record, if any, whose region contains `a`.
pub open spec fn lookup_spec(s: Seq<AllocationRecord>, a: u64) -> Option<AllocationRecord> {
    match first_containing(s, a, 0) {
        Some(i) => Some(s[i]),
        None => None,
    }
}

/// The table after freeing `(base, size)`.
pub open spec fn end_spec(s: Seq<AllocationRecord>, base: u64, size: u64) -> Seq<AllocationRecord> {
    match first_released(s, base, size, 0) {
        Some(i) => s.remove(i),
        None => s,
    }
}

proof fn lemma_first_containing_bounds(s: Seq<AllocationRecord>, a: u64, i: int)
    requires
        0 <= i,
    ensures
        match first_containing(s, a, i) {
            Some(j) => i <= j < s.len() && record_contains(s[j], a)
                && forall|k: int| i <= k < j ==> !record_contains(#[trigger] s[k], a),
            None => forall|k: int| i <= k < s.len() ==> !record_contains(#[trigger] s[k], a),
        },
    decreases s.len() - i,
{
    if i < s.len() && !record_contains(s[i], a) {
        lemma_first_containing_bounds(s, a, i + 1);
    }
}

proof fn lemma_first_pending_bounds(s: Seq<AllocationRecord>, key: u64, i: int)
    requires
        0 <= i,
    ensures
        match first_pending(s, key, i) {
            Some(j) => i <= j < s.len() && is_pending_for(s[j], key)
                && forall|k: int| i <= k < j ==> !is_pending_for(#[trigger] s[k], key),
            None => forall|k: int| i <= k < s.len() ==> !is_pending_for(#[trigger] s[k], key),
        },
    decreases s.len() - i,
{
    if i < s.len() && !is_pending_for(s[i], key) {
        lemma_first_pending_bounds(s, key, i + 1);
    }
}

proof fn lemma_first_released_bounds(s: Seq<AllocationRecord>, base: u64, size: u64, i: int)
    requires
        0 <= i,
    ensures
        match first_released(s, base, size, i) {
            Some(j) => i <= j < s.len() && is_released_by(s[j], base, size)
                && forall|k: int| i <= k < j ==> !is_released_by(#[trigger] s[k], base, size),
            None => forall|k: int| i <= k < s.len() ==> !is_released_by(#[trigger] s[k], base, size),
        },
    decreases s.len() - i,
{
    if i < s.len() && !is_released_by(s[i], base, size) {
        lemma_first_released_bounds(s, base, size, i + 1);
    }
}

/// A request made and then resolved to `base` is found by an address `a`
/// exactly when `a` lies in `[base, base + size)` (`base + size` itself
/// finds nothing), given that no other record contains `a` or waits on the
/// same key.
pub proof fn lemma_resolved_region_lookup(
    s: Seq<AllocationRecord>,
    size: u64,
    protection: u32,
    key: u64,
    base: u64,
    a: u64,
)
    requires
        forall|k: int|
            0 <= k < s.len() ==> !record_contains(#[trigger] s[k], a) && !is_pending_for(s[k], key),
    ensures
        lookup_spec(resolve_spec(begin_spec(s, size, protection, key), key, base), a) == (if base
            <= a < base + size {
            Some(AllocationRecord { size, protection, key, base: Some(base) })
        } else {
            None
        }),
{
    let t = begin_spec(s, size, protection, key);
    lemma_first_pending_bounds(t, key, 0);
    assert(is_pending_for(t[s.len() as int], key));
    assert(first_pending(t, key, 0) == Some(s.len() as int));
    let u = resolve_spec(t, key, base);
    lemma_first_containing_bounds(u, a, 0);
    assert(forall|k: int| 0 <= k < s.len() ==> u[k] == s[k]);
    assert(forall|k: int| 0 <= k < s.len() ==> !record_contains(#[trigger] u[k], a));
    assert(u[s.len() as int] == AllocationRecord { size, protection, key, base: Some(base) });
    if base <= a && a < base + size {
        assert(record_contains(u[s.len() as int], a));
    } else {
        assert(!record_contains(u[s.len() as int], a));
    }
}

/// Resolving a key that no pending record carries reports nothing and
/// leaves the table as it was.
pub proof fn lemma_resolve_unknown_key(s: Seq<AllocationRecord>, key: u64, base: u64)
    requires
        forall|k: int| 0 <= k < s.len() ==> !is_pending_for(#[trigger] s[k], key),
    ensures
        first_pending(s, key, 0) is None,
        resolve_spec(s, key, base) == s,
{
    lemma_first_pending_bounds(s, key, 0);
}

/// Resolving never changes a record that is already resolved, nor the
/// number of records.
pub proof fn lemma_resolve_keeps_resolved(s: Seq<AllocationRecord>, key: u64, base: u64)
    ensures
        resolve_spec(s, key, base).len() == s.len(),
        forall|k: int|
            0 <= k < s.len() && (#[trigger] s[k]).base is Some ==> resolve_spec(s, key, base)[k]
                == s[k],
{
    lemma_first_pending_bounds(s, key, 0);
}

/// Freeing with a zero size removes the first record resolved at `base`,
/// whatever its size.
pub proof fn lemma_end_any_size(s: Seq<AllocationRecord>, base: u64, j: int)
    requires
        0 <= j < s.len(),
        s[j].base == Some(base),
        forall|k: int| 0 <= k < j ==> (#[trigger] s[k]).base != Some(base),
    ensures
        end_spec(s, base, 0) == s.remove(j),
        end_spec(s, base, 0).len() == s.len() - 1,
{
    lemma_first_released_bounds(s, base, 0, 0);
    assert(is_released_by(s[j], base, 0));
}

/// Freeing with a non-zero size that no record at `base` has leaves the
/// table as it was.
pub proof fn lemma_end_size_mismatch(s: Seq<AllocationRecord>, base: u64, size: u64)
    requires
        size != 0,
        forall|k: int| 0 <= k < s.len() && (#[trigger] s[k]).base == Some(base) ==> s[k].size != size,
    ensures
        first_released(s, base, size, 0) is None,
        end_spec(s, base, size) == s,
{
    lemma_first_released_bounds(s, base, size, 0);
}

/// A record that `lookup_spec` finds is resolved and contains the address.
pub proof fn lemma_lookup_resolved(s: Seq<AllocationRecord>, a: u64)
    ensures
        lookup_spec(s, a) matches Some(r) ==> r.base is Some && record_contains(r, a),
{
    lemma_first_containing_bounds(s, a, 0);
}

/// A new request on a table where no record waits on its key is the one
/// that its key resolves.
pub proof fn lemma_first_pending_of_fresh(s: Seq<AllocationRecord>, size: u64, protection: u32, key: u64)
    requires
        forall|k: int| 0 <= k < s.len() ==> !is_pending_for(#[trigger] s[k], key),
    ensures
        first_pending(begin_spec(s, size, protection, key), key, 0) == Some(s.len() as int),
{
    let t = begin_spec(s, size, protection, key);
    lemma_first_pending_bounds(t, key, 0);
    assert(is_pending_for(t[s.len() as int], key));
}

impl AllocationRecord {
    /// Whether `address` lies in this record's resolved region.
    pub fn contains(&self, address: u64) -> (r: bool)
        ensures
            r == record_contains(*self, address),
    {
        match self.base {
            Some(b) => b <= address && address - b < self.size,
            None => false,
        }
    }
}

/// In-flight and resolved allocations, in the order they were requested.
pub struct AllocationTable {
    records: Vec<AllocationRecord>,
}

impl View for AllocationTable {
    type V = Seq<AllocationRecord>;

    closed spec fn view(&self) -> Seq<AllocationRecord> {
        self.records@
    }
}

impl AllocationTable {
    /// An empty table.
    pub fn new() -> (r: Self)
        ensures
            r@ == Seq::<AllocationRecord>::empty(),
    {
        AllocationTable { records: Vec::new() }
    }

    /// Number of records, pending and resolved.
    pub fn len(&self) -> (r: usize)
        ensures
            r == self@.len(),
    {
        self.records.len()
    }

    /// The record at `index`, in request order.
    pub fn get(&self, index: usize) -> (r: Option<AllocationRecord>)
        ensures
            r == (if index < self@.len() { Some(self@[index as int]) } else { None }),
    {
        if index < self.records.len() {
            Some(self.records[index])
        } else {
            None
        }
    }

    /// Record a new pending request; other records are untouched.
    pub fn begin(&mut self, size: u64, protection: u32, key: u64)
        ensures
            final(self)@ == begin_spec(old(self)@, size, protection, key),
    {
        self.records.push(AllocationRecord { size, protection, key, base: None });
    }

    /// Resolve the first pending record with `key` to `base` and return its
    /// size; `None`, with the table unchanged, when no record is pending for `key`.
    pub fn resolve(&mut self, key: u64, base: u64) -> (r: Option<u64>)
        ensures
            final(self)@ == resolve_spec(old(self)@, key, base),
            r == (match first_pending(old(self)@, key, 0) {
                Some(i) => Some(old(self)@[i].size),
                None => None,
            }),
    {
        let mut i: usize = 0;
        while i < self.records.len()
            invariant
                0 <= i <= self.records@.len(),
                self.records@ == old(self).records@,
                first_pending(self.records@, key, 0) == first_pending(self.records@, key, i as int),
            decreases self.records.len() - i,
        {
            let r = self.records[i];
            if r.base.is_none() && r.key == key {
                let size = r.size;
                self.records.set(i, AllocationRecord { base: Some(base), ..r });
                return Some(size);
            }
            i += 1;
        }
        None
    }

    /// The first resolved record whose region `[base, base + size)` holds `address`.
    pub fn lookup(&self, address: u64) -> (r: Option<AllocationRecord>)
        ensures
            r == lookup_spec(self@, address),
    {
        let mut i: usize = 0;
        while i < self.records.len()
            invariant
                0 <= i <= self.records@.len(),
                first_containing(self.records@, address, 0) == first_containing(
                    self.records@,
                    address,
                    i as int,
                ),
            decreases self.records.len() - i,
        {
            if self.records[i].contains(address) {
                return Some(self.records[i]);
            }
            i += 1;
        }
        None
    }

    /// Remove the first resolved record at `base` whose size is `size`, or of
    /// any size when `size` is zero; returns it, or `None` with the table unchanged.
    pub fn end(&mut self, base: u64, size: u64) -> (r: Option<AllocationRecord>)
        ensures
            final(self)@ == end_spec(old(self)@, base, size),
            r == (match first_released(old(self)@, base, size, 0) {
                Some(i) => Some(old(self)@[i]),
                None => None,
            }),
    {
        let mut i: usize = 0;
        while i < self.records.len()
            invariant
                0 <= i <= self.records@.len(),
                self.records@ == old(self).records@,
                first_released(self.records@, base, size, 0) == first_released(
                    self.records@,
                    base,
                    size,
                    i as int,
                ),
            decreases self.records.len() - i,
        {
            let r = self.records[i];
            if r.base == Some(base) && (size == 0 || r.size == size) {
                self.records.remove(i);
                return Some(r);
            }
            i += 1;
        }
        None
    }
}

} // verus!
