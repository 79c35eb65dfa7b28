//! Result store: the dispose contract of the boundary.
//!
//! Every result record handed to a callback is registered here and
//! addressed by a generational handle; the paired free operation
//! releases it exactly once. Freeing a handle a second time — or a
//! handle that never was issued — is detected and changes nothing,
//! instead of corrupting memory: a freed handle never refers to a
//! result again.

use crate::registry::Handle;
use crate::registry::Registry;
use crate::result::QueryResult;
use vstd::prelude::*;

verus! {

/// The table of published, not yet freed result records.
pub struct ResultStore {
    table: Registry<QueryResult>,
}

impl ResultStore {
    /// The store's bookkeeping is coherent.
    pub closed spec fn wf(self) -> bool {
        self.table.wf()
    }

    /// Whether a handle refers to a published, not yet freed record.
    pub closed spec fn live(self, h: Handle) -> bool {
        self.table.valid(h)
    }

    /// The record a live handle refers to.
    pub closed spec fn stored(self, h: Handle) -> QueryResult
        recommends
            self.live(h),
    {
        self.table.value_of(h)
    }

    /// A handle that no published record will ever be addressed by again.
    pub closed spec fn freed_for_good(self, h: Handle) -> bool {
        self.table.retired(h)
    }

    /// Number of published, not yet freed records.
    pub closed spec fn live_count(self) -> nat {
        self.table.live_count()
    }

    /// A freed-for-good handle does not refer to a record.
    pub proof fn lemma_freed_not_live(self, h: Handle)
        requires
            self.freed_for_good(h),
        ensures
            !self.live(h),
    {
        self.table.lemma_retired_not_valid(h);
    }

    /// An empty store.
    pub fn new() -> (r: Self)
        ensures
            r.wf(),
            r.live_count() == 0,
            forall|h: Handle| !r.live(h),
    {
        ResultStore { table: Registry::new() }
    }

    /// Publishes a record and issues the fresh handle the callback hands
    /// to the host.
    pub fn publish(&mut self, record: QueryResult) -> (h: Handle)
        requires
            old(self).wf(),
            old(self).live_count() < usize::MAX,
        ensures
            final(self).wf(),
            final(self).live(h),
            final(self).stored(h) == record,
            final(self).live_count() == old(self).live_count() + 1,
            forall|h2: Handle| #![trigger old(self).live(h2)] old(self).live(h2) ==> h2 != h,
            forall|h2: Handle|
                #![trigger final(self).live(h2)]
                h2 != h ==> final(self).live(h2) == old(self).live(h2),
            forall|h2: Handle|
                #![trigger final(self).stored(h2)]
                h2 != h && old(self).live(h2) ==> final(self).stored(h2) == old(self).stored(h2),
            forall|h2: Handle|
                #![trigger final(self).freed_for_good(h2)]
                old(self).freed_for_good(h2) ==> final(self).freed_for_good(h2),
    {
        self.table.insert(record)
    }

    /// Reads a published record without releasing it.
    pub fn get(&self, h: Handle) -> (r: Option<&QueryResult>)
        ensures
            match r {
                Option::Some(v) => self.live(h) && *v == self.stored(h),
                Option::None => !self.live(h),
            },
    {
        self.table.get(h)
    }

    /// Releases a published record exactly once: the record is handed
    /// back and its handle never refers to a record again. A second free
    /// of the same handle — or a free of a never-issued handle — yields
    /// `None` and leaves the store untouched.
    pub fn free(&mut self, h: Handle) -> (r: Option<QueryResult>)
        requires
            old(self).wf(),
        ensures
            final(self).wf(),
            !final(self).live(h),
            r is Some <==> old(self).live(h),
            old(self).live(h) ==> r == Option::Some(old(self).stored(h))
                && final(self).freed_for_good(h)
                && final(self).live_count() == old(self).live_count() - 1,
            !old(self).live(h) ==> *final(self) == *old(self),
            forall|h2: Handle|
                #![trigger final(self).live(h2)]
                h2 != h ==> final(self).live(h2) == old(self).live(h2),
            forall|h2: Handle|
                #![trigger final(self).stored(h2)]
                h2 != h && old(self).live(h2) ==> final(self).stored(h2) == old(self).stored(h2),
            forall|h2: Handle|
                #![trigger final(self).freed_for_good(h2)]
                old(self).freed_for_good(h2) ==> final(self).freed_for_good(h2),
    {
        self.table.remove(h)
    }
}

} // verus!
