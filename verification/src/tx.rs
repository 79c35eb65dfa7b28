//! Transaction state machine.
//!
//! A transaction is Open from a successful begin until exactly one of
//! commit or rollback, which closes it for good. Between those, every
//! statement takes the transaction out of its slot, runs, and re-issues
//! the same handle, so the handle stays valid for exactly the next call.
//! The manager records the statements issued against each open
//! transaction: commit hands the whole recorded batch out, rollback
//! discards it whole.

use crate::errors::spec_error_code;
use crate::errors::spec_error_message;
use crate::errors::spec_recoverable;
use crate::errors::DriverError;
use crate::registry::Handle;
use crate::registry::Registry;
use crate::result::QueryResult;
use crate::translate::error_result_of;
use crate::translate::exec_result_of;
use vstd::prelude::*;

verus! {

/// The statements recorded against one open transaction, oldest first.
pub struct TxState {
    pub statements: Vec<String>,
}

/// The table of open transactions.
pub struct TxManager {
    table: Registry<TxState>,
}

impl TxManager {
    /// The manager's bookkeeping is coherent.
    pub closed spec fn wf(self) -> bool {
        self.table.wf()
    }

    /// Whether a handle refers to an open transaction.
    pub closed spec fn open(self, h: Handle) -> bool {
        self.table.valid(h)
    }

    /// A handle that no transaction will ever be addressed by again.
    pub closed spec fn closed_for_good(self, h: Handle) -> bool {
        self.table.retired(h)
    }

    /// Number of open transactions.
    pub closed spec fn open_count(self) -> nat {
        self.table.live_count()
    }

    /// The statements recorded against an open transaction, in order.
    pub closed spec fn pending(self, h: Handle) -> Seq<Seq<char>>
        recommends
            self.open(h),
    {
        self.table.value_of(h).statements.deep_view()
    }

    /// A closed-for-good handle does not refer to an open transaction.
    pub proof fn lemma_closed_not_open(self, h: Handle)
        requires
            self.closed_for_good(h),
        ensures
            !self.open(h),
    {
        self.table.lemma_retired_not_valid(h);
    }

    /// A manager with no transaction open.
    pub fn new() -> (r: Self)
        ensures
            r.wf(),
            r.open_count() == 0,
            forall|h: Handle| !r.open(h),
    {
        TxManager { table: Registry::new() }
    }

    /// Opens a transaction after the driver's begin succeeded: issues a
    /// fresh handle with an empty recorded batch. Every other handle is
    /// untouched.
    pub fn begin(&mut self) -> (h: Handle)
        requires
            old(self).wf(),
            old(self).open_count() < usize::MAX,
        ensures
            final(self).wf(),
            final(self).open(h),
            final(self).pending(h) == Seq::<Seq<char>>::empty(),
            final(self).open_count() == old(self).open_count() + 1,
            forall|h2: Handle| #![trigger old(self).open(h2)] old(self).open(h2) ==> h2 != h,
            forall|h2: Handle|
                #![trigger final(self).open(h2)]
                h2 != h ==> final(self).open(h2) == old(self).open(h2),
            forall|h2: Handle|
                #![trigger final(self).pending(h2)]
                h2 != h && old(self).open(h2) ==> final(self).pending(h2) == old(self).pending(h2),
            forall|h2: Handle|
                #![trigger final(self).closed_for_good(h2)]
                old(self).closed_for_good(h2) ==> final(self).closed_for_good(h2),
    {
        let h = self.table.insert(TxState { statements: Vec::new() });
        proof {
            assert(final(self).pending(h) =~= Seq::<Seq<char>>::empty());
        }
        h
    }

    /// Records one statement against an open transaction, taking the
    /// state out of its slot and re-establishing it at the same handle;
    /// the handle stays open for the next call. A stale handle changes
    /// nothing and reports failure.
    pub fn record(&mut self, h: Handle, sql: &str) -> (ok: bool)
        requires
            old(self).wf(),
        ensures
            final(self).wf(),
            ok == old(self).open(h),
            final(self).open_count() == old(self).open_count(),
            ok ==> final(self).open(h) && final(self).pending(h) == old(self).pending(h).push(
                sql@,
            ),
            !ok ==> *final(self) == *old(self),
            forall|h2: Handle|
                #![trigger final(self).open(h2)]
                h2 != h ==> final(self).open(h2) == old(self).open(h2),
            forall|h2: Handle|
                #![trigger final(self).pending(h2)]
                h2 != h && old(self).open(h2) ==> final(self).pending(h2) == old(self).pending(h2),
            forall|h2: Handle|
                #![trigger final(self).closed_for_good(h2)]
                old(self).closed_for_good(h2) ==> final(self).closed_for_good(h2),
    {
        match self.table.replace(h, TxState { statements: Vec::new() }) {
            Option::Some(mut state) => {
                state.statements.push(sql.to_owned());
                proof {
                    assert(state.statements.deep_view() =~= old(self).pending(h).push(sql@));
                }
                let _placeholder = self.table.replace(h, state);
                true
            },
            Option::None => false,
        }
    }

    /// Closes an open transaction on commit and hands out the whole
    /// recorded batch — the statements that take effect, oldest first.
    /// The handle never refers to a transaction again. A stale handle
    /// changes nothing and yields `None`.
    pub fn commit(&mut self, h: Handle) -> (r: Option<Vec<String>>)
        requires
            old(self).wf(),
        ensures
            final(self).wf(),
            !final(self).open(h),
            r is Some <==> old(self).open(h),
            old(self).open(h) ==> r->Some_0.deep_view() == old(self).pending(h)
                && final(self).closed_for_good(h) && final(self).open_count() == old(
                self,
            ).open_count() - 1,
            !old(self).open(h) ==> *final(self) == *old(self),
            forall|h2: Handle|
                #![trigger final(self).open(h2)]
                h2 != h ==> final(self).open(h2) == old(self).open(h2),
            forall|h2: Handle|
                #![trigger final(self).pending(h2)]
                h2 != h && old(self).open(h2) ==> final(self).pending(h2) == old(self).pending(h2),
            forall|h2: Handle|
                #![trigger final(self).closed_for_good(h2)]
                old(self).closed_for_good(h2) ==> final(self).closed_for_good(h2),
    {
        match self.table.remove(h) {
            Option::Some(state) => Option::Some(state.statements),
            Option::None => Option::None,
        }
    }

    /// Closes an open transaction on rollback, discarding the whole
    /// recorded batch: nothing is handed out for application. The handle
    /// never refers to a transaction again. A stale handle changes
    /// nothing and reports failure.
    pub fn rollback(&mut self, h: Handle) -> (ok: bool)
        requires
            old(self).wf(),
        ensures
            final(self).wf(),
            !final(self).open(h),
            ok == old(self).open(h),
            ok ==> final(self).closed_for_good(h) && final(self).open_count() == old(
                self,
            ).open_count() - 1,
            !ok ==> *final(self) == *old(self),
            forall|h2: Handle|
                #![trigger final(self).open(h2)]
                h2 != h ==> final(self).open(h2) == old(self).open(h2),
            forall|h2: Handle|
                #![trigger final(self).pending(h2)]
                h2 != h && old(self).open(h2) ==> final(self).pending(h2) == old(self).pending(h2),
            forall|h2: Handle|
                #![trigger final(self).closed_for_good(h2)]
                old(self).closed_for_good(h2) ==> final(self).closed_for_good(h2),
    {
        match self.table.remove(h) {
            Option::Some(_) => true,
            Option::None => false,
        }
    }

    /// Completes a begin request: on driver success opens a transaction
    /// and returns a success record carrying the fresh handle; on a
    /// recoverable driver failure no transaction is opened and the error
    /// record is returned.
    pub fn begin_result(&mut self, outcome: Result<(), DriverError>) -> (r: QueryResult)
        requires
            old(self).wf(),
            old(self).open_count() < usize::MAX,
            outcome is Err ==> spec_recoverable(outcome->Err_0),
        ensures
            final(self).wf(),
            outcome is Ok ==> {
                &&& r.error is None
                &&& r.tx is Some
                &&& final(self).open(r.tx->Some_0)
                &&& final(self).pending(r.tx->Some_0) == Seq::<Seq<char>>::empty()
                &&& r.rows@.len() == 0 && r.schema@.len() == 0 && r.rows_affected == 0
            },
            outcome is Err ==> {
                &&& r.error == Option::Some(spec_error_code(outcome->Err_0))
                &&& r.error_message is Some && r.error_message->Some_0@ == spec_error_message(
                    outcome->Err_0,
                )
                &&& r.tx is None
                &&& *final(self) == *old(self)
            },
            forall|h2: Handle|
                #![trigger final(self).open(h2)]
                old(self).open(h2) ==> final(self).open(h2),
            forall|h2: Handle|
                #![trigger final(self).closed_for_good(h2)]
                old(self).closed_for_good(h2) ==> final(self).closed_for_good(h2),
    {
        match outcome {
            Result::Ok(_) => {
                let h = self.begin();
                QueryResult::ok().with_tx(h)
            },
            Result::Err(e) => error_result_of(&e),
        }
    }

    /// Completes one statement against an open transaction: records the
    /// statement, translates the driver outcome, and re-issues the same
    /// handle with the record so the caller can keep using it. `None`
    /// marks a stale handle — a caller-contract violation the boundary
    /// treats as fatal.
    pub fn statement_result(
        &mut self,
        h: Handle,
        sql: &str,
        outcome: Result<u64, DriverError>,
    ) -> (r: Option<QueryResult>)
        requires
            old(self).wf(),
            outcome is Err ==> spec_recoverable(outcome->Err_0),
        ensures
            final(self).wf(),
            r is Some <==> old(self).open(h),
            !old(self).open(h) ==> *final(self) == *old(self),
            old(self).open(h) ==> {
                &&& final(self).open(h)
                &&& final(self).pending(h) == old(self).pending(h).push(sql@)
                &&& r->Some_0.tx == Option::Some(h)
                &&& (outcome is Ok ==> r->Some_0.error is None && r->Some_0.rows_affected
                    == outcome->Ok_0)
                &&& (outcome is Err ==> r->Some_0.error == Option::Some(
                    spec_error_code(outcome->Err_0),
                ) && r->Some_0.error_message is Some && r->Some_0.error_message->Some_0@
                    == spec_error_message(outcome->Err_0))
            },
            forall|h2: Handle|
                #![trigger final(self).open(h2)]
                h2 != h ==> final(self).open(h2) == old(self).open(h2),
            forall|h2: Handle|
                #![trigger final(self).closed_for_good(h2)]
                old(self).closed_for_good(h2) ==> final(self).closed_for_good(h2),
    {
        if self.record(h, sql) {
            Option::Some(exec_result_of(outcome).with_tx(h))
        } else {
            Option::None
        }
    }

    /// Completes a commit or rollback request: the transaction is closed
    /// either way, even when the driver reports a recoverable failure,
    /// and the driver outcome is translated. `None` marks a stale handle
    /// — a caller-contract violation the boundary treats as fatal.
    pub fn close_result(&mut self, h: Handle, outcome: Result<(), DriverError>) -> (r: Option<
        QueryResult,
    >)
        requires
            old(self).wf(),
            outcome is Err ==> spec_recoverable(outcome->Err_0),
        ensures
            final(self).wf(),
            !final(self).open(h),
            r is Some <==> old(self).open(h),
            !old(self).open(h) ==> *final(self) == *old(self),
            old(self).open(h) ==> {
                &&& final(self).closed_for_good(h)
                &&& (outcome is Ok ==> r->Some_0.error is None)
                &&& (outcome is Err ==> r->Some_0.error == Option::Some(
                    spec_error_code(outcome->Err_0),
                ))
                &&& r->Some_0.tx is None
            },
            forall|h2: Handle|
                #![trigger final(self).open(h2)]
                h2 != h ==> final(self).open(h2) == old(self).open(h2),
            forall|h2: Handle|
                #![trigger final(self).closed_for_good(h2)]
                old(self).closed_for_good(h2) ==> final(self).closed_for_good(h2),
    {
        if self.rollback(h) {
            match outcome {
                Result::Ok(_) => Option::Some(QueryResult::ok()),
                Result::Err(e) => Option::Some(error_result_of(&e)),
            }
        } else {
            Option::None
        }
    }
}

/// The recorded batch after a run of statements, as `record` steps it:
/// one push per statement, in order.
pub open spec fn spec_pending_after(pending: Seq<Seq<char>>, stmts: Seq<Seq<char>>) -> Seq<
    Seq<char>,
>
    decreases stmts.len(),
{
    if stmts.len() == 0 {
        pending
    } else {
        spec_pending_after(pending.push(stmts[0]), stmts.skip(1))
    }
}

/// Transaction batching law: starting from the empty batch a begin
/// establishes, recording statements one by one accumulates exactly that
/// sequence of statements, in order — so a commit after the run hands
/// out the whole sequence, and a rollback after the same run discards
/// all of it.
pub proof fn lemma_tx_batch(pending: Seq<Seq<char>>, stmts: Seq<Seq<char>>)
    ensures
        spec_pending_after(pending, stmts) == pending + stmts,
    decreases stmts.len(),
{
    if stmts.len() == 0 {
        assert(spec_pending_after(pending, stmts) =~= pending + stmts);
    } else {
        lemma_tx_batch(pending.push(stmts[0]), stmts.skip(1));
        assert(pending.push(stmts[0]) + stmts.skip(1) =~= pending + stmts);
    }
}

} // verus!
