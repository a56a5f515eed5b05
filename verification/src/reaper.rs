//! The reaper: one pass looks for a lease of the default lifetime and
//! removes it if it has run out; how long the reaper rests before the next
//! pass depends on how the pass went.

use crate::storage::{
    found_view, now_seconds, opened_view, ClientInfoRecord, ClientInfoRecordView, LeaseStore,
    LeaseStoreView, StoreError,
};
use vstd::prelude::*;

verus! {

/// Milliseconds of rest after a pass that found a lease to look at.
pub const CLEAN_FREQUENT: u64 = 500;

/// Milliseconds of rest after a pass that found no lease to look at.
pub const FINISHED_CLEAR_RELAX_DELAY: u64 = 10_000;

/// Milliseconds of rest after a pass that the store has let down.
pub const ERROR_TO_CLEAN_DELAY: u64 = 10_000;

/// Whether more than `lifetime` seconds lie between the writing of
/// `record` and `now`. A record written after `now` has not run out.
pub open spec fn outdated(record: ClientInfoRecordView, lifetime: u64, now: i64) -> bool {
    now - record.record_time > lifetime
}

/// Whether `s` has run out at the second `now`.
pub fn is_outdated_at(s: &ClientInfoRecord, lifetime: u64, now: i64) -> (out: bool)
    ensures
        out == outdated(s@, lifetime, now),
{
    let elapsed: i128 = now as i128 - s.record_time as i128;
    elapsed > lifetime as i128
}

/// Whether `s` has run out at the present second of the system clock,
/// whatever that is.
pub fn is_outdated(s: &ClientInfoRecord, lifetime: u64) -> (out: bool)
    ensures
        exists|now: i64| out == #[trigger] outdated(s@, lifetime, now),
{
    let now = now_seconds();
    is_outdated_at(s, lifetime, now)
}

/// What a pass of the reaper needs next.
pub enum CleanStep {
    /// A lease has left the store: the host writes the store out, and how
    /// that went is how the pass went.
    Flush(LeaseStore),
    /// The pass is over.
    Done(Result<(), StoreError>),
}

/// The mathematical value of a [`CleanStep`].
pub enum CleanStepView {
    Flush(LeaseStoreView),
    Done(Result<(), StoreError>),
}

impl View for CleanStep {
    type V = CleanStepView;

    open spec fn view(&self) -> CleanStepView {
        match *self {
            CleanStep::Flush(store) => CleanStepView::Flush(store@),
            CleanStep::Done(outcome) => CleanStepView::Done(outcome),
        }
    }
}

/// What a pass does at `now` with what its search of `store` came back
/// with. A search that failed ends the pass with its error. A lease that
/// has not run out stays, and the pass ends well. A lease that has run
/// out leaves the store; if the store does not hold it, the pass ends
/// with `NotFound`.
pub open spec fn clean_step(
    store: LeaseStoreView,
    selected: Result<ClientInfoRecordView, StoreError>,
    lifetime: u64,
    now: i64,
) -> CleanStepView {
    match selected {
        Err(e) => CleanStepView::Done(Err(e)),
        Ok(lease) => if !outdated(lease, lifetime, now) {
            CleanStepView::Done(Ok(()))
        } else if store.leases.contains(lease) {
            CleanStepView::Flush(store.without_lease(lease))
        } else {
            CleanStepView::Done(Err(StoreError::NotFound))
        },
    }
}

/// Whether `step` is what a pass at `now` may do on a store opened as
/// `opened`: end with the error where the store could not be opened, end
/// with `NotFound` where it holds no lease that lasts `lifetime` seconds,
/// and else what it does with one such lease of the store.
pub open spec fn clean_allows(
    opened: Result<LeaseStoreView, StoreError>,
    lifetime: u64,
    now: i64,
    step: CleanStepView,
) -> bool {
    match opened {
        Err(e) => step == CleanStepView::Done(Err(e)),
        Ok(store) => if store.has_lifetime(lifetime) {
            exists|l: ClientInfoRecordView| #[trigger]
                store.leases.contains(l) && l.lifetime == lifetime && step == clean_step(
                    store,
                    Ok(l),
                    lifetime,
                    now,
                )
        } else {
            step == clean_step(store, Err(StoreError::NotFound), lifetime, now)
        },
    }
}

/// Ends a pass at `now`, given what its search of `store` came back with.
pub fn reap_selected(
    store: LeaseStore,
    selected: Result<ClientInfoRecord, StoreError>,
    lifetime: u64,
    now: i64,
) -> (step: CleanStep)
    ensures
        step@ == clean_step(store@, found_view(selected), lifetime, now),
{
    match selected {
        Err(e) => CleanStep::Done(Err(e)),
        Ok(record) => {
            if is_outdated_at(&record, lifetime, now) {
                let mut store = store;
                match store.remove(&record) {
                    Ok(()) => CleanStep::Flush(store),
                    Err(e) => CleanStep::Done(Err(e)),
                }
            } else {
                CleanStep::Done(Ok(()))
            }
        },
    }
}

/// One pass of the reaper at the second `now` over the store that the
/// host has just tried to open: it looks at one lease that lasts
/// `lifetime` seconds, and at no other.
pub fn clean_outdated_at(opened: Result<LeaseStore, StoreError>, lifetime: u64, now: i64) -> (step:
    CleanStep)
    ensures
        clean_allows(opened_view(opened), lifetime, now, step@),
{
    match opened {
        Err(e) => CleanStep::Done(Err(e)),
        Ok(store) => {
            let selected = store.query_by_lifetime(lifetime);
            reap_selected(store, selected, lifetime, now)
        },
    }
}

/// One pass of the reaper at the present second of the system clock,
/// whatever that is.
pub fn clean_outdated(opened: Result<LeaseStore, StoreError>, lifetime: u64) -> (step: CleanStep)
    ensures
        exists|now: i64| #[trigger] clean_allows(opened_view(opened), lifetime, now, step@),
{
    let now = now_seconds();
    clean_outdated_at(opened, lifetime, now)
}

/// The milliseconds of rest after a pass that went as `outcome` says.
pub open spec fn relax_millis(outcome: Result<(), StoreError>) -> u64 {
    match outcome {
        Ok(_) => CLEAN_FREQUENT,
        Err(StoreError::NotFound) => FINISHED_CLEAR_RELAX_DELAY,
        Err(_) => ERROR_TO_CLEAN_DELAY,
    }
}

/// How long the reaper rests after a pass, in milliseconds: a moment
/// after a pass that went well, so that the next lease is looked at
/// soon; longer when nothing was left to look at; and as long as that
/// when the store failed, which does not stop the reaper.
pub fn cleaning_delay(outcome: &Result<(), StoreError>) -> (millis: u64)
    ensures
        millis == relax_millis(*outcome),
{
    match outcome {
        Ok(_) => CLEAN_FREQUENT,
        Err(StoreError::NotFound) => FINISHED_CLEAR_RELAX_DELAY,
        Err(_) => ERROR_TO_CLEAN_DELAY,
    }
}

/// Whether a pass that went as `outcome` says has failed. A pass that
/// found no lease to look at has not: there was nothing to do.
pub open spec fn pass_failed(outcome: Result<(), StoreError>) -> bool {
    outcome matches Err(e) && e != StoreError::NotFound
}

/// Whether the pass is one to report as a failure.
pub fn cleaning_failed(outcome: &Result<(), StoreError>) -> (failed: bool)
    ensures
        failed == pass_failed(*outcome),
{
    match outcome {
        Ok(_) => false,
        Err(StoreError::NotFound) => false,
        Err(_) => true,
    }
}

/// A lease of the store that a pass looks at leaves the store if more
/// than its lifetime has gone by since it was written, and every other
/// lease stays; up to that moment the pass leaves the store alone. A
/// lease that has run out has run out at every later moment too.
pub proof fn lemma_expiry(
    store: LeaseStoreView,
    lease: ClientInfoRecordView,
    now: i64,
    later: i64,
)
    requires
        store.leases.contains(lease),
        now <= later,
    ensures
        now - lease.record_time > lease.lifetime ==> {
            &&& clean_step(store, Ok(lease), lease.lifetime, now) matches CleanStepView::Flush(left)
            &&& !left.leases.contains(lease)
            &&& forall|other: ClientInfoRecordView|
                other != lease ==> (#[trigger] left.leases.contains(other)
                    <==> store.leases.contains(other))
            &&& outdated(lease, lease.lifetime, later)
        },
        now - lease.record_time <= lease.lifetime ==> clean_step(
            store,
            Ok(lease),
            lease.lifetime,
            now,
        ) == CleanStepView::Done(Ok(())),
{
}

} // verus!
