//! The policy by which rendering code starts loads: `acquire_resource`
//! starts a job only on an unloaded cell, `update_resource` always does, and
//! both ask for the owner to be notified when the job has published.
use vstd::prelude::*;
use crate::resource::{CellEvent, PendingLoad, Resource, ResourceState, step};

verus! {

/// Whether `acquire_resource` starts a job on a cell in state `s`.
pub open spec fn acquire_starts<T>(s: ResourceState<T>) -> bool {
    s is Unloaded
}

/// The state of a cell after `acquire_resource` on a cell in state `s`.
pub open spec fn after_acquire<T>(s: ResourceState<T>) -> ResourceState<T> {
    if acquire_starts(s) {
        step(s, CellEvent::Load)
    } else {
        s
    }
}

impl<T> Resource<T> {
    /// Starts a new job whatever the cell holds; its completion notifies the owner.
    pub fn update_resource(&mut self) -> (job: PendingLoad)
        ensures
            final(self)@ == step(old(self)@, CellEvent::Load),
            job.notifies(),
    {
        self.load_and_notify()
    }
}

impl<T: Clone> Resource<T> {
    /// Returns a snapshot of the cell's state, after starting a job (through
    /// `update_resource`) if and only if the cell was unloaded. Repeated calls
    /// while a job is in flight or a value is held start nothing.
    pub fn acquire_resource(&mut self) -> (r: (ResourceState<T>, Option<PendingLoad>))
        ensures
            final(self)@ == after_acquire(old(self)@),
            r.1 is Some <==> acquire_starts(old(self)@),
            r.1 is Some ==> r.1->Some_0.notifies(),
            r.0.is_snapshot_of(final(self)@),
    {
        let job = if self.is_unloaded() {
            Some(self.update_resource())
        } else {
            None
        };
        let snapshot = self.get_state().clone();
        (snapshot, job)
    }
}

} // verus!
