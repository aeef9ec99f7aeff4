//! The load cell: one asynchronously produced value and the state of its load.
use vstd::prelude::*;
use vstd::pervasive::cloned;

verus! {

/// What a load cell holds at one instant.
pub enum ResourceState<T> {
    /// No load has been started since the cell was made or cleared.
    Unloaded,
    /// A load is in flight and no value is available yet.
    Loading,
    /// The most recent load finished without producing a value.
    Unavailable,
    /// The value that the most recent load produced.
    Loaded(T),
}

/// The events that change a cell's state.
pub enum CellEvent<T> {
    /// A job is started (`load`, `load_and_notify`, or `new`).
    Load,
    /// The cell is reset by `clear`.
    Clear,
    /// A job finishes with this outcome and publishes it.
    Complete(Option<T>),
}

/// The state that a finished job publishes: its value, or `Unavailable`
/// when it produced none.
pub open spec fn published<T>(outcome: Option<T>) -> ResourceState<T> {
    match outcome {
        Some(v) => ResourceState::Loaded(v),
        None => ResourceState::Unavailable,
    }
}

/// The state after one event. A completion publishes whatever state the
/// cell is in: the last job to finish decides, and a clear cancels nothing.
pub open spec fn step<T>(s: ResourceState<T>, e: CellEvent<T>) -> ResourceState<T> {
    match e {
        CellEvent::Load => ResourceState::Loading,
        CellEvent::Clear => ResourceState::Unloaded,
        CellEvent::Complete(outcome) => published(outcome),
    }
}

/// The state after a sequence of events, applied in order from `s`.
pub open spec fn replay<T>(s: ResourceState<T>, events: Seq<CellEvent<T>>) -> ResourceState<T>
    decreases events.len(),
{
    if events.len() == 0 {
        s
    } else {
        step(replay(s, events.drop_last()), events.last())
    }
}

/// How many of the four state tags describe `s`.
pub open spec fn tag_count<T>(s: ResourceState<T>) -> int {
    (if s is Unloaded { 1int } else { 0int }) + (if s is Loading { 1int } else { 0int }) + (if s
        is Unavailable {
        1int
    } else {
        0int
    }) + (if s is Loaded { 1int } else { 0int })
}

impl<T> ResourceState<T> {
    pub fn is_unloaded(&self) -> (r: bool)
        ensures
            r == (*self is Unloaded),
    {
        matches!(self, ResourceState::Unloaded)
    }

    pub fn is_loading(&self) -> (r: bool)
        ensures
            r == (*self is Loading),
    {
        matches!(self, ResourceState::Loading)
    }

    pub fn is_unavailable(&self) -> (r: bool)
        ensures
            r == (*self is Unavailable),
    {
        matches!(self, ResourceState::Unavailable)
    }

    pub fn is_loaded(&self) -> (r: bool)
        ensures
            r == (*self is Loaded),
    {
        matches!(self, ResourceState::Loaded(_))
    }

    /// The value, when the state is `Loaded`.
    pub fn as_loaded(&self) -> (r: Option<&T>)
        ensures
            r is Some <==> *self is Loaded,
            r is Some ==> *r->Some_0 == self->Loaded_0,
    {
        match self {
            ResourceState::Loaded(v) => Some(v),
            _ => None,
        }
    }
}

impl<T> Default for ResourceState<T> {
    fn default() -> (r: Self)
        ensures
            r is Unloaded,
    {
        ResourceState::Unloaded
    }
}

impl<T: Clone> ResourceState<T> {
    /// `self` is a copy of `orig` made by `clone`: the same tag, and a cloned value.
    pub open spec fn is_snapshot_of(self, orig: Self) -> bool {
        match orig {
            ResourceState::Loaded(v) => self is Loaded && cloned(v, self->Loaded_0),
            _ => self == orig,
        }
    }
}

impl<T: Clone> Clone for ResourceState<T> {
    fn clone(&self) -> (r: Self)
        ensures
            r.is_snapshot_of(*self),
    {
        match self {
            ResourceState::Unloaded => ResourceState::Unloaded,
            ResourceState::Loading => ResourceState::Loading,
            ResourceState::Unavailable => ResourceState::Unavailable,
            ResourceState::Loaded(v) => ResourceState::Loaded(v.clone()),
        }
    }
}

/// A job that a cell has started. The host runs the job and hands its
/// outcome to `Resource::complete`, which takes the ticket by value: each
/// job publishes once, and asks for at most one notification.
pub struct PendingLoad {
    notify: bool,
}

impl PendingLoad {
    /// Whether the owner of the cell is to be notified when the job has published.
    pub closed spec fn notifies(self) -> bool {
        self.notify
    }

    pub fn notifies_owner(&self) -> (r: bool)
        ensures
            r == self.notifies(),
    {
        self.notify
    }
}

/// A load cell. Its view is the current state; it changes only by the
/// events of `CellEvent`, each through one method.
pub struct Resource<T> {
    state: ResourceState<T>,
}

impl<T> View for Resource<T> {
    type V = ResourceState<T>;

    closed spec fn view(&self) -> ResourceState<T> {
        self.state
    }
}

impl<T> Default for Resource<T> {
    fn default() -> (r: Self)
        ensures
            r@ is Unloaded,
    {
        Resource { state: ResourceState::Unloaded }
    }
}

impl<T> Resource<T> {
    /// A cell whose first job starts at once.
    pub fn new() -> (r: (Self, PendingLoad))
        ensures
            r.0@ == step(ResourceState::<T>::Unloaded, CellEvent::Load),
            r.0@ is Loading,
            !r.1.notifies(),
    {
        let mut resource = Resource { state: ResourceState::Unloaded };
        let job = resource.load();
        (resource, job)
    }

    /// Resets the cell to `Unloaded`. A job in flight is not cancelled.
    pub fn clear(&mut self)
        ensures
            final(self)@ == step(old(self)@, CellEvent::Clear),
            final(self)@ is Unloaded,
    {
        self.state = ResourceState::Unloaded;
    }

    pub fn is_unloaded(&self) -> (r: bool)
        ensures
            r == (self@ is Unloaded),
    {
        self.state.is_unloaded()
    }

    pub fn get_state(&self) -> (r: &ResourceState<T>)
        ensures
            *r == self@,
    {
        &self.state
    }

    /// Starts a job whose completion notifies nobody.
    pub fn load(&mut self) -> (job: PendingLoad)
        ensures
            final(self)@ == step(old(self)@, CellEvent::Load),
            final(self)@ is Loading,
            !job.notifies(),
    {
        self.state = ResourceState::Loading;
        PendingLoad { notify: false }
    }

    /// Starts a job whose completion asks the host to re-evaluate the cell's owner.
    pub fn load_and_notify(&mut self) -> (job: PendingLoad)
        ensures
            final(self)@ == step(old(self)@, CellEvent::Load),
            final(self)@ is Loading,
            job.notifies(),
    {
        self.state = ResourceState::Loading;
        PendingLoad { notify: true }
    }

    /// Publishes the outcome of a job, whatever the cell holds by now, and
    /// says whether the owner is to be notified.
    pub fn complete(&mut self, job: PendingLoad, outcome: Option<T>) -> (notify: bool)
        ensures
            final(self)@ == step(old(self)@, CellEvent::Complete(outcome)),
            final(self)@ == published(outcome),
            notify == job.notifies(),
    {
        self.state = match outcome {
            Some(v) => ResourceState::Loaded(v),
            None => ResourceState::Unavailable,
        };
        job.notify
    }
}

impl<T: Clone> Resource<T> {
    /// A copy of the value, when the state is `Loaded`.
    pub fn get(&self) -> (r: Option<T>)
        ensures
            r is Some <==> self@ is Loaded,
            r is Some ==> cloned(self@->Loaded_0, r->Some_0),
    {
        match &self.state {
            ResourceState::Loaded(v) => Some(v.clone()),
            _ => None,
        }
    }

    /// A copy of the value, when the state is `Loaded`.
    pub fn as_loaded(&self) -> (r: Option<T>)
        ensures
            r is Some <==> self@ is Loaded,
            r is Some ==> cloned(self@->Loaded_0, r->Some_0),
    {
        match self.state.as_loaded() {
            Some(v) => Some(v.clone()),
            None => None,
        }
    }
}

} // verus!
