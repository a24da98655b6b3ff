//! A store for one state machine: the value that is current, the value that
//! was current at the observation point before, and the value staged to take
//! effect at the next observation point.

use vstd::prelude::*;

verus! {

/// A value that a state machine can hold.
pub trait StateValue: Copy + Sized {
    /// Whether `self` and `other` are the same state.
    fn same(&self, other: &Self) -> (r: bool)
        ensures
            r == (*self == *other),
    ;
}

/// An edge between two different states, seen at an observation point.
#[derive(Debug)]
pub struct Transition<S> {
    /// The state that was left.
    pub exited: S,
    /// The state that was entered.
    pub entered: S,
}

impl<S: Copy> Clone for Transition<S> {
    fn clone(&self) -> (copy: Self)
        ensures
            copy == *self,
    {
        *self
    }
}

impl<S: Copy> Copy for Transition<S> {

}

/// What a store holds, as a plain value.
pub ghost struct StoreModel<S> {
    /// The value at the observation point before the last one.
    pub previous: S,
    /// The value that observers see.
    pub current: S,
    /// The value staged for the next observation point, if any.
    pub staged: Option<S>,
}

impl<S> StoreModel<S> {
    /// A store that has only ever held `initial`.
    pub open spec fn initial(initial: S) -> Self {
        StoreModel { previous: initial, current: initial, staged: None }
    }

    /// Staging `value`: it replaces whatever was staged, and nothing that
    /// observers see changes.
    pub open spec fn request(self, value: S) -> Self {
        StoreModel { staged: Some(value), ..self }
    }

    /// Staging each value of `values` in turn.
    pub open spec fn request_all(self, values: Seq<S>) -> Self
        decreases values.len(),
    {
        if values.len() == 0 {
            self
        } else {
            self.request_all(values.drop_last()).request(values.last())
        }
    }

    /// The value that takes effect at the next observation point.
    pub open spec fn upcoming(self) -> S {
        match self.staged {
            Some(value) => value,
            None => self.current,
        }
    }

    /// An observation point: the staged value, if any, becomes current, and
    /// the value it replaces is remembered.
    pub open spec fn observe(self) -> Self {
        StoreModel { previous: self.current, current: self.upcoming(), staged: None }
    }

    /// The edge that the last observation point produced, if the value
    /// changed there.
    pub open spec fn edge(self) -> Option<Transition<S>> {
        if self.previous == self.current {
            None
        } else {
            Some(Transition { exited: self.previous, entered: self.current })
        }
    }

    /// Whether the last observation point left `state`.
    pub open spec fn exited(self, state: S) -> bool {
        self.previous == state && self.current != state
    }

    /// Whether the last observation point entered `state`.
    pub open spec fn entered(self, state: S) -> bool {
        self.current == state && self.previous != state
    }
}

/// The state of one machine, with the request staged for the next
/// observation point.
pub struct StateStore<S> {
    previous: S,
    current: S,
    next: Option<S>,
}

impl<S> View for StateStore<S> {
    type V = StoreModel<S>;

    closed spec fn view(&self) -> StoreModel<S> {
        StoreModel { previous: self.previous, current: self.current, staged: self.next }
    }
}

impl<S: StateValue> StateStore<S> {
    /// A store whose machine starts in `initial`, with nothing staged.
    pub fn new(initial: S) -> (store: Self)
        ensures
            store@ == StoreModel::initial(initial),
    {
        StateStore { previous: initial, current: initial, next: None }
    }

    /// The state that observers see.
    pub fn current(&self) -> (state: S)
        ensures
            state == self@.current,
    {
        self.current
    }

    /// The state that was current before the last observation point.
    pub fn previous(&self) -> (state: S)
        ensures
            state == self@.previous,
    {
        self.previous
    }

    /// The request that waits for the next observation point, if any.
    pub fn staged(&self) -> (request: Option<S>)
        ensures
            request == self@.staged,
    {
        self.next
    }

    /// Stages `value` for the next observation point. A request staged
    /// earlier and not yet observed is replaced; the current state is
    /// untouched.
    pub fn request_transition(&mut self, value: S)
        ensures
            final(self)@ == old(self)@.request(value),
    {
        self.next = Some(value);
    }

    /// An observation point. The staged request, if any, takes effect;
    /// the result is the edge, if the state changed.
    pub fn observe(&mut self) -> (edge: Option<Transition<S>>)
        ensures
            final(self)@ == old(self)@.observe(),
            edge == final(self)@.edge(),
    {
        let before = self.current;
        let after = match self.next {
            Some(value) => value,
            None => before,
        };
        self.previous = before;
        self.current = after;
        self.next = None;
        if before.same(&after) {
            None
        } else {
            Some(Transition { exited: before, entered: after })
        }
    }

    /// Whether the last observation point left `state`.
    pub fn just_exited(&self, state: S) -> (r: bool)
        ensures
            r == self@.exited(state),
    {
        self.previous.same(&state) && !self.current.same(&state)
    }

    /// Whether the last observation point entered `state`.
    pub fn just_entered(&self, state: S) -> (r: bool)
        ensures
            r == self@.entered(state),
    {
        self.current.same(&state) && !self.previous.same(&state)
    }
}

/// Of any number of requests staged before an observation point, the last
/// one wins: it is the state that is current afterwards. With no request
/// the state stays what took effect without them.
pub proof fn lemma_last_request_wins<S>(store: StoreModel<S>, requests: Seq<S>)
    ensures
        requests.len() > 0 ==> store.request_all(requests).observe().current == requests.last(),
        requests.len() == 0 ==> store.request_all(requests).observe().current == store.upcoming(),
        store.request_all(requests).current == store.current,
        store.request_all(requests).observe().previous == store.current,
    decreases requests.len(),
{
    if requests.len() > 0 {
        lemma_last_request_wins(store, requests.drop_last());
    }
}

/// An observation point with nothing staged changes nothing that observers
/// see and produces no edge.
pub proof fn lemma_idle_observation<S>(store: StoreModel<S>)
    requires
        store.staged is None,
    ensures
        store.observe().current == store.current,
        store.observe().edge() is None,
{
}

/// An edge is produced exactly when the state changed, and it then names the
/// state left and the state entered.
pub proof fn lemma_edge_iff_changed<S>(store: StoreModel<S>)
    ensures
        store.observe().edge() is Some <==> store.upcoming() != store.current,
        store.observe().edge() matches Some(t) ==> t.exited == store.current && t.entered
            == store.upcoming(),
{
}

} // verus!
