use vstd::prelude::*;

use crate::action::{advance_ticket, next_ticket};
use crate::error::ClientError;

verus! {

/// What a cached read currently shows.
#[derive(Clone, Debug, PartialEq, Eq)]
pub enum ResourceState<T> {
    /// Nobody has observed it yet.
    Unloaded,
    /// The first load is in flight.
    Loading,
    Ready(T),
    Failed(ClientError),
}

/// What a reader can know of a [`ResourceCache`].
pub struct ResourceModel<T> {
    /// The ticket of the latest load; 0 before the first.
    pub latest: u64,
    /// Whether the latest load is still awaited.
    pub in_flight: bool,
    pub state: ResourceState<T>,
}

impl<T> ResourceModel<T> {
    /// The state a new load starts from: only an unloaded cache shows that
    /// it is loading; a loaded one keeps its value until the load resolves.
    pub open spec fn loading_state(self) -> ResourceState<T> {
        match self.state {
            ResourceState::Unloaded => ResourceState::Loading,
            _ => self.state,
        }
    }

    /// The first observation starts the first load; later ones do nothing.
    pub open spec fn after_observe(self) -> ResourceModel<T> {
        if self.state is Unloaded {
            ResourceModel {
                latest: next_ticket(self.latest),
                in_flight: true,
                state: ResourceState::Loading,
            }
        } else {
            self
        }
    }

    /// A refetch starts a new load, which supersedes any load in flight.
    pub open spec fn after_refetch(self) -> ResourceModel<T> {
        ResourceModel {
            latest: next_ticket(self.latest),
            in_flight: true,
            state: self.loading_state(),
        }
    }

    /// Only the latest load may resolve; its result replaces the cached
    /// value or error. A stale one is discarded.
    pub open spec fn after_resolve(self, ticket: u64, result: Result<T, ClientError>) -> ResourceModel<
        T,
    > {
        if ticket == self.latest && self.in_flight {
            ResourceModel {
                latest: self.latest,
                in_flight: false,
                state: match result {
                    Ok(v) => ResourceState::Ready(v),
                    Err(e) => ResourceState::Failed(e),
                },
            }
        } else {
            self
        }
    }
}

/// A read that is loaded on first observation, cached, and loaded again
/// only on request.
pub struct ResourceCache<T> {
    latest: u64,
    in_flight: bool,
    state: ResourceState<T>,
}

impl<T> View for ResourceCache<T> {
    type V = ResourceModel<T>;

    closed spec fn view(&self) -> ResourceModel<T> {
        ResourceModel { latest: self.latest, in_flight: self.in_flight, state: self.state }
    }
}

impl<T> ResourceCache<T> {
    pub fn new() -> (r: ResourceCache<T>)
        ensures
            r@ == (ResourceModel::<T> {
                latest: 0,
                in_flight: false,
                state: ResourceState::Unloaded,
            }),
    {
        ResourceCache { latest: 0, in_flight: false, state: ResourceState::Unloaded }
    }

    /// Marks the cache as observed. Returns the ticket of the load to start,
    /// on the first observation only.
    pub fn observe(&mut self) -> (ticket: Option<u64>)
        ensures
            final(self)@ == old(self)@.after_observe(),
            ticket == (if old(self)@.state is Unloaded {
                Some(final(self)@.latest)
            } else {
                None
            }),
    {
        if let ResourceState::Unloaded = self.state {
            self.latest = advance_ticket(self.latest);
            self.in_flight = true;
            self.state = ResourceState::Loading;
            Some(self.latest)
        } else {
            None
        }
    }

    /// Starts a new load. Returns its ticket.
    pub fn refetch(&mut self) -> (ticket: u64)
        ensures
            final(self)@ == old(self)@.after_refetch(),
            ticket == final(self)@.latest,
    {
        self.latest = advance_ticket(self.latest);
        self.in_flight = true;
        if let ResourceState::Unloaded = self.state {
            self.state = ResourceState::Loading;
        }
        self.latest
    }

    /// Records the result of the load with `ticket`. Returns whether it was
    /// taken.
    pub fn resolve(&mut self, ticket: u64, result: Result<T, ClientError>) -> (taken: bool)
        ensures
            final(self)@ == old(self)@.after_resolve(ticket, result),
            taken == (ticket == old(self)@.latest && old(self)@.in_flight),
    {
        if ticket == self.latest && self.in_flight {
            self.in_flight = false;
            self.state = match result {
                Ok(v) => ResourceState::Ready(v),
                Err(e) => ResourceState::Failed(e),
            };
            true
        } else {
            false
        }
    }

    pub fn state(&self) -> (r: &ResourceState<T>)
        ensures
            *r == self@.state,
    {
        &self.state
    }

    pub fn is_loading(&self) -> (r: bool)
        ensures
            r == self@.in_flight,
    {
        self.in_flight
    }
}

/// After a successful load, a refetch replaces the cached value with the new
/// response, or turns the cache to `Failed` when the new load fails.
pub proof fn refetch_replaces_value<T>(
    m: ResourceModel<T>,
    loaded: T,
    result: Result<T, ClientError>,
)
    requires
        m.state == ResourceState::Ready(loaded),
    ensures
        m.after_refetch().state == ResourceState::Ready(loaded),
        m.after_refetch().after_resolve(next_ticket(m.latest), result).state == (match result {
            Ok(v) => ResourceState::Ready(v),
            Err(e) => ResourceState::Failed::<T>(e),
        }),
        !m.after_refetch().after_resolve(next_ticket(m.latest), result).in_flight,
{
}

/// Of two overlapping loads, the later-started one decides the cached
/// state, whichever resolves last.
pub proof fn latest_load_wins<T>(
    m: ResourceModel<T>,
    earlier: Result<T, ClientError>,
    later: Result<T, ClientError>,
)
    ensures
        ({
            let two = m.after_refetch().after_refetch();
            let first = next_ticket(m.latest);
            let second = next_ticket(first);
            let expected = two.after_resolve(second, later);
            &&& expected.after_resolve(first, earlier) == expected
            &&& two.after_resolve(first, earlier).after_resolve(second, later) == expected
        }),
{
}

} // verus!
