use vstd::prelude::*;

use crate::bounds::{validate_abuja_bounds, in_service_area, Coordinates};
use crate::error::ClientError;

verus! {

/// The settings handed to the device's location provider with each request.
#[derive(Clone, Copy, Debug, PartialEq, Eq, Structural)]
pub struct LocateOptions {
    pub high_accuracy: bool,
    /// How long the provider may take before it reports a timeout.
    pub timeout_ms: u32,
    /// How old a cached position the provider may answer with.
    pub maximum_age_ms: u32,
}

impl LocateOptions {
    /// The one policy the client uses: high accuracy, ten seconds to answer,
    /// and a cached position of up to one minute.
    pub fn standard() -> (r: LocateOptions)
        ensures
            r.high_accuracy,
            r.timeout_ms == 10_000,
            r.maximum_age_ms == 60_000,
    {
        LocateOptions { high_accuracy: true, timeout_ms: 10_000, maximum_age_ms: 60_000 }
    }
}

/// What can happen to an outstanding location request.
#[derive(Clone, Copy, Debug, PartialEq, Eq, Structural)]
pub enum LocateEvent {
    /// The provider's success callback delivered a position.
    Position(Coordinates),
    /// The provider's error callback fired: denial, failure or its own timeout.
    Failure,
    /// The caller's deadline elapsed with no callback at all.
    DeadlineElapsed,
}

/// The life of one location request.
#[derive(Clone, Copy, Debug, PartialEq, Eq, Structural)]
pub enum LocateState {
    Waiting,
    Resolved(Option<Coordinates>),
}

impl LocateState {
    /// The first event resolves the request; every later one changes nothing.
    pub open spec fn step(self, event: LocateEvent) -> LocateState {
        match self {
            LocateState::Waiting => match event {
                LocateEvent::Position(c) => LocateState::Resolved(Some(c)),
                _ => LocateState::Resolved(None),
            },
            LocateState::Resolved(_) => self,
        }
    }
}

/// Turns the provider's two callbacks and a deadline into a single result.
pub struct GeolocationBridge {
    state: LocateState,
}

impl View for GeolocationBridge {
    type V = LocateState;

    closed spec fn view(&self) -> LocateState {
        self.state
    }
}

impl GeolocationBridge {
    pub fn new() -> (r: GeolocationBridge)
        ensures
            r@ == LocateState::Waiting,
    {
        GeolocationBridge { state: LocateState::Waiting }
    }

    /// Feeds one event in. Returns whether this event was the one that
    /// resolved the request.
    pub fn handle(&mut self, event: LocateEvent) -> (resolved_now: bool)
        ensures
            final(self)@ == old(self)@.step(event),
            resolved_now == (old(self)@ == LocateState::Waiting),
    {
        match self.state {
            LocateState::Waiting => {
                self.state = match event {
                    LocateEvent::Position(c) => LocateState::Resolved(Some(c)),
                    _ => LocateState::Resolved(None),
                };
                true
            },
            LocateState::Resolved(_) => false,
        }
    }

    /// The result once resolved: `Some(Some(position))` or `Some(None)`;
    /// `None` while still waiting.
    pub fn outcome(&self) -> (r: Option<Option<Coordinates>>)
        ensures
            r == (match self@ {
                LocateState::Waiting => None,
                LocateState::Resolved(o) => Some(o),
            }),
    {
        match self.state {
            LocateState::Waiting => None,
            LocateState::Resolved(o) => Some(o),
        }
    }
}

/// After the first event, any further event leaves the request as the first
/// one left it, so a request has exactly one outcome.
pub proof fn resolution_is_final(first: LocateEvent, later: LocateEvent)
    ensures
        LocateState::Waiting.step(first) !is Waiting,
        LocateState::Waiting.step(first).step(later) == LocateState::Waiting.step(first),
{
}

/// A request that no callback answers before the deadline resolves to no
/// position; a reported failure resolves the same way.
pub proof fn silence_resolves_to_none()
    ensures
        LocateState::Waiting.step(LocateEvent::DeadlineElapsed) == LocateState::Resolved(None),
        LocateState::Waiting.step(LocateEvent::Failure) == LocateState::Resolved(None),
{
}

/// The position a search or a registration may go on with: one that was
/// obtained and lies inside the service area.
pub open spec fn checked_location_spec(located: Option<Coordinates>) -> Result<
    Coordinates,
    ClientError,
> {
    match located {
        None => Err(ClientError::GeolocationDeniedOrTimeout),
        Some(c) => if in_service_area(c.latitude as int, c.longitude as int) {
            Ok(c)
        } else {
            Err(ClientError::OutOfServiceArea)
        },
    }
}

/// Decides what a location outcome allows: the position itself, or the
/// error to show instead of making any request.
pub fn checked_location(located: Option<Coordinates>) -> (r: Result<Coordinates, ClientError>)
    ensures
        r == checked_location_spec(located),
{
    match located {
        None => Err(ClientError::GeolocationDeniedOrTimeout),
        Some(c) => match validate_abuja_bounds(c.latitude, c.longitude) {
            Ok(()) => Ok(c),
            Err(e) => Err(e),
        },
    }
}

/// As [`checked_location_spec`], for a registration: a missing position is
/// reported as such, with the text of the registration form.
pub open spec fn checked_registration_location_spec(located: Option<Coordinates>) -> Result<
    Coordinates,
    ClientError,
> {
    match located {
        None => Err(ClientError::RegistrationLocationMissing),
        Some(_) => checked_location_spec(located),
    }
}

/// Decides where a station registers: the position obtained, when it lies
/// inside the service area, or the error to show instead of registering.
pub fn checked_registration_location(located: Option<Coordinates>) -> (r: Result<
    Coordinates,
    ClientError,
>)
    ensures
        r == checked_registration_location_spec(located),
{
    match located {
        None => Err(ClientError::RegistrationLocationMissing),
        Some(_) => checked_location(located),
    }
}

} // verus!
