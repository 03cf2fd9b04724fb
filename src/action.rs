use vstd::prelude::*;

use crate::error::ClientError;

verus! {

/// The ticket that follows `t`. Tickets wrap around after `u64::MAX`, so a
/// new ticket can equal an old one only 2^64 issues later.
pub open spec fn next_ticket(t: u64) -> u64 {
    if t == u64::MAX {
        0
    } else {
        (t + 1) as u64
    }
}

pub fn advance_ticket(t: u64) -> (r: u64)
    ensures
        r == next_ticket(t),
{
    if t == u64::MAX {
        0
    } else {
        t + 1
    }
}

/// What a reader can know of an [`ActionRunner`].
pub struct ActionModel<I, O> {
    /// The ticket of the latest dispatch; 0 before the first.
    pub latest: u64,
    /// The input of the dispatch still awaited, if any.
    pub pending_input: Option<I>,
    /// The result of the last operation that settled, if any.
    pub value: Option<Result<O, ClientError>>,
}

impl<I, O> ActionModel<I, O> {
    pub open spec fn pending(self) -> bool {
        self.pending_input is Some
    }

    /// A dispatch issues the next ticket and makes its input the pending one;
    /// an earlier pending input is superseded, the last value is kept.
    pub open spec fn after_dispatch(self, input: I) -> ActionModel<I, O> {
        ActionModel { latest: next_ticket(self.latest), pending_input: Some(input), value: self.value }
    }

    /// A settlement is taken only for the latest ticket while it is pending;
    /// a stale one is discarded.
    pub open spec fn after_settle(self, ticket: u64, result: Result<O, ClientError>) -> ActionModel<
        I,
        O,
    > {
        if ticket == self.latest && self.pending() {
            ActionModel { latest: self.latest, pending_input: None, value: Some(result) }
        } else {
            self
        }
    }
}

/// Observable state of one dispatchable operation: whether it is pending,
/// for which input, and the last result.
///
/// Each dispatch gets a ticket, and only the latest ticket may settle, so
/// the value never comes from a superseded dispatch.
pub struct ActionRunner<I, O> {
    latest: u64,
    pending_input: Option<I>,
    value: Option<Result<O, ClientError>>,
}

impl<I, O> View for ActionRunner<I, O> {
    type V = ActionModel<I, O>;

    closed spec fn view(&self) -> ActionModel<I, O> {
        ActionModel {
            latest: self.latest,
            pending_input: self.pending_input,
            value: self.value,
        }
    }
}

impl<I, O> ActionRunner<I, O> {
    pub fn new() -> (r: ActionRunner<I, O>)
        ensures
            r@ == (ActionModel::<I, O> { latest: 0, pending_input: None, value: None }),
    {
        ActionRunner { latest: 0, pending_input: None, value: None }
    }

    /// Starts an operation on `input`. Returns the ticket that its result
    /// must be settled with.
    pub fn dispatch(&mut self, input: I) -> (ticket: u64)
        ensures
            final(self)@ == old(self)@.after_dispatch(input),
            ticket == final(self)@.latest,
    {
        self.latest = advance_ticket(self.latest);
        self.pending_input = Some(input);
        self.latest
    }

    /// Records the result of the operation with `ticket`. Returns whether it
    /// was taken; a stale result leaves everything as it was.
    pub fn settle(&mut self, ticket: u64, result: Result<O, ClientError>) -> (taken: bool)
        ensures
            final(self)@ == old(self)@.after_settle(ticket, result),
            taken == (ticket == old(self)@.latest && old(self)@.pending()),
    {
        if ticket == self.latest && self.pending_input.is_some() {
            self.pending_input = None;
            self.value = Some(result);
            true
        } else {
            false
        }
    }

    pub fn pending(&self) -> (r: bool)
        ensures
            r == self@.pending(),
    {
        self.pending_input.is_some()
    }

    pub fn pending_input(&self) -> (r: &Option<I>)
        ensures
            *r == self@.pending_input,
    {
        &self.pending_input
    }

    pub fn value(&self) -> (r: &Option<Result<O, ClientError>>)
        ensures
            *r == self@.value,
    {
        &self.value
    }

    /// Whether an operation is pending for an input that `pred` accepts; used
    /// to scope a busy indicator to the input that caused it.
    pub fn matches_input<F: Fn(&I) -> bool>(&self, pred: F) -> (r: bool)
        requires
            forall|i: &I| #[trigger] pred.requires((i,)),
        ensures
            r ==> (self@.pending_input matches Some(i) && pred.ensures((&i,), true)),
            !r ==> (self@.pending_input matches Some(i) ==> pred.ensures((&i,), false)),
    {
        match &self.pending_input {
            Some(i) => pred(i),
            None => false,
        }
    }
}

/// A dispatch makes the runner pending at once; when that same operation
/// settles, the runner is no longer pending and holds exactly its result.
pub proof fn dispatch_then_settle<I, O>(
    m: ActionModel<I, O>,
    input: I,
    result: Result<O, ClientError>,
)
    ensures
        m.after_dispatch(input).pending(),
        m.after_dispatch(input).pending_input == Some(input),
        !m.after_dispatch(input).after_settle(next_ticket(m.latest), result).pending(),
        m.after_dispatch(input).after_settle(next_ticket(m.latest), result).value == Some(result),
{
}

/// Once a second dispatch has superseded the first, the first one's result
/// is discarded, and the second one's result is the one kept.
pub proof fn superseded_result_is_discarded<I, O>(
    m: ActionModel<I, O>,
    first: I,
    second: I,
    stale: Result<O, ClientError>,
    fresh: Result<O, ClientError>,
)
    ensures
        ({
            let d = m.after_dispatch(first).after_dispatch(second);
            let first_ticket = next_ticket(m.latest);
            let second_ticket = next_ticket(first_ticket);
            &&& d.after_settle(first_ticket, stale) == d
            &&& d.after_settle(first_ticket, stale).after_settle(second_ticket, fresh).value == Some(
                fresh,
            )
        }),
{
}

} // verus!
