//! The paginator: a state machine that turns one list request into a lazy,
//! forward-only sequence of pages.
//!
//! The paginator never talks to the network itself. A driver pulls, is told
//! whether to execute the current request, performs the call by whatever
//! means it has, and hands the outcome back. Every decision (which cursor
//! goes out next, when the sequence ends, what the consumer sees) is taken
//! here.

use vstd::prelude::*;
use crate::page::{Page, Request, RequestView};

verus! {

/// Where a paginator stands.
#[derive(Clone, Copy, Debug, PartialEq, Eq, Structural)]
pub enum Phase {
    /// Nothing has been asked for yet.
    NotStarted,
    /// A request has been issued and its outcome is awaited.
    Fetching,
    /// A page was delivered and another one follows on demand.
    Delivering,
    /// The last page was delivered.
    Exhausted,
    /// The operation failed and the error was delivered.
    Failed,
}

/// What a pull asks of the driver.
#[derive(Clone, Copy, Debug, PartialEq, Eq, Structural)]
pub enum Demand {
    /// Execute the paginator's current request and report the outcome.
    Execute,
    /// A request is already in flight; none is issued.
    Pending,
    /// The sequence has ended; there is nothing more to fetch.
    Finished,
}

/// What happens to a paginator: the consumer asks for the next element, or
/// the client reports the outcome of a request.
#[derive(Debug, PartialEq, Eq)]
pub enum Event<T, E> {
    Pull,
    Response(Result<Page<T>, E>),
}

/// What the driver does after an event.
#[derive(Debug, PartialEq, Eq)]
pub enum Action<T, E> {
    /// Execute the paginator's current request.
    Execute,
    /// Wait for the request in flight.
    Wait,
    /// Hand this element to the consumer.
    Deliver(Result<Page<T>, E>),
    /// Tell the consumer that the sequence has ended.
    Finish,
    /// The outcome answered no request and was dropped.
    Discard,
}

/// What a [`Paginator`] means: the request it would send next and its phase.
pub struct PaginatorView<B> {
    pub request: RequestView<B>,
    pub phase: Phase,
}

impl<B> PaginatorView<B> {
    /// A paginator that has not started, holding the caller's request.
    pub open spec fn fresh(request: RequestView<B>) -> Self {
        PaginatorView { request, phase: Phase::NotStarted }
    }

    /// Whether the sequence has ended, successfully or not.
    pub open spec fn ended(self) -> bool {
        self.phase is Exhausted || self.phase is Failed
    }

    /// What a pull asks of the driver in this state.
    pub open spec fn demand(self) -> Demand {
        match self.phase {
            Phase::NotStarted | Phase::Delivering => Demand::Execute,
            Phase::Fetching => Demand::Pending,
            Phase::Exhausted | Phase::Failed => Demand::Finished,
        }
    }

    /// The state after a pull: a request goes out exactly when one is
    /// demanded, and the request itself is left as it is.
    pub open spec fn pulled(self) -> Self {
        match self.phase {
            Phase::NotStarted | Phase::Delivering => PaginatorView {
                request: self.request,
                phase: Phase::Fetching,
            },
            _ => self,
        }
    }

    /// The state after the client reported `outcome`. A page that continues
    /// moves its next cursor into the request; a page that does not ends the
    /// sequence; an error ends it too. Outside `Fetching` nothing changes.
    pub open spec fn responded<T, E>(self, outcome: Result<Page<T>, E>) -> Self {
        if self.phase is Fetching {
            match outcome {
                Ok(page) => if page.continues() {
                    PaginatorView {
                        request: RequestView {
                            base: self.request.base,
                            cursor: page@.next_cursor,
                        },
                        phase: Phase::Delivering,
                    }
                } else {
                    PaginatorView { request: self.request, phase: Phase::Exhausted }
                },
                Err(_) => PaginatorView { request: self.request, phase: Phase::Failed },
            }
        } else {
            self
        }
    }

    /// The state after `event`.
    pub open spec fn next<T, E>(self, event: Event<T, E>) -> Self {
        match event {
            Event::Pull => self.pulled(),
            Event::Response(outcome) => self.responded(outcome),
        }
    }

    /// What the driver does after `event` arrives in this state.
    pub open spec fn action<T, E>(self, event: Event<T, E>) -> Action<T, E> {
        match event {
            Event::Pull => match self.demand() {
                Demand::Execute => Action::Execute,
                Demand::Pending => Action::Wait,
                Demand::Finished => Action::Finish,
            },
            Event::Response(outcome) => if self.phase is Fetching {
                Action::Deliver(outcome)
            } else {
                Action::Discard
            },
        }
    }
}

/// A paginator over requests with parameters of type `B`.
pub struct Paginator<B> {
    request: Request<B>,
    phase: Phase,
}

impl<B> View for Paginator<B> {
    type V = PaginatorView<B>;

    closed spec fn view(&self) -> PaginatorView<B> {
        PaginatorView { request: self.request@, phase: self.phase }
    }
}

impl<B> Paginator<B> {
    /// A paginator that will start from `request`, unmodified.
    pub fn new(request: Request<B>) -> (paginator: Self)
        ensures
            paginator@ == PaginatorView::fresh(request@),
    {
        Paginator { request, phase: Phase::NotStarted }
    }

    /// The phase the paginator is in.
    pub fn phase(&self) -> (phase: Phase)
        ensures
            phase == self@.phase,
    {
        self.phase
    }

    /// The request to execute when a pull demands one.
    pub fn request(&self) -> (request: &Request<B>)
        ensures
            request@ == self@.request,
    {
        &self.request
    }

    /// The consumer asks for the next element. Says whether the driver must
    /// now execute [`Paginator::request`]; it must exactly when no request is
    /// in flight and the sequence has not ended.
    pub fn pull(&mut self) -> (demand: Demand)
        ensures
            demand == old(self)@.demand(),
            final(self)@ == old(self)@.pulled(),
    {
        match self.phase {
            Phase::NotStarted | Phase::Delivering => {
                self.phase = Phase::Fetching;
                Demand::Execute
            },
            Phase::Fetching => Demand::Pending,
            Phase::Exhausted | Phase::Failed => Demand::Finished,
        }
    }

    /// The client reports the outcome of the request in flight. The outcome
    /// is handed back for the consumer exactly as it came; with no request in
    /// flight it is dropped and `None` comes back.
    pub fn respond<T, E>(&mut self, outcome: Result<Page<T>, E>) -> (delivered: Option<
        Result<Page<T>, E>,
    >)
        ensures
            final(self)@ == old(self)@.responded(outcome),
            delivered == if old(self)@.phase is Fetching {
                Some(outcome)
            } else {
                None
            },
    {
        match self.phase {
            Phase::Fetching => {},
            _ => {
                return None;
            },
        }
        match &outcome {
            Ok(page) => {
                if page.has_more() {
                    let resume = match &page.next_cursor {
                        Some(token) => Some(token.clone()),
                        None => None,
                    };
                    self.request.cursor = resume;
                    self.phase = Phase::Delivering;
                } else {
                    self.phase = Phase::Exhausted;
                }
            },
            Err(_) => {
                self.phase = Phase::Failed;
            },
        }
        Some(outcome)
    }

    /// One transition of the state machine: takes the event, moves to the
    /// next state and says what the driver does.
    pub fn step<T, E>(&mut self, event: Event<T, E>) -> (action: Action<T, E>)
        ensures
            final(self)@ == old(self)@.next(event),
            action == old(self)@.action(event),
    {
        match event {
            Event::Pull => match self.pull() {
                Demand::Execute => Action::Execute,
                Demand::Pending => Action::Wait,
                Demand::Finished => Action::Finish,
            },
            Event::Response(outcome) => match self.respond(outcome) {
                Some(element) => Action::Deliver(element),
                None => Action::Discard,
            },
        }
    }
}

} // verus!
