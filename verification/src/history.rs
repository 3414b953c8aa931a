//! What a paginator has done so far: the requests it issued and the
//! elements it delivered, under any sequence of events whatever.
//!
//! The theorems here hold for every driver, well-behaved or not: one that
//! pulls twice in a row, reports outcomes nobody asked for, or stops early.

use vstd::prelude::*;
use crate::page::{Page, RequestView};
use crate::paginator::{Action, Event, PaginatorView, Phase};

verus! {

/// Whether an outcome is a page that another page follows.
pub open spec fn continuing<T, E>(outcome: Result<Page<T>, E>) -> bool {
    outcome matches Ok(page) && page.continues()
}

/// The cursor at which an outcome lets the listing resume, if it is a page.
pub open spec fn resume_cursor<T, E>(outcome: Result<Page<T>, E>) -> Option<Seq<char>> {
    match outcome {
        Ok(page) => page@.next_cursor,
        Err(_) => None,
    }
}

/// A paginator's state together with all it has issued and delivered.
pub struct History<B, T, E> {
    /// The state reached.
    pub state: PaginatorView<B>,
    /// The requests the driver was told to execute, oldest first.
    pub requests: Seq<RequestView<B>>,
    /// The elements handed to the consumer, oldest first.
    pub delivered: Seq<Result<Page<T>, E>>,
}

impl<B, T, E> History<B, T, E> {
    /// Nothing has happened yet.
    pub open spec fn start(request: RequestView<B>) -> Self {
        History {
            state: PaginatorView::fresh(request),
            requests: Seq::empty(),
            delivered: Seq::empty(),
        }
    }

    /// The history extended by one event: the state moves on, a request is
    /// recorded when the driver is told to execute one, and an element is
    /// recorded when one is delivered.
    pub open spec fn after(self, event: Event<T, E>) -> Self {
        History {
            state: self.state.next(event),
            requests: match self.state.action(event) {
                Action::Execute => self.requests.push(self.state.request),
                _ => self.requests,
            },
            delivered: match self.state.action(event) {
                Action::Deliver(element) => self.delivered.push(element),
                _ => self.delivered,
            },
        }
    }
}

/// The history of a paginator created for `request` after `events`.
pub open spec fn history<B, T, E>(request: RequestView<B>, events: Seq<Event<T, E>>) -> History<
    B,
    T,
    E,
>
    decreases events.len(),
{
    if events.len() == 0 {
        History::start(request)
    } else {
        history(request, events.drop_last()).after(events.last())
    }
}

/// What holds of every history of a paginator created for `request`.
pub open spec fn consistent<B, T, E>(request: RequestView<B>, h: History<B, T, E>) -> bool {
    &&& h.state.request.base == request.base
    &&& h.requests.len() == h.delivered.len() + if h.state.phase is Fetching {
        1int
    } else {
        0int
    }
    &&& h.state.phase is NotStarted ==> h.requests.len() == 0 && h.state.request == request
    &&& h.state.phase !is NotStarted ==> h.requests.len() > 0 && h.requests[0] == request
    &&& forall|i: int| 0 <= i < h.requests.len() ==> (#[trigger] h.requests[i]).base == request.base
    &&& forall|i: int|
        0 <= i < h.requests.len() - 1 ==> continuing(#[trigger] h.delivered[i]) && h.requests[i
            + 1].cursor == resume_cursor(h.delivered[i])
    &&& forall|i: int| 0 <= i < h.delivered.len() - 1 ==> continuing(#[trigger] h.delivered[i])
    &&& match h.state.phase {
        Phase::NotStarted => true,
        Phase::Fetching => h.requests.last() == h.state.request,
        Phase::Delivering => h.delivered.len() > 0 && continuing(h.delivered.last())
            && h.state.request.cursor == resume_cursor(h.delivered.last()),
        Phase::Exhausted => h.delivered.len() > 0 && h.delivered.last() is Ok && !continuing(
            h.delivered.last(),
        ),
        Phase::Failed => h.delivered.len() > 0 && h.delivered.last() is Err,
    }
}

/// Every history is consistent, whatever the events were.
pub proof fn lemma_history_consistent<B, T, E>(request: RequestView<B>, events: Seq<Event<T, E>>)
    ensures
        consistent(request, history(request, events)),
    decreases events.len(),
{
    if events.len() > 0 {
        lemma_history_consistent(request, events.drop_last());
    }
}

/// The first request is the caller's own, every request carries the
/// caller's parameters, and each later request carries exactly the next
/// cursor of the page delivered just before it.
pub proof fn lemma_requests_follow_cursors<B, T, E>(
    request: RequestView<B>,
    events: Seq<Event<T, E>>,
)
    ensures
        ({
            let h = history(request, events);
            &&& h.requests.len() > 0 ==> h.requests[0] == request
            &&& forall|i: int|
                0 <= i < h.requests.len() ==> (#[trigger] h.requests[i]).base == request.base
            &&& forall|i: int|
                0 <= i < h.requests.len() - 1 ==> (#[trigger] h.delivered[i] matches Ok(page)
                    && page.continues() && h.requests[i + 1].cursor == page@.next_cursor)
        }),
{
    lemma_history_consistent(request, events);
}

/// No request is issued ahead of demand: the requests issued outnumber the
/// elements delivered by one while a request is in flight, and by none
/// otherwise. A consumer that stops after any element has therefore caused
/// at most one request beyond those that produced what it received.
pub proof fn lemma_at_most_one_request_ahead<B, T, E>(
    request: RequestView<B>,
    events: Seq<Event<T, E>>,
)
    ensures
        ({
            let h = history(request, events);
            &&& h.delivered.len() <= h.requests.len() <= h.delivered.len() + 1
            &&& h.requests.len() == h.delivered.len() + 1 <==> h.state.phase is Fetching
        }),
{
    lemma_history_consistent(request, events);
}

/// An error is the last thing that happens: if the element at position `i`
/// is an error, then it is the last element delivered, everything before it
/// is a page, exactly `i + 1` requests were issued, and the paginator has
/// failed. As this holds of every sequence of events, no later event brings
/// another request.
pub proof fn lemma_error_is_terminal<B, T, E>(
    request: RequestView<B>,
    events: Seq<Event<T, E>>,
    i: int,
)
    requires
        0 <= i < history(request, events).delivered.len(),
        history(request, events).delivered[i] is Err,
    ensures
        ({
            let h = history(request, events);
            &&& h.delivered.len() == i + 1
            &&& h.requests.len() == i + 1
            &&& h.state.phase is Failed
            &&& forall|j: int| 0 <= j < i ==> #[trigger] h.delivered[j] is Ok
        }),
{
    lemma_history_consistent(request, events);
    let h = history(request, events);
    assert forall|j: int| 0 <= j < i implies #[trigger] h.delivered[j] is Ok by {
        assert(continuing(h.delivered[j]));
    }
}

/// A page without a next cursor is the last thing that happens: if the
/// element at position `i` is such a page, then it is the last element
/// delivered, every page before it has a next cursor, exactly `i + 1`
/// requests were issued, and the paginator is exhausted.
pub proof fn lemma_last_page_is_terminal<B, T, E>(
    request: RequestView<B>,
    events: Seq<Event<T, E>>,
    i: int,
)
    requires
        0 <= i < history(request, events).delivered.len(),
        history(request, events).delivered[i] is Ok,
        !continuing(history(request, events).delivered[i]),
    ensures
        ({
            let h = history(request, events);
            &&& h.delivered.len() == i + 1
            &&& h.requests.len() == i + 1
            &&& h.state.phase is Exhausted
            &&& forall|j: int| 0 <= j < i ==> continuing(#[trigger] h.delivered[j])
        }),
{
    lemma_history_consistent(request, events);
}

/// Once the sequence has ended nothing moves any more: no event changes the
/// state, issues a request or delivers an element.
pub proof fn lemma_ended_is_final<B, T, E>(h: History<B, T, E>, event: Event<T, E>)
    requires
        h.state.ended(),
    ensures
        h.after(event) == h,
{
}

} // verus!
