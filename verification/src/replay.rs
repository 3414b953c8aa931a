//! A consumer that keeps pulling, against a client that answers in order.
//!
//! Here the events are fixed by the outcomes the client will give: the
//! consumer pulls, the client answers, and so on for as long as there are
//! outcomes. The theorems say which of them reach the consumer.

use vstd::prelude::*;
use crate::history::{continuing, history, History};
use crate::page::{Page, RequestView};
use crate::paginator::{Event, Phase};

verus! {

/// The events of a consumer that pulls before each of `outcomes` arrives.
pub open spec fn script<T, E>(outcomes: Seq<Result<Page<T>, E>>) -> Seq<Event<T, E>>
    decreases outcomes.len(),
{
    if outcomes.len() == 0 {
        Seq::empty()
    } else {
        script(outcomes.drop_last()).push(Event::Pull).push(Event::Response(outcomes.last()))
    }
}

/// The phase a paginator is left in by the outcome it was fetching.
pub open spec fn phase_after<T, E>(outcome: Result<Page<T>, E>) -> Phase {
    match outcome {
        Ok(page) => if page.continues() {
            Phase::Delivering
        } else {
            Phase::Exhausted
        },
        Err(_) => Phase::Failed,
    }
}

/// Whether the paginator consumes exactly the first `n` of `outcomes`: each
/// of them but the last is a page with a next cursor, and either the
/// outcomes run out there or the last of the `n` ends the sequence.
pub open spec fn consumes<T, E>(outcomes: Seq<Result<Page<T>, E>>, n: int) -> bool {
    &&& 0 <= n <= outcomes.len()
    &&& forall|j: int| 0 <= j < n - 1 ==> continuing(#[trigger] outcomes[j])
    &&& n < outcomes.len() ==> n > 0 && !continuing(outcomes[n - 1])
}

/// The history after a script extended by one outcome.
proof fn lemma_script_push<B, T, E>(
    request: RequestView<B>,
    outcomes: Seq<Result<Page<T>, E>>,
    outcome: Result<Page<T>, E>,
)
    ensures
        history(request, script(outcomes.push(outcome))) == history(
            request,
            script(outcomes),
        ).after(Event::Pull).after(Event::Response(outcome)),
{
    let pulled = script(outcomes).push(Event::Pull);
    let answered = pulled.push(Event::Response(outcome));
    assert(outcomes.push(outcome).drop_last() =~= outcomes);
    assert(answered.drop_last() =~= pulled);
    assert(pulled.drop_last() =~= script(outcomes));
    assert(history(request, pulled) == history(request, script(outcomes)).after(Event::Pull));
}

/// Against a client that answers with `outcomes`, a consumer that keeps
/// pulling receives exactly the outcomes the paginator consumes, in order and
/// as the client gave them; as many requests were issued as elements were
/// delivered; and the paginator is left where the last of them put it.
pub proof fn lemma_replay<B, T, E>(
    request: RequestView<B>,
    outcomes: Seq<Result<Page<T>, E>>,
    n: int,
)
    requires
        consumes(outcomes, n),
    ensures
        ({
            let h = history(request, script(outcomes));
            &&& h.delivered == outcomes.take(n)
            &&& h.requests.len() == n
            &&& h.state.phase == if n == 0 {
                Phase::NotStarted
            } else {
                phase_after(outcomes[n - 1])
            }
        }),
    decreases outcomes.len(),
{
    let h = history(request, script(outcomes));
    if outcomes.len() == 0 {
        assert(h.delivered =~= outcomes.take(n));
    } else {
        let earlier = outcomes.drop_last();
        let before: History<B, T, E> = history(request, script(earlier));
        assert(earlier.push(outcomes.last()) =~= outcomes);
        lemma_script_push(request, earlier, outcomes.last());
        if n == outcomes.len() {
            lemma_replay(request, earlier, n - 1);
            if n > 1 {
                assert(continuing(outcomes[n - 2]));
            }
            assert(earlier.take(n - 1) =~= earlier);
            assert(h.delivered =~= outcomes.take(n));
        } else {
            lemma_replay(request, earlier, n);
            assert(before.state.ended());
            assert(earlier.take(n) =~= outcomes.take(n));
        }
    }
}

/// A chain of pages is delivered whole: when every page but the last has a
/// next cursor and the last has none, the consumer receives exactly these
/// pages in order, one request was issued for each, and the next pull finds
/// the sequence finished.
pub proof fn lemma_chain_delivered_in_order<B, T, E>(
    request: RequestView<B>,
    outcomes: Seq<Result<Page<T>, E>>,
)
    requires
        outcomes.len() > 0,
        forall|i: int| 0 <= i < outcomes.len() - 1 ==> continuing(#[trigger] outcomes[i]),
        outcomes.last() is Ok,
        !continuing(outcomes.last()),
    ensures
        ({
            let h = history(request, script(outcomes));
            &&& h.delivered == outcomes
            &&& h.requests.len() == outcomes.len()
            &&& h.state.phase is Exhausted
            &&& h.state.demand() is Finished
        }),
{
    lemma_replay(request, outcomes, outcomes.len() as int);
    assert(outcomes.take(outcomes.len() as int) =~= outcomes);
}

/// A failure cuts the sequence short: when the outcome at position `i` is
/// an error and every outcome before it is a page with a next cursor, the
/// consumer receives those `i` pages and then the error, `i + 1` requests
/// were issued and no more, and the next pull finds the sequence finished.
pub proof fn lemma_failure_ends_sequence<B, T, E>(
    request: RequestView<B>,
    outcomes: Seq<Result<Page<T>, E>>,
    i: int,
)
    requires
        0 <= i < outcomes.len(),
        forall|j: int| 0 <= j < i ==> continuing(#[trigger] outcomes[j]),
        outcomes[i] is Err,
    ensures
        ({
            let h = history(request, script(outcomes));
            &&& h.delivered == outcomes.take(i + 1)
            &&& h.requests.len() == i + 1
            &&& h.state.phase is Failed
            &&& h.state.demand() is Finished
        }),
{
    lemma_replay(request, outcomes, i + 1);
}

} // verus!
