//! What callers may rely on when the accessor stands in front of a store that
//! works: requests take effect in the order they arrive, and a load sees the
//! latest store.

use crate::recency::Recency;
use crate::storage::{transition, ActionView, EventView, PhaseView, RequestView};
use vstd::prelude::*;

verus! {

/// What a store that holds `table` has under `key`.
pub open spec fn find(table: Map<Seq<char>, Seq<char>>, key: Seq<char>) -> Option<Seq<char>> {
    if table.contains_key(key) {
        Some(table[key])
    } else {
        None
    }
}

/// How a store that works carries out what the accessor asks of it: the
/// table afterwards, and the event that the accessor is told.
pub open spec fn carry_out(table: Map<Seq<char>, Seq<char>>, action: ActionView) -> (
    Map<Seq<char>, Seq<char>>,
    EventView,
) {
    match action {
        ActionView::Upsert { key, link } => (table.insert(key, link), EventView::Stored { rows: 1 }),
        ActionView::Select { key } => (table, EventView::Loaded { answer: find(table, key) }),
        _ => (table, EventView::Delivered),
    }
}

/// One request served to its end.
pub struct Served {
    /// The table afterwards.
    pub table: Map<Seq<char>, Seq<char>>,
    /// What was sent back, if the request asked for an answer.
    pub reply: Option<Option<Seq<char>>>,
    /// What the accessor is doing afterwards.
    pub phase: PhaseView,
}

/// An idle accessor receives `request` and serves it against a store that
/// holds `table`, by the accessor's own rule.
pub open spec fn serve(table: Map<Seq<char>, Seq<char>>, request: RequestView) -> Served {
    let (busy, asked) = transition(PhaseView::Idle, EventView::Request(request));
    let (table, outcome) = carry_out(table, asked);
    let (then, next) = transition(busy, outcome);
    match next {
        ActionView::Reply { answer } => Served {
            table,
            reply: Some(answer),
            phase: transition(then, EventView::Delivered).0,
        },
        _ => Served { table, reply: None, phase: then },
    }
}

/// The table after the accessor has served `queue`, the first request first.
pub open spec fn drain(table: Map<Seq<char>, Seq<char>>, queue: Seq<RequestView>) -> Map<
    Seq<char>,
    Seq<char>,
>
    decreases queue.len(),
{
    if queue.len() == 0 {
        table
    } else {
        serve(drain(table, queue.drop_last()), queue.last()).table
    }
}

/// Whether `request` stores a link under `key`.
pub open spec fn stores_under(request: RequestView, key: Seq<char>) -> bool {
    match request {
        RequestView::Store { key: k, link } => k == key,
        RequestView::Load { key: k } => false,
    }
}

/// Serving a request is an upsert or a point lookup, and leaves the accessor
/// idle: a store puts the link under the key and sends nothing back; a load
/// leaves the table alone and sends back what the key has.
pub proof fn lemma_serve(table: Map<Seq<char>, Seq<char>>, request: RequestView)
    ensures
        serve(table, request) == match request {
            RequestView::Store { key, link } => Served {
                table: table.insert(key, link),
                reply: None,
                phase: PhaseView::Idle,
            },
            RequestView::Load { key } => Served {
                table,
                reply: Some(find(table, key)),
                phase: PhaseView::Idle,
            },
        },
{
}

/// A load sees the latest store: when `queue` holds a request that stores
/// `link` under `key` and none after it that stores under `key`, a load of
/// `key` that arrives behind `queue` is answered with `link`.
pub proof fn lemma_load_sees_latest_store(
    table: Map<Seq<char>, Seq<char>>,
    queue: Seq<RequestView>,
    at: int,
    key: Seq<char>,
    link: Seq<char>,
)
    requires
        0 <= at < queue.len(),
        queue[at] == (RequestView::Store { key, link }),
        forall|j: int| at < j < queue.len() ==> !stores_under(queue[j], key),
    ensures
        serve(drain(table, queue), RequestView::Load { key }).reply == Some(Some(link)),
    decreases queue.len(),
{
    let front = queue.drop_last();
    lemma_serve(drain(table, front), queue.last());
    lemma_serve(drain(table, queue), RequestView::Load { key });
    if at < queue.len() - 1 {
        // The last request leaves what `key` has as it is, and the store
        // in question stands in front of it.
        assert forall|j: int| at < j < front.len() implies !stores_under(front[j], key) by {
            assert(front[j] == queue[j]);
        }
        lemma_load_sees_latest_store(table, front, at, key, link);
        lemma_serve(drain(table, front), RequestView::Load { key });
    }
}

/// Two stores under one key, then a load of it: the load is answered with
/// the second link.
pub proof fn lemma_later_store_wins(
    table: Map<Seq<char>, Seq<char>>,
    key: Seq<char>,
    first: Seq<char>,
    second: Seq<char>,
)
    ensures
        serve(
            drain(
                table,
                seq![RequestView::Store { key, link: first }, RequestView::Store { key, link: second }],
            ),
            RequestView::Load { key },
        ).reply == Some(Some(second)),
{
    let queue = seq![RequestView::Store { key, link: first }, RequestView::Store { key, link: second }];
    lemma_load_sees_latest_store(table, queue, 1, key, second);
}

/// A link that was stored is what a lookup through the cache returns next,
/// unless the cache already holds an answer for the key: storing does not
/// touch the cache, so that answer is returned instead.
pub proof fn lemma_store_then_resolve(
    cache: Recency,
    table: Map<Seq<char>, Seq<char>>,
    key: Seq<char>,
    link: Seq<char>,
)
    ensures
        ({
            let stored = serve(table, RequestView::Store { key, link }).table;
            let loaded = serve(stored, RequestView::Load { key }).reply;
            &&& loaded == Some(Some(link))
            &&& !cache.hit(key) ==> cache.answer(key, loaded.unwrap()) == Some(link)
            &&& cache.hit(key) ==> cache.answer(key, loaded.unwrap()) == cache.entries[key]
        }),
{
    lemma_serve(table, RequestView::Store { key, link });
    lemma_serve(table.insert(key, link), RequestView::Load { key });
}

} // verus!
