//! The storage accessor: the one owner of the persistent store, which serves
//! store and load requests strictly one at a time, in the order they arrive.
//!
//! The accessor is written as a machine that is told what happened and says
//! what to do next. Whoever owns the channel and the database runs it.

use vstd::prelude::*;
use vstd::string::StringExecFns;

verus! {

/// Makes sure the one table of links exists; running it again changes nothing.
pub const CREATE_TABLE: &'static str =
    "CREATE TABLE IF NOT EXISTS link ( k TEXT UNIQUE NOT NULL, v TEXT NOT NULL )";

/// Stores a link under a key, in place of the link the key had.
pub const UPSERT_LINK: &'static str = "INSERT OR REPLACE INTO link (k, v) VALUES (:k, :v)";

/// Finds the link of a key.
pub const SELECT_LINK: &'static str = "SELECT v FROM link WHERE k = :k";

/// How many requests may wait for the accessor before senders are held back.
pub const QUEUE_DEPTH: usize = 8;

/// A request to the accessor.
#[derive(Debug, PartialEq, Eq)]
pub enum Request {
    /// Keep `link` under `key`. Nobody waits for an answer.
    Store { key: String, link: String },
    /// Find the link kept under `key`. The sender waits for the answer.
    Load { key: String },
}

/// A request as a value.
pub enum RequestView {
    Store { key: Seq<char>, link: Seq<char> },
    Load { key: Seq<char> },
}

impl View for Request {
    type V = RequestView;

    open spec fn view(&self) -> RequestView {
        match *self {
            Request::Store { key, link } => RequestView::Store { key: key@, link: link@ },
            Request::Load { key } => RequestView::Load { key: key@ },
        }
    }
}

/// What the accessor is told.
#[derive(Debug, PartialEq, Eq)]
pub enum Event {
    /// The next request has arrived.
    Request(Request),
    /// Every sender is gone: no request will ever arrive.
    Hangup,
    /// The store has kept the link, changing `rows` rows.
    Stored { rows: usize },
    /// The store has looked the key up and found `answer`.
    Loaded { answer: Option<String> },
    /// The store has failed.
    Fault,
    /// The answer has reached the sender of the request.
    Delivered,
    /// The sender of the request has gone away without its answer.
    Undelivered,
}

/// An event as a value.
pub enum EventView {
    Request(RequestView),
    Hangup,
    Stored { rows: nat },
    Loaded { answer: Option<Seq<char>> },
    Fault,
    Delivered,
    Undelivered,
}

impl View for Event {
    type V = EventView;

    open spec fn view(&self) -> EventView {
        match *self {
            Event::Request(request) => EventView::Request(request@),
            Event::Hangup => EventView::Hangup,
            Event::Stored { rows } => EventView::Stored { rows: rows as nat },
            Event::Loaded { answer } => EventView::Loaded {
                answer: match answer {
                    Some(l) => Some(l@),
                    None => None,
                },
            },
            Event::Fault => EventView::Fault,
            Event::Delivered => EventView::Delivered,
            Event::Undelivered => EventView::Undelivered,
        }
    }
}

/// What the accessor asks for next.
#[derive(Debug, PartialEq, Eq)]
pub enum Action {
    /// Wait for the next request, after printing `notice` if there is one.
    Receive { notice: Option<String> },
    /// Insert `link` under `key` in the store, replacing what was there.
    Upsert { key: String, link: String },
    /// Look `key` up in the store.
    Select { key: String },
    /// Send `answer` to the sender of the request being served.
    Reply { answer: Option<String> },
    /// Stop: the work is done.
    Exit,
    /// Stop and fail loudly: the store cannot be relied on.
    Abort,
}

/// An action as a value.
pub enum ActionView {
    Receive { notice: Option<Seq<char>> },
    Upsert { key: Seq<char>, link: Seq<char> },
    Select { key: Seq<char> },
    Reply { answer: Option<Seq<char>> },
    Exit,
    Abort,
}

impl View for Action {
    type V = ActionView;

    open spec fn view(&self) -> ActionView {
        match *self {
            Action::Receive { notice } => ActionView::Receive {
                notice: match notice {
                    Some(n) => Some(n@),
                    None => None,
                },
            },
            Action::Upsert { key, link } => ActionView::Upsert { key: key@, link: link@ },
            Action::Select { key } => ActionView::Select { key: key@ },
            Action::Reply { answer } => ActionView::Reply {
                answer: match answer {
                    Some(l) => Some(l@),
                    None => None,
                },
            },
            Action::Exit => ActionView::Exit,
            Action::Abort => ActionView::Abort,
        }
    }
}

/// What the accessor is in the middle of.
#[derive(Debug, PartialEq, Eq)]
pub enum Phase {
    /// Waiting for a request.
    Idle,
    /// Waiting for the store to keep `link` under `key`.
    Storing { key: String, link: String },
    /// Waiting for the store to look a key up.
    Loading,
    /// Waiting for the answer to be handed over.
    Replying,
    /// Stopped because no request can arrive any more.
    Closed,
    /// Stopped because the store failed.
    Faulted,
}

/// A phase as a value.
pub enum PhaseView {
    Idle,
    Storing { key: Seq<char>, link: Seq<char> },
    Loading,
    Replying,
    Closed,
    Faulted,
}

impl View for Phase {
    type V = PhaseView;

    open spec fn view(&self) -> PhaseView {
        match *self {
            Phase::Idle => PhaseView::Idle,
            Phase::Storing { key, link } => PhaseView::Storing { key: key@, link: link@ },
            Phase::Loading => PhaseView::Loading,
            Phase::Replying => PhaseView::Replying,
            Phase::Closed => PhaseView::Closed,
            Phase::Faulted => PhaseView::Faulted,
        }
    }
}

/// The line that is printed when a link has been stored.
pub open spec fn stored_notice(key: Seq<char>, link: Seq<char>) -> Seq<char> {
    "stored "@ + link + " link as "@ + key
}

/// The accessor's rule: from what it is doing and what it is told, what it
/// does next and what it asks for.
///
/// A request is served to its end before the next one is received. A store
/// fault ends the accessor for good, and so does an event that it was not
/// waiting for. An answer that nobody takes is no fault.
pub open spec fn transition(phase: PhaseView, event: EventView) -> (PhaseView, ActionView) {
    match (phase, event) {
        (PhaseView::Idle, EventView::Request(RequestView::Store { key, link })) => (
            PhaseView::Storing { key, link },
            ActionView::Upsert { key, link },
        ),
        (PhaseView::Idle, EventView::Request(RequestView::Load { key })) => (
            PhaseView::Loading,
            ActionView::Select { key },
        ),
        (PhaseView::Idle, EventView::Hangup) => (PhaseView::Closed, ActionView::Exit),
        (PhaseView::Storing { key, link }, EventView::Stored { rows }) => (
            PhaseView::Idle,
            ActionView::Receive {
                notice: if rows == 1 {
                    Some(stored_notice(key, link))
                } else {
                    None
                },
            },
        ),
        (PhaseView::Loading, EventView::Loaded { answer }) => (
            PhaseView::Replying,
            ActionView::Reply { answer },
        ),
        (PhaseView::Replying, EventView::Delivered) => (
            PhaseView::Idle,
            ActionView::Receive { notice: None },
        ),
        (PhaseView::Replying, EventView::Undelivered) => (
            PhaseView::Idle,
            ActionView::Receive { notice: None },
        ),
        (PhaseView::Closed, _) => (PhaseView::Closed, ActionView::Exit),
        _ => (PhaseView::Faulted, ActionView::Abort),
    }
}

/// The sending half of tokio's one-shot channel, on which one answer travels
/// back to the sender of a load request.
#[verifier::external_type_specification]
#[verifier::external_body]
#[verifier::reject_recursive_types(T)]
pub struct ExReplySender<T>(tokio::sync::oneshot::Sender<T>);

/// Calls `tokio::sync::oneshot::Sender::send` and tells whether it returned
/// `Ok`. Nothing is claimed of the outcome: it depends on whether the
/// receiving half is still alive.
#[verifier::external_body]
fn send_reply(
    to: tokio::sync::oneshot::Sender<Option<String>>,
    answer: Option<String>,
) -> (sent: bool) {
    to.send(answer).is_ok()
}

/// Sends `answer` back on `to` and says which event that makes for the
/// accessor: `Delivered` if the channel took it, `Undelivered` if the sender
/// of the request has gone away.
pub fn deliver(
    to: tokio::sync::oneshot::Sender<Option<String>>,
    answer: Option<String>,
) -> (event: Event)
    ensures
        event@ == EventView::Delivered || event@ == EventView::Undelivered,
{
    if send_reply(to, answer) {
        Event::Delivered
    } else {
        Event::Undelivered
    }
}

/// The accessor's side of the protocol.
pub struct Service {
    phase: Phase,
}

impl View for Service {
    type V = PhaseView;

    closed spec fn view(&self) -> PhaseView {
        self.phase@
    }
}

/// The line that is printed when `link` has been stored under `key`.
pub fn notice_text(key: &String, link: &String) -> (text: String)
    ensures
        text@ == stored_notice(key@, link@),
{
    let mut text = String::from_str("stored ");
    text.append(link.as_str());
    text.append(" link as ");
    text.append(key.as_str());
    text
}

impl Service {
    /// An accessor that waits for its first request.
    pub fn new() -> (service: Service)
        ensures
            service@ == PhaseView::Idle,
    {
        Service { phase: Phase::Idle }
    }

    /// What the accessor is in the middle of.
    pub fn phase(&self) -> (phase: &Phase)
        ensures
            phase@ == self@,
    {
        &self.phase
    }

    /// Whether the accessor has stopped, for either reason.
    pub fn is_stopped(&self) -> (stopped: bool)
        ensures
            stopped == (self@ == PhaseView::Closed || self@ == PhaseView::Faulted),
    {
        match self.phase {
            Phase::Closed => true,
            Phase::Faulted => true,
            _ => false,
        }
    }

    /// Takes one event and says what to do next, by the rule `transition`.
    pub fn step(self, event: Event) -> (next: (Service, Action))
        ensures
            (next.0@, next.1@) == transition(self@, event@),
    {
        match (self.phase, event) {
            (Phase::Idle, Event::Request(Request::Store { key, link })) => {
                let action = Action::Upsert { key: key.clone(), link: link.clone() };
                (Service { phase: Phase::Storing { key, link } }, action)
            },
            (Phase::Idle, Event::Request(Request::Load { key })) => (
                Service { phase: Phase::Loading },
                Action::Select { key },
            ),
            (Phase::Idle, Event::Hangup) => (Service { phase: Phase::Closed }, Action::Exit),
            (Phase::Storing { key, link }, Event::Stored { rows }) => {
                let notice = if rows == 1 {
                    Some(notice_text(&key, &link))
                } else {
                    None
                };
                (Service { phase: Phase::Idle }, Action::Receive { notice })
            },
            (Phase::Loading, Event::Loaded { answer }) => (
                Service { phase: Phase::Replying },
                Action::Reply { answer },
            ),
            (Phase::Replying, Event::Delivered) => (
                Service { phase: Phase::Idle },
                Action::Receive { notice: None },
            ),
            (Phase::Replying, Event::Undelivered) => (
                Service { phase: Phase::Idle },
                Action::Receive { notice: None },
            ),
            (Phase::Closed, _) => (Service { phase: Phase::Closed }, Action::Exit),
            _ => (Service { phase: Phase::Faulted }, Action::Abort),
        }
    }
}

} // verus!
