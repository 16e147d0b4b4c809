use shortlink::cache::Lru;
use shortlink::storage::{
    Action, Event, Phase, Request, Service, CREATE_TABLE, QUEUE_DEPTH, SELECT_LINK, UPSERT_LINK,
};
use std::collections::HashMap;
use tokio::sync::oneshot;

fn store(key: &str, link: &str) -> Request {
    Request::Store { key: String::from(key), link: String::from(link) }
}

fn load(key: &str) -> Request {
    Request::Load { key: String::from(key) }
}

/// Runs the accessor on `queue` against a table in memory, as the owner of a
/// database would, and returns what was sent back, what was printed and the
/// accessor as it ended.
fn run(
    table: &mut HashMap<String, String>,
    queue: Vec<Request>,
) -> (Vec<Option<String>>, Vec<String>, Service) {
    let mut replies = Vec::new();
    let mut notices = Vec::new();
    let mut inbox = queue.into_iter();
    let mut service = Service::new();
    let mut action = Action::Receive { notice: None };
    loop {
        let event = match action {
            Action::Receive { notice } => {
                notices.extend(notice);
                match inbox.next() {
                    Some(request) => Event::Request(request),
                    None => Event::Hangup,
                }
            }
            Action::Upsert { key, link } => {
                table.insert(key, link);
                Event::Stored { rows: 1 }
            }
            Action::Select { key } => Event::Loaded { answer: table.get(&key).cloned() },
            Action::Reply { answer } => {
                replies.push(answer);
                Event::Delivered
            }
            Action::Exit | Action::Abort => return (replies, notices, service),
        };
        let (next, then) = service.step(event);
        service = next;
        action = then;
    }
}

#[test]
fn statements_name_the_one_table() {
    assert!(CREATE_TABLE.contains("CREATE TABLE IF NOT EXISTS link"));
    assert!(CREATE_TABLE.contains("k TEXT UNIQUE NOT NULL"));
    assert!(CREATE_TABLE.contains("v TEXT NOT NULL"));
    assert_eq!(UPSERT_LINK, "INSERT OR REPLACE INTO link (k, v) VALUES (:k, :v)");
    assert_eq!(SELECT_LINK, "SELECT v FROM link WHERE k = :k");
    assert_eq!(QUEUE_DEPTH, 8);
}

#[test]
fn new_service_is_idle() {
    let service = Service::new();
    assert_eq!(*service.phase(), Phase::Idle);
    assert!(!service.is_stopped());
}

#[test]
fn store_request_is_an_upsert() {
    let (service, action) = Service::new().step(Event::Request(store("ak", "av")));
    assert_eq!(action, Action::Upsert { key: String::from("ak"), link: String::from("av") });
    assert_eq!(
        *service.phase(),
        Phase::Storing { key: String::from("ak"), link: String::from("av") }
    );

    let (service, action) = service.step(Event::Stored { rows: 1 });
    assert_eq!(action, Action::Receive { notice: Some(String::from("stored av link as ak")) });
    assert_eq!(*service.phase(), Phase::Idle);
}

#[test]
fn notice_only_when_one_row_changed() {
    for rows in [0usize, 2, 17] {
        let (service, _) = Service::new().step(Event::Request(store("ak", "av")));
        let (service, action) = service.step(Event::Stored { rows });
        assert_eq!(action, Action::Receive { notice: None });
        assert_eq!(*service.phase(), Phase::Idle);
    }
}

#[test]
fn notice_text_is_exact() {
    assert_eq!(
        shortlink::storage::notice_text(&String::from("k"), &String::from("https://example.org")),
        "stored https://example.org link as k"
    );
    assert_eq!(shortlink::storage::notice_text(&String::new(), &String::new()), "stored  link as ");
}

#[test]
fn load_request_is_a_lookup_and_a_reply() {
    let (service, action) = Service::new().step(Event::Request(load("ak")));
    assert_eq!(action, Action::Select { key: String::from("ak") });
    assert_eq!(*service.phase(), Phase::Loading);

    let (service, action) = service.step(Event::Loaded { answer: Some(String::from("av")) });
    assert_eq!(action, Action::Reply { answer: Some(String::from("av")) });
    assert_eq!(*service.phase(), Phase::Replying);

    let (service, action) = service.step(Event::Delivered);
    assert_eq!(action, Action::Receive { notice: None });
    assert_eq!(*service.phase(), Phase::Idle);
}

#[test]
fn missing_key_is_replied_as_none() {
    let (service, _) = Service::new().step(Event::Request(load("nope")));
    let (service, action) = service.step(Event::Loaded { answer: None });
    assert_eq!(action, Action::Reply { answer: None });
    assert_eq!(*service.phase(), Phase::Replying);
}

#[test]
fn lost_reply_is_no_fault() {
    let (service, _) = Service::new().step(Event::Request(load("ak")));
    let (service, _) = service.step(Event::Loaded { answer: Some(String::from("av")) });
    let (service, action) = service.step(Event::Undelivered);
    assert_eq!(action, Action::Receive { notice: None });
    assert_eq!(*service.phase(), Phase::Idle);
    assert!(!service.is_stopped());
}

#[test]
fn hangup_ends_the_service() {
    let (service, action) = Service::new().step(Event::Hangup);
    assert_eq!(action, Action::Exit);
    assert_eq!(*service.phase(), Phase::Closed);
    assert!(service.is_stopped());

    let (service, action) = service.step(Event::Request(load("ak")));
    assert_eq!(action, Action::Exit);
    assert_eq!(*service.phase(), Phase::Closed);
}

#[test]
fn store_fault_is_fatal() {
    let (service, _) = Service::new().step(Event::Request(store("ak", "av")));
    let (service, action) = service.step(Event::Fault);
    assert_eq!(action, Action::Abort);
    assert_eq!(*service.phase(), Phase::Faulted);
    assert!(service.is_stopped());

    let (service, _) = Service::new().step(Event::Request(load("ak")));
    let (service, action) = service.step(Event::Fault);
    assert_eq!(action, Action::Abort);
    assert_eq!(*service.phase(), Phase::Faulted);

    // There is no way back.
    let (service, action) = service.step(Event::Request(load("ak")));
    assert_eq!(action, Action::Abort);
    assert_eq!(*service.phase(), Phase::Faulted);
    let (service, action) = service.step(Event::Hangup);
    assert_eq!(action, Action::Abort);
    assert_eq!(*service.phase(), Phase::Faulted);
}

#[test]
fn event_out_of_turn_is_fatal() {
    let (service, action) = Service::new().step(Event::Stored { rows: 1 });
    assert_eq!(action, Action::Abort);
    assert_eq!(*service.phase(), Phase::Faulted);

    let (service, _) = Service::new().step(Event::Request(store("ak", "av")));
    let (service, action) = service.step(Event::Request(load("ak")));
    assert_eq!(action, Action::Abort);
    assert_eq!(*service.phase(), Phase::Faulted);

    let (service, _) = Service::new().step(Event::Request(load("ak")));
    let (service, action) = service.step(Event::Hangup);
    assert_eq!(action, Action::Abort);
    assert_eq!(*service.phase(), Phase::Faulted);

    let (_, action) = Service::new().step(Event::Delivered);
    assert_eq!(action, Action::Abort);
    let (_, action) = Service::new().step(Event::Undelivered);
    assert_eq!(action, Action::Abort);
    let (_, action) = Service::new().step(Event::Loaded { answer: None });
    assert_eq!(action, Action::Abort);
    let (_, action) = Service::new().step(Event::Fault);
    assert_eq!(action, Action::Abort);
}

#[test]
fn later_store_wins() {
    let mut table = HashMap::new();
    let (replies, notices, service) =
        run(&mut table, vec![store("k", "v1"), store("k", "v2"), load("k")]);
    assert_eq!(replies, vec![Some(String::from("v2"))]);
    assert_eq!(
        notices,
        vec![String::from("stored v1 link as k"), String::from("stored v2 link as k")]
    );
    assert_eq!(*service.phase(), Phase::Closed);
}

#[test]
fn requests_are_served_in_order() {
    let mut table = HashMap::new();
    let (replies, _, _) = run(
        &mut table,
        vec![
            load("k"),
            store("k", "v1"),
            load("k"),
            store("other", "w"),
            load("k"),
            store("k", "v2"),
            load("other"),
            load("k"),
        ],
    );
    assert_eq!(
        replies,
        vec![
            None,
            Some(String::from("v1")),
            Some(String::from("v1")),
            Some(String::from("w")),
            Some(String::from("v2")),
        ]
    );
    assert_eq!(table.len(), 2);
}

#[test]
fn stored_link_is_resolved_through_the_cache() {
    let mut table = HashMap::new();
    let mut cache = Lru::new(2);
    run(&mut table, vec![store("k", "v")]);
    let link = cache.fetch(String::from("k"), |key| {
        run(&mut table, vec![Request::Load { key }]).0.remove(0)
    });
    assert_eq!(link, Some(String::from("v")));
}

#[test]
fn cached_absence_outlives_a_store() {
    let mut table = HashMap::new();
    let mut cache = Lru::new(2);
    let before = cache.fetch(String::from("k"), |key| {
        run(&mut table, vec![Request::Load { key }]).0.remove(0)
    });
    assert_eq!(before, None);

    run(&mut table, vec![store("k", "v")]);
    let after = cache.fetch(String::from("k"), |key| {
        run(&mut table, vec![Request::Load { key }]).0.remove(0)
    });
    assert_eq!(after, None);
    assert_eq!(table.get("k"), Some(&String::from("v")));
}

#[test]
fn delivered_reply_arrives() {
    let (to, mut from) = oneshot::channel();
    let event = shortlink::storage::deliver(to, Some(String::from("av")));
    assert_eq!(event, Event::Delivered);
    assert_eq!(from.try_recv(), Ok(Some(String::from("av"))));
}

#[test]
fn delivered_absence_arrives() {
    let (to, mut from) = oneshot::channel();
    let event = shortlink::storage::deliver(to, None);
    assert_eq!(event, Event::Delivered);
    assert_eq!(from.try_recv(), Ok(None));
}

#[test]
fn reply_to_nobody_is_undelivered() {
    let (to, from) = oneshot::channel::<Option<String>>();
    drop(from);
    let event = shortlink::storage::deliver(to, Some(String::from("av")));
    assert_eq!(event, Event::Undelivered);

    // The accessor goes on all the same.
    let (service, _) = Service::new().step(Event::Request(load("ak")));
    let (service, _) = service.step(Event::Loaded { answer: Some(String::from("av")) });
    let (service, action) = service.step(event);
    assert_eq!(action, Action::Receive { notice: None });
    assert_eq!(*service.phase(), Phase::Idle);
}
