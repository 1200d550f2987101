use std::cell::RefCell;
use std::rc::Rc;

use event_engine::event::Event;
use event_engine::event::FriendMessageEvent;
use event_engine::event::GroupMessageEvent;
use event_engine::listener::Flow;
use event_engine::listener::Handler;
use event_engine::listener::Listener;
use event_engine::listener::OnEvent;
use event_engine::listener::Priority;
use event_engine::listener::TypedHandler;
use event_engine::listener::OnEventAlways;
use event_engine::event::FromEvent;
use event_engine::event::MessageEvent;
use event_engine::worker::Worker;

fn group_event(group: i64, sender: i64, text: &str) -> Event {
    Event::GroupMessageEvent(GroupMessageEvent::from(group, 1, sender, String::from(text)))
}

fn friend_event(friend: i64, text: &str) -> Event {
    Event::FriendMessageEvent(FriendMessageEvent::new(
        event_engine::event::FriendMessagePayload {
            friend,
            bot: 1,
            message: String::from(text),
        },
    ))
}

struct TierLogger {
    tier: u8,
    log: Rc<RefCell<Vec<u8>>>,
    intercept: bool,
}

impl Handler for TierLogger {
    fn invoke(&self, _e: &Event) -> Flow {
        self.log.borrow_mut().push(self.tier);
        Flow { keep_listening: true, intercept: self.intercept }
    }
}

struct Counter {
    count: Rc<RefCell<usize>>,
}

impl Handler for Counter {
    fn invoke(&self, _e: &Event) -> Flow {
        *self.count.borrow_mut() += 1;
        Flow { keep_listening: true, intercept: false }
    }
}

struct GroupCounter {
    count: Rc<RefCell<usize>>,
}

impl TypedHandler<GroupMessageEvent> for GroupCounter {
    fn handle(&self, _e: GroupMessageEvent) -> Flow {
        *self.count.borrow_mut() += 1;
        Flow { keep_listening: true, intercept: false }
    }
}

#[test]
fn intercept_is_permanent_across_clones_and_reads() {
    let mut e = group_event(10, 77, "hello");
    assert!(!e.is_intercepted());
    e.intercept();
    assert!(e.is_intercepted());
    let c = e.clone();
    assert!(c.is_intercepted());
    let cc = c.clone();
    assert!(cc.is_intercepted());
    assert!(c.is_intercepted());
    assert!(e.is_intercepted());
    e.intercept();
    assert!(e.is_intercepted());
}

#[test]
fn interception_on_top_tier_short_circuits_lower_tiers() {
    let mut w: Worker<TierLogger> = Worker::new();
    let log: Rc<RefCell<Vec<u8>>> = Rc::new(RefCell::new(Vec::new()));
    let tiers = [
        (0u8, Priority::Top),
        (1u8, Priority::High),
        (2u8, Priority::Middle),
        (3u8, Priority::Low),
        (4u8, Priority::Base),
    ];
    for (tier, priority) in tiers {
        Listener::new(TierLogger { tier, log: log.clone(), intercept: tier == 0 })
            .set_priority(priority)
            .start(&mut w);
    }
    let mut e = group_event(10, 77, "hello");
    let pass = w.dispatch(&mut e);
    assert_eq!(*log.borrow(), vec![0u8]);
    assert_eq!(pass.len(), 1);
    assert!(pass[0].intercept);
    assert!(e.is_intercepted());
}

#[test]
fn without_interception_all_five_tiers_run_in_order() {
    let mut w: Worker<TierLogger> = Worker::new();
    let log: Rc<RefCell<Vec<u8>>> = Rc::new(RefCell::new(Vec::new()));
    // register out of tier order on purpose; dispatch still groups Top first
    let tiers = [
        (3u8, Priority::Low),
        (0u8, Priority::Top),
        (4u8, Priority::Base),
        (2u8, Priority::Middle),
        (1u8, Priority::High),
    ];
    for (tier, priority) in tiers {
        Listener::new(TierLogger { tier, log: log.clone(), intercept: false })
            .set_priority(priority)
            .start(&mut w);
    }
    let mut e = group_event(10, 77, "hello");
    let pass = w.dispatch(&mut e);
    assert_eq!(*log.borrow(), vec![0u8, 1, 2, 3, 4]);
    assert_eq!(pass.len(), 5);
    assert!(!e.is_intercepted());
}

#[test]
fn closing_the_guard_silences_and_evicts_the_listener() {
    let mut w: Worker<Counter> = Worker::new();
    let count: Rc<RefCell<usize>> = Rc::new(RefCell::new(0));
    let mut guard = Listener::new(Counter { count: count.clone() })
        .with_name(String::from("counting"))
        .start(&mut w);
    assert_eq!(guard.name(), "counting");
    assert!(!guard.closed());

    let mut e = group_event(10, 77, "one");
    w.dispatch(&mut e);
    assert_eq!(*count.borrow(), 1);

    guard.close(&mut w);
    assert!(guard.closed());

    for text in ["two", "three", "four"] {
        let mut e = group_event(10, 77, text);
        let pass = w.dispatch(&mut e);
        assert!(pass.is_empty());
    }
    assert_eq!(*count.borrow(), 1);
}

#[test]
fn default_listener_name_and_configuration() {
    let mut w: Worker<Counter> = Worker::new();
    let count: Rc<RefCell<usize>> = Rc::new(RefCell::new(0));
    let guard = Listener::new(Counter { count }).start(&mut w);
    assert_eq!(guard.name(), "Unnamed-Listener");
    assert!(!guard.closed());
}

#[test]
fn withdrawn_continuation_retires_only_that_listener() {
    let mut w: Worker<OneShot> = Worker::new();
    let count: Rc<RefCell<usize>> = Rc::new(RefCell::new(0));
    Listener::new(OneShot { count: count.clone(), keep: false }).start(&mut w);
    Listener::new(OneShot { count: count.clone(), keep: true }).start(&mut w);

    let mut e = group_event(10, 77, "one");
    let pass = w.dispatch(&mut e);
    assert_eq!(pass.len(), 2);
    assert_eq!(*count.borrow(), 2);

    // the one-shot listener is gone, the other still runs
    let mut e = group_event(10, 77, "two");
    let pass = w.dispatch(&mut e);
    assert_eq!(pass.len(), 1);
    assert_eq!(*count.borrow(), 3);
}

struct OneShot {
    count: Rc<RefCell<usize>>,
    keep: bool,
}

impl Handler for OneShot {
    fn invoke(&self, _e: &Event) -> Flow {
        *self.count.borrow_mut() += 1;
        Flow { keep_listening: self.keep, intercept: false }
    }
}

#[test]
fn typed_listener_skips_other_shapes_and_counts_as_continue() {
    let mut w: Worker<OnEvent<GroupMessageEvent, GroupCounter>> = Worker::new();
    let first: Rc<RefCell<usize>> = Rc::new(RefCell::new(0));
    let second: Rc<RefCell<usize>> = Rc::new(RefCell::new(0));
    Listener::<OnEvent<GroupMessageEvent, GroupCounter>>::listening_on(GroupCounter {
        count: first.clone(),
    })
    .start(&mut w);
    Listener::<OnEvent<GroupMessageEvent, GroupCounter>>::listening_on(GroupCounter {
        count: second.clone(),
    })
    .start(&mut w);

    let mut e = friend_event(5, "psst");
    let pass = w.dispatch(&mut e);
    // both listeners were reached (no handler blocked propagation), yet the
    // typed handlers ran zero times and both reported the continue default
    assert_eq!(pass.len(), 2);
    assert!(pass.iter().all(|inv| inv.keep_listening && !inv.intercept));
    assert_eq!(*first.borrow(), 0);
    assert_eq!(*second.borrow(), 0);

    let mut e = group_event(10, 77, "hello");
    let pass = w.dispatch(&mut e);
    assert_eq!(pass.len(), 2);
    assert_eq!(*first.borrow(), 1);
    assert_eq!(*second.borrow(), 1);
}

#[test]
fn synchronized_gate_excludes_reentry() {
    let mut gate = event_engine::listener::SyncGate::new();
    // the first invocation acquires; a second one arriving before the
    // release cannot
    assert!(gate.try_acquire());
    assert!(!gate.try_acquire());
    gate.release();
    assert!(gate.try_acquire());
    gate.release();
}

#[test]
fn builder_configuration_is_kept() {
    let mut w: Worker<Counter> = Worker::new();
    let count: Rc<RefCell<usize>> = Rc::new(RefCell::new(0));
    let guard = Listener::new(Counter { count })
        .with_name(String::from("tuned"))
        .synchronize()
        .set_priority(Priority::High)
        .start(&mut w);
    assert_eq!(guard.name(), "tuned");
    assert!(!guard.closed());
}

struct SenderRecorder {
    log: Rc<RefCell<Vec<i64>>>,
}

impl event_engine::listener::AlwaysHandler<GroupMessageEvent> for SenderRecorder {
    fn handle(&self, e: GroupMessageEvent) {
        self.log.borrow_mut().push(e.sender());
    }
}

#[test]
fn always_listener_records_and_always_continues() {
    let mut w: Worker<OnEventAlways<GroupMessageEvent, SenderRecorder>> = Worker::new();
    let log: Rc<RefCell<Vec<i64>>> = Rc::new(RefCell::new(Vec::new()));
    Listener::<OnEventAlways<GroupMessageEvent, SenderRecorder>>::listening_on_always(
        SenderRecorder { log: log.clone() },
    )
    .start(&mut w);

    let mut e = group_event(10, 77, "first");
    let pass = w.dispatch(&mut e);
    assert!(pass[0].keep_listening && !pass[0].intercept);

    let mut e = friend_event(5, "skip me");
    let pass = w.dispatch(&mut e);
    assert!(pass[0].keep_listening && !pass[0].intercept);

    let mut e = group_event(10, 78, "second");
    w.dispatch(&mut e);
    assert_eq!(*log.borrow(), vec![77, 78]);
}

#[test]
fn typed_extraction_yields_the_wrapped_payload() {
    let e = group_event(10, 77, "hello");
    match GroupMessageEvent::from_event(e.clone()) {
        Some(g) => {
            assert_eq!(g.group(), 10);
            assert_eq!(g.sender(), 77);
            assert_eq!(g.message().as_str(), "hello");
        }
        None => panic!("a group message fits its own shape"),
    }
    assert!(FriendMessageEvent::from_event(e.clone()).is_none());
    assert!(matches!(MessageEvent::from_event(e), Some(MessageEvent::Group(_))));
    assert!(MessageEvent::from_event(friend_event(5, "hi")).is_some());
}

#[test]
fn pre_intercepted_event_reaches_only_the_top_tier() {
    let mut w: Worker<TierLogger> = Worker::new();
    let log: Rc<RefCell<Vec<u8>>> = Rc::new(RefCell::new(Vec::new()));
    Listener::new(TierLogger { tier: 0, log: log.clone(), intercept: false })
        .set_priority(Priority::Top)
        .start(&mut w);
    Listener::new(TierLogger { tier: 4, log: log.clone(), intercept: false })
        .set_priority(Priority::Base)
        .start(&mut w);
    let mut e = group_event(10, 77, "hello");
    e.intercept();
    w.dispatch(&mut e);
    assert_eq!(*log.borrow(), vec![0u8]);
}
