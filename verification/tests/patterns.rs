use event_engine::application::App;
use event_engine::event::Event;
use event_engine::event::GroupMessageEvent;
use event_engine::login::login_plan;
use event_engine::login::login_progress;
use event_engine::login::login_step;
use event_engine::login::should_attempt;
use event_engine::login::LoginAction;
use event_engine::login::LoginOutcome;
use event_engine::login::LoginPlan;
use event_engine::login::LoginStatus;
use event_engine::subscribe::ByMessage;
use event_engine::subscribe::MessageIs;
use event_engine::subscribe::TimeoutError;
use event_engine::transport::kind_of_discriminant;
use event_engine::transport::EventKind;

fn gm(group: i64, sender: i64, text: &str) -> GroupMessageEvent {
    GroupMessageEvent::from(group, 1, sender, String::from(text))
}

#[test]
fn next_event_resolves_with_the_second_of_three() {
    let origin = gm(10, 77, "question");
    let arrivals = vec![gm(10, 77, "no"), gm(10, 77, "yes"), gm(10, 77, "yes again")];
    let yes = MessageIs { text: String::from("yes") };
    let got = origin.next_event(&arrivals, &ByMessage { filter: &yes }).unwrap();
    assert_eq!(got.message().as_str(), "yes");
    assert_eq!(got.sender(), 77);
    assert_eq!(got.group(), 10);
}

#[test]
fn next_event_ignores_other_subjects() {
    let origin = gm(10, 77, "question");
    // right text, but wrong sender or wrong group
    let arrivals = vec![gm(10, 78, "yes"), gm(11, 77, "yes")];
    let yes = MessageIs { text: String::from("yes") };
    assert!(matches!(origin.next_event(&arrivals, &ByMessage { filter: &yes }), Err(TimeoutError)));
}

#[test]
fn next_event_times_out_without_a_qualifying_arrival() {
    let origin = gm(10, 77, "question");
    let arrivals: Vec<GroupMessageEvent> = Vec::new();
    let yes = MessageIs { text: String::from("yes") };
    assert!(matches!(origin.next_event(&arrivals, &ByMessage { filter: &yes }), Err(TimeoutError)));
}

#[test]
fn next_message_yields_the_matching_text() {
    let origin = gm(10, 77, "question");
    let arrivals = vec![gm(10, 77, "no"), gm(10, 77, "yes"), gm(10, 77, "later")];
    let filter = MessageIs { text: String::from("yes") };
    assert_eq!(origin.next_message(&arrivals, &filter), Ok(String::from("yes")));
    let none = MessageIs { text: String::from("absent") };
    assert_eq!(origin.next_message(&arrivals, &none), Err(TimeoutError));
}

#[test]
fn subscription_flow_forwards_same_subject_only() {
    let origin = gm(10, 77, "question");
    let same = gm(10, 77, "reply");
    let other = gm(10, 78, "noise");
    let f = origin.subscription_flow(&same);
    assert!(!f.keep_listening && !f.intercept);
    let f = origin.subscription_flow(&other);
    assert!(f.keep_listening && !f.intercept);
}

#[test]
fn discriminants_are_stable_and_unknown_falls_back() {
    let group = Event::GroupMessageEvent(gm(10, 77, "hello"));
    assert_eq!(group.discriminant(), 1);
    let online = Event::BotOnlineEvent(event_engine::event::BotOnlineEvent::from(5));
    assert_eq!(online.discriminant(), 0);
    let raw = Event::Unknown(event_engine::event::EventInner::<event_engine::event::UnknownPayload>::from(String::from("raw")));
    assert_eq!(raw.discriminant(), 255);

    assert_eq!(kind_of_discriminant(0), EventKind::BotOnline);
    assert_eq!(kind_of_discriminant(1), EventKind::GroupMessage);
    assert_eq!(kind_of_discriminant(2), EventKind::FriendMessage);
    assert_eq!(kind_of_discriminant(7), EventKind::Unknown);
    assert_eq!(kind_of_discriminant(255), EventKind::Unknown);
}

#[test]
fn envelope_carries_the_variant_discriminant() {
    let e = Event::GroupMessageEvent(gm(10, 77, "hello"));
    let envelope = e.into_ffi();
    assert_eq!(envelope.t, 1);
}

#[test]
fn group_bot_assignment_is_first_claim_wins() {
    let mut app = App::new();
    assert_eq!(app.group_bot(10), None);
    assert!(app.check_group_bot(1, 10));
    assert_eq!(app.group_bot(10), Some(1));
    // the claim stands: another account fails the check
    assert!(!app.check_group_bot(2, 10));
    assert_eq!(app.group_bot(10), Some(1));
    // the claiming account keeps passing
    assert!(app.check_group_bot(1, 10));
    // an explicit reassignment replaces the claim
    assert_eq!(app.set_group_bot(10, 2), Some(1));
    assert_eq!(app.group_bot(10), Some(2));
}

#[test]
fn bot_registry_adds_and_removes_once() {
    let mut app = App::new();
    assert_eq!(app.add_bot(5), None);
    assert_eq!(app.add_bot(7), None);
    assert_eq!(app.add_bot(5), Some(5));
    assert_eq!(app.bots(), vec![5, 7]);
    assert_eq!(app.remove_bot(5), Some(5));
    assert_eq!(app.remove_bot(5), None);
    assert_eq!(app.bots(), vec![7]);
}

#[test]
fn login_step_decides_each_response() {
    assert_eq!(login_step(&LoginStatus::DeviceLockLogin), LoginAction::RetryDeviceLock);
    assert_eq!(login_step(&LoginStatus::Success), LoginAction::PersistToken);
    assert_eq!(login_step(&LoginStatus::AccountFrozen), LoginAction::Fail);
    assert_eq!(
        login_step(&LoginStatus::UnknownStatus { message: String::from("maintenance") }),
        LoginAction::Fail
    );
    assert_eq!(login_step(&LoginStatus::Other), LoginAction::Fail);
}

#[test]
fn login_progress_follows_the_first_decisive_response() {
    let ok = vec![LoginStatus::DeviceLockLogin, LoginStatus::DeviceLockLogin, LoginStatus::Success];
    assert_eq!(login_progress(&ok), LoginOutcome::Success);

    let frozen = vec![LoginStatus::DeviceLockLogin, LoginStatus::AccountFrozen];
    assert_eq!(login_progress(&frozen), LoginOutcome::Failed);

    let late_success_after_failure = vec![LoginStatus::Other, LoginStatus::Success];
    assert_eq!(login_progress(&late_success_after_failure), LoginOutcome::Failed);

    let pending = vec![LoginStatus::DeviceLockLogin];
    assert_eq!(login_progress(&pending), LoginOutcome::Pending);

    let empty: Vec<LoginStatus> = Vec::new();
    assert_eq!(login_progress(&empty), LoginOutcome::Pending);
}

#[test]
fn login_plan_and_bootstrap_gate() {
    assert_eq!(login_plan(true, true), LoginPlan::AlreadyOnline);
    assert_eq!(login_plan(true, false), LoginPlan::AlreadyOnline);
    assert_eq!(login_plan(false, true), LoginPlan::PasswordLogin);
    assert_eq!(login_plan(false, false), LoginPlan::GiveUp);

    assert!(should_attempt(true, true));
    assert!(!should_attempt(true, false));
    assert!(!should_attempt(false, true));
    assert!(!should_attempt(false, false));
}
