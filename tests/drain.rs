use relay_bot::relay::{Action, Admission, Event, Relay};

fn call(p: &str) -> Action {
    Action::Call { prompt: p.to_string() }
}

fn sleep(secs: u64) -> Action {
    Action::Sleep { secs }
}

#[test]
fn five_failures_back_off_then_fail_without_caching() {
    let mut relay = Relay::new(16);
    assert_eq!(relay.receive(1, 10, "P".to_string(), false, 0), Admission::Queued { start_drain: true });
    assert_eq!(relay.step(Event::Start), call("P"));
    for secs in [1u64, 2, 4, 8, 16] {
        assert_eq!(relay.step(Event::Reply(None)), sleep(secs));
        if secs < 16 {
            assert_eq!(relay.step(Event::Woke), call("P"));
        }
    }
    assert_eq!(relay.step(Event::Woke), Action::DeliverFailure { channel: 1 });
    assert_eq!(relay.cached("P"), None);
    assert_eq!(relay.step(Event::Sent), sleep(1));
    assert_eq!(relay.step(Event::Woke), Action::Stop);
    assert!(!relay.is_draining());
}

#[test]
fn success_is_delivered_and_cached() {
    let mut relay = Relay::new(16);
    assert_eq!(relay.receive(7, 10, "P".to_string(), false, 0), Admission::Queued { start_drain: true });
    assert_eq!(relay.step(Event::Start), call("P"));
    assert_eq!(
        relay.step(Event::Reply(Some("R".to_string()))),
        Action::Deliver { channel: 7, text: "R".to_string() }
    );
    assert_eq!(relay.cached("P"), Some("R".to_string()));
    assert_eq!(relay.step(Event::Sent), sleep(1));
    assert_eq!(relay.step(Event::Woke), Action::Stop);
}

#[test]
fn success_after_retries() {
    let mut relay = Relay::new(16);
    relay.receive(1, 10, "P".to_string(), false, 0);
    assert_eq!(relay.step(Event::Start), call("P"));
    assert_eq!(relay.step(Event::Reply(None)), sleep(1));
    assert_eq!(relay.step(Event::Woke), call("P"));
    assert_eq!(
        relay.step(Event::Reply(Some("R".to_string()))),
        Action::Deliver { channel: 1, text: "R".to_string() }
    );
    assert_eq!(relay.cached("P"), Some("R".to_string()));
}

#[test]
fn burst_of_one_prompt_makes_one_call() {
    let mut relay = Relay::new(16);
    assert_eq!(relay.receive(1, 10, "P".to_string(), false, 0), Admission::Queued { start_drain: true });
    assert_eq!(relay.receive(2, 11, "P".to_string(), false, 0), Admission::Queued { start_drain: false });
    assert_eq!(relay.receive(3, 12, "P".to_string(), false, 0), Admission::Queued { start_drain: false });
    assert_eq!(relay.pending(), 3);
    let mut calls = 0;
    let mut delivered = Vec::new();
    let mut event = Event::Start;
    loop {
        match relay.step(event) {
            Action::Call { prompt } => {
                assert_eq!(prompt, "P");
                calls += 1;
                event = Event::Reply(Some("R".to_string()));
            },
            Action::Deliver { channel, text } => {
                delivered.push((channel, text));
                event = Event::Sent;
            },
            Action::Sleep { secs } => {
                assert_eq!(secs, 1);
                event = Event::Woke;
            },
            Action::Stop => break,
            other => panic!("unexpected action {:?}", other),
        }
    }
    assert_eq!(calls, 1);
    assert_eq!(
        delivered,
        vec![(1, "R".to_string()), (2, "R".to_string()), (3, "R".to_string())]
    );
    assert_eq!(relay.receive(4, 13, "P".to_string(), false, 0), Admission::Cached { text: "R".to_string() });
}

#[test]
fn only_one_drain_loop_is_started() {
    let mut relay = Relay::new(16);
    assert_eq!(relay.receive(1, 10, "a".to_string(), false, 0), Admission::Queued { start_drain: true });
    for k in 2..10u64 {
        assert_eq!(
            relay.receive(k, 10 + k, format!("p{}", k), false, 0),
            Admission::Queued { start_drain: false }
        );
    }
    assert!(relay.is_draining());
    assert_eq!(relay.step(Event::Start), call("a"));
    assert_eq!(relay.receive(50, 60, "late".to_string(), false, 0), Admission::Queued { start_drain: false });
}

#[test]
fn drain_restarts_after_stop() {
    let mut relay = Relay::new(16);
    relay.receive(1, 10, "a".to_string(), false, 0);
    relay.step(Event::Start);
    relay.step(Event::Reply(Some("x".to_string())));
    relay.step(Event::Sent);
    assert_eq!(relay.step(Event::Woke), Action::Stop);
    assert!(!relay.is_draining());
    assert_eq!(relay.receive(2, 20, "b".to_string(), false, 0), Admission::Queued { start_drain: true });
}

#[test]
fn pacing_sleep_follows_every_resolution() {
    let mut relay = Relay::new(16);
    relay.receive(1, 10, "a".to_string(), false, 0);
    relay.receive(2, 20, "b".to_string(), false, 0);
    assert_eq!(relay.step(Event::Start), call("a"));
    relay.step(Event::Reply(Some("x".to_string())));
    assert_eq!(relay.step(Event::Woke), Action::Nothing);
    assert_eq!(relay.step(Event::Sent), sleep(1));
    assert_eq!(relay.step(Event::Sent), Action::Nothing);
    assert_eq!(relay.step(Event::Woke), call("b"));
}

#[test]
fn bot_messages_are_ignored_and_leave_no_stamp() {
    let mut relay = Relay::new(16);
    assert_eq!(relay.receive(1, 10, "a".to_string(), true, 0), Admission::Ignored);
    assert_eq!(relay.pending(), 0);
    assert_eq!(relay.receive(1, 10, "a".to_string(), false, 1), Admission::Queued { start_drain: true });
}

#[test]
fn cooling_requests_are_refused_by_relay() {
    let mut relay = Relay::new(16);
    relay.receive(1, 10, "a".to_string(), false, 0);
    assert_eq!(relay.receive(1, 11, "b".to_string(), false, 1_000), Admission::ChannelCooling);
    assert_eq!(relay.receive(2, 10, "b".to_string(), false, 1_000), Admission::UserCooling);
    assert_eq!(relay.pending(), 1);
}

#[test]
fn idle_relay_ignores_loop_events() {
    let mut relay = Relay::new(4);
    assert_eq!(relay.step(Event::Woke), Action::Nothing);
    assert_eq!(relay.step(Event::Start), Action::Nothing);
    assert!(!relay.is_draining());
}
