use ipfw::endpoint::Endpoint;
use ipfw::monitor::{Monitor, MonitorState, ProbeAction, ProbeEvent, POLL_INTERVAL_MILLIS};
use ipfw::outcome::{Failure, Fatal, Unit};

type Event = ProbeEvent<u32, &'static str>;
type Action = ProbeAction<&'static str>;

fn target() -> Endpoint {
    Endpoint::v4(127, 0, 0, 1, 9002)
}

fn started() -> Monitor<u32> {
    let (monitor, _): (Monitor<u32>, Action) = Monitor::start(target());
    monitor
}

fn probing(probe: u32) -> Monitor<u32> {
    let mut monitor = started();
    assert_eq!(monitor.step(Event::Connected(probe)), Action::Peek);
    monitor
}

#[test]
fn poll_interval_is_a_tenth_of_a_second() {
    assert_eq!(POLL_INTERVAL_MILLIS, 100);
}

#[test]
fn monitor_starts_by_connecting_to_the_target() {
    let (monitor, action): (Monitor<u32>, Action) = Monitor::start(target());
    assert_eq!(action, ProbeAction::Connect(target()));
    assert_eq!(monitor, Monitor { target: target(), state: MonitorState::Connecting });
    assert_eq!(monitor.probe(), None);
}

#[test]
fn connected_probe_is_checked_at_once() {
    let mut monitor = started();
    let action = monitor.step(Event::Connected(7));
    assert_eq!(action, ProbeAction::Peek);
    assert_eq!(monitor.state, MonitorState::Probing(7));
    assert_eq!(monitor.probe(), Some(&7));
}

#[test]
fn failed_probe_connect_is_fatal() {
    let mut monitor = started();
    let action = monitor.step(Event::ConnectFailed("connection refused"));
    assert_eq!(
        action,
        ProbeAction::Fail(Failure {
            kind: Fatal::ProbeConnect,
            endpoint: target(),
            cause: "connection refused"
        })
    );
    assert_eq!(monitor.state, MonitorState::Failed);
    assert_eq!(monitor.probe(), None);
    if let ProbeAction::Fail(failure) = action {
        assert_eq!(failure.origin(), Unit::Monitor);
    }
}

#[test]
fn live_probe_is_checked_again_after_the_interval() {
    let mut monitor = probing(7);
    assert_eq!(monitor.step(Event::Peeked(1)), ProbeAction::Sleep(100));
    assert_eq!(monitor.state, MonitorState::Waiting(7));
    assert_eq!(monitor.probe(), Some(&7));
    assert_eq!(monitor.step(Event::Elapsed), ProbeAction::Peek);
    assert_eq!(monitor.state, MonitorState::Probing(7));
}

#[test]
fn any_number_of_waiting_bytes_counts_as_life() {
    let mut monitor = probing(7);
    assert_eq!(monitor.step(Event::Peeked(usize::MAX)), ProbeAction::Sleep(100));
    assert_eq!(monitor.state, MonitorState::Waiting(7));
}

#[test]
fn end_of_stream_reconnects_at_once() {
    let mut monitor = probing(7);
    assert_eq!(monitor.step(Event::Peeked(0)), ProbeAction::Connect(target()));
    assert_eq!(monitor.state, MonitorState::Connecting);
    assert_eq!(monitor.probe(), None);
    assert_eq!(monitor.step(Event::Connected(8)), ProbeAction::Peek);
    assert_eq!(monitor.probe(), Some(&8));
}

#[test]
fn failed_check_reconnects_and_is_not_fatal() {
    let mut monitor = probing(7);
    assert_eq!(monitor.step(Event::PeekFailed("reset by peer")), ProbeAction::Connect(target()));
    assert_eq!(monitor.state, MonitorState::Connecting);
    assert_eq!(monitor.probe(), None);
}

#[test]
fn target_may_close_the_probe_again_and_again() {
    let mut monitor = started();
    for probe in 0..50u32 {
        assert_eq!(monitor.step(Event::Connected(probe)), ProbeAction::Peek);
        assert_eq!(monitor.step(Event::Peeked(0)), ProbeAction::Connect(target()));
    }
    assert_eq!(monitor.state, MonitorState::Connecting);
}

#[test]
fn reconnect_that_fails_is_fatal() {
    let mut monitor = probing(7);
    assert_eq!(monitor.step(Event::Peeked(0)), ProbeAction::Connect(target()));
    let action = monitor.step(Event::ConnectFailed("unreachable"));
    assert_eq!(
        action,
        ProbeAction::Fail(Failure {
            kind: Fatal::ProbeConnect,
            endpoint: target(),
            cause: "unreachable"
        })
    );
}

#[test]
fn monitor_drops_events_it_does_not_wait_for() {
    let mut monitor = started();
    assert_eq!(monitor.step(Event::Peeked(0)), ProbeAction::Nothing);
    assert_eq!(monitor.step(Event::PeekFailed("x")), ProbeAction::Nothing);
    assert_eq!(monitor.step(Event::Elapsed), ProbeAction::Nothing);
    assert_eq!(monitor.state, MonitorState::Connecting);

    let mut monitor = probing(7);
    assert_eq!(monitor.step(Event::Connected(9)), ProbeAction::Nothing);
    assert_eq!(monitor.step(Event::ConnectFailed("x")), ProbeAction::Nothing);
    assert_eq!(monitor.step(Event::Elapsed), ProbeAction::Nothing);
    assert_eq!(monitor.state, MonitorState::Probing(7));

    assert_eq!(monitor.step(Event::Peeked(3)), ProbeAction::Sleep(100));
    assert_eq!(monitor.step(Event::Peeked(0)), ProbeAction::Nothing);
    assert_eq!(monitor.step(Event::ConnectFailed("x")), ProbeAction::Nothing);
    assert_eq!(monitor.state, MonitorState::Waiting(7));
}

#[test]
fn failed_monitor_does_nothing_more() {
    let mut monitor = started();
    monitor.step(Event::ConnectFailed("refused"));
    for event in [
        Event::Connected(1),
        Event::ConnectFailed("again"),
        Event::Peeked(0),
        Event::Peeked(5),
        Event::PeekFailed("x"),
        Event::Elapsed,
    ] {
        assert_eq!(monitor.step(event), ProbeAction::Nothing);
        assert_eq!(monitor.state, MonitorState::Failed);
    }
    assert_eq!(monitor.target, target());
}
