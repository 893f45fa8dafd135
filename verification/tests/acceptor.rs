use ipfw::acceptor::{AcceptEvent, Acceptor, AcceptorState, Directive, Reaction};
use ipfw::relay::Session;
use ipfw::endpoint::{Endpoint, ServiceConfig};
use ipfw::outcome::{Failure, Fatal, Record, Unit};

type Event = AcceptEvent<u32, &'static str>;
type Next = Directive<&'static str>;

fn listen() -> Endpoint {
    Endpoint::v4(127, 0, 0, 1, 9001)
}

fn target() -> Endpoint {
    Endpoint::v4(127, 0, 0, 1, 9002)
}

fn peer(port: u16) -> Endpoint {
    Endpoint::v4(10, 0, 0, 7, port)
}

fn config() -> ServiceConfig {
    ServiceConfig::new(listen(), target(), false)
}

fn listening() -> Acceptor<u32> {
    let (mut acceptor, _): (Acceptor<u32>, Next) = Acceptor::start(config());
    assert_eq!(acceptor.step(Event::Bound).next, Directive::Accept);
    acceptor
}

fn quiet(next: Next) -> Reaction<u32, &'static str> {
    Reaction { record: None, dispatch: None, next }
}

#[test]
fn acceptor_starts_by_binding_the_listen_endpoint() {
    let (acceptor, next): (Acceptor<u32>, Next) = Acceptor::start(config());
    assert_eq!(next, Directive::Bind { endpoint: listen(), v6_only: false });
    assert_eq!(acceptor, Acceptor { config: config(), state: AcceptorState::Binding });
}

#[test]
fn v6_only_is_asked_for_when_binding() {
    let config = ServiceConfig::new(listen(), target(), true);
    let (_, next): (Acceptor<u32>, Next) = Acceptor::start(config);
    assert_eq!(next, Directive::Bind { endpoint: listen(), v6_only: true });
}

#[test]
fn bound_listener_accepts() {
    let (mut acceptor, _): (Acceptor<u32>, Next) = Acceptor::start(config());
    assert_eq!(acceptor.step(Event::Bound), quiet(Directive::Accept));
    assert_eq!(acceptor.state, AcceptorState::Listening);
}

#[test]
fn failed_bind_is_fatal() {
    let (mut acceptor, _): (Acceptor<u32>, Next) = Acceptor::start(config());
    let reaction = acceptor.step(Event::BindFailed("address in use"));
    assert_eq!(
        reaction,
        quiet(Directive::Stop(Failure {
            kind: Fatal::Bind,
            endpoint: listen(),
            cause: "address in use"
        }))
    );
    assert_eq!(acceptor.state, AcceptorState::Stopped);
}

#[test]
fn accepted_connection_is_recorded_and_the_target_dialed() {
    let mut acceptor = listening();
    let reaction = acceptor.step(Event::Accepted { inbound: 1, peer: peer(40000) });
    assert_eq!(
        reaction,
        Reaction {
            record: Some(Record::Accepted(peer(40000))),
            dispatch: None,
            next: Directive::Dial(target()),
        }
    );
    assert_eq!(acceptor.state, AcceptorState::Dialing { inbound: 1 });
}

#[test]
fn dialed_target_completes_the_session() {
    let mut acceptor = listening();
    acceptor.step(Event::Accepted { inbound: 1, peer: peer(40000) });
    let reaction = acceptor.step(Event::Dialed(2));
    assert_eq!(
        reaction,
        Reaction {
            record: None,
            dispatch: Some(Session { inbound: 1, target: 2 }),
            next: Directive::Accept,
        }
    );
    assert_eq!(acceptor.state, AcceptorState::Listening);
}

#[test]
fn failed_accept_is_recorded_and_survived() {
    let mut acceptor = listening();
    let reaction = acceptor.step(Event::AcceptFailed("too many open files"));
    assert_eq!(
        reaction,
        Reaction {
            record: Some(Record::AcceptFailed("too many open files")),
            dispatch: None,
            next: Directive::Accept,
        }
    );
    assert_eq!(acceptor.state, AcceptorState::Listening);
}

#[test]
fn acceptor_serves_after_any_number_of_failed_accepts() {
    let mut acceptor = listening();
    for _ in 0..100 {
        let reaction = acceptor.step(Event::AcceptFailed("aborted"));
        assert_eq!(reaction.next, Directive::Accept);
        assert_eq!(reaction.record, Some(Record::AcceptFailed("aborted")));
    }
    let reaction = acceptor.step(Event::Accepted { inbound: 5, peer: peer(1) });
    assert_eq!(reaction.next, Directive::Dial(target()));
    let reaction = acceptor.step(Event::Dialed(6));
    assert_eq!(reaction.dispatch, Some(Session { inbound: 5, target: 6 }));
}

#[test]
fn failed_dial_is_fatal_for_the_service() {
    let mut acceptor = listening();
    acceptor.step(Event::Accepted { inbound: 1, peer: peer(40000) });
    let reaction = acceptor.step(Event::DialFailed("connection refused"));
    assert_eq!(
        reaction,
        quiet(Directive::Stop(Failure {
            kind: Fatal::TargetConnect,
            endpoint: target(),
            cause: "connection refused"
        }))
    );
    assert_eq!(acceptor.state, AcceptorState::Stopped);
    if let Directive::Stop(failure) = reaction.next {
        assert_eq!(failure.origin(), Unit::Acceptor);
    }
}

#[test]
fn stopped_acceptor_accepts_no_more() {
    let mut acceptor = listening();
    acceptor.step(Event::Accepted { inbound: 1, peer: peer(40000) });
    acceptor.step(Event::DialFailed("connection refused"));
    for event in [
        Event::Bound,
        Event::BindFailed("x"),
        Event::Accepted { inbound: 2, peer: peer(2) },
        Event::AcceptFailed("x"),
        Event::Dialed(3),
        Event::DialFailed("x"),
    ] {
        assert_eq!(acceptor.step(event), quiet(Directive::Nothing));
        assert_eq!(acceptor.state, AcceptorState::Stopped);
    }
    assert_eq!(acceptor.config, config());
}

#[test]
fn acceptor_drops_events_it_does_not_wait_for() {
    let (mut acceptor, _): (Acceptor<u32>, Next) = Acceptor::start(config());
    assert_eq!(acceptor.step(Event::Accepted { inbound: 1, peer: peer(1) }), quiet(Directive::Nothing));
    assert_eq!(acceptor.step(Event::Dialed(1)), quiet(Directive::Nothing));
    assert_eq!(acceptor.step(Event::DialFailed("x")), quiet(Directive::Nothing));
    assert_eq!(acceptor.state, AcceptorState::Binding);

    let mut acceptor = listening();
    assert_eq!(acceptor.step(Event::Bound), quiet(Directive::Nothing));
    assert_eq!(acceptor.step(Event::Dialed(1)), quiet(Directive::Nothing));
    assert_eq!(acceptor.step(Event::DialFailed("x")), quiet(Directive::Nothing));
    assert_eq!(acceptor.step(Event::BindFailed("x")), quiet(Directive::Nothing));
    assert_eq!(acceptor.state, AcceptorState::Listening);

    acceptor.step(Event::Accepted { inbound: 1, peer: peer(1) });
    assert_eq!(acceptor.step(Event::Accepted { inbound: 2, peer: peer(2) }), quiet(Directive::Nothing));
    assert_eq!(acceptor.step(Event::AcceptFailed("x")), quiet(Directive::Nothing));
    assert_eq!(acceptor.state, AcceptorState::Dialing { inbound: 1 });
}

#[test]
fn every_connection_is_forwarded_to_the_one_target() {
    let mut acceptor = listening();
    for inbound in 0..20u32 {
        let reaction = acceptor.step(Event::Accepted { inbound, peer: peer(1000 + inbound as u16) });
        assert_eq!(reaction.next, Directive::Dial(target()));
        let reaction = acceptor.step(Event::Dialed(100 + inbound));
        assert_eq!(reaction.dispatch, Some(Session { inbound, target: 100 + inbound }));
        assert_eq!(acceptor.config, config());
    }
}
