//! The service as a whole: the monitor and the acceptor side by side, the
//! relays that the acceptor has dispatched, and what holds of every run.
//!
//! The units of a running service work apart from one another, each fed by
//! its own caller. `Service` is the model of all of them together: a run of
//! the service is a sequence of events, each of which goes to the unit or the
//! relay that it belongs to. The proofs at the end of this file are stated of
//! that model, over the transition functions of the units themselves.

use vstd::prelude::*;
use crate::acceptor::{AcceptEvent, Acceptor, AcceptorState, Directive};
use crate::endpoint::{Endpoint, ServiceConfig};
use crate::monitor::{Monitor, MonitorState, ProbeAction, ProbeEvent};
use crate::outcome::{Failure, Fatal, Record, ServiceOutcome, Unit};
use crate::relay::{CopyEnd, Relay, Session};

verus! {

/// The two units of a service that has just been started, each with the
/// first step that it asks for.
#[derive(Debug, PartialEq, Eq)]
pub struct Launch<C, E> {
    pub monitor: Monitor<C>,
    /// The monitor's first action.
    pub probe: ProbeAction<E>,
    pub acceptor: Acceptor<C>,
    /// The acceptor's first directive.
    pub listen: Directive<E>,
}

/// Starts both units on one configuration: the monitor probes the endpoint
/// that the acceptor forwards to.
pub fn launch<C, E>(config: ServiceConfig) -> (launch: Launch<C, E>)
    ensures
        launch.monitor == Service::<C, E>::init(config).monitor,
        launch.acceptor == Service::<C, E>::init(config).acceptor,
        launch.probe == ProbeAction::<E>::Connect(config.target),
        launch.listen == (Directive::<E>::Bind {
            endpoint: config.listen,
            v6_only: config.v6_only,
        }),
{
    let (monitor, probe) = Monitor::start(config.target);
    let (acceptor, listen) = Acceptor::start(config);
    Launch { monitor, probe, acceptor, listen }
}

/// Something that happens in a running service.
pub enum ServiceEvent<C, E> {
    /// An event of the monitor.
    Monitor(ProbeEvent<C, E>),
    /// An event of the acceptor.
    Acceptor(AcceptEvent<C, E>),
    /// A copy has stopped in the relay that was dispatched as number `index`.
    Relay { index: int, end: CopyEnd<E> },
}

impl<C, E> ServiceEvent<C, E> {
    /// Whether the event reports the failure of a step that a unit cannot
    /// survive.
    pub open spec fn reports_fatal(self) -> bool {
        match self {
            ServiceEvent::Monitor(event) => event is ConnectFailed,
            ServiceEvent::Acceptor(event) => event is BindFailed || event is DialFailed,
            ServiceEvent::Relay { .. } => false,
        }
    }

    /// Whether the event is the end of a copy in the relay of this number.
    pub open spec fn ends_relay(self, index: int) -> bool {
        self matches ServiceEvent::Relay { index: ended, .. } && ended == index
    }

    /// Whether the event reports a new connection to the target.
    pub open spec fn reaches_target(self) -> bool {
        match self {
            ServiceEvent::Monitor(event) => event is Connected,
            ServiceEvent::Acceptor(event) => event is Dialed,
            ServiceEvent::Relay { .. } => false,
        }
    }
}

/// The service as a whole.
pub struct Service<C, E> {
    pub monitor: Monitor<C>,
    pub acceptor: Acceptor<C>,
    /// The relays of all sessions so far, in the order of their dispatch.
    pub relays: Seq<Relay<C>>,
    /// All that was reported so far.
    pub log: Seq<Record<E>>,
    /// The error that has ended the service, once there is one.
    pub failure: Option<Failure<E>>,
}

impl<C, E> Service<C, E> {
    /// The service at its start.
    pub open spec fn init(config: ServiceConfig) -> Self {
        Service {
            monitor: Monitor { target: config.target, state: MonitorState::Connecting },
            acceptor: Acceptor { config, state: AcceptorState::Binding },
            relays: Seq::empty(),
            log: Seq::empty(),
            failure: None,
        }
    }

    /// Whether no unit has failed yet.
    pub open spec fn running(self) -> bool {
        self.failure is None
    }

    /// The terminal result of the process, once the service has ended.
    pub open spec fn outcome(self) -> Option<ServiceOutcome<E>> {
        match self.failure {
            Some(failure) => Some(ServiceOutcome::Failed(failure)),
            None => None,
        }
    }

    /// The service after one event.
    ///
    /// The first unit to fail ends the service, and with it all that runs:
    /// once there is a failure, no event changes anything.
    pub open spec fn step(self, event: ServiceEvent<C, E>) -> Self {
        if self.failure is Some {
            self
        } else {
            match event {
                ServiceEvent::Monitor(event) => Service {
                    monitor: self.monitor.next(event),
                    failure: match self.monitor.action(event) {
                        ProbeAction::Fail(failure) => Some(failure),
                        _ => None,
                    },
                    ..self
                },
                ServiceEvent::Acceptor(event) => Service {
                    acceptor: self.acceptor.next(event),
                    relays: match self.acceptor.dispatch(event) {
                        Some(session) => self.relays.push(Relay::Copying(session)),
                        None => self.relays,
                    },
                    log: match self.acceptor.record(event) {
                        Some(record) => self.log.push(record),
                        None => self.log,
                    },
                    failure: match self.acceptor.directive(event) {
                        Directive::Stop(failure) => Some(failure),
                        _ => None,
                    },
                    ..self
                },
                ServiceEvent::Relay { index, end } => if 0 <= index < self.relays.len() {
                    Service {
                        relays: self.relays.update(index, Relay::Closed),
                        log: match self.relays[index].reaction(end).record {
                            Some(record) => self.log.push(record),
                            None => self.log,
                        },
                        ..self
                    }
                } else {
                    self
                },
            }
        }
    }

    /// The service after a run of events.
    pub open spec fn run(self, events: Seq<ServiceEvent<C, E>>) -> Self
        decreases events.len(),
    {
        if events.len() == 0 {
            self
        } else {
            self.run(events.drop_last()).step(events.last())
        }
    }
}

/// The events of serving connections one after another: each is accepted
/// from its peer, and a connection to the target is opened for it.
pub open spec fn serving<C, E>(sessions: Seq<Session<C>>, peers: Seq<Endpoint>) -> Seq<
    ServiceEvent<C, E>,
>
    decreases sessions.len(),
{
    if sessions.len() == 0 {
        Seq::empty()
    } else {
        serving::<C, E>(sessions.drop_last(), peers.drop_last()).push(
            ServiceEvent::Acceptor(
                AcceptEvent::Accepted { inbound: sessions.last().inbound, peer: peers.last() },
            ),
        ).push(ServiceEvent::Acceptor(AcceptEvent::Dialed(sessions.last().target)))
    }
}

/// A run of one more event is the run so far, and then a step.
pub proof fn lemma_run_push<C, E>(
    service: Service<C, E>,
    events: Seq<ServiceEvent<C, E>>,
    event: ServiceEvent<C, E>,
)
    ensures
        service.run(events.push(event)) == service.run(events).step(event),
{
    assert(events.push(event).drop_last() == events);
}

/// The service has one target, fixed at its start: in every run the monitor
/// probes the configured target, and the acceptor listens on the configured
/// endpoint and forwards to the configured target.
pub proof fn lemma_endpoints_are_fixed<C, E>(
    config: ServiceConfig,
    events: Seq<ServiceEvent<C, E>>,
)
    ensures
        Service::init(config).run(events).monitor.target == config.target,
        Service::init(config).run(events).acceptor.config == config,
    decreases events.len(),
{
    if events.len() > 0 {
        lemma_endpoints_are_fixed(config, events.drop_last());
    }
}

/// A service that has failed is at its end: whatever happens afterwards, in
/// either unit or in any relay, changes nothing, and the failure stands.
pub proof fn lemma_failed_service_is_halted<C, E>(
    service: Service<C, E>,
    events: Seq<ServiceEvent<C, E>>,
)
    requires
        !service.running(),
    ensures
        service.run(events) == service,
    decreases events.len(),
{
    if events.len() > 0 {
        lemma_failed_service_is_halted(service, events.drop_last());
    }
}

/// Once failed, always failed: a longer run ends with the failure of the
/// shorter one.
pub proof fn lemma_failure_is_final<C, E>(
    service: Service<C, E>,
    events: Seq<ServiceEvent<C, E>>,
    n: int,
)
    requires
        0 <= n <= events.len(),
        !service.run(events.take(n)).running(),
    ensures
        service.run(events) == service.run(events.take(n)),
    decreases events.len() - n,
{
    if n < events.len() {
        assert(events.drop_last().take(n) == events.take(n));
        lemma_failure_is_final(service, events.drop_last(), n);
    } else {
        assert(events.take(n) == events);
    }
}

/// The service ends only on a failed attempt to connect to the target or to
/// set up the listener. In a run without such an event it keeps running,
/// whatever else goes wrong: failed accept calls, failed checks of the probe
/// connection, failed copies.
pub proof fn lemma_only_fatal_reports_end_the_service<C, E>(
    service: Service<C, E>,
    events: Seq<ServiceEvent<C, E>>,
)
    requires
        service.running(),
        forall|i: int| 0 <= i < events.len() ==> !(#[trigger] events[i]).reports_fatal(),
    ensures
        service.run(events).running(),
    decreases events.len(),
{
    if events.len() > 0 {
        lemma_only_fatal_reports_end_the_service(service, events.drop_last());
        assert(!events[events.len() - 1].reports_fatal());
    }
}

/// A failed accept call is reported and survived: the acceptor listens on
/// and asks for the next connection, and nothing else in the service changes.
pub proof fn lemma_accept_failure_is_survived<C, E>(service: Service<C, E>, cause: E)
    requires
        service.running(),
        service.acceptor.state is Listening,
    ensures
        service.step(ServiceEvent::Acceptor(AcceptEvent::AcceptFailed(cause))) == (Service {
            log: service.log.push(Record::AcceptFailed(cause)),
            ..service
        }),
        service.acceptor.directive(AcceptEvent::<C, E>::AcceptFailed(cause))
            == Directive::<E>::Accept,
{
}

/// The events of accept calls that fail one after another, each with its
/// cause.
pub open spec fn failing_accepts<C, E>(causes: Seq<E>) -> Seq<ServiceEvent<C, E>> {
    Seq::new(causes.len(), |i: int| ServiceEvent::Acceptor(AcceptEvent::AcceptFailed(causes[i])))
}

/// However many accept calls fail in a row, the service runs on with the
/// acceptor listening, and each failure is reported, in order.
pub proof fn lemma_accept_failures_are_survived<C, E>(service: Service<C, E>, causes: Seq<E>)
    requires
        service.running(),
        service.acceptor.state is Listening,
    ensures
        service.run(failing_accepts(causes)) == (Service {
            log: service.log + Seq::new(causes.len(), |i: int| Record::AcceptFailed(causes[i])),
            ..service
        }),
    decreases causes.len(),
{
    let records = Seq::new(causes.len(), |i: int| Record::AcceptFailed(causes[i]));
    if causes.len() == 0 {
        assert(service.log + records == service.log);
    } else {
        let shorter = causes.drop_last();
        lemma_accept_failures_are_survived(service, shorter);
        assert(failing_accepts::<C, E>(causes).drop_last() == failing_accepts::<C, E>(shorter));
        assert(service.log + records == (service.log + Seq::new(
            shorter.len(),
            |i: int| Record::AcceptFailed(shorter[i]),
        )).push(Record::AcceptFailed(causes.last())));
    }
}

/// While no connection to the target can be opened, no session is formed,
/// whatever else happens, and the monitor holds no probe connection: for as
/// long as the service runs, it is still at its first attempt to connect.
pub proof fn lemma_no_session_without_target<C, E>(
    config: ServiceConfig,
    events: Seq<ServiceEvent<C, E>>,
)
    requires
        forall|i: int| 0 <= i < events.len() ==> !(#[trigger] events[i]).reaches_target(),
    ensures
        Service::init(config).run(events).relays.len() == 0,
        Service::init(config).run(events).monitor.probe() is None,
        Service::init(config).run(events).running() ==> Service::init(config).run(
            events,
        ).monitor.state is Connecting,
    decreases events.len(),
{
    if events.len() > 0 {
        lemma_no_session_without_target(config, events.drop_last());
        assert(!events[events.len() - 1].reaches_target());
    }
}

/// While the target cannot be reached, the service does not go on accepting:
/// one connection at most is accepted before the service ends.
pub proof fn lemma_unreachable_target_admits_one_connection_at_most<C, E>(
    config: ServiceConfig,
    events: Seq<ServiceEvent<C, E>>,
)
    requires
        forall|i: int| 0 <= i < events.len() ==> !(#[trigger] events[i]).reaches_target(),
    ensures
        ({
            let log = Service::init(config).run(events).log;
            forall|i: int, j: int|
                #![trigger log[i], log[j]]
                0 <= i < j < log.len() ==> !(log[i] is Accepted && log[j] is Accepted)
        }),
        ({
            let end = Service::init(config).run(events);
            end.acceptor.state is Binding || end.acceptor.state is Listening ==> forall|i: int|
                #![trigger end.log[i]]
                0 <= i < end.log.len() ==> !(end.log[i] is Accepted)
        }),
    decreases events.len(),
{
    if events.len() > 0 {
        lemma_unreachable_target_admits_one_connection_at_most(config, events.drop_last());
        assert(!events[events.len() - 1].reaches_target());
    }
}

/// A target that cannot be reached ends the service at the monitor's first
/// attempt: if no connection to the target is ever opened, the run is over
/// as soon as the monitor has reported a failed attempt. The service ends
/// with an exit status other than zero, and without a single session.
pub proof fn lemma_unreachable_target_ends_the_service<C, E>(
    config: ServiceConfig,
    events: Seq<ServiceEvent<C, E>>,
    at: int,
)
    requires
        forall|i: int| 0 <= i < events.len() ==> !(#[trigger] events[i]).reaches_target(),
        0 <= at < events.len(),
        events[at] matches ServiceEvent::Monitor(event) && event is ConnectFailed,
    ensures
        !Service::init(config).run(events.take(at + 1)).running(),
        Service::init(config).run(events) == Service::init(config).run(events.take(at + 1)),
        Service::init(config).run(events).relays.len() == 0,
        Service::init(config).run(events).outcome() matches Some(outcome)
            && outcome.exit_status() != 0,
{
    let before = events.take(at);
    assert forall|i: int| 0 <= i < before.len() implies !(#[trigger] before[i]).reaches_target() by {
        assert(before[i] == events[i]);
    }
    lemma_no_session_without_target(config, before);
    assert(events.take(at + 1) == before.push(events[at]));
    lemma_run_push(Service::init(config), before, events[at]);
    lemma_failure_is_final(Service::init(config), events, at + 1);
    lemma_no_session_without_target(config, events);
}

/// A failure to connect to the target for a connection that was accepted
/// ends the whole service, with the acceptor as the origin of the error; it
/// is not held against that one connection alone. No session is formed of
/// the connection, and nothing that happens afterwards is taken in.
pub proof fn lemma_dial_failure_ends_the_service<C, E>(
    service: Service<C, E>,
    cause: E,
    events: Seq<ServiceEvent<C, E>>,
)
    requires
        service.running(),
        service.acceptor.state is Dialing,
    ensures
        ({
            let failed = service.step(ServiceEvent::Acceptor(AcceptEvent::DialFailed(cause)));
            &&& failed.failure == Some(
                Failure {
                    kind: Fatal::TargetConnect,
                    endpoint: service.acceptor.config.target,
                    cause,
                },
            )
            &&& failed.failure->0.kind.origin() == Unit::Acceptor
            &&& failed.acceptor.state is Stopped
            &&& failed.relays == service.relays
            &&& failed.run(events) == failed
        }),
{
    let failed = service.step(ServiceEvent::Acceptor(AcceptEvent::DialFailed(cause)));
    lemma_failed_service_is_halted(failed, events);
}

/// The end of one session touches nothing but that session: both units, the
/// failure and every other relay are as they were, whether or not their
/// sessions are still open. The session itself is closed as a whole, and an
/// error of its copy is reported and goes no further.
pub proof fn lemma_relay_end_is_local<C, E>(service: Service<C, E>, index: int, end: CopyEnd<E>)
    requires
        service.running(),
        0 <= index < service.relays.len(),
    ensures
        ({
            let after = service.step(ServiceEvent::Relay { index, end });
            &&& after.monitor == service.monitor
            &&& after.acceptor == service.acceptor
            &&& after.running()
            &&& after.relays.len() == service.relays.len()
            &&& after.relays[index] == Relay::<C>::Closed
            &&& forall|other: int|
                0 <= other < service.relays.len() && other != index ==> after.relays[other]
                    == service.relays[other]
            &&& after.log == match end.result {
                Err(cause) if service.relays[index] is Copying => service.log.push(
                    Record::RelayFailed(cause),
                ),
                _ => service.log,
            }
        }),
{
}

/// A session lasts until its own end, whatever happens to the others. In a
/// run in which no copy of one relay stops, that relay is at the end as it was
/// at the start: neither the end of another session, nor a failed accept
/// call, nor anything in the monitor reaches it.
pub proof fn lemma_session_outlasts_all_but_its_own_end<C, E>(
    service: Service<C, E>,
    events: Seq<ServiceEvent<C, E>>,
    index: int,
)
    requires
        0 <= index < service.relays.len(),
        forall|i: int| 0 <= i < events.len() ==> !(#[trigger] events[i]).ends_relay(index),
    ensures
        service.relays.len() <= service.run(events).relays.len(),
        service.run(events).relays[index] == service.relays[index],
    decreases events.len(),
{
    if events.len() > 0 {
        lemma_session_outlasts_all_but_its_own_end(service, events.drop_last(), index);
        assert(!events[events.len() - 1].ends_relay(index));
    }
}

/// Every connection gets a session of its own. When connections are served
/// one after another, each accepted and the target reached for it, the
/// service has one new relay for each of them, in order, and the session of
/// each holds the connection that was accepted and the connection to the
/// target that was opened for it, and no other. The acceptor is listening
/// again afterwards.
pub proof fn lemma_each_connection_gets_its_session<C, E>(
    service: Service<C, E>,
    sessions: Seq<Session<C>>,
    peers: Seq<Endpoint>,
)
    requires
        service.running(),
        service.acceptor.state is Listening,
        peers.len() == sessions.len(),
    ensures
        service.run(serving(sessions, peers)) == (Service {
            relays: service.relays + Seq::new(sessions.len(), |i: int| Relay::Copying(sessions[i])),
            log: service.log + Seq::new(peers.len(), |i: int| Record::Accepted(peers[i])),
            ..service
        }),
    decreases sessions.len(),
{
    let relays = Seq::new(sessions.len(), |i: int| Relay::Copying(sessions[i]));
    let records = Seq::new(peers.len(), |i: int| Record::<E>::Accepted(peers[i]));
    if sessions.len() == 0 {
        assert(service.relays + relays == service.relays);
        assert(service.log + records == service.log);
    } else {
        let earlier = sessions.drop_last();
        let earlier_peers = peers.drop_last();
        lemma_each_connection_gets_its_session(service, earlier, earlier_peers);
        let accepted = ServiceEvent::<C, E>::Acceptor(
            AcceptEvent::Accepted { inbound: sessions.last().inbound, peer: peers.last() },
        );
        let dialed = ServiceEvent::<C, E>::Acceptor(AcceptEvent::Dialed(sessions.last().target));
        let events = serving::<C, E>(earlier, earlier_peers);
        lemma_run_push(service, events, accepted);
        lemma_run_push(service, events.push(accepted), dialed);
        assert(service.relays + relays == (service.relays + Seq::new(
            earlier.len(),
            |i: int| Relay::Copying(earlier[i]),
        )).push(Relay::Copying(sessions.last())));
        assert(service.log + records == (service.log + Seq::new(
            earlier_peers.len(),
            |i: int| Record::<E>::Accepted(earlier_peers[i]),
        )).push(Record::Accepted(peers.last())));
    }
}

} // verus!
