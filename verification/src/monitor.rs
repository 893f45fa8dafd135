//! The liveness monitor: it keeps one probe connection to the target open,
//! and fails as soon as the target cannot be connected to.
//!
//! The monitor is a state machine. Its caller performs what an action asks
//! for, and hands back the event that tells how it went.

use vstd::prelude::*;
use crate::endpoint::Endpoint;
use crate::outcome::{Failure, Fatal};

verus! {

/// The time between two checks of the probe connection, in milliseconds.
pub const POLL_INTERVAL_MILLIS: u64 = 100;

/// What the monitor is waiting for. The probe connection, while there is one,
/// is held here and nowhere else.
#[derive(Debug, PartialEq, Eq)]
pub enum MonitorState<C> {
    /// A probe connection is being opened.
    Connecting,
    /// The probe connection is being checked.
    Probing(C),
    /// The probe connection was found alive, and the next check is due after
    /// the poll interval.
    Waiting(C),
    /// The monitor has failed, and does nothing more.
    Failed,
}

/// How a step that the monitor asked for went.
#[derive(Debug, PartialEq, Eq)]
pub enum ProbeEvent<C, E> {
    /// The probe connection is open.
    Connected(C),
    /// The probe connection could not be opened.
    ConnectFailed(E),
    /// The check found this many bytes waiting, without consuming them.
    Peeked(usize),
    /// The check failed.
    PeekFailed(E),
    /// The poll interval has passed.
    Elapsed,
}

/// What the monitor's caller is to do next.
#[derive(Debug, PartialEq, Eq)]
pub enum ProbeAction<E> {
    /// Open a probe connection to this endpoint.
    Connect(Endpoint),
    /// Check the probe connection, without consuming data.
    Peek,
    /// Let this many milliseconds pass.
    Sleep(u64),
    /// End the service with this error.
    Fail(Failure<E>),
    /// Nothing: the event answered no step that the monitor had asked for.
    Nothing,
}

impl<C, E> ProbeEvent<C, E> {
    /// Whether the event is a check that shows the probe connection at its
    /// end: no byte is waiting, or the check itself failed.
    pub open spec fn shows_end(self) -> bool {
        match self {
            ProbeEvent::Peeked(n) => n == 0,
            ProbeEvent::PeekFailed(_) => true,
            _ => false,
        }
    }

    /// Whether the event is a check that shows the probe connection alive. The
    /// target sends nothing on it, but bytes that wait there count as life.
    pub open spec fn shows_life(self) -> bool {
        self matches ProbeEvent::Peeked(n) && n > 0
    }
}

/// The liveness monitor.
#[derive(Debug, PartialEq, Eq)]
pub struct Monitor<C> {
    pub target: Endpoint,
    pub state: MonitorState<C>,
}

impl<C> Monitor<C> {
    /// Whether the event answers the step that the monitor is waiting for.
    pub open spec fn awaits<E>(self, event: ProbeEvent<C, E>) -> bool {
        match self.state {
            MonitorState::Connecting => event is Connected || event is ConnectFailed,
            MonitorState::Probing(_) => event is Peeked || event is PeekFailed,
            MonitorState::Waiting(_) => event is Elapsed,
            MonitorState::Failed => false,
        }
    }

    /// The state that the event leads to.
    ///
    /// A probe connection that has ended is given up, and a new one is opened
    /// at once, without a delay and without a limit on how often. Only a failed
    /// attempt to connect makes the monitor fail.
    pub open spec fn next_state<E>(self, event: ProbeEvent<C, E>) -> MonitorState<C> {
        if !self.awaits(event) {
            self.state
        } else if event is ConnectFailed {
            MonitorState::Failed
        } else if event.shows_end() {
            MonitorState::Connecting
        } else if event.shows_life() {
            MonitorState::Waiting(*self.spec_probe().unwrap())
        } else if event is Elapsed {
            MonitorState::Probing(*self.spec_probe().unwrap())
        } else {
            MonitorState::Probing(event->Connected_0)
        }
    }

    /// The monitor after the event. The target never changes.
    pub open spec fn next<E>(self, event: ProbeEvent<C, E>) -> Monitor<C> {
        Monitor { target: self.target, state: self.next_state(event) }
    }

    /// What the monitor asks for after the event.
    pub open spec fn action<E>(self, event: ProbeEvent<C, E>) -> ProbeAction<E> {
        if !self.awaits(event) {
            ProbeAction::Nothing
        } else {
            match event {
                ProbeEvent::Connected(_) | ProbeEvent::Elapsed => ProbeAction::Peek,
                ProbeEvent::ConnectFailed(cause) => ProbeAction::Fail(
                    Failure { kind: Fatal::ProbeConnect, endpoint: self.target, cause },
                ),
                ProbeEvent::Peeked(_) | ProbeEvent::PeekFailed(_) => if event.shows_life() {
                    ProbeAction::Sleep(POLL_INTERVAL_MILLIS)
                } else {
                    ProbeAction::Connect(self.target)
                },
            }
        }
    }

    pub open spec fn spec_probe(&self) -> Option<&C> {
        match &self.state {
            MonitorState::Probing(probe) | MonitorState::Waiting(probe) => Some(probe),
            _ => None,
        }
    }

    /// A new monitor, and its first action: to open a probe connection to the
    /// target.
    pub fn start<E>(target: Endpoint) -> (started: (Monitor<C>, ProbeAction<E>))
        ensures
            started.0 == (Monitor { target, state: MonitorState::<C>::Connecting }),
            started.1 == ProbeAction::<E>::Connect(target),
    {
        (Monitor { target, state: MonitorState::Connecting }, ProbeAction::Connect(target))
    }

    /// The probe connection, while the monitor holds one.
    #[verifier::when_used_as_spec(spec_probe)]
    pub fn probe(&self) -> (probe: Option<&C>)
        ensures
            probe == self.spec_probe(),
    {
        match &self.state {
            MonitorState::Probing(probe) => Some(probe),
            MonitorState::Waiting(probe) => Some(probe),
            _ => None,
        }
    }

    /// Takes the event in, and answers with what to do next.
    ///
    /// An event that answers no step that the monitor is waiting for changes
    /// nothing, and is dropped with what it carries.
    pub fn step<E>(&mut self, event: ProbeEvent<C, E>) -> (action: ProbeAction<E>)
        ensures
            *final(self) == old(self).next(event),
            action == old(self).action(event),
    {
        let mut state = MonitorState::Failed;
        core::mem::swap(&mut self.state, &mut state);
        match (state, event) {
            (MonitorState::Connecting, ProbeEvent::Connected(probe)) => {
                self.state = MonitorState::Probing(probe);
                ProbeAction::Peek
            },
            (MonitorState::Connecting, ProbeEvent::ConnectFailed(cause)) => {
                ProbeAction::Fail(
                    Failure { kind: Fatal::ProbeConnect, endpoint: self.target, cause },
                )
            },
            (MonitorState::Probing(probe), ProbeEvent::Peeked(n)) => {
                if n > 0 {
                    self.state = MonitorState::Waiting(probe);
                    ProbeAction::Sleep(POLL_INTERVAL_MILLIS)
                } else {
                    self.state = MonitorState::Connecting;
                    ProbeAction::Connect(self.target)
                }
            },
            (MonitorState::Probing(_), ProbeEvent::PeekFailed(_)) => {
                self.state = MonitorState::Connecting;
                ProbeAction::Connect(self.target)
            },
            (MonitorState::Waiting(probe), ProbeEvent::Elapsed) => {
                self.state = MonitorState::Probing(probe);
                ProbeAction::Peek
            },
            (unchanged, _) => {
                self.state = unchanged;
                ProbeAction::Nothing
            },
        }
    }
}

/// The monitor fails on a failed attempt to connect, and on nothing else: a
/// probe connection that ends, or a check that fails, never ends the monitor.
pub proof fn lemma_monitor_fails_on_connect_failure_only<C, E>(
    monitor: Monitor<C>,
    event: ProbeEvent<C, E>,
)
    ensures
        monitor.action(event) is Fail <==> monitor.state is Connecting && event is ConnectFailed,
        monitor.action(event) is Fail <==> monitor.next(event).state is Failed
            && !(monitor.state is Failed),
        monitor.action(event) matches ProbeAction::Fail(failure) ==> failure.kind
            == Fatal::ProbeConnect && failure.endpoint == monitor.target
            && event == ProbeEvent::<C, E>::ConnectFailed(failure.cause),
{
}

/// There is no backoff. The monitor lets time pass only between two checks
/// of a probe connection that is alive, and then always the poll interval.
/// When a check shows the connection at its end, the very next step is a new
/// attempt to connect.
pub proof fn lemma_monitor_reconnects_without_delay<C, E>(
    monitor: Monitor<C>,
    event: ProbeEvent<C, E>,
)
    ensures
        monitor.action(event) matches ProbeAction::Sleep(millis) ==> millis
            == POLL_INTERVAL_MILLIS && monitor.state is Probing && event.shows_life(),
        monitor.state is Probing && event.shows_end() ==> monitor.action(event)
            == ProbeAction::<E>::Connect(monitor.target) && monitor.next(event).state
            is Connecting,
        monitor.state is Probing && event.shows_life() ==> monitor.action(event)
            == ProbeAction::<E>::Sleep(POLL_INTERVAL_MILLIS),
{
}

/// The monitor holds a probe connection exactly while it checks one or waits
/// for the next check.
pub proof fn lemma_probe_is_held_between_connect_and_end<C>(monitor: Monitor<C>)
    ensures
        monitor.probe() is Some <==> monitor.state is Probing || monitor.state is Waiting,
{
}

} // verus!
