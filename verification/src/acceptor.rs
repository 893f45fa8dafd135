//! The connection acceptor: it owns the listening socket and turns every
//! accepted connection into a session with the target.
//!
//! The acceptor is a state machine. Its caller performs what a directive
//! asks for, and hands back the event that tells how it went.

use vstd::prelude::*;
use crate::endpoint::{Endpoint, ServiceConfig};
use crate::outcome::{Failure, Fatal, Record, Unit};
use crate::relay::Session;

verus! {

/// What the acceptor is waiting for.
#[derive(Debug, PartialEq, Eq)]
pub enum AcceptorState<C> {
    /// The listening socket is being set up.
    Binding,
    /// An accept call is under way.
    Listening,
    /// A connection was accepted, and a connection to the target is being
    /// opened for it.
    Dialing { inbound: C },
    /// The acceptor has failed, and does nothing more.
    Stopped,
}

/// How a step that the acceptor asked for went.
#[derive(Debug, PartialEq, Eq)]
pub enum AcceptEvent<C, E> {
    /// The listening socket is ready.
    Bound,
    /// The listening socket could not be set up.
    BindFailed(E),
    /// The accept call returned a connection, from this peer.
    Accepted { inbound: C, peer: Endpoint },
    /// The accept call failed.
    AcceptFailed(E),
    /// The connection to the target is open.
    Dialed(C),
    /// The connection to the target could not be opened.
    DialFailed(E),
}

/// What the acceptor's caller is to do next.
#[derive(Debug, PartialEq, Eq)]
pub enum Directive<E> {
    /// Set up the listening socket on this endpoint. Where `v6_only` is set,
    /// the socket takes IPv6 traffic only, and is restricted so before it
    /// starts to accept.
    Bind { endpoint: Endpoint, v6_only: bool },
    /// Accept the next inbound connection.
    Accept,
    /// Open a new connection to this endpoint.
    Dial(Endpoint),
    /// End the service with this error.
    Stop(Failure<E>),
    /// Nothing: the event answered no step that the acceptor had asked for.
    Nothing,
}

/// The acceptor's answer to an event.
#[derive(Debug, PartialEq, Eq)]
pub struct Reaction<C, E> {
    /// What to report.
    pub record: Option<Record<E>>,
    /// A new session, to be relayed on its own, apart from the acceptor.
    pub dispatch: Option<Session<C>>,
    /// What to do next.
    pub next: Directive<E>,
}

/// The connection acceptor.
#[derive(Debug, PartialEq, Eq)]
pub struct Acceptor<C> {
    pub config: ServiceConfig,
    pub state: AcceptorState<C>,
}

impl<C> Acceptor<C> {
    /// Whether the event answers the step that the acceptor is waiting for.
    pub open spec fn awaits<E>(self, event: AcceptEvent<C, E>) -> bool {
        match self.state {
            AcceptorState::Binding => event is Bound || event is BindFailed,
            AcceptorState::Listening => event is Accepted || event is AcceptFailed,
            AcceptorState::Dialing { .. } => event is Dialed || event is DialFailed,
            AcceptorState::Stopped => false,
        }
    }

    /// The state that the event leads to.
    ///
    /// Setting up the listener and connecting to the target are the steps
    /// whose failure stops the acceptor. A failed accept call leaves it
    /// listening.
    pub open spec fn next_state<E>(self, event: AcceptEvent<C, E>) -> AcceptorState<C> {
        if !self.awaits(event) {
            self.state
        } else {
            match event {
                AcceptEvent::Bound => AcceptorState::Listening,
                AcceptEvent::Accepted { inbound, .. } => AcceptorState::Dialing { inbound },
                AcceptEvent::AcceptFailed(_) => AcceptorState::Listening,
                AcceptEvent::Dialed(_) => AcceptorState::Listening,
                AcceptEvent::BindFailed(_) | AcceptEvent::DialFailed(_) => AcceptorState::Stopped,
            }
        }
    }

    /// The acceptor after the event. The configuration never changes.
    pub open spec fn next<E>(self, event: AcceptEvent<C, E>) -> Acceptor<C> {
        Acceptor { config: self.config, state: self.next_state(event) }
    }

    /// What the event makes the acceptor report.
    pub open spec fn record<E>(self, event: AcceptEvent<C, E>) -> Option<Record<E>> {
        if !self.awaits(event) {
            None
        } else {
            match event {
                AcceptEvent::Accepted { peer, .. } => Some(Record::Accepted(peer)),
                AcceptEvent::AcceptFailed(cause) => Some(Record::AcceptFailed(cause)),
                _ => None,
            }
        }
    }

    /// The session that the event completes: the connection that was accepted
    /// last, with the connection to the target that was opened for it.
    pub open spec fn dispatch<E>(self, event: AcceptEvent<C, E>) -> Option<Session<C>> {
        match (self.state, event) {
            (AcceptorState::Dialing { inbound }, AcceptEvent::Dialed(target)) => Some(
                Session { inbound, target },
            ),
            _ => None,
        }
    }

    /// What the acceptor asks for after the event.
    pub open spec fn directive<E>(self, event: AcceptEvent<C, E>) -> Directive<E> {
        if !self.awaits(event) {
            Directive::Nothing
        } else {
            match event {
                AcceptEvent::Bound | AcceptEvent::AcceptFailed(_) | AcceptEvent::Dialed(_) => {
                    Directive::Accept
                },
                AcceptEvent::Accepted { .. } => Directive::Dial(self.config.target),
                AcceptEvent::BindFailed(cause) => Directive::Stop(
                    Failure { kind: Fatal::Bind, endpoint: self.config.listen, cause },
                ),
                AcceptEvent::DialFailed(cause) => Directive::Stop(
                    Failure { kind: Fatal::TargetConnect, endpoint: self.config.target, cause },
                ),
            }
        }
    }

    /// The acceptor's answer to the event.
    pub open spec fn reaction<E>(self, event: AcceptEvent<C, E>) -> Reaction<C, E> {
        Reaction {
            record: self.record(event),
            dispatch: self.dispatch(event),
            next: self.directive(event),
        }
    }

    /// A new acceptor, and its first directive: to set up the listening
    /// socket on the configured endpoint.
    pub fn start<E>(config: ServiceConfig) -> (started: (Acceptor<C>, Directive<E>))
        ensures
            started.0 == (Acceptor { config, state: AcceptorState::<C>::Binding }),
            started.1 == (Directive::<E>::Bind {
                endpoint: config.listen,
                v6_only: config.v6_only,
            }),
    {
        (
            Acceptor { config, state: AcceptorState::Binding },
            Directive::Bind { endpoint: config.listen, v6_only: config.v6_only },
        )
    }

    /// Takes the event in, and answers with what to report, what to relay and
    /// what to do next.
    ///
    /// An event that answers no step that the acceptor is waiting for changes
    /// nothing, and is dropped with what it carries.
    pub fn step<E>(&mut self, event: AcceptEvent<C, E>) -> (reaction: Reaction<C, E>)
        ensures
            *final(self) == old(self).next(event),
            reaction == old(self).reaction(event),
    {
        let mut state = AcceptorState::Stopped;
        core::mem::swap(&mut self.state, &mut state);
        match (state, event) {
            (AcceptorState::Binding, AcceptEvent::Bound) => {
                self.state = AcceptorState::Listening;
                Reaction { record: None, dispatch: None, next: Directive::Accept }
            },
            (AcceptorState::Binding, AcceptEvent::BindFailed(cause)) => {
                let failure = Failure { kind: Fatal::Bind, endpoint: self.config.listen, cause };
                Reaction { record: None, dispatch: None, next: Directive::Stop(failure) }
            },
            (AcceptorState::Listening, AcceptEvent::Accepted { inbound, peer }) => {
                self.state = AcceptorState::Dialing { inbound };
                Reaction {
                    record: Some(Record::Accepted(peer)),
                    dispatch: None,
                    next: Directive::Dial(self.config.target),
                }
            },
            (AcceptorState::Listening, AcceptEvent::AcceptFailed(cause)) => {
                self.state = AcceptorState::Listening;
                Reaction {
                    record: Some(Record::AcceptFailed(cause)),
                    dispatch: None,
                    next: Directive::Accept,
                }
            },
            (AcceptorState::Dialing { inbound }, AcceptEvent::Dialed(target)) => {
                self.state = AcceptorState::Listening;
                Reaction {
                    record: None,
                    dispatch: Some(Session { inbound, target }),
                    next: Directive::Accept,
                }
            },
            (AcceptorState::Dialing { .. }, AcceptEvent::DialFailed(cause)) => {
                let failure = Failure {
                    kind: Fatal::TargetConnect,
                    endpoint: self.config.target,
                    cause,
                };
                Reaction { record: None, dispatch: None, next: Directive::Stop(failure) }
            },
            (unchanged, _) => {
                self.state = unchanged;
                Reaction { record: None, dispatch: None, next: Directive::Nothing }
            },
        }
    }
}

/// The acceptor stops on a failure to set up the listener or to connect to
/// the target, and on nothing else; and when it stops it names the endpoint
/// that could not be had and the cause that the event gave.
pub proof fn lemma_acceptor_stops_on_bind_or_dial_failure<C, E>(
    acceptor: Acceptor<C>,
    event: AcceptEvent<C, E>,
)
    ensures
        acceptor.directive(event) is Stop <==> acceptor.awaits(event) && (event is BindFailed
            || event is DialFailed),
        acceptor.directive(event) is Stop <==> acceptor.next(event).state is Stopped
            && !(acceptor.state is Stopped),
        acceptor.directive(event) matches Directive::Stop(failure) ==> {
            &&& failure.kind.origin() == Unit::Acceptor
            &&& event matches AcceptEvent::BindFailed(cause) ==> failure == (Failure {
                kind: Fatal::Bind,
                endpoint: acceptor.config.listen,
                cause,
            })
            &&& event matches AcceptEvent::DialFailed(cause) ==> failure == (Failure {
                kind: Fatal::TargetConnect,
                endpoint: acceptor.config.target,
                cause,
            })
        },
{
}

/// A session is dispatched exactly when the target is reached for a
/// connection that waits for it, and the acceptor holds an accepted
/// connection only in the meantime: it is listening again as soon as the
/// session is on its way.
pub proof fn lemma_session_is_dispatched_when_target_is_reached<C, E>(
    acceptor: Acceptor<C>,
    event: AcceptEvent<C, E>,
)
    ensures
        acceptor.dispatch(event) is Some <==> acceptor.state is Dialing && event is Dialed,
        acceptor.dispatch(event) is Some ==> acceptor.next(event).state is Listening
            && acceptor.directive(event) is Accept,
{
}

} // verus!
