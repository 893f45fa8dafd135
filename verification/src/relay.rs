//! The relay of one session: bytes are copied both ways between the two
//! connections until one of the two copies stops, and then both connections
//! are released.
//!
//! The copying itself is the caller's. The relay holds the session while it
//! lasts, and decides what follows when a copy stops.

use vstd::prelude::*;
use crate::outcome::Record;

verus! {

/// One accepted connection paired with the connection to the target that was
/// opened for it. A session owns both for as long as it lasts.
#[derive(Debug, PartialEq, Eq)]
pub struct Session<C> {
    pub inbound: C,
    pub target: C,
}

/// One of the two ways in which a session's bytes flow.
#[derive(Clone, Copy, Debug, PartialEq, Eq, Structural)]
pub enum Direction {
    InboundToTarget,
    TargetToInbound,
}

/// The end of one of the two copies of a session: the direction that stopped,
/// and either the number of bytes it had moved when it reached the end of its
/// stream, or the error that broke it off.
#[derive(Debug, PartialEq, Eq)]
pub struct CopyEnd<E> {
    pub direction: Direction,
    pub result: Result<u64, E>,
}

/// The relay of one session.
#[derive(Debug, PartialEq, Eq)]
pub enum Relay<C> {
    /// Both copies run. The session owns the two connections.
    Copying(Session<C>),
    /// The session is over.
    Closed,
}

/// The relay's answer to the end of a copy.
#[derive(Debug, PartialEq, Eq)]
pub struct RelayEnd<C, E> {
    /// The session that is over: both of its connections are to be closed.
    pub closed: Option<Session<C>>,
    /// What to report.
    pub record: Option<Record<E>>,
}

impl<C> Relay<C> {
    pub open spec fn spec_session(&self) -> Option<&Session<C>> {
        match self {
            Relay::Copying(session) => Some(session),
            Relay::Closed => None,
        }
    }

    /// The relay's answer to the end of a copy.
    ///
    /// Whichever copy stops first, and however it stops, ends the session as
    /// a whole: neither connection outlives the other. An error is reported
    /// and goes no further.
    pub open spec fn reaction<E>(self, end: CopyEnd<E>) -> RelayEnd<C, E> {
        match self {
            Relay::Copying(session) => RelayEnd {
                closed: Some(session),
                record: match end.result {
                    Ok(_) => None,
                    Err(cause) => Some(Record::RelayFailed(cause)),
                },
            },
            Relay::Closed => RelayEnd { closed: None, record: None },
        }
    }

    /// The relay of a new session.
    pub fn start(session: Session<C>) -> (relay: Relay<C>)
        ensures
            relay == Relay::Copying(session),
    {
        Relay::Copying(session)
    }

    /// The session, while it lasts.
    #[verifier::when_used_as_spec(spec_session)]
    pub fn session(&self) -> (session: Option<&Session<C>>)
        ensures
            session == self.spec_session(),
    {
        match self {
            Relay::Copying(session) => Some(session),
            Relay::Closed => None,
        }
    }

    /// Takes in the end of a copy, and closes the relay.
    ///
    /// On a relay that is closed already this does nothing, and answers with
    /// nothing to close and nothing to report.
    pub fn finish<E>(&mut self, end: CopyEnd<E>) -> (reaction: RelayEnd<C, E>)
        ensures
            *final(self) == Relay::<C>::Closed,
            reaction == old(self).reaction(end),
    {
        let mut relay = Relay::Closed;
        core::mem::swap(self, &mut relay);
        match relay {
            Relay::Copying(session) => {
                let record = match end.result {
                    Ok(_) => None,
                    Err(cause) => Some(Record::RelayFailed(cause)),
                };
                RelayEnd { closed: Some(session), record }
            },
            Relay::Closed => RelayEnd { closed: None, record: None },
        }
    }
}

/// No session is left half open. Whichever of the two copies stops, and
/// whether it stops at the end of its stream or with an error, the relay
/// gives up the whole session, with both of its connections, and the two
/// directions are treated alike.
pub proof fn lemma_either_end_closes_both<C, E>(session: Session<C>, end: CopyEnd<E>)
    ensures
        Relay::Copying(session).reaction(end).closed == Some(session),
        Relay::Copying(session).reaction(end).closed->0.inbound == session.inbound,
        Relay::Copying(session).reaction(end).closed->0.target == session.target,
        Relay::Copying(session).reaction(end) == Relay::Copying(session).reaction(
            CopyEnd { direction: Direction::InboundToTarget, result: end.result },
        ),
        Relay::Copying(session).reaction(end) == Relay::Copying(session).reaction(
            CopyEnd { direction: Direction::TargetToInbound, result: end.result },
        ),
{
}

} // verus!
