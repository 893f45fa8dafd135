//! Control core of a single-target TCP port forwarder.
//!
//! The forwarder listens on one address and relays every connection that it
//! accepts to one fixed target, copying bytes both ways until either side is
//! done. Beside that it keeps a probe connection to the target open, and
//! gives up as a whole as soon as the target cannot be connected to.
//!
//! This crate holds the decisions, and leaves sockets, timers and tasks to
//! its caller. Each of the three components is a state machine that is told
//! what happened and answers with what to do next:
//!
//! - [`monitor`]: the liveness monitor,
//! - [`acceptor`]: the connection acceptor,
//! - [`relay`]: the relay of one session.
//!
//! [`service`] puts them side by side and proves what holds of every run;
//! [`outcome`] has the errors, the records and the result of the process, and
//! [`endpoint`] the addresses and the startup parameters.

pub mod acceptor;
pub mod endpoint;
pub mod monitor;
pub mod outcome;
pub mod relay;
pub mod service;
