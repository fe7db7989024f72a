//! Verified core of a loopback TCP port forwarder.
//!
//! The forwarder listens on a fixed loopback address and, for every inbound
//! connection, opens a connection to a configured destination port and relays
//! bytes in both directions until the streams end.
//!
//! This crate holds the decisions of that program as pure, verified functions:
//! which addresses are used, how one relay moves through its life cycle and
//! which connections it owns in each phase, and how the listener reacts to
//! what `bind` and `accept` report. Sockets, tasks and the byte copy itself
//! belong to the program that drives these functions.

pub mod address;
pub mod relay;
pub mod acceptor;
pub mod forwarder;
