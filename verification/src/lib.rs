//! Wire protocol and decision logic of a stateless server status query service.
//!
//! A client asks a running server what it is and how busy it is with a single
//! datagram, and gets a single datagram back. This crate holds everything about
//! that exchange that can be decided without a socket or a clock: the frame
//! layout in [`codec`], the server's and the client's decisions in
//! [`responder`] and [`requester`], the record being served in [`record`] and
//! [`source`], and the server's counters in [`metrics`].

pub mod codec;
pub mod error;
pub mod exchange;
pub mod metrics;
pub mod record;
pub mod requester;
pub mod responder;
pub mod source;
