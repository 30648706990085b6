//! Core of a TCP probing harness: a message codec, a concurrent table of
//! observed responses, and the decision logic of the prober, the responder
//! and the handshake validator. Sockets, threads, sleeping and logging are left to
//! the caller, which reports what happened as events and performs the actions
//! handed back.

pub mod endpoint;
pub mod codec;
pub mod table;
pub mod handshake;
pub mod prober;
pub mod responder;
