use vstd::prelude::*;
use vstd::utf8::encode_utf8;
use crate::codec::{encode_message, TransportError};
use crate::endpoint::Endpoint;

verus! {

/// Where the responder stands.
#[derive(Clone, Copy, Debug, PartialEq, Eq, Structural)]
pub enum ResponderPhase {
    /// The listening endpoint is not bound yet.
    Binding,
    /// Accepting connections, for as long as the process runs.
    Accepting,
    /// The endpoint could not be bound: a fatal startup error.
    Failed,
}

/// What happened since the responder's last action.
#[derive(Clone, Debug, PartialEq, Eq)]
pub enum ResponderEvent {
    Bound,
    BindFailed { cause: TransportError },
    Accepted,
    AcceptFailed { cause: TransportError },
    Sent,
    SendFailed { cause: TransportError },
}

/// What the responder asks its caller to do next.
#[derive(Clone, Copy, Debug, PartialEq, Eq, Structural)]
pub enum ResponderAction {
    Bind { at: Endpoint },
    Accept,
    /// Write the reply's bytes to the connection just accepted and close it;
    /// the write may run on its own while the next connection is accepted.
    Reply,
    /// Give up: the process ends with an error.
    Abort,
}

/// The responder's phase after an event. Only a bind failure is fatal: once
/// accepting, no failure of an accept or of a write stops the loop.
pub open spec fn responder_next(phase: ResponderPhase, ev: ResponderEvent) -> ResponderPhase {
    match phase {
        ResponderPhase::Binding => match ev {
            ResponderEvent::Bound => ResponderPhase::Accepting,
            ResponderEvent::BindFailed { .. } => ResponderPhase::Failed,
            _ => phase,
        },
        _ => phase,
    }
}

/// The action that a phase calls for.
pub open spec fn responder_action(phase: ResponderPhase, listen: Endpoint) -> ResponderAction {
    match phase {
        ResponderPhase::Binding => ResponderAction::Bind { at: listen },
        ResponderPhase::Accepting => ResponderAction::Accept,
        ResponderPhase::Failed => ResponderAction::Abort,
    }
}

/// The action that follows an event: a connection accepted while accepting
/// gets the reply; otherwise the new phase decides.
pub open spec fn responder_output(
    phase: ResponderPhase,
    ev: ResponderEvent,
    listen: Endpoint,
) -> ResponderAction {
    if phase == ResponderPhase::Accepting && ev == ResponderEvent::Accepted {
        ResponderAction::Reply
    } else {
        responder_action(responder_next(phase, ev), listen)
    }
}

/// A listener that answers every connection with one fixed message.
pub struct Responder {
    pub listen: Endpoint,
    pub reply: String,
    pub phase: ResponderPhase,
}

impl Responder {
    /// A responder that has yet to bind `listen`.
    pub fn new(listen: Endpoint, reply: String) -> (r: Responder)
        ensures
            r.listen == listen,
            r.reply == reply,
            r.phase == ResponderPhase::Binding,
    {
        Responder { listen, reply, phase: ResponderPhase::Binding }
    }

    /// The action the responder's phase calls for.
    pub fn next_action(&self) -> (r: ResponderAction)
        ensures
            r == responder_action(self.phase, self.listen),
    {
        match self.phase {
            ResponderPhase::Binding => ResponderAction::Bind { at: self.listen },
            ResponderPhase::Accepting => ResponderAction::Accept,
            ResponderPhase::Failed => ResponderAction::Abort,
        }
    }

    /// The bytes written to each accepted connection.
    pub fn reply_bytes(&self) -> (r: Vec<u8>)
        ensures
            r@ == encode_utf8(self.reply@),
    {
        encode_message(self.reply.as_str())
    }

    /// Takes in an event and returns the next action.
    pub fn on_event(&mut self, ev: ResponderEvent) -> (r: ResponderAction)
        ensures
            final(self).phase == responder_next(old(self).phase, ev),
            final(self).listen == old(self).listen,
            final(self).reply == old(self).reply,
            r == responder_output(old(self).phase, ev, old(self).listen),
    {
        let accepted = match ev {
            ResponderEvent::Accepted => true,
            _ => false,
        };
        let was_accepting = self.phase == ResponderPhase::Accepting;
        let next = match self.phase {
            ResponderPhase::Binding => match ev {
                ResponderEvent::Bound => ResponderPhase::Accepting,
                ResponderEvent::BindFailed { .. } => ResponderPhase::Failed,
                _ => ResponderPhase::Binding,
            },
            ResponderPhase::Accepting => ResponderPhase::Accepting,
            ResponderPhase::Failed => ResponderPhase::Failed,
        };
        self.phase = next;
        if was_accepting && accepted {
            ResponderAction::Reply
        } else {
            self.next_action()
        }
    }
}

} // verus!
