use vstd::prelude::*;
use vstd::utf8::{decode_utf8, encode_utf8, valid_utf8};
use crate::codec::{decode_message, lemma_message_round_trip, TransportError};
use crate::endpoint::{Delay, Endpoint};
use crate::table::{key_of, recorded, KeyView, ResponseTable};

verus! {

/// Where the probe of one target stands.
#[derive(Clone, Copy, Debug, PartialEq, Eq, Structural)]
pub enum ProbePhase {
    /// About to open a connection to the target.
    Connecting,
    /// Connected; `peer` is the address the connection reports for the
    /// other side, which keys what is read.
    Receiving { peer: Endpoint },
    /// Waiting out the delay before the next probe.
    Sleeping,
    /// A stop was asked for; nothing more is done.
    Stopped,
}

/// What happened since the probe's last action.
#[derive(Clone, Debug, PartialEq, Eq)]
pub enum ProbeEvent {
    Connected { peer: Endpoint },
    ConnectFailed { cause: TransportError },
    /// The bytes read from the connection up to end of stream.
    Received { bytes: Vec<u8> },
    ReceiveFailed { cause: TransportError },
    Slept,
}

/// What the probe asks its caller to do next.
#[derive(Clone, Copy, Debug, PartialEq, Eq, Structural)]
pub enum ProbeAction {
    Connect { target: Endpoint },
    Receive,
    Sleep { delay: Delay },
    Halt,
}

/// The probe's phase after an event. A failure never retries at once: it
/// goes to the delay. An event that does not fit the phase changes nothing.
pub open spec fn probe_next(phase: ProbePhase, stop: bool, ev: ProbeEvent) -> ProbePhase {
    match phase {
        ProbePhase::Connecting => match ev {
            ProbeEvent::Connected { peer } => ProbePhase::Receiving { peer },
            ProbeEvent::ConnectFailed { .. } => ProbePhase::Sleeping,
            _ => phase,
        },
        ProbePhase::Receiving { .. } => match ev {
            ProbeEvent::Received { .. } => ProbePhase::Sleeping,
            ProbeEvent::ReceiveFailed { .. } => ProbePhase::Sleeping,
            _ => phase,
        },
        ProbePhase::Sleeping => match ev {
            ProbeEvent::Slept => if stop { ProbePhase::Stopped } else { ProbePhase::Connecting },
            _ => phase,
        },
        ProbePhase::Stopped => phase,
    }
}

/// The pair that an event adds to the table, if any: a whole text message
/// read from a connection, keyed by the connection's peer.
pub open spec fn probe_record(phase: ProbePhase, ev: ProbeEvent) -> Option<KeyView> {
    match phase {
        ProbePhase::Receiving { peer } => match ev {
            ProbeEvent::Received { bytes } => if valid_utf8(bytes@) {
                Some(key_of(peer, decode_utf8(bytes@)))
            } else {
                None
            },
            _ => None,
        },
        _ => None,
    }
}

/// The table after an event.
pub open spec fn table_after(m: Map<KeyView, u64>, phase: ProbePhase, ev: ProbeEvent) -> Map<KeyView, u64> {
    match probe_record(phase, ev) {
        Some(k) => recorded(m, k),
        None => m,
    }
}

/// The action that a phase calls for.
pub open spec fn probe_action(phase: ProbePhase, target: Endpoint, delay: Delay) -> ProbeAction {
    match phase {
        ProbePhase::Connecting => ProbeAction::Connect { target },
        ProbePhase::Receiving { .. } => ProbeAction::Receive,
        ProbePhase::Sleeping => ProbeAction::Sleep { delay },
        ProbePhase::Stopped => ProbeAction::Halt,
    }
}

/// The repeated probe of one target: connect, read one message, count it,
/// wait, and again, until a stop is asked for.
pub struct ProbeTask {
    pub target: Endpoint,
    pub delay: Delay,
    pub phase: ProbePhase,
    pub stop_requested: bool,
}

impl ProbeTask {
    /// A probe of `target` that is about to connect.
    pub fn new(target: Endpoint, delay: Delay) -> (r: ProbeTask)
        ensures
            r.target == target,
            r.delay == delay,
            r.phase == ProbePhase::Connecting,
            !r.stop_requested,
    {
        ProbeTask { target, delay, phase: ProbePhase::Connecting, stop_requested: false }
    }

    /// The action the probe's phase calls for.
    pub fn next_action(&self) -> (r: ProbeAction)
        ensures
            r == probe_action(self.phase, self.target, self.delay),
    {
        match self.phase {
            ProbePhase::Connecting => ProbeAction::Connect { target: self.target },
            ProbePhase::Receiving { .. } => ProbeAction::Receive,
            ProbePhase::Sleeping => ProbeAction::Sleep { delay: self.delay },
            ProbePhase::Stopped => ProbeAction::Halt,
        }
    }

    /// Asks the probe to stop before its next connection attempt. A probe
    /// that is about to connect stops at once; one that is connected
    /// finishes its read and its delay first.
    pub fn request_stop(&mut self)
        ensures
            final(self).stop_requested,
            final(self).target == old(self).target,
            final(self).delay == old(self).delay,
            final(self).phase == (if old(self).phase == ProbePhase::Connecting {
                ProbePhase::Stopped
            } else {
                old(self).phase
            }),
    {
        self.stop_requested = true;
        if self.phase == ProbePhase::Connecting {
            self.phase = ProbePhase::Stopped;
        }
    }

    /// Takes in an event, counts a message read in full in `table`, and
    /// returns the next action. The table is touched only after the read.
    pub fn on_event(&mut self, ev: ProbeEvent, table: &mut ResponseTable) -> (r: ProbeAction)
        ensures
            final(self).phase == probe_next(old(self).phase, old(self).stop_requested, ev),
            final(self).target == old(self).target,
            final(self).delay == old(self).delay,
            final(self).stop_requested == old(self).stop_requested,
            final(table)@ == table_after(old(table)@, old(self).phase, ev),
            r == probe_action(final(self).phase, final(self).target, final(self).delay),
    {
        let next = match self.phase {
            ProbePhase::Connecting => match ev {
                ProbeEvent::Connected { peer } => ProbePhase::Receiving { peer },
                ProbeEvent::ConnectFailed { .. } => ProbePhase::Sleeping,
                _ => ProbePhase::Connecting,
            },
            ProbePhase::Receiving { peer } => match ev {
                ProbeEvent::Received { bytes } => {
                    match decode_message(bytes) {
                        Ok(msg) => table.record(peer, msg.as_str()),
                        Err(_) => {},
                    }
                    ProbePhase::Sleeping
                },
                ProbeEvent::ReceiveFailed { .. } => ProbePhase::Sleeping,
                _ => ProbePhase::Receiving { peer },
            },
            ProbePhase::Sleeping => match ev {
                ProbeEvent::Slept => if self.stop_requested {
                    ProbePhase::Stopped
                } else {
                    ProbePhase::Connecting
                },
                _ => ProbePhase::Sleeping,
            },
            ProbePhase::Stopped => ProbePhase::Stopped,
        };
        self.phase = next;
        self.next_action()
    }
}

/// A failed connection attempt counts nothing and leads to the same delay as
/// a successful probe: the table is left as it was, and another target's
/// probe, which has its own task, sees neither a change nor a wait.
pub proof fn lemma_connect_failure_isolated(
    m: Map<KeyView, u64>,
    stop: bool,
    cause: TransportError,
    target: Endpoint,
    delay: Delay,
)
    ensures
        table_after(m, ProbePhase::Connecting, ProbeEvent::ConnectFailed { cause }) == m,
        probe_next(ProbePhase::Connecting, stop, ProbeEvent::ConnectFailed { cause })
            == ProbePhase::Sleeping,
        probe_action(ProbePhase::Sleeping, target, delay) == (ProbeAction::Sleep { delay }),
{
}

/// A reply read in full is counted as sent: when the bytes are the encoding of
/// a reply text, the pair counted is the peer with exactly that text.
pub proof fn lemma_reply_counted_verbatim(peer: Endpoint, reply: Seq<char>, bytes: Vec<u8>)
    requires
        bytes@ == encode_utf8(reply),
    ensures
        probe_record(ProbePhase::Receiving { peer }, ProbeEvent::Received { bytes })
            == Some(key_of(peer, reply)),
{
    lemma_message_round_trip(reply);
}

} // verus!
