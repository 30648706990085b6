use vstd::prelude::*;
use vstd::utf8::{decode_utf8, valid_utf8};
use crate::codec::{decode_message, TransportError};
use crate::endpoint::Endpoint;

verus! {

/// What `str::trim_end` leaves of a text: the text without its trailing
/// Unicode whitespace.
pub uninterp spec fn trim_end_of(s: Seq<char>) -> Seq<char>;

/// Relies on `str::trim_end`: trailing whitespace removed, which leaves a
/// prefix of the text.
#[verifier::external_body]
fn trim_end_str<'a>(s: &'a str) -> (r: &'a str)
    ensures
        r@ == trim_end_of(s@),
        r@.len() <= s@.len(),
        r@ == s@.subrange(0, r@.len() as int),
{
    s.trim_end()
}

/// Whether an already trimmed text is the expected handshake: exact,
/// case-sensitive equality.
pub fn handshake_matches(trimmed: &str, expected: &str) -> (r: bool)
    ensures
        r == (trimmed@ == expected@),
{
    let a: String = trimmed.to_owned();
    let b: String = expected.to_owned();
    a == b
}

/// Whether a received text presents the handshake: the text with trailing
/// whitespace removed equals the expected literal exactly.
pub fn check_handshake(received: &str, expected: &str) -> (r: bool)
    ensures
        r == (trim_end_of(received@) == expected@),
{
    let trimmed = trim_end_str(received);
    handshake_matches(trimmed, expected)
}

/// Whether the bytes read from a connection up to end of stream present the
/// handshake. Bytes that are not text never do.
pub open spec fn handshake_ok(bytes: Seq<u8>, expected: Seq<char>) -> bool {
    valid_utf8(bytes) && trim_end_of(decode_utf8(bytes)) == expected
}

/// Reads a whole message as the handshake validator does.
pub fn check_handshake_bytes(bytes: Vec<u8>, expected: &str) -> (r: bool)
    ensures
        r == handshake_ok(bytes@, expected@),
{
    match decode_message(bytes) {
        Ok(text) => check_handshake(text.as_str(), expected),
        Err(_) => false,
    }
}

/// Where the handshake validator stands.
#[derive(Clone, Copy, Debug, PartialEq, Eq, Structural)]
pub enum ValidatorPhase {
    /// The listening endpoint is not bound yet.
    Binding,
    /// Waiting for the next connection.
    Listening,
    /// A connection is open; its message is awaited.
    Reading,
    /// A connection presented the handshake: the handshake is done.
    Satisfied,
    /// The endpoint could not be bound: a fatal startup error.
    Failed,
}

/// What happened since the validator's last action.
#[derive(Clone, Debug, PartialEq, Eq)]
pub enum ValidatorEvent {
    Bound,
    BindFailed { cause: TransportError },
    Accepted,
    AcceptFailed { cause: TransportError },
    /// The bytes read from the connection up to end of stream.
    Received { bytes: Vec<u8> },
    ReceiveFailed { cause: TransportError },
}

/// What the validator asks its caller to do next.
#[derive(Clone, Copy, Debug, PartialEq, Eq, Structural)]
pub enum ValidatorAction {
    Bind { at: Endpoint },
    Accept,
    Receive,
    /// Stop accepting: the handshake is done.
    Finish,
    /// Give up: the process ends with an error.
    Abort,
}

/// The validator's phase after an event. An event that does not fit the phase
/// changes nothing.
pub open spec fn validator_next(phase: ValidatorPhase, expected: Seq<char>, ev: ValidatorEvent) -> ValidatorPhase {
    match phase {
        ValidatorPhase::Binding => match ev {
            ValidatorEvent::Bound => ValidatorPhase::Listening,
            ValidatorEvent::BindFailed { .. } => ValidatorPhase::Failed,
            _ => phase,
        },
        ValidatorPhase::Listening => match ev {
            ValidatorEvent::Accepted => ValidatorPhase::Reading,
            ValidatorEvent::AcceptFailed { .. } => ValidatorPhase::Listening,
            _ => phase,
        },
        ValidatorPhase::Reading => match ev {
            ValidatorEvent::Received { bytes } => if handshake_ok(bytes@, expected) {
                ValidatorPhase::Satisfied
            } else {
                ValidatorPhase::Listening
            },
            ValidatorEvent::ReceiveFailed { .. } => ValidatorPhase::Listening,
            _ => phase,
        },
        _ => phase,
    }
}

/// The action that a phase calls for.
pub open spec fn validator_action(phase: ValidatorPhase, listen: Endpoint) -> ValidatorAction {
    match phase {
        ValidatorPhase::Binding => ValidatorAction::Bind { at: listen },
        ValidatorPhase::Listening => ValidatorAction::Accept,
        ValidatorPhase::Reading => ValidatorAction::Receive,
        ValidatorPhase::Satisfied => ValidatorAction::Finish,
        ValidatorPhase::Failed => ValidatorAction::Abort,
    }
}

/// A listener that lets through the first connection presenting the
/// handshake; connections before it are rejected one by one.
pub struct HandshakeValidator {
    pub listen: Endpoint,
    pub expected: String,
    pub phase: ValidatorPhase,
}

impl HandshakeValidator {
    /// A validator that has yet to bind `listen`.
    pub fn new(listen: Endpoint, expected: String) -> (r: HandshakeValidator)
        ensures
            r.listen == listen,
            r.expected == expected,
            r.phase == ValidatorPhase::Binding,
    {
        HandshakeValidator { listen, expected, phase: ValidatorPhase::Binding }
    }

    /// The action the validator's phase calls for.
    pub fn next_action(&self) -> (r: ValidatorAction)
        ensures
            r == validator_action(self.phase, self.listen),
    {
        match self.phase {
            ValidatorPhase::Binding => ValidatorAction::Bind { at: self.listen },
            ValidatorPhase::Listening => ValidatorAction::Accept,
            ValidatorPhase::Reading => ValidatorAction::Receive,
            ValidatorPhase::Satisfied => ValidatorAction::Finish,
            ValidatorPhase::Failed => ValidatorAction::Abort,
        }
    }

    /// Takes in an event and returns the next action.
    pub fn on_event(&mut self, ev: ValidatorEvent) -> (r: ValidatorAction)
        ensures
            final(self).phase == validator_next(old(self).phase, old(self).expected@, ev),
            final(self).listen == old(self).listen,
            final(self).expected == old(self).expected,
            r == validator_action(final(self).phase, final(self).listen),
    {
        let next = match self.phase {
            ValidatorPhase::Binding => match ev {
                ValidatorEvent::Bound => ValidatorPhase::Listening,
                ValidatorEvent::BindFailed { .. } => ValidatorPhase::Failed,
                _ => ValidatorPhase::Binding,
            },
            ValidatorPhase::Listening => match ev {
                ValidatorEvent::Accepted => ValidatorPhase::Reading,
                ValidatorEvent::AcceptFailed { .. } => ValidatorPhase::Listening,
                _ => ValidatorPhase::Listening,
            },
            ValidatorPhase::Reading => match ev {
                ValidatorEvent::Received { bytes } => {
                    if check_handshake_bytes(bytes, self.expected.as_str()) {
                        ValidatorPhase::Satisfied
                    } else {
                        ValidatorPhase::Listening
                    }
                },
                ValidatorEvent::ReceiveFailed { .. } => ValidatorPhase::Listening,
                _ => ValidatorPhase::Reading,
            },
            ValidatorPhase::Satisfied => ValidatorPhase::Satisfied,
            ValidatorPhase::Failed => ValidatorPhase::Failed,
        };
        self.phase = next;
        self.next_action()
    }
}

/// A rejected attempt leaves the validator open: after wrong bytes, or a failed
/// read, the validator listens again, and a later connection that presents the
/// handshake passes it.
pub proof fn lemma_validator_open_after_rejection(
    expected: Seq<char>,
    bad: Vec<u8>,
    cause: TransportError,
    good: Vec<u8>,
)
    requires
        !handshake_ok(bad@, expected),
        handshake_ok(good@, expected),
    ensures
        validator_next(ValidatorPhase::Reading, expected, ValidatorEvent::Received { bytes: bad })
            == ValidatorPhase::Listening,
        validator_next(ValidatorPhase::Reading, expected, ValidatorEvent::ReceiveFailed { cause })
            == ValidatorPhase::Listening,
        validator_next(
            validator_next(ValidatorPhase::Listening, expected, ValidatorEvent::Accepted),
            expected,
            ValidatorEvent::Received { bytes: good },
        ) == ValidatorPhase::Satisfied,
{
}

/// The handshake is done exactly when the bytes read present it, and once
/// done it stays done whatever comes next.
pub proof fn lemma_validator_satisfied_only_on_handshake(expected: Seq<char>, bytes: Vec<u8>, ev: ValidatorEvent)
    ensures
        (validator_next(ValidatorPhase::Reading, expected, ValidatorEvent::Received { bytes })
            == ValidatorPhase::Satisfied) == handshake_ok(bytes@, expected),
        validator_next(ValidatorPhase::Satisfied, expected, ev) == ValidatorPhase::Satisfied,
{
}

} // verus!
