use vstd::prelude::*;
use vstd::string::StrSliceExecFns;
use vstd::utf8::{decode_utf8, encode_utf8, encode_utf8_decode_utf8, encode_utf8_valid_utf8, valid_utf8};

verus! {

/// Why a message could not be carried over a connection.
#[derive(Clone, Debug, PartialEq, Eq)]
pub enum TransportError {
    /// The stream failed; the text is the underlying cause.
    Io { cause: String },
    /// The bytes read up to end of stream are not UTF-8 text.
    InvalidText,
}

/// Relies on `String::from_utf8`: it succeeds exactly on valid UTF-8 and then
/// holds the characters that the bytes encode.
#[verifier::external_body]
fn string_from_utf8(bytes: Vec<u8>) -> (r: Option<String>)
    ensures
        r is Some <==> valid_utf8(bytes@),
        r is Some ==> r->Some_0@ == decode_utf8(bytes@),
{
    String::from_utf8(bytes).ok()
}

/// The bytes written for a message: its UTF-8 encoding, with nothing around
/// it. The end of the message is marked by closing the connection.
pub fn encode_message(text: &str) -> (r: Vec<u8>)
    ensures
        r@ == encode_utf8(text@),
{
    text.as_bytes_vec()
}

/// The message carried by everything read up to end of stream. An empty read
/// is the empty message.
pub fn decode_message(bytes: Vec<u8>) -> (r: Result<String, TransportError>)
    ensures
        valid_utf8(bytes@) <==> r is Ok,
        r is Ok ==> r->Ok_0@ == decode_utf8(bytes@),
        !valid_utf8(bytes@) ==> r == Err::<String, TransportError>(TransportError::InvalidText),
{
    match string_from_utf8(bytes) {
        Some(s) => Ok(s),
        None => Err(TransportError::InvalidText),
    }
}

/// A message that is encoded, sent and read back up to end of stream arrives
/// unchanged: the encoding is valid UTF-8 and decodes to the same characters.
pub proof fn lemma_message_round_trip(text: Seq<char>)
    ensures
        valid_utf8(encode_utf8(text)),
        decode_utf8(encode_utf8(text)) == text,
{
    encode_utf8_valid_utf8(text);
    encode_utf8_decode_utf8(text);
}

} // verus!
