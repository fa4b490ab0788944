//! Decoding of the byte chunks read from a peer.

use vstd::prelude::*;
use vstd::utf8::*;

verus! {

#[verifier::external_type_specification]
#[verifier::external_body]
pub struct ExFromUtf8Error(std::string::FromUtf8Error);

/// Calls `String::from_utf8`. As std documents it, the call succeeds exactly
/// when the bytes are valid UTF-8, and the string then holds the characters
/// that the bytes encode. Nothing is said of the error value beyond that it
/// comes back.
#[verifier::external_body]
fn string_from_utf8(bytes: Vec<u8>) -> (r: Result<String, std::string::FromUtf8Error>)
    ensures
        r is Ok <==> valid_utf8(bytes@),
        r matches Ok(s) ==> s@ == decode_utf8(bytes@),
{
    String::from_utf8(bytes)
}

/// What one read from a peer amounts to.
#[derive(Debug)]
pub enum Incoming {
    /// The read returned no bytes: the peer closed its side.
    Closed,
    /// The bytes were valid UTF-8 and decode to this text.
    Text(String),
    /// The bytes were not valid UTF-8.
    Malformed(std::string::FromUtf8Error),
}

/// Classifies the bytes of one read: an empty read means the peer is gone,
/// otherwise the bytes are decoded as UTF-8.
pub fn decode_incoming(received: Vec<u8>) -> (r: Incoming)
    ensures
        r is Closed <==> received@.len() == 0,
        r is Text <==> received@.len() > 0 && valid_utf8(received@),
        r is Malformed <==> received@.len() > 0 && !valid_utf8(received@),
        r matches Incoming::Text(s) ==> s@ == decode_utf8(received@) && encode_utf8(s@) == received@,
{
    if received.len() == 0 {
        return Incoming::Closed;
    }
    let ghost bytes = received@;
    match string_from_utf8(received) {
        Ok(s) => {
            proof {
                decode_utf8_encode_utf8(bytes);
            }
            Incoming::Text(s)
        },
        Err(e) => Incoming::Malformed(e),
    }
}

/// The characters of the command that asks the server to end a session.
pub open spec fn close_command() -> Seq<char> {
    seq!['c', 'l', 'o', 's', 'e']
}

/// Tells whether a decoded message is exactly the close command.
pub fn is_close_command(message: &String) -> (r: bool)
    ensures
        r == (message@ == close_command()),
{
    let close = "close".to_owned();
    proof {
        reveal_strlit("close");
        assert(close@ =~= close_command());
    }
    *message == close
}

} // verus!
