//! The echo protocol that the server runs on each connection: every message
//! that a peer sends is written back unchanged, until the peer closes the
//! connection, sends `close`, sends bytes that are not UTF-8, or an I/O error
//! occurs.

use vstd::prelude::*;
use vstd::utf8::*;

use crate::message::{close_command, decode_incoming, is_close_command, Incoming};

verus! {

#[verifier::external_type_specification]
#[verifier::external_body]
pub struct ExIoError(std::io::Error);

/// Why a session ended with an error.
#[derive(Debug)]
pub enum EchoApplicationError {
    /// Reading from or writing to the peer failed.
    IOError(std::io::Error),
    /// The peer sent bytes that are not valid UTF-8.
    DecodeError(std::string::FromUtf8Error),
}

/// The text that names an I/O failure.
pub open spec fn io_error_text() -> Seq<char> {
    seq!['I', 'O', ' ', 'e', 'r', 'r', 'o', 'r']
}

/// The text that names a decoding failure.
pub open spec fn decode_error_text() -> Seq<char> {
    seq!['U', 'T', 'F', '-', '8', ' ', 'f', 'o', 'r', 'm', 'a', 't', ' ', 'e', 'r', 'r', 'o', 'r']
}

impl EchoApplicationError {
    /// The text of the error: "IO error" or "UTF-8 format error".
    pub fn to_string(&self) -> (r: String)
        ensures
            r@ == match self {
                EchoApplicationError::IOError(_) => io_error_text(),
                EchoApplicationError::DecodeError(_) => decode_error_text(),
            },
    {
        match self {
            EchoApplicationError::IOError(_) => {
                let text = "IO error".to_owned();
                proof {
                    reveal_strlit("IO error");
                    assert(text@ =~= io_error_text());
                }
                text
            },
            EchoApplicationError::DecodeError(_) => {
                let text = "UTF-8 format error".to_owned();
                proof {
                    reveal_strlit("UTF-8 format error");
                    assert(text@ =~= decode_error_text());
                }
                text
            },
        }
    }
}

/// One connection of the echo server: the two halves of its stream and the
/// number under which the server registered it.
#[derive(Debug)]
pub struct EchoApplication<R, W> {
    reader: R,
    writer: W,
    index: u8,
}

/// What the connection's driver reports back after doing what it was asked.
#[derive(Debug)]
pub enum EchoEvent {
    /// A read returned these bytes (none when the peer closed its side).
    Received(Vec<u8>),
    /// A read failed.
    ReadFailed(std::io::Error),
    /// The reply was written in full.
    Sent,
    /// Writing the reply failed.
    SendFailed(std::io::Error),
}

/// What the connection's driver is to do next.
#[derive(Debug)]
pub enum EchoAction {
    /// Read the next chunk from the peer.
    ReadNext,
    /// Write the UTF-8 bytes of this message back to the peer.
    Echo(String),
    /// End the session successfully: the peer closed its side.
    PeerClosed,
    /// End the session successfully: the peer sent the close command.
    CloseRequested,
    /// End the session with this error.
    Fail(EchoApplicationError),
}

impl<R, W> EchoApplication<R, W> {
    pub closed spec fn reader_spec(&self) -> R {
        self.reader
    }

    pub closed spec fn writer_spec(&self) -> W {
        self.writer
    }

    pub closed spec fn index_spec(&self) -> u8 {
        self.index
    }

    /// Wraps the two halves of a connection under its number.
    pub fn new(reader: R, writer: W, index: u8) -> (r: Self)
        ensures
            r.reader_spec() == reader,
            r.writer_spec() == writer,
            r.index_spec() == index,
    {
        EchoApplication { reader, writer, index }
    }

    /// The number of the connection.
    pub fn index(&self) -> (r: u8)
        ensures
            r == self.index_spec(),
    {
        self.index
    }

    /// Lends out both halves of the stream, for the driver to read and write.
    pub fn io(&mut self) -> (r: (&mut R, &mut W))
        ensures
            *r.0 == old(self).reader_spec(),
            *r.1 == old(self).writer_spec(),
            final(self).reader_spec() == *final(r.0),
            final(self).writer_spec() == *final(r.1),
            final(self).index_spec() == old(self).index_spec(),
    {
        (&mut self.reader, &mut self.writer)
    }

    /// Whether `action` is this connection's answer to `event`. The answer
    /// depends on the event alone, not on the connection's number or stream.
    pub open spec fn answers(&self, event: EchoEvent, action: EchoAction) -> bool {
        match event {
            EchoEvent::Received(bytes) => reply_to(bytes@, action),
            EchoEvent::ReadFailed(e) => action matches EchoAction::Fail(
                EchoApplicationError::IOError(err),
            ) && err == e,
            EchoEvent::Sent => action is ReadNext,
            EchoEvent::SendFailed(e) => action matches EchoAction::Fail(
                EchoApplicationError::IOError(err),
            ) && err == e,
        }
    }

    /// Decides the next step of the session from what the driver reports.
    ///
    /// A chunk that is valid UTF-8 and is not the close command is echoed
    /// back unchanged; an empty chunk or the close command end the session
    /// successfully; bytes that are not UTF-8 end it with a decode error; a
    /// failed read or write ends it with that I/O error; after a complete
    /// write the next chunk is read.
    pub fn handle(&self, event: EchoEvent) -> (action: EchoAction)
        ensures
            self.answers(event, action),
            event matches EchoEvent::Received(bytes) ==> (action is PeerClosed <==> bytes@.len()
                == 0),
            event matches EchoEvent::Received(bytes) ==> (bytes@.len() > 0 && !valid_utf8(bytes@)
                <==> action matches EchoAction::Fail(EchoApplicationError::DecodeError(_))),
            event matches EchoEvent::Received(bytes) ==> (action is CloseRequested <==> (bytes@.len()
                > 0 && valid_utf8(bytes@) && decode_utf8(bytes@) == close_command())),
            event matches EchoEvent::Received(bytes) ==> (action matches EchoAction::Echo(m) <==> (
            bytes@.len() > 0 && valid_utf8(bytes@) && decode_utf8(bytes@) != close_command())),
            event matches EchoEvent::Received(bytes) ==> (action matches EchoAction::Echo(m)
                ==> encode_utf8(m@) == bytes@),
    {
        match event {
            EchoEvent::Received(bytes) => {
                match decode_incoming(bytes) {
                    Incoming::Closed => EchoAction::PeerClosed,
                    Incoming::Malformed(e) => EchoAction::Fail(
                        EchoApplicationError::DecodeError(e),
                    ),
                    Incoming::Text(message) => {
                        if is_close_command(&message) {
                            EchoAction::CloseRequested
                        } else {
                            EchoAction::Echo(message)
                        }
                    },
                }
            },
            EchoEvent::ReadFailed(e) => EchoAction::Fail(EchoApplicationError::IOError(e)),
            EchoEvent::Sent => EchoAction::ReadNext,
            EchoEvent::SendFailed(e) => EchoAction::Fail(EchoApplicationError::IOError(e)),
        }
    }
}

/// A chunk that the server echoes back: non-empty, valid UTF-8, and not the
/// close command.
pub open spec fn is_echoed(bytes: Seq<u8>) -> bool {
    &&& bytes.len() > 0
    &&& valid_utf8(bytes)
    &&& decode_utf8(bytes) != close_command()
}

/// The action that answers a received chunk.
pub open spec fn reply_to(bytes: Seq<u8>, action: EchoAction) -> bool {
    if bytes.len() == 0 {
        action is PeerClosed
    } else if !valid_utf8(bytes) {
        action matches EchoAction::Fail(EchoApplicationError::DecodeError(_))
    } else if decode_utf8(bytes) == close_command() {
        action is CloseRequested
    } else {
        action matches EchoAction::Echo(message) && message@ == decode_utf8(bytes)
            && encode_utf8(message@) == bytes
    }
}

/// Reply law: a chunk is answered with `PeerClosed` exactly when it is
/// empty; a non-empty chunk that is not valid UTF-8, of any length, is
/// answered with a decode error and only such a chunk is; the close command
/// and only it gives `CloseRequested`; every other chunk is echoed back as
/// the very bytes received.
pub proof fn lemma_reply_kinds(bytes: Seq<u8>, action: EchoAction)
    requires
        reply_to(bytes, action),
    ensures
        action is PeerClosed <==> bytes.len() == 0,
        action matches EchoAction::Fail(EchoApplicationError::DecodeError(_)) <==> (bytes.len() > 0
            && !valid_utf8(bytes)),
        action is CloseRequested <==> (bytes.len() > 0 && valid_utf8(bytes) && decode_utf8(bytes)
            == close_command()),
        action is Echo <==> (bytes.len() > 0 && valid_utf8(bytes) && decode_utf8(bytes)
            != close_command()),
        action matches EchoAction::Echo(m) ==> encode_utf8(m@) == bytes,
        !(action is ReadNext),
        !(action matches EchoAction::Fail(EchoApplicationError::IOError(_))),
{
}

/// The bytes of the close command as a peer sends them.
pub open spec fn close_command_bytes() -> Seq<u8> {
    seq![99u8, 108u8, 111u8, 115u8, 101u8]
}

/// Echo law: whatever the server writes back in answer to a chunk is, byte
/// for byte, the chunk it received, and every chunk that is non-empty, valid
/// UTF-8 and not the close command is written back.
pub proof fn lemma_echo_returns_what_was_received(bytes: Seq<u8>, action: EchoAction)
    requires
        reply_to(bytes, action),
    ensures
        action matches EchoAction::Echo(message) ==> is_echoed(bytes) && encode_utf8(message@)
            == bytes,
        is_echoed(bytes) ==> action is Echo,
{
}

/// The close command, sent as its five ASCII bytes, ends the session without
/// an error and without a reply.
pub proof fn lemma_close_bytes_end_session(action: EchoAction)
    requires
        reply_to(close_command_bytes(), action),
    ensures
        action is CloseRequested,
{
    let chars = close_command();
    assert(is_ascii_chars(chars));
    is_ascii_chars_encode_utf8(chars);
    assert(encode_utf8(chars) =~= close_command_bytes());
    encode_utf8_valid_utf8(chars);
    encode_utf8_decode_utf8(chars);
}

/// The server never writes the close command back to a peer.
pub proof fn lemma_close_is_never_echoed(bytes: Seq<u8>, action: EchoAction)
    requires
        reply_to(bytes, action),
    ensures
        action matches EchoAction::Echo(message) ==> message@ != close_command(),
{
}

/// Two actions that end or continue a session in the same way: the same
/// step, the same echoed message, the same I/O error; both decode errors.
pub open spec fn same_outcome(x: EchoAction, y: EchoAction) -> bool {
    match x {
        EchoAction::ReadNext => y is ReadNext,
        EchoAction::Echo(m) => y matches EchoAction::Echo(n) && m@ == n@,
        EchoAction::PeerClosed => y is PeerClosed,
        EchoAction::CloseRequested => y is CloseRequested,
        EchoAction::Fail(EchoApplicationError::IOError(e)) => y matches EchoAction::Fail(
            EchoApplicationError::IOError(f),
        ) && e == f,
        EchoAction::Fail(EchoApplicationError::DecodeError(_)) => y matches EchoAction::Fail(
            EchoApplicationError::DecodeError(_),
        ),
    }
}

/// The number of a connection does not change its session: two connections
/// that see the same events, whatever their numbers and streams, answer every
/// event of the session alike, so they write the same bytes back and end the
/// same way.
pub proof fn lemma_session_ignores_index<R, W>(
    a: EchoApplication<R, W>,
    b: EchoApplication<R, W>,
    events: Seq<EchoEvent>,
    actions_a: Seq<EchoAction>,
    actions_b: Seq<EchoAction>,
)
    requires
        actions_a.len() == events.len(),
        actions_b.len() == events.len(),
        forall|i: int| 0 <= i < events.len() ==> a.answers(events[i], #[trigger] actions_a[i]),
        forall|i: int| 0 <= i < events.len() ==> b.answers(events[i], #[trigger] actions_b[i]),
    ensures
        forall|i: int|
            0 <= i < events.len() ==> same_outcome(#[trigger] actions_a[i], actions_b[i]),
{
    assert forall|i: int| 0 <= i < events.len() implies same_outcome(
        #[trigger] actions_a[i],
        actions_b[i],
    ) by {
        assert(a.answers(events[i], actions_a[i]));
        assert(b.answers(events[i], actions_b[i]));
        match events[i] {
            EchoEvent::Received(bytes) => {
                if bytes@.len() > 0 && valid_utf8(bytes@) && decode_utf8(bytes@)
                    != close_command() {
                    assert(actions_a[i] matches EchoAction::Echo(m) && m@ == decode_utf8(bytes@));
                    assert(actions_b[i] matches EchoAction::Echo(n) && n@ == decode_utf8(bytes@));
                }
            },
            _ => {},
        }
    }
}

/// How many chunks at the start of a run are echoed back before one ends the
/// session; the whole run when none does.
pub open spec fn first_end(chunks: Seq<Seq<u8>>) -> nat
    decreases chunks.len(),
{
    if chunks.len() == 0 || !is_echoed(chunks[0]) {
        0
    } else {
        1 + first_end(chunks.drop_first())
    }
}

/// What the peer gets back over a session in which the reads deliver
/// `chunks` and every write succeeds: the chunks before the first one that
/// ends the session, in order.
pub open spec fn session_writes(chunks: Seq<Seq<u8>>) -> Seq<Seq<u8>> {
    chunks.take(first_end(chunks) as int)
}

/// Whether an action ends the session.
pub open spec fn ends_session(action: EchoAction) -> bool {
    action is PeerClosed || action is CloseRequested || action is Fail
}

proof fn lemma_first_end_bounds(chunks: Seq<Seq<u8>>)
    ensures
        first_end(chunks) <= chunks.len(),
        forall|i: int| 0 <= i < first_end(chunks) ==> is_echoed(#[trigger] chunks[i]),
        first_end(chunks) < chunks.len() ==> !is_echoed(chunks[first_end(chunks) as int]),
    decreases chunks.len(),
{
    if chunks.len() > 0 && is_echoed(chunks[0]) {
        let rest = chunks.drop_first();
        lemma_first_end_bounds(rest);
        assert forall|i: int| 0 <= i < first_end(chunks) implies is_echoed(#[trigger] chunks[i]) by {
            if i > 0 {
                assert(chunks[i] == rest[i - 1]);
            }
        }
        if first_end(chunks) < chunks.len() {
            assert(chunks[first_end(chunks) as int] == rest[first_end(rest) as int]);
        }
    }
}

/// Session law: when the reads of a session deliver `chunks`, every write
/// succeeds, and each chunk gets the answer `handle` gives it (`reply_to`;
/// after a complete write `handle` asks for the next read), the connection echoes the chunks one by one, byte for byte,
/// until the first chunk that is empty, not UTF-8, or the close command; that
/// chunk ends the session, so nothing after it is read. What the peer gets
/// back is therefore exactly `session_writes(chunks)`, and the session ends
/// at chunk `first_end(chunks)` whenever the run holds one that ends it.
pub proof fn lemma_session_echoes_until_end(
    chunks: Seq<Seq<u8>>,
    actions: Seq<EchoAction>,
)
    requires
        actions.len() == chunks.len(),
        forall|i: int|
            0 <= i < chunks.len() ==> reply_to(chunks[i], #[trigger] actions[i]),
    ensures
        first_end(chunks) <= chunks.len(),
        session_writes(chunks).len() == first_end(chunks),
        forall|i: int|
            0 <= i < first_end(chunks) ==> (#[trigger] actions[i] matches EchoAction::Echo(m)
                && encode_utf8(m@) == session_writes(chunks)[i]),
        first_end(chunks) < chunks.len() ==> ends_session(actions[first_end(chunks) as int]),
{
    lemma_first_end_bounds(chunks);
    let n = first_end(chunks);
    assert forall|i: int| 0 <= i < n implies (#[trigger] actions[i] matches EchoAction::Echo(m)
        && encode_utf8(m@) == session_writes(chunks)[i]) by {
        assert(is_echoed(chunks[i]));
        assert(reply_to(chunks[i], actions[i]));
    }
    if n < chunks.len() {
        assert(reply_to(chunks[n as int], actions[n as int]));
    }
}

} // verus!
