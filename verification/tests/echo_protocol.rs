use concurrency_examples::echo::{EchoAction, EchoApplication, EchoApplicationError, EchoEvent};
use concurrency_examples::message::{decode_incoming, is_close_command, Incoming};

fn app() -> EchoApplication<Vec<u8>, Vec<u8>> {
    EchoApplication::new(Vec::new(), Vec::new(), 7)
}

#[test]
fn empty_read_means_peer_closed() {
    assert!(matches!(decode_incoming(Vec::new()), Incoming::Closed));
    assert!(matches!(app().handle(EchoEvent::Received(Vec::new())), EchoAction::PeerClosed));
}

#[test]
fn text_is_decoded() {
    match decode_incoming(b"hello".to_vec()) {
        Incoming::Text(s) => assert_eq!(s, "hello"),
        other => panic!("unexpected {:?}", other),
    }
}

#[test]
fn invalid_utf8_is_malformed() {
    match decode_incoming(vec![0x68, 0xff, 0x69]) {
        Incoming::Malformed(e) => assert_eq!(e.into_bytes(), vec![0x68, 0xff, 0x69]),
        other => panic!("unexpected {:?}", other),
    }
    match app().handle(EchoEvent::Received(vec![0xc3, 0x28])) {
        EchoAction::Fail(EchoApplicationError::DecodeError(_)) => {}
        other => panic!("unexpected {:?}", other),
    }
}

#[test]
fn close_command_is_recognised() {
    assert!(is_close_command(&"close".to_string()));
    assert!(!is_close_command(&"close\n".to_string()));
    assert!(!is_close_command(&"Close".to_string()));
    assert!(!is_close_command(&"clos".to_string()));
    assert!(!is_close_command(&String::new()));
}

#[test]
fn close_ends_the_session() {
    assert!(matches!(
        app().handle(EchoEvent::Received(b"close".to_vec())),
        EchoAction::CloseRequested
    ));
}

#[test]
fn message_is_echoed_byte_for_byte() {
    for msg in ["hello", "close\n", "héllo wörld ✓", "a", "closed"] {
        match app().handle(EchoEvent::Received(msg.as_bytes().to_vec())) {
            EchoAction::Echo(reply) => {
                assert_eq!(reply, msg);
                assert_eq!(reply.as_bytes(), msg.as_bytes());
            }
            other => panic!("unexpected {:?}", other),
        }
    }
}

#[test]
fn read_error_ends_with_io_error() {
    let err = std::io::Error::new(std::io::ErrorKind::ConnectionReset, "reset");
    match app().handle(EchoEvent::ReadFailed(err)) {
        EchoAction::Fail(EchoApplicationError::IOError(e)) => {
            assert_eq!(e.kind(), std::io::ErrorKind::ConnectionReset);
            assert_eq!(e.to_string(), "reset");
        }
        other => panic!("unexpected {:?}", other),
    }
}

#[test]
fn write_error_ends_with_io_error() {
    let err = std::io::Error::new(std::io::ErrorKind::BrokenPipe, "pipe");
    match app().handle(EchoEvent::SendFailed(err)) {
        EchoAction::Fail(EchoApplicationError::IOError(e)) => {
            assert_eq!(e.kind(), std::io::ErrorKind::BrokenPipe)
        }
        other => panic!("unexpected {:?}", other),
    }
}

#[test]
fn after_a_write_the_next_chunk_is_read() {
    assert!(matches!(app().handle(EchoEvent::Sent), EchoAction::ReadNext));
}

#[test]
fn new_keeps_its_parts() {
    let mut a = EchoApplication::new(vec![1u8], vec![2u8, 3], 42);
    assert_eq!(a.index(), 42);
    {
        let (r, w) = a.io();
        assert_eq!(*r, vec![1u8]);
        assert_eq!(*w, vec![2u8, 3]);
        w.push(4);
    }
    let (_, w) = a.io();
    assert_eq!(*w, vec![2u8, 3, 4]);
    assert_eq!(a.index(), 42);
}

#[test]
fn connection_number_does_not_change_the_answer() {
    let a: EchoApplication<Vec<u8>, Vec<u8>> = EchoApplication::new(Vec::new(), Vec::new(), 1);
    let b: EchoApplication<Vec<u8>, Vec<u8>> = EchoApplication::new(Vec::new(), Vec::new(), 200);
    for chunk in [&b"hi"[..], &b"close"[..], &b""[..], &[0xffu8][..]] {
        let x = format!("{:?}", a.handle(EchoEvent::Received(chunk.to_vec())));
        let y = format!("{:?}", b.handle(EchoEvent::Received(chunk.to_vec())));
        assert_eq!(x, y);
    }
}

#[test]
fn error_texts() {
    let io = EchoApplicationError::IOError(std::io::Error::new(std::io::ErrorKind::Other, "x"));
    assert_eq!(io.to_string(), "IO error");
    let bad = String::from_utf8(vec![0xff]).unwrap_err();
    assert_eq!(EchoApplicationError::DecodeError(bad).to_string(), "UTF-8 format error");
}

#[test]
fn session_echoes_until_close_and_reads_no_further() {
    let a = app();
    let chunks: Vec<&[u8]> = vec![b"one", b"two", b"close", b"three"];
    let mut written: Vec<Vec<u8>> = Vec::new();
    let mut reads = 0;
    let mut action = EchoAction::ReadNext;
    let end = loop {
        action = match action {
            EchoAction::ReadNext => {
                let chunk = chunks[reads].to_vec();
                reads += 1;
                a.handle(EchoEvent::Received(chunk))
            }
            EchoAction::Echo(m) => {
                written.push(m.as_bytes().to_vec());
                a.handle(EchoEvent::Sent)
            }
            other => break other,
        };
    };
    assert!(matches!(end, EchoAction::CloseRequested));
    assert_eq!(reads, 3);
    assert_eq!(written, vec![b"one".to_vec(), b"two".to_vec()]);
}
