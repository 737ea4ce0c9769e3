use tcp_echo::events::{ReadOutcome, WriteOutcome, copy_prefix, append_prefix};
use tcp_echo::server::{Action, CloseReason, Phase, ReplyPolicy, Session, fixed_reply};
use tcp_echo::settings::{BUFFER_SIZE, REPLY_DELAY_SECS};

fn buffer_with(bytes: &[u8]) -> Vec<u8> {
    let mut buffer = vec![0u8; BUFFER_SIZE];
    buffer[..bytes.len()].copy_from_slice(bytes);
    buffer
}

#[test]
fn echo_session_replies_with_what_it_read() {
    let mut session = Session::new(ReplyPolicy::Echo);
    assert_eq!(session.phase(), Phase::Reading);
    let buffer = buffer_with(b"hello");
    match session.on_read(&buffer, ReadOutcome::Bytes(5)) {
        Action::Reply { delay_secs, bytes } => {
            assert_eq!(delay_secs, 0);
            assert_eq!(bytes, b"hello".to_vec());
        }
        other => panic!("unexpected action {:?}", other),
    }
    assert_eq!(session.phase(), Phase::Replying);
    assert!(matches!(session.on_write(WriteOutcome::Sent), Action::ReadMore));
    assert_eq!(session.phase(), Phase::Reading);
}

#[test]
fn echo_session_sends_back_every_chunk_in_order() {
    let mut session = Session::new(ReplyPolicy::Echo);
    let mut sent: Vec<u8> = Vec::new();
    let mut received: Vec<u8> = Vec::new();
    for chunk in [&b"Ol"[..], &b"\xc3\xa1 do"[..], &b" cliente"[..]] {
        let buffer = buffer_with(chunk);
        received.extend_from_slice(chunk);
        match session.on_read(&buffer, ReadOutcome::Bytes(chunk.len())) {
            Action::Reply { bytes, .. } => sent.extend_from_slice(&bytes),
            other => panic!("unexpected action {:?}", other),
        }
        assert!(matches!(session.on_write(WriteOutcome::Sent), Action::ReadMore));
    }
    assert_eq!(sent, received);
    assert!(matches!(
        session.on_read(&buffer_with(b""), ReadOutcome::Bytes(0)),
        Action::Close(CloseReason::PeerClosed)
    ));
    assert_eq!(session.phase(), Phase::Closed(CloseReason::PeerClosed));
}

#[test]
fn fixed_session_replies_with_fixed_text_after_a_pause() {
    let mut session = Session::new(ReplyPolicy::Fixed);
    assert_eq!(session.policy(), ReplyPolicy::Fixed);
    let buffer = buffer_with(b"qualquer coisa");
    for _ in 0..2 {
        match session.on_read(&buffer, ReadOutcome::Bytes(14)) {
            Action::Reply { delay_secs, bytes } => {
                assert_eq!(delay_secs, REPLY_DELAY_SECS);
                assert_eq!(delay_secs, 1);
                assert_eq!(bytes, b"mensagem de resposta do servidor".to_vec());
            }
            other => panic!("unexpected action {:?}", other),
        }
        assert!(matches!(session.on_write(WriteOutcome::Sent), Action::ReadMore));
    }
}

#[test]
fn fixed_reply_bytes() {
    assert_eq!(fixed_reply(), b"mensagem de resposta do servidor".to_vec());
    assert_eq!(fixed_reply().len(), 32);
}

#[test]
fn zero_bytes_close_the_session() {
    let mut session = Session::new(ReplyPolicy::Echo);
    let buffer = buffer_with(b"ignored");
    assert!(matches!(
        session.on_read(&buffer, ReadOutcome::Bytes(0)),
        Action::Close(CloseReason::PeerClosed)
    ));
    assert_eq!(session.phase(), Phase::Closed(CloseReason::PeerClosed));
}

#[test]
fn read_failure_closes_the_session() {
    let mut session = Session::new(ReplyPolicy::Fixed);
    let buffer = buffer_with(b"");
    assert!(matches!(
        session.on_read(&buffer, ReadOutcome::Failed),
        Action::Close(CloseReason::ReadFailed)
    ));
    assert_eq!(session.phase(), Phase::Closed(CloseReason::ReadFailed));
}

#[test]
fn write_failure_closes_the_session() {
    let mut session = Session::new(ReplyPolicy::Echo);
    let buffer = buffer_with(b"x");
    assert!(matches!(session.on_read(&buffer, ReadOutcome::Bytes(1)), Action::Reply { .. }));
    assert!(matches!(
        session.on_write(WriteOutcome::Failed),
        Action::Close(CloseReason::WriteFailed)
    ));
    assert_eq!(session.phase(), Phase::Closed(CloseReason::WriteFailed));
}

#[test]
fn a_full_buffer_is_echoed_whole() {
    let mut session = Session::new(ReplyPolicy::Echo);
    let buffer: Vec<u8> = (0..BUFFER_SIZE).map(|i| (i % 251) as u8).collect();
    match session.on_read(&buffer, ReadOutcome::Bytes(BUFFER_SIZE)) {
        Action::Reply { bytes, .. } => assert_eq!(bytes, buffer),
        other => panic!("unexpected action {:?}", other),
    }
}

#[test]
fn prefix_helpers() {
    let buffer = b"abcdef";
    assert_eq!(copy_prefix(buffer, 3), b"abc".to_vec());
    assert_eq!(copy_prefix(buffer, 0), Vec::<u8>::new());
    let mut acc = b"xy".to_vec();
    append_prefix(&mut acc, buffer, 2);
    assert_eq!(acc, b"xyab".to_vec());
}
