use nimbus::conf::{HostAddress, SocketAddress};
use nimbus::error::Error;
use nimbus::handler::{
    Closing, ConnectionHandler, HandlerAction, HandlerEvent, HandlerState, READ_CAPACITY,
};
use std::io;

fn peer(port: u16) -> SocketAddress {
    SocketAddress { host: HostAddress::V4(192, 168, 1, 20), port }
}

fn started(port: u16) -> ConnectionHandler {
    let mut handler = ConnectionHandler::new(peer(port));
    assert!(matches!(
        handler.step(HandlerEvent::Started),
        Some(HandlerAction::Read { capacity: 1024 })
    ));
    handler
}

/// Feeds the chunks to a started handler, each followed by a write that takes
/// the whole chunk, and collects what the handler asks to write.
fn echo(handler: &mut ConnectionHandler, chunks: &[&[u8]]) -> Vec<u8> {
    let mut written = Vec::new();
    for chunk in chunks {
        match handler.step(HandlerEvent::ReadDone(Ok(chunk.to_vec()))) {
            Some(HandlerAction::Write { chunk: out }) => {
                let n = out.len();
                written.extend_from_slice(&out);
                assert!(matches!(
                    handler.step(HandlerEvent::WriteDone(Ok(n))),
                    Some(HandlerAction::Read { capacity: 1024 })
                ));
            }
            other => panic!("a write was due, not {:?}", other),
        }
    }
    written
}

#[test]
fn read_capacity_is_1024() {
    assert_eq!(READ_CAPACITY, 1024);
}

#[test]
fn new_handler_is_open_and_knows_its_peer() {
    let handler = ConnectionHandler::new(peer(50000));
    assert_eq!(handler.state, HandlerState::Open);
    assert_eq!(handler.peer_addr(), peer(50000));
    assert!(!handler.is_closed());
}

#[test]
fn start_asks_for_a_read() {
    let mut handler = ConnectionHandler::new(peer(1));
    let action = handler.step(HandlerEvent::Started);
    assert!(matches!(action, Some(HandlerAction::Read { capacity: 1024 })));
    assert_eq!(handler.state, HandlerState::Reading);
}

#[test]
fn chunk_read_is_the_chunk_written() {
    let mut handler = started(2);
    match handler.step(HandlerEvent::ReadDone(Ok(b"ping".to_vec()))) {
        Some(HandlerAction::Write { chunk }) => assert_eq!(chunk, b"ping".to_vec()),
        other => panic!("a write was due, not {:?}", other),
    }
    assert_eq!(handler.state, HandlerState::Writing);
}

#[test]
fn after_a_write_the_handler_reads_again() {
    let mut handler = started(3);
    handler.step(HandlerEvent::ReadDone(Ok(vec![1, 2, 3])));
    let action = handler.step(HandlerEvent::WriteDone(Ok(3)));
    assert!(matches!(action, Some(HandlerAction::Read { capacity: 1024 })));
    assert_eq!(handler.state, HandlerState::Reading);
}

#[test]
fn echo_preserves_bytes_and_order_across_chunks() {
    let mut handler = started(4);
    let written = echo(&mut handler, &[b"he", b"l", b"lo, ", b"world"]);
    assert_eq!(written, b"hello, world".to_vec());
    assert_eq!(handler.state, HandlerState::Reading);
}

#[test]
fn payload_larger_than_the_buffer_takes_several_cycles() {
    let payload: Vec<u8> = (0..2500u32).map(|i| (i % 251) as u8).collect();
    let mut handler = started(5);
    let chunks: Vec<&[u8]> = payload.chunks(READ_CAPACITY).collect();
    assert_eq!(chunks.len(), 3);
    let written = echo(&mut handler, &chunks);
    assert_eq!(written, payload);
}

#[test]
fn zero_length_read_closes_without_error() {
    let mut handler = started(6);
    let action = handler.step(HandlerEvent::ReadDone(Ok(Vec::new())));
    assert!(matches!(action, Some(HandlerAction::Finish(Ok(())))));
    assert_eq!(handler.state, HandlerState::Closed(Closing::Normal));
    assert!(handler.is_closed());
}

#[test]
fn orderly_close_after_traffic() {
    let mut handler = started(7);
    assert_eq!(echo(&mut handler, &[b"abc", b"def"]), b"abcdef".to_vec());
    let action = handler.step(HandlerEvent::ReadDone(Ok(Vec::new())));
    assert!(matches!(action, Some(HandlerAction::Finish(Ok(())))));
    assert_eq!(handler.state, HandlerState::Closed(Closing::Normal));
}

#[test]
fn failed_read_ends_the_handler_with_the_failure() {
    let mut handler = started(8);
    let failure = io::Error::new(io::ErrorKind::ConnectionReset, "reset by peer");
    match handler.step(HandlerEvent::ReadDone(Err(failure))) {
        Some(HandlerAction::Finish(Err(Error::RuntimeIoError(e)))) => {
            assert_eq!(e.kind(), io::ErrorKind::ConnectionReset)
        }
        other => panic!("a failure was due, not {:?}", other),
    }
    assert_eq!(handler.state, HandlerState::Closed(Closing::Failed));
}

#[test]
fn failed_write_ends_the_handler_with_the_failure() {
    let mut handler = started(9);
    handler.step(HandlerEvent::ReadDone(Ok(vec![9, 9])));
    let failure = io::Error::new(io::ErrorKind::BrokenPipe, "broken pipe");
    match handler.step(HandlerEvent::WriteDone(Err(failure))) {
        Some(HandlerAction::Finish(Err(Error::RuntimeIoError(e)))) => {
            assert_eq!(e.kind(), io::ErrorKind::BrokenPipe)
        }
        other => panic!("a failure was due, not {:?}", other),
    }
    assert_eq!(handler.state, HandlerState::Closed(Closing::Failed));
    assert!(handler.is_closed());
}

#[test]
fn closed_handler_asks_for_nothing_more() {
    let mut handler = started(10);
    handler.step(HandlerEvent::ReadDone(Ok(Vec::new())));
    assert!(handler.step(HandlerEvent::Started).is_none());
    assert!(handler.step(HandlerEvent::ReadDone(Ok(vec![1]))).is_none());
    assert!(handler.step(HandlerEvent::WriteDone(Ok(1))).is_none());
    assert_eq!(handler.state, HandlerState::Closed(Closing::Normal));
}

#[test]
fn event_out_of_turn_changes_nothing() {
    let mut handler = ConnectionHandler::new(peer(11));
    assert!(handler.step(HandlerEvent::ReadDone(Ok(vec![1]))).is_none());
    assert!(handler.step(HandlerEvent::WriteDone(Ok(1))).is_none());
    assert_eq!(handler.state, HandlerState::Open);
    let mut handler = started(11);
    assert!(handler.step(HandlerEvent::Started).is_none());
    assert!(handler.step(HandlerEvent::WriteDone(Ok(4))).is_none());
    assert_eq!(handler.state, HandlerState::Reading);
    handler.step(HandlerEvent::ReadDone(Ok(vec![1])));
    assert!(handler.step(HandlerEvent::ReadDone(Ok(vec![2]))).is_none());
    assert!(handler.step(HandlerEvent::Started).is_none());
    assert_eq!(handler.state, HandlerState::Writing);
}

#[test]
fn step_keeps_the_peer() {
    let mut handler = started(12);
    echo(&mut handler, &[b"x"]);
    handler.step(HandlerEvent::ReadDone(Ok(Vec::new())));
    assert_eq!(handler.peer_addr(), peer(12));
}

#[test]
fn two_connections_get_only_their_own_bytes() {
    let mut one = started(100);
    let mut other = started(200);
    let mut from_one = Vec::new();
    let mut from_other = Vec::new();
    from_one.extend(echo(&mut one, &[b"alpha-"]));
    from_other.extend(echo(&mut other, &[b"BETA-"]));
    from_other.extend(echo(&mut other, &[b"GAMMA"]));
    from_one.extend(echo(&mut one, &[b"delta"]));
    assert_eq!(from_one, b"alpha-delta".to_vec());
    assert_eq!(from_other, b"BETA-GAMMA".to_vec());
}

#[test]
fn failure_on_one_connection_leaves_the_other_serving() {
    let mut one = started(100);
    let mut other = started(200);
    let failure = io::Error::new(io::ErrorKind::ConnectionAborted, "aborted");
    one.step(HandlerEvent::ReadDone(Err(failure)));
    assert!(one.is_closed());
    assert_eq!(echo(&mut other, &[b"still here"]), b"still here".to_vec());
    assert_eq!(other.state, HandlerState::Reading);
}

#[test]
fn short_write_is_followed_by_a_write_of_the_rest() {
    let mut handler = started(20);
    handler.step(HandlerEvent::ReadDone(Ok(b"hello".to_vec())));
    match handler.step(HandlerEvent::WriteDone(Ok(2))) {
        Some(HandlerAction::Write { chunk }) => assert_eq!(chunk, b"llo".to_vec()),
        other => panic!("a write of the rest was due, not {:?}", other),
    }
    assert_eq!(handler.state, HandlerState::Writing);
    assert_eq!(handler.pending, b"llo".to_vec());
    match handler.step(HandlerEvent::WriteDone(Ok(1))) {
        Some(HandlerAction::Write { chunk }) => assert_eq!(chunk, b"lo".to_vec()),
        other => panic!("a write of the rest was due, not {:?}", other),
    }
    let action = handler.step(HandlerEvent::WriteDone(Ok(2)));
    assert!(matches!(action, Some(HandlerAction::Read { capacity: 1024 })));
    assert_eq!(handler.state, HandlerState::Reading);
    assert!(handler.pending.is_empty());
}

#[test]
fn every_byte_comes_back_when_each_write_takes_three_bytes_at_most() {
    let payload: Vec<u8> = (0..2000u32).map(|i| (i % 253) as u8).collect();
    let mut handler = started(21);
    let mut taken: Vec<u8> = Vec::new();
    for piece in payload.chunks(700) {
        let mut action = handler.step(HandlerEvent::ReadDone(Ok(piece.to_vec())));
        loop {
            match action {
                Some(HandlerAction::Write { chunk }) => {
                    let n = chunk.len().min(3);
                    taken.extend_from_slice(&chunk[..n]);
                    action = handler.step(HandlerEvent::WriteDone(Ok(n)));
                }
                Some(HandlerAction::Read { .. }) => break,
                other => panic!("a write or a read was due, not {:?}", other),
            }
        }
    }
    assert_eq!(taken, payload);
    assert_eq!(handler.state, HandlerState::Reading);
    let action = handler.step(HandlerEvent::ReadDone(Ok(Vec::new())));
    assert!(matches!(action, Some(HandlerAction::Finish(Ok(())))));
}

#[test]
fn write_that_takes_nothing_ends_the_handler_with_write_zero() {
    let mut handler = started(22);
    handler.step(HandlerEvent::ReadDone(Ok(b"data".to_vec())));
    let action = handler.step(HandlerEvent::WriteDone(Ok(0)));
    assert!(matches!(action, Some(HandlerAction::Finish(Err(Error::WriteZero)))));
    assert_eq!(handler.state, HandlerState::Closed(Closing::Failed));
    assert_eq!(handler.pending, b"data".to_vec());
}

#[test]
fn write_that_takes_nothing_of_the_rest_ends_the_handler_too() {
    let mut handler = started(23);
    handler.step(HandlerEvent::ReadDone(Ok(b"data".to_vec())));
    handler.step(HandlerEvent::WriteDone(Ok(3)));
    let action = handler.step(HandlerEvent::WriteDone(Ok(0)));
    assert!(matches!(action, Some(HandlerAction::Finish(Err(Error::WriteZero)))));
    assert_eq!(handler.pending, b"a".to_vec());
}

#[test]
fn write_that_reports_more_than_the_chunk_moves_on_to_reading() {
    let mut handler = started(24);
    handler.step(HandlerEvent::ReadDone(Ok(b"ab".to_vec())));
    let action = handler.step(HandlerEvent::WriteDone(Ok(usize::MAX)));
    assert!(matches!(action, Some(HandlerAction::Read { capacity: 1024 })));
    assert_eq!(handler.state, HandlerState::Reading);
    assert!(handler.pending.is_empty());
}

#[test]
fn failed_write_keeps_the_unwritten_bytes_pending() {
    let mut handler = started(25);
    handler.step(HandlerEvent::ReadDone(Ok(b"abcdef".to_vec())));
    handler.step(HandlerEvent::WriteDone(Ok(4)));
    let failure = io::Error::new(io::ErrorKind::BrokenPipe, "broken pipe");
    let action = handler.step(HandlerEvent::WriteDone(Err(failure)));
    assert!(matches!(action, Some(HandlerAction::Finish(Err(Error::RuntimeIoError(_))))));
    assert_eq!(handler.pending, b"ef".to_vec());
    assert_eq!(handler.state, HandlerState::Closed(Closing::Failed));
}

#[test]
fn chunk_read_is_pending_until_it_is_written() {
    let mut handler = started(26);
    assert!(handler.pending.is_empty());
    handler.step(HandlerEvent::ReadDone(Ok(vec![7, 8, 9])));
    assert_eq!(handler.pending, vec![7, 8, 9]);
    handler.step(HandlerEvent::WriteDone(Ok(3)));
    assert!(handler.pending.is_empty());
}
