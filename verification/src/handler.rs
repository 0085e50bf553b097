//! The connection handler: the protocol by which one accepted connection is
//! served. Whatever arrives on the connection is written back to its sender,
//! in the order of arrival, until the peer closes the connection or a read or
//! write fails. A write that takes only part of a chunk is followed by a
//! write of the rest, so no byte that was read is left out.
//!
//! The handler performs no I/O itself. It is a state machine: its driver
//! carries out the action that the handler asks for and reports the outcome
//! as the next event.

use vstd::prelude::*;
use crate::conf::SocketAddress;
use crate::error::Error;

verus! {

/// The most that one read may return: the size of the handler's buffer.
pub const READ_CAPACITY: usize = 1024;

/// How a connection came to its end.
#[derive(Clone, Copy, Debug, PartialEq, Eq, Structural)]
pub enum Closing {
    /// The peer closed its side: a read returned no bytes.
    Normal,
    /// A read or a write failed.
    Failed,
}

/// Where a handler stands in the protocol.
#[derive(Clone, Copy, Debug, PartialEq, Eq, Structural)]
pub enum HandlerState {
    /// Accepted, not yet started.
    Open,
    /// A read has been asked for.
    Reading,
    /// A write of the bytes not yet written has been asked for.
    Writing,
    /// The handler has finished; nothing more happens.
    Closed(Closing),
}

/// What the driver reports to the handler.
#[derive(Debug)]
pub enum HandlerEvent {
    /// The handler's task has begun to run.
    Started,
    /// A read returned: the bytes it delivered (none on an orderly close), or
    /// its failure.
    ReadDone(Result<Vec<u8>, std::io::Error>),
    /// A write returned: the number of bytes it took from the front of the
    /// chunk, or its failure.
    WriteDone(Result<usize, std::io::Error>),
}

/// What the handler asks its driver to do next.
#[derive(Debug)]
pub enum HandlerAction {
    /// Read at most `capacity` bytes from the connection.
    Read { capacity: usize },
    /// Write `chunk` to the connection, once, and report how much of it was
    /// taken.
    Write { chunk: Vec<u8> },
    /// End the handler's task with this result.
    Finish(Result<(), Error>),
}

/// What a `HandlerAction` is, as a mathematical value.
pub enum HandlerActionView {
    Read { capacity: usize },
    Write { chunk: Seq<u8> },
    Finish(Result<(), Error>),
}

impl View for HandlerAction {
    type V = HandlerActionView;

    open spec fn view(&self) -> HandlerActionView {
        match *self {
            HandlerAction::Read { capacity } => HandlerActionView::Read { capacity },
            HandlerAction::Write { chunk } => HandlerActionView::Write { chunk: chunk@ },
            HandlerAction::Finish(result) => HandlerActionView::Finish(result),
        }
    }
}

/// The action that a step asked for, if any, as a mathematical value.
pub open spec fn asked(action: Option<HandlerAction>) -> Option<HandlerActionView> {
    match action {
        Some(action) => Some(action@),
        None => None,
    }
}

/// What a handler is, as a mathematical value: where it stands, and the
/// bytes that were read and are not yet written.
pub struct HandlerModel {
    pub state: HandlerState,
    pub pending: Seq<u8>,
}

/// A handler that has not been started.
pub open spec fn fresh() -> HandlerModel {
    HandlerModel { state: HandlerState::Open, pending: Seq::empty() }
}

/// One step of the protocol: the handler that follows, and the action asked
/// for, if any.
pub struct Transition {
    pub next: HandlerModel,
    pub action: Option<HandlerActionView>,
}

/// The protocol itself.
///
/// A chunk that was read becomes the pending bytes, and a write of them is
/// asked for. A write that took all of them (or reports more) is followed by
/// the next read. A write that took some of them, but not all, is followed
/// by a write of the rest. A write that took none of them ends the handler
/// with `Error::WriteZero`, since a connection that takes nothing will take
/// nothing later. After a failed write the bytes that were not written stay
/// pending. An event that the state does not await changes nothing and asks
/// for nothing.
pub open spec fn transition(handler: HandlerModel, event: HandlerEvent) -> Transition {
    match (handler.state, event) {
        (HandlerState::Open, HandlerEvent::Started) => Transition {
            next: HandlerModel { state: HandlerState::Reading, pending: handler.pending },
            action: Some(HandlerActionView::Read { capacity: READ_CAPACITY }),
        },
        (HandlerState::Reading, HandlerEvent::ReadDone(Ok(chunk))) => if chunk@.len() == 0 {
            Transition {
                next: HandlerModel {
                    state: HandlerState::Closed(Closing::Normal),
                    pending: handler.pending,
                },
                action: Some(HandlerActionView::Finish(Ok(()))),
            }
        } else {
            Transition {
                next: HandlerModel { state: HandlerState::Writing, pending: chunk@ },
                action: Some(HandlerActionView::Write { chunk: chunk@ }),
            }
        },
        (HandlerState::Reading, HandlerEvent::ReadDone(Err(e))) => Transition {
            next: HandlerModel {
                state: HandlerState::Closed(Closing::Failed),
                pending: handler.pending,
            },
            action: Some(HandlerActionView::Finish(Err(Error::RuntimeIoError(e)))),
        },
        (HandlerState::Writing, HandlerEvent::WriteDone(Ok(n))) => if n
            >= handler.pending.len() {
            Transition {
                next: HandlerModel { state: HandlerState::Reading, pending: Seq::empty() },
                action: Some(HandlerActionView::Read { capacity: READ_CAPACITY }),
            }
        } else if n == 0 {
            Transition {
                next: HandlerModel {
                    state: HandlerState::Closed(Closing::Failed),
                    pending: handler.pending,
                },
                action: Some(HandlerActionView::Finish(Err(Error::WriteZero))),
            }
        } else {
            Transition {
                next: HandlerModel {
                    state: HandlerState::Writing,
                    pending: handler.pending.skip(n as int),
                },
                action: Some(HandlerActionView::Write { chunk: handler.pending.skip(n as int) }),
            }
        },
        (HandlerState::Writing, HandlerEvent::WriteDone(Err(e))) => Transition {
            next: HandlerModel {
                state: HandlerState::Closed(Closing::Failed),
                pending: handler.pending,
            },
            action: Some(HandlerActionView::Finish(Err(Error::RuntimeIoError(e)))),
        },
        _ => Transition { next: handler, action: None },
    }
}

/// The handler of one connection.
#[derive(Debug)]
pub struct ConnectionHandler {
    pub peer: SocketAddress,
    pub state: HandlerState,
    /// The bytes that were read and are not yet written.
    pub pending: Vec<u8>,
}

impl View for ConnectionHandler {
    type V = HandlerModel;

    open spec fn view(&self) -> HandlerModel {
        HandlerModel { state: self.state, pending: self.pending@ }
    }
}

/// A copy of `bytes` from index `from` on.
fn copy_from(bytes: &Vec<u8>, from: usize) -> (rest: Vec<u8>)
    requires
        from <= bytes.len(),
    ensures
        rest@ == bytes@.skip(from as int),
{
    let mut rest: Vec<u8> = Vec::new();
    let mut at: usize = from;
    while at < bytes.len()
        invariant
            from <= at <= bytes.len(),
            rest@ == bytes@.subrange(from as int, at as int),
        decreases bytes.len() - at,
    {
        rest.push(bytes[at]);
        at = at + 1;
    }
    rest
}

impl ConnectionHandler {
    /// A handler for the connection accepted from `peer`, not yet started.
    pub fn new(peer: SocketAddress) -> (handler: Self)
        ensures
            handler.peer == peer,
            handler@ == fresh(),
    {
        ConnectionHandler { peer, state: HandlerState::Open, pending: Vec::new() }
    }

    /// The address of the remote end of the connection.
    pub fn peer_addr(&self) -> (peer: SocketAddress)
        ensures
            peer == self.peer,
    {
        self.peer
    }

    /// Whether the handler has finished.
    pub fn is_closed(&self) -> (closed: bool)
        ensures
            closed <==> self.state is Closed,
    {
        match self.state {
            HandlerState::Closed(_) => true,
            _ => false,
        }
    }

    /// Takes one event and answers with the action to carry out next,
    /// following `transition`.
    pub fn step(&mut self, event: HandlerEvent) -> (action: Option<HandlerAction>)
        ensures
            final(self).peer == old(self).peer,
            final(self)@ == transition(old(self)@, event).next,
            asked(action) == transition(old(self)@, event).action,
    {
        match event {
            HandlerEvent::Started => match self.state {
                HandlerState::Open => {
                    self.state = HandlerState::Reading;
                    Some(HandlerAction::Read { capacity: READ_CAPACITY })
                },
                _ => None,
            },
            HandlerEvent::ReadDone(outcome) => match self.state {
                HandlerState::Reading => match outcome {
                    Ok(chunk) => {
                        if chunk.len() == 0 {
                            self.state = HandlerState::Closed(Closing::Normal);
                            Some(HandlerAction::Finish(Ok(())))
                        } else {
                            let copy = copy_from(&chunk, 0);
                            assert(copy@ == chunk@);
                            self.pending = chunk;
                            self.state = HandlerState::Writing;
                            Some(HandlerAction::Write { chunk: copy })
                        }
                    },
                    Err(e) => {
                        self.state = HandlerState::Closed(Closing::Failed);
                        Some(HandlerAction::Finish(Err(Error::RuntimeIoError(e))))
                    },
                },
                _ => None,
            },
            HandlerEvent::WriteDone(outcome) => match self.state {
                HandlerState::Writing => match outcome {
                    Ok(n) => {
                        if n >= self.pending.len() {
                            self.pending = Vec::new();
                            self.state = HandlerState::Reading;
                            Some(HandlerAction::Read { capacity: READ_CAPACITY })
                        } else if n == 0 {
                            self.state = HandlerState::Closed(Closing::Failed);
                            Some(HandlerAction::Finish(Err(Error::WriteZero)))
                        } else {
                            let rest = copy_from(&self.pending, n);
                            let copy = copy_from(&rest, 0);
                            assert(copy@ == rest@);
                            self.pending = rest;
                            Some(HandlerAction::Write { chunk: copy })
                        }
                    },
                    Err(e) => {
                        self.state = HandlerState::Closed(Closing::Failed);
                        Some(HandlerAction::Finish(Err(Error::RuntimeIoError(e))))
                    },
                },
                _ => None,
            },
        }
    }
}

/// What a handler has come to after a sequence of events.
pub struct Run {
    /// The handler reached.
    pub handler: HandlerModel,
    /// The actions asked for, in the order in which they were asked.
    pub actions: Seq<HandlerActionView>,
}

/// A handler that begins as `start` and takes `events` one after the other.
pub open spec fn run(start: HandlerModel, events: Seq<HandlerEvent>) -> Run
    decreases events.len(),
{
    if events.len() == 0 {
        Run { handler: start, actions: Seq::empty() }
    } else {
        let before = run(start, events.drop_last());
        let last = transition(before.handler, events.last());
        Run {
            handler: last.next,
            actions: match last.action {
                Some(action) => before.actions.push(action),
                None => before.actions,
            },
        }
    }
}

/// Every event of `events` answers what the handler asked for last: none
/// arrives out of turn.
pub open spec fn in_turn(start: HandlerModel, events: Seq<HandlerEvent>) -> bool
    decreases events.len(),
{
    events.len() == 0 || {
        &&& in_turn(start, events.drop_last())
        &&& transition(run(start, events.drop_last()).handler, events.last()).action is Some
    }
}

/// The bytes that an event reports as read from the connection.
pub open spec fn bytes_read(event: HandlerEvent) -> Seq<u8> {
    match event {
        HandlerEvent::ReadDone(Ok(chunk)) => chunk@,
        _ => Seq::empty(),
    }
}

/// All that `events` report as read, in order: what the peer sent.
pub open spec fn received(events: Seq<HandlerEvent>) -> Seq<u8>
    decreases events.len(),
{
    if events.len() == 0 {
        Seq::empty()
    } else {
        received(events.drop_last()) + bytes_read(events.last())
    }
}

/// The bytes that the connection took at the write that `event` reports: as
/// many as the write says, from the front of the chunk that the handler asked
/// to write last. `actions` are the actions asked for before the event.
pub open spec fn bytes_taken(actions: Seq<HandlerActionView>, event: HandlerEvent) -> Seq<u8> {
    if actions.len() == 0 {
        Seq::empty()
    } else {
        match (actions.last(), event) {
            (HandlerActionView::Write { chunk }, HandlerEvent::WriteDone(Ok(n))) => if n
                <= chunk.len() {
                chunk.take(n as int)
            } else {
                chunk
            },
            _ => Seq::empty(),
        }
    }
}

/// All that the connection took over the writes that `events` report, in
/// order: what the peer gets back.
pub open spec fn delivered(start: HandlerModel, events: Seq<HandlerEvent>) -> Seq<u8>
    decreases events.len(),
{
    if events.len() == 0 {
        Seq::empty()
    } else {
        delivered(start, events.drop_last()) + bytes_taken(
            run(start, events.drop_last()).actions,
            events.last(),
        )
    }
}

/// Echo: at every moment of a conversation in which no event arrives out of
/// turn, what the peer has got back, followed by the bytes still pending, is
/// what the peer has sent, byte for byte and in the same order, however the
/// reads and the writes cut it into pieces. Bytes are pending only while a
/// write is under way or after a write has failed: a handler that is reading,
/// or that was closed by its peer, has given everything back.
pub proof fn lemma_echo_delivered(events: Seq<HandlerEvent>)
    requires
        in_turn(fresh(), events),
    ensures
        ({
            let reached = run(fresh(), events);
            &&& delivered(fresh(), events) + reached.handler.pending == received(events)
            &&& reached.handler.state is Writing ==> {
                &&& reached.handler.pending.len() > 0
                &&& reached.actions.len() > 0
                &&& reached.actions.last() == HandlerActionView::Write {
                    chunk: reached.handler.pending,
                }
            }
            &&& (reached.handler.state is Open || reached.handler.state is Reading
                || reached.handler.state == HandlerState::Closed(Closing::Normal)) ==> {
                &&& reached.handler.pending.len() == 0
                &&& delivered(fresh(), events) == received(events)
            }
        }),
    decreases events.len(),
{
    if events.len() > 0 {
        let earlier = events.drop_last();
        let before = run(fresh(), earlier);
        lemma_echo_delivered(earlier);
        let reached = run(fresh(), events);
        let pending = before.handler.pending;
        match (before.handler.state, events.last()) {
            (HandlerState::Writing, HandlerEvent::WriteDone(Ok(n))) => {
                if n >= pending.len() {
                    assert(pending.take(pending.len() as int) == pending);
                } else {
                    assert(pending.take(n as int) + pending.skip(n as int) == pending);
                    assert(pending.take(0) == Seq::<u8>::empty());
                }
            },
            _ => {},
        }
        assert(delivered(fresh(), events) + reached.handler.pending == received(events));
    } else {
        assert(delivered(fresh(), events) + fresh().pending == received(events));
    }
}

/// Orderly close: a read that returns no bytes ends the handler at once,
/// without an error, and by then everything that the peer sent has come back
/// to it.
pub proof fn lemma_orderly_close(events: Seq<HandlerEvent>, chunk: Vec<u8>)
    requires
        in_turn(fresh(), events),
        run(fresh(), events).handler.state == HandlerState::Reading,
        chunk@.len() == 0,
    ensures
        ({
            let closing = events.push(HandlerEvent::ReadDone(Ok(chunk)));
            let closed = run(fresh(), closing);
            &&& closed.handler.state == HandlerState::Closed(Closing::Normal)
            &&& closed.actions == run(fresh(), events).actions.push(
                HandlerActionView::Finish(Ok(())),
            )
            &&& delivered(fresh(), closing) == received(events)
        }),
{
    let closing = events.push(HandlerEvent::ReadDone(Ok(chunk)));
    assert(closing.drop_last() == events);
    assert(in_turn(fresh(), closing));
    lemma_echo_delivered(closing);
    assert(received(closing) == received(events));
}

/// Isolation: each connection has a handler of its own, and what a handler
/// gives back is what was received on its own connection. Whatever a second
/// connection carries at the same time, each of the two gets back its own
/// bytes and nothing of the other's.
pub proof fn lemma_connections_isolated(one: Seq<HandlerEvent>, other: Seq<HandlerEvent>)
    requires
        in_turn(fresh(), one),
        in_turn(fresh(), other),
    ensures
        delivered(fresh(), one) + run(fresh(), one).handler.pending == received(one),
        delivered(fresh(), other) + run(fresh(), other).handler.pending == received(other),
{
    lemma_echo_delivered(one);
    lemma_echo_delivered(other);
}

} // verus!
