//! One connection as a state machine: what to do next after each thing
//! that happened on it. Whoever owns the socket performs the action and
//! reports what came of it.

use crate::codec::{decode_request, decoded, encode_response, encoded, Decoded, DecodedView};
use crate::message::{
    event_loop_closed_response, internal_error_response, Request, RequestView, Response,
    ResponseView,
};
use vstd::prelude::*;

verus! {

/// Why a connection was closed.
#[derive(Debug, Clone, Copy, PartialEq, Eq, Structural)]
pub enum Ending {
    /// The peer closed the stream.
    EndOfStream,
    /// Reading from the stream failed.
    ReadFailed,
    /// Writing to the stream failed.
    WriteFailed,
    /// Something was reported that cannot happen in the state the
    /// connection was in.
    OutOfTurn,
}

/// Where a connection stands.
#[derive(Debug, Clone, PartialEq, Eq)]
pub enum Phase {
    /// It waits for bytes.
    Reading,
    /// It waits for the response to the request with this id.
    Awaiting(String),
    /// It waits for a response to be written out.
    Writing,
    /// It is closed.
    Closed,
}

/// What a `Phase` is, as plain text.
pub enum PhaseView {
    Reading,
    Awaiting(Seq<char>),
    Writing,
    Closed,
}

impl View for Phase {
    type V = PhaseView;

    open spec fn view(&self) -> PhaseView {
        match self {
            Phase::Reading => PhaseView::Reading,
            Phase::Awaiting(id) => PhaseView::Awaiting(id@),
            Phase::Writing => PhaseView::Writing,
            Phase::Closed => PhaseView::Closed,
        }
    }
}

/// What happened on a connection.
#[derive(Debug, Clone, PartialEq, Eq)]
pub enum Event {
    /// Bytes were read. No bytes at all: the stream is at its end.
    Chunk(Vec<u8>),
    /// Reading failed.
    ReadFailed,
    /// The response to the request in flight arrived.
    Resolved(Response),
    /// The resolver of the request in flight was dropped without a response.
    Abandoned,
    /// The request could not be handed to the event loop.
    Rejected,
    /// The response was written out.
    Written,
    /// Writing the response failed.
    WriteFailed,
}

/// What an `Event` is, as plain text.
pub enum EventView {
    Chunk(Seq<u8>),
    ReadFailed,
    Resolved(ResponseView),
    Abandoned,
    Rejected,
    Written,
    WriteFailed,
}

impl View for Event {
    type V = EventView;

    open spec fn view(&self) -> EventView {
        match self {
            Event::Chunk(bytes) => EventView::Chunk(bytes@),
            Event::ReadFailed => EventView::ReadFailed,
            Event::Resolved(response) => EventView::Resolved(response@),
            Event::Abandoned => EventView::Abandoned,
            Event::Rejected => EventView::Rejected,
            Event::Written => EventView::Written,
            Event::WriteFailed => EventView::WriteFailed,
        }
    }
}

/// What the owner of the socket is to do next.
#[derive(Debug, Clone, PartialEq, Eq)]
pub enum Action {
    /// Read more bytes.
    Read,
    /// Submit this request and wait for its response.
    Submit(Request),
    /// Write this text to the stream.
    Write(String),
    /// Stop serving the connection.
    Close(Ending),
}

/// What an `Action` is, as plain text.
pub enum ActionView {
    Read,
    Submit(RequestView),
    Write(Seq<char>),
    Close(Ending),
}

impl View for Action {
    type V = ActionView;

    open spec fn view(&self) -> ActionView {
        match self {
            Action::Read => ActionView::Read,
            Action::Submit(request) => ActionView::Submit(request@),
            Action::Write(text) => ActionView::Write(text@),
            Action::Close(ending) => ActionView::Close(*ending),
        }
    }
}

/// The state of a connection: where it stands, and the bytes that were read
/// but are not yet a whole message.
#[derive(Debug)]
pub struct Connection {
    phase: Phase,
    buffer: Vec<u8>,
}

/// What a `Connection` is.
pub struct ConnectionView {
    pub phase: PhaseView,
    pub buffer: Seq<u8>,
}

impl View for Connection {
    type V = ConnectionView;

    closed spec fn view(&self) -> ConnectionView {
        ConnectionView { phase: self.phase@, buffer: self.buffer@ }
    }
}

/// A connection in the phase `phase` that holds no bytes.
pub open spec fn at(phase: PhaseView) -> ConnectionView {
    ConnectionView { phase, buffer: Seq::empty() }
}

/// A connection closed for the reason `ending`.
pub open spec fn closed(ending: Ending) -> (ConnectionView, ActionView) {
    (at(PhaseView::Closed), ActionView::Close(ending))
}

/// What follows once the bytes held by a reading connection were read as a
/// request. A whole request is submitted. Bytes that may yet become one are
/// kept, and bytes that are none are dropped: either way the connection goes
/// on reading.
pub open spec fn absorbed(state: ConnectionView, outcome: DecodedView) -> (
    ConnectionView,
    ActionView,
) {
    if state.phase is Reading {
        match outcome {
            DecodedView::Complete(request) => (
                at(PhaseView::Awaiting(request.id)),
                ActionView::Submit(request),
            ),
            DecodedView::Incomplete => (state, ActionView::Read),
            DecodedView::Malformed => (at(PhaseView::Reading), ActionView::Read),
        }
    } else {
        closed(Ending::OutOfTurn)
    }
}

/// What follows once bytes were read.
pub open spec fn fed(state: ConnectionView, chunk: Seq<u8>) -> (ConnectionView, ActionView) {
    if !(state.phase is Reading) {
        closed(Ending::OutOfTurn)
    } else if chunk.len() == 0 {
        closed(Ending::EndOfStream)
    } else {
        absorbed(
            ConnectionView { phase: PhaseView::Reading, buffer: state.buffer + chunk },
            decoded(state.buffer + chunk),
        )
    }
}

/// What follows once the response for the request in flight was written as
/// a message: the message is written out.
pub open spec fn answered(state: ConnectionView, json: Seq<char>) -> (ConnectionView, ActionView) {
    if state.phase is Awaiting {
        (at(PhaseView::Writing), ActionView::Write(json))
    } else {
        closed(Ending::OutOfTurn)
    }
}

/// The response that an event brings for the request `id`, if it brings
/// one.
pub open spec fn response_of(id: Seq<char>, event: EventView) -> Option<ResponseView> {
    match event {
        EventView::Resolved(response) => Some(response),
        EventView::Abandoned => Some(internal_error_response(id)),
        EventView::Rejected => Some(event_loop_closed_response(id)),
        _ => None,
    }
}

/// What follows an event.
pub open spec fn next(state: ConnectionView, event: EventView) -> (ConnectionView, ActionView) {
    match (state.phase, event) {
        (PhaseView::Reading, EventView::Chunk(chunk)) => fed(state, chunk),
        (PhaseView::Reading, EventView::ReadFailed) => closed(Ending::ReadFailed),
        (PhaseView::Awaiting(id), _) => match response_of(id, event) {
            Some(response) => answered(state, encoded(response)),
            None => closed(Ending::OutOfTurn),
        },
        (PhaseView::Writing, EventView::Written) => (at(PhaseView::Reading), ActionView::Read),
        (PhaseView::Writing, EventView::WriteFailed) => closed(Ending::WriteFailed),
        _ => closed(Ending::OutOfTurn),
    }
}

impl Connection {
    /// A connection that has read nothing yet.
    pub fn new() -> (connection: Self)
        ensures
            connection@ == at(PhaseView::Reading),
    {
        Connection { phase: Phase::Reading, buffer: Vec::new() }
    }

    /// Whether the connection is still served.
    pub fn is_open(&self) -> (open: bool)
        ensures
            open == !(self@.phase is Closed),
    {
        match self.phase {
            Phase::Closed => false,
            _ => true,
        }
    }

    /// Where the connection stands.
    pub fn phase(&self) -> (phase: &Phase)
        ensures
            phase@ == self@.phase,
    {
        &self.phase
    }

    /// The bytes that were read but are not yet a whole message.
    pub fn buffered(&self) -> (bytes: &[u8])
        ensures
            bytes@ == self@.buffer,
    {
        self.buffer.as_slice()
    }

    /// Closes the connection.
    fn close(&mut self, ending: Ending) -> (action: Action)
        ensures
            (final(self)@, action@) == closed(ending),
    {
        self.phase = Phase::Closed;
        self.buffer = Vec::new();
        Action::Close(ending)
    }

    /// Goes on after the bytes held were read as a request.
    pub fn absorb(&mut self, outcome: Decoded) -> (action: Action)
        ensures
            (final(self)@, action@) == absorbed(old(self)@, outcome@),
    {
        match self.phase {
            Phase::Reading => {},
            _ => {
                return self.close(Ending::OutOfTurn);
            },
        }
        match outcome {
            Decoded::Complete(request) => {
                self.phase = Phase::Awaiting(request.id.clone());
                self.buffer = Vec::new();
                Action::Submit(request)
            },
            Decoded::Incomplete => Action::Read,
            Decoded::Malformed => {
                self.buffer = Vec::new();
                Action::Read
            },
        }
    }

    /// Goes on after bytes were read: none at all end the connection, others
    /// are added to those held, and the whole is read as a request.
    pub fn feed(&mut self, chunk: &[u8]) -> (action: Action)
        ensures
            (final(self)@, action@) == fed(old(self)@, chunk@),
    {
        match self.phase {
            Phase::Reading => {},
            _ => {
                return self.close(Ending::OutOfTurn);
            },
        }
        if chunk.len() == 0 {
            return self.close(Ending::EndOfStream);
        }
        self.buffer.extend_from_slice(chunk);
        assert(self.buffer@ =~= old(self).buffer@ + chunk@);
        let outcome = decode_request(self.buffer.as_slice());
        self.absorb(outcome)
    }

    /// Goes on after the response for the request in flight was written as a
    /// message.
    pub fn answer(&mut self, json: String) -> (action: Action)
        ensures
            (final(self)@, action@) == answered(old(self)@, json@),
    {
        match self.phase {
            Phase::Awaiting(_) => {},
            _ => {
                return self.close(Ending::OutOfTurn);
            },
        }
        self.phase = Phase::Writing;
        self.buffer = Vec::new();
        Action::Write(json)
    }

    /// The response that an event brings for the request in flight.
    fn response_for(&self, event: Event) -> (response: Option<Response>)
        requires
            self@.phase is Awaiting,
        ensures
            match response {
                Some(found) => response_of(self@.phase->Awaiting_0, event@) == Some(found@),
                None => response_of(self@.phase->Awaiting_0, event@) is None,
            },
    {
        match &self.phase {
            Phase::Awaiting(id) => match event {
                Event::Resolved(response) => Some(response),
                Event::Abandoned => Some(Response::internal_error(id.clone())),
                Event::Rejected => Some(Response::event_loop_closed(id.clone())),
                _ => None,
            },
            _ => None,
        }
    }

    /// Goes on after an event and says what to do next.
    pub fn step(&mut self, event: Event) -> (action: Action)
        ensures
            (final(self)@, action@) == next(old(self)@, event@),
    {
        match self.phase {
            Phase::Reading => match event {
                Event::Chunk(chunk) => self.feed(chunk.as_slice()),
                Event::ReadFailed => self.close(Ending::ReadFailed),
                _ => self.close(Ending::OutOfTurn),
            },
            Phase::Awaiting(_) => match self.response_for(event) {
                Some(response) => {
                    let text = encode_response(&response);
                    self.answer(text)
                },
                None => self.close(Ending::OutOfTurn),
            },
            Phase::Writing => match event {
                Event::Written => {
                    self.phase = Phase::Reading;
                    self.buffer = Vec::new();
                    Action::Read
                },
                Event::WriteFailed => self.close(Ending::WriteFailed),
                _ => self.close(Ending::OutOfTurn),
            },
            Phase::Closed => self.close(Ending::OutOfTurn),
        }
    }
}

/// Bytes that are no request do not close the connection that read them:
/// they are dropped, and it goes on reading.
pub proof fn lemma_malformed_chunk_is_skipped(state: ConnectionView, chunk: Seq<u8>)
    requires
        state.phase is Reading,
        chunk.len() > 0,
        decoded(state.buffer + chunk) is Malformed,
    ensures
        next(state, EventView::Chunk(chunk)) == (at(PhaseView::Reading), ActionView::Read),
{
}

/// Bytes that end before the message does are kept, and the connection goes
/// on reading.
pub proof fn lemma_partial_chunk_is_kept(state: ConnectionView, chunk: Seq<u8>)
    requires
        state.phase is Reading,
        chunk.len() > 0,
        decoded(state.buffer + chunk) is Incomplete,
    ensures
        next(state, EventView::Chunk(chunk)) == (
            ConnectionView { phase: PhaseView::Reading, buffer: state.buffer + chunk },
            ActionView::Read,
        ),
{
}

/// Whatever bytes a reading connection is given, it stays open.
pub proof fn lemma_no_chunk_closes(state: ConnectionView, chunk: Seq<u8>)
    requires
        state.phase is Reading,
        chunk.len() > 0,
    ensures
        !(next(state, EventView::Chunk(chunk)).0.phase is Closed),
        !(next(state, EventView::Chunk(chunk)).1 is Close),
{
}

/// A response is written whatever its status, and once it is written out
/// the connection reads again: a request that failed does not close the
/// connection.
pub proof fn lemma_response_keeps_connection_open(state: ConnectionView, response: ResponseView)
    requires
        state.phase is Awaiting,
    ensures
        next(state, EventView::Resolved(response)) == (
            at(PhaseView::Writing),
            ActionView::Write(encoded(response)),
        ),
        next(at(PhaseView::Writing), EventView::Written) == (
            at(PhaseView::Reading),
            ActionView::Read,
        ),
{
}

/// A connection whose resolver was dropped, or whose request never reached
/// the event loop, still answers: with a response of its own making that
/// carries the id of the request and reports a failure.
pub proof fn lemma_lost_request_is_answered(id: Seq<char>)
    ensures
        response_of(id, EventView::Abandoned) == Some(internal_error_response(id)),
        response_of(id, EventView::Rejected) == Some(event_loop_closed_response(id)),
        internal_error_response(id).id == id,
        event_loop_closed_response(id).id == id,
        !crate::message::status_is_success(internal_error_response(id).status),
        !crate::message::status_is_success(event_loop_closed_response(id).status),
{
}

} // verus!
