//! The state machine that every call follows.
//!
//! A call session is the state of one call in progress. The program that owns
//! the transport tells the session what happened (an item came in, a reply
//! was taken, the consumer went away) and the session answers what to do
//! next. All that a call decides is decided here; waiting is done elsewhere.

use crate::crypto::{decrypt_message, decrypted, encrypt_message};
use crate::error::ErrorKind;
use crate::message::{carries, HelloRequest, HelloResponse};
use crate::text::{
    greeting, greeting_text, joined_greeting, joined_greeting_text, stream_reply,
    stream_reply_text, texts_of, unary_reply, unary_reply_text,
};
use vstd::prelude::*;
use vstd::string::*;

verus! {

/// The number of replies that a server-streaming call gives.
pub const STREAM_REPLIES: usize = 3;

/// The pause, in milliseconds, that follows each reply of a server-streaming
/// call.
pub const PACING_DELAY_MS: u64 = 200;

/// One of the four interaction patterns of a call.
#[derive(Clone, Copy, Debug, PartialEq, Eq, Structural)]
pub enum CallShape {
    /// One request, one reply.
    Unary,
    /// A stream of requests, one reply when the stream has ended.
    ClientStreaming,
    /// One request, a fixed number of replies.
    ServerStreaming,
    /// A stream of requests, one reply to each as it comes.
    Bidirectional,
}

/// The pause, in milliseconds, that a call of the given shape makes after
/// each of its replies: the replies of a server-streaming call are paced,
/// no others are.
pub open spec fn pacing_delay(shape: CallShape) -> u64 {
    if shape == CallShape::ServerStreaming {
        PACING_DELAY_MS
    } else {
        0
    }
}

/// Where a call stands.
#[derive(Clone, Copy, Debug, PartialEq, Eq, Structural)]
pub enum CallState {
    /// The call has not begun.
    Idle,
    /// The call waits for an inbound item.
    Receiving,
    /// A reply is being derived from an inbound item. A session passes
    /// through this state within one step and does not rest in it.
    Transforming,
    /// A reply has been handed out, and more may follow it.
    Emitting,
    /// The last reply has been handed out; nothing more is read or made.
    Draining,
    /// The call is over. Nothing leads out of this state.
    Closed,
}

/// What happened on the transport since the last step.
#[derive(Clone, Copy, Debug)]
pub enum Event<'a> {
    /// The call begins.
    Start,
    /// An item came in.
    Inbound(&'a HelloRequest),
    /// The inbound side failed.
    InboundFailed,
    /// The peer has sent its last item.
    InboundEnd,
    /// The reply that was handed out last has been taken.
    Accepted,
    /// The consumer of the replies is gone.
    ConsumerGone,
}

/// What the owner of the transport is to do next.
#[derive(Debug, PartialEq, Eq)]
pub enum Action {
    /// Wait for the next inbound item.
    Receive,
    /// Hand this reply to the consumer and pause as long as the shape of the
    /// call asks for; then report whether the reply was taken.
    Emit(HelloResponse),
    /// End the call in good order.
    Finish,
    /// End the call with this error.
    Fail(ErrorKind),
}

/// What a step decides, with the text of a reply not yet encrypted.
pub enum Decision {
    Receive,
    Emit(Seq<char>),
    Finish,
    Fail(ErrorKind),
}

/// A call session as a mathematical value.
pub struct SessionView {
    pub shape: CallShape,
    pub state: CallState,
    pub key: Seq<u8>,
    /// The texts received and kept, in the order of their arrival: all of
    /// them for a client-streaming call, the one request for a
    /// server-streaming call.
    pub collected: Seq<Seq<char>>,
    /// The number of replies that a server-streaming call has handed out.
    pub occurrence: nat,
    /// Why the call was closed, where it was not closed in good order.
    pub cause: Option<ErrorKind>,
}

/// The session that a call of the given shape begins with.
pub open spec fn opened(shape: CallShape, key: Seq<u8>) -> SessionView {
    SessionView {
        shape,
        state: CallState::Idle,
        key,
        collected: Seq::empty(),
        occurrence: 0,
        cause: None,
    }
}

/// The session closed in good order.
pub open spec fn closed(session: SessionView) -> SessionView {
    SessionView { state: CallState::Closed, ..session }
}

/// The session closed for the given cause.
pub open spec fn closed_for(session: SessionView, cause: ErrorKind) -> SessionView {
    SessionView { state: CallState::Closed, cause: Some(cause), ..session }
}

/// The call fails: the session is closed for `kind`, and the caller is told.
pub open spec fn failed(session: SessionView, kind: ErrorKind) -> (SessionView, Decision) {
    (closed_for(session, kind), Decision::Fail(kind))
}

/// The call ends because the consumer of its replies is gone: the session is
/// closed for that, and nobody is told.
pub open spec fn abandoned(session: SessionView) -> (SessionView, Decision) {
    (closed_for(session, ErrorKind::PeerDisconnected), Decision::Finish)
}

/// What a session that waits for an inbound item makes of the text of one.
pub open spec fn decide_on_text(session: SessionView, text: Seq<char>) -> (SessionView, Decision) {
    match session.shape {
        CallShape::Unary => (
            SessionView { state: CallState::Draining, ..session },
            Decision::Emit(unary_reply(text)),
        ),
        CallShape::ClientStreaming => (
            SessionView { collected: session.collected.push(text), ..session },
            Decision::Receive,
        ),
        CallShape::ServerStreaming => (
            SessionView {
                state: CallState::Emitting,
                collected: session.collected.push(text),
                occurrence: 1,
                ..session
            },
            Decision::Emit(stream_reply(text, 1)),
        ),
        CallShape::Bidirectional => (
            SessionView { state: CallState::Emitting, ..session },
            Decision::Emit(greeting(text)),
        ),
    }
}

/// What a session that waits for an inbound item makes of an event.
pub open spec fn decide_receiving(session: SessionView, event: Event) -> (SessionView, Decision) {
    match event {
        Event::Inbound(request) => match decrypted(session.key, request.message@) {
            Ok(text) => decide_on_text(session, text),
            Err(kind) => failed(session, kind),
        },
        Event::InboundEnd => match session.shape {
            CallShape::ClientStreaming => (
                SessionView { state: CallState::Draining, ..session },
                Decision::Emit(joined_greeting(session.collected)),
            ),
            CallShape::Bidirectional => (closed(session), Decision::Finish),
            _ => failed(session, ErrorKind::InvalidArgument),
        },
        Event::InboundFailed => match session.shape {
            CallShape::Bidirectional => (
                closed_for(session, ErrorKind::InvalidArgument),
                Decision::Finish,
            ),
            _ => failed(session, ErrorKind::InvalidArgument),
        },
        _ => failed(session, ErrorKind::InvalidArgument),
    }
}

/// What a session makes of the news that its last reply was taken, while
/// more replies may follow.
pub open spec fn decide_accepted(session: SessionView) -> (SessionView, Decision) {
    match session.shape {
        CallShape::ServerStreaming => if session.collected.len() == 1 && session.occurrence
            < STREAM_REPLIES {
            let occurrence = session.occurrence + 1;
            (
                SessionView {
                    state: if occurrence == STREAM_REPLIES {
                        CallState::Draining
                    } else {
                        CallState::Emitting
                    },
                    occurrence,
                    ..session
                },
                Decision::Emit(stream_reply(session.collected[0], occurrence)),
            )
        } else {
            failed(session, ErrorKind::InvalidArgument)
        },
        CallShape::Bidirectional => (
            SessionView { state: CallState::Receiving, ..session },
            Decision::Receive,
        ),
        _ => failed(session, ErrorKind::InvalidArgument),
    }
}

/// The transition function of a call: the session after an event, and what
/// was decided on it.
///
/// A closed session stays closed and only ever finishes. The consumer's
/// going away ends a call without a failure. An inbound item that does not
/// decrypt ends it with the kind of its error, and so does, with
/// `InvalidArgument`, an event that the state does not allow.
pub open spec fn decide(session: SessionView, event: Event) -> (SessionView, Decision) {
    match session.state {
        CallState::Closed => (session, Decision::Finish),
        CallState::Idle => match event {
            Event::Start => (
                SessionView { state: CallState::Receiving, ..session },
                Decision::Receive,
            ),
            _ => failed(session, ErrorKind::InvalidArgument),
        },
        CallState::Receiving => decide_receiving(session, event),
        CallState::Emitting => match event {
            Event::Accepted => decide_accepted(session),
            Event::ConsumerGone => abandoned(session),
            _ => failed(session, ErrorKind::InvalidArgument),
        },
        CallState::Draining => match event {
            Event::Accepted => (closed(session), Decision::Finish),
            Event::ConsumerGone => abandoned(session),
            _ => failed(session, ErrorKind::InvalidArgument),
        },
        CallState::Transforming => failed(session, ErrorKind::InvalidArgument),
    }
}

/// Whether `action` is what `decision` asks for: the same course, and where
/// a reply is handed out, one that carries the decided text under `key`.
pub open spec fn enacts(key: Seq<u8>, action: Action, decision: Decision) -> bool {
    match decision {
        Decision::Receive => action is Receive,
        Decision::Emit(text) => action matches Action::Emit(response) && carries(
            key,
            response.message@,
            text,
        ),
        Decision::Finish => action is Finish,
        Decision::Fail(kind) => action matches Action::Fail(failure) && failure == kind,
    }
}

/// The session after a sequence of events.
pub open spec fn run(session: SessionView, events: Seq<Event>) -> SessionView
    decreases events.len(),
{
    if events.len() == 0 {
        session
    } else {
        decide(run(session, events.drop_last()), events.last()).0
    }
}

/// Whether a session is one that a call can be in: it rests in no passing
/// state, and holds what its shape and state call for.
pub open spec fn is_consistent(session: SessionView) -> bool {
    &&& session.state != CallState::Closed ==> session.cause is None
    &&& is_consistent_in_state(session)
}

/// Whether a session holds what its shape and state call for.
pub open spec fn is_consistent_in_state(session: SessionView) -> bool {
    match session.state {
        CallState::Transforming => false,
        CallState::Closed => session.occurrence <= STREAM_REPLIES,
        CallState::Idle => session.collected.len() == 0 && session.occurrence == 0,
        CallState::Receiving => session.occurrence == 0 && (session.shape
            != CallShape::ClientStreaming ==> session.collected.len() == 0),
        CallState::Emitting => match session.shape {
            CallShape::ServerStreaming => session.collected.len() == 1 && 1 <= session.occurrence
                < STREAM_REPLIES,
            CallShape::Bidirectional => session.collected.len() == 0 && session.occurrence == 0,
            _ => false,
        },
        CallState::Draining => match session.shape {
            CallShape::Unary => session.collected.len() == 0 && session.occurrence == 0,
            CallShape::ClientStreaming => session.occurrence == 0,
            CallShape::ServerStreaming => session.collected.len() == 1 && session.occurrence
                == STREAM_REPLIES,
            CallShape::Bidirectional => false,
        },
    }
}

/// A closed call is over for good: whatever event comes, the session stays
/// as it is, and the only thing left to do is to finish.
pub proof fn lemma_closed_is_terminal(session: SessionView, event: Event)
    requires
        session.state == CallState::Closed,
    ensures
        decide(session, event).0 == session,
        decide(session, event).1 is Finish,
{
}

/// No sequence of events leads out of the closed state.
pub proof fn lemma_closed_stays_closed(session: SessionView, events: Seq<Event>)
    requires
        session.state == CallState::Closed,
    ensures
        run(session, events) == session,
    decreases events.len(),
{
    if events.len() > 0 {
        lemma_closed_stays_closed(session, events.drop_last());
    }
}

/// A step that finishes or fails the call closes it, and a step keeps the
/// shape and the key of the call.
pub proof fn lemma_step_outcome(session: SessionView, event: Event)
    ensures
        decide(session, event).0.shape == session.shape,
        decide(session, event).0.key == session.key,
        decide(session, event).1 is Finish || decide(session, event).1 is Fail ==> decide(
            session,
            event,
        ).0.state == CallState::Closed,
{
}

/// Every session that a call reaches is consistent: the opened one is, and a
/// step keeps it so.
pub proof fn lemma_steps_keep_consistency(
    shape: CallShape,
    key: Seq<u8>,
    session: SessionView,
    event: Event,
)
    ensures
        is_consistent(opened(shape, key)),
        is_consistent(session) ==> is_consistent(decide(session, event).0),
{
}

/// The consumer's going away is no fault: while a reply is out, it ends the
/// call without a failure, and the session remembers why it ended.
pub proof fn lemma_consumer_gone_is_no_failure(session: SessionView)
    requires
        session.state == CallState::Emitting || session.state == CallState::Draining,
    ensures
        decide(session, Event::ConsumerGone).0 == closed_for(
            session,
            ErrorKind::PeerDisconnected,
        ),
        decide(session, Event::ConsumerGone).1 is Finish,
{
}

/// A session is closed for a cause exactly by a step that fails, by the
/// consumer's going away, or by the failure of the inbound side; and a step
/// that fails closes it for the kind that the caller is told.
pub proof fn lemma_cause_of_closing(session: SessionView, event: Event)
    requires
        session.state != CallState::Closed,
        session.cause is None,
    ensures
        decide(session, event).1 matches Decision::Fail(kind) ==> decide(session, event).0
            == closed_for(session, kind),
        decide(session, event).0.cause is Some ==> decide(session, event).0.state
            == CallState::Closed && (decide(session, event).1 is Fail || event is ConsumerGone
            || event is InboundFailed),
{
}

/// An inbound item that does not decrypt ends the call at once with the kind
/// of its error, whatever the shape: there is no skipping and going on.
pub proof fn lemma_bad_item_ends_the_call(session: SessionView, request: &HelloRequest)
    requires
        session.state == CallState::Receiving,
    ensures
        decrypted(session.key, request.message@) matches Err(kind) ==> decide(
            session,
            Event::Inbound(request),
        ) == failed(session, kind),
{
}

/// In a consistent session every event that the state waits for is taken: a
/// step fails only on an item that does not decrypt, on a failed or
/// untimely event.
pub proof fn lemma_expected_events_are_taken(session: SessionView)
    requires
        is_consistent(session),
    ensures
        session.state == CallState::Idle ==> decide(session, Event::Start).1 is Receive,
        session.state == CallState::Emitting ==> !(decide(session, Event::Accepted).1 is Fail),
        session.state == CallState::Draining ==> decide(session, Event::Accepted).1 is Finish,
        session.state == CallState::Receiving && (session.shape == CallShape::ClientStreaming
            || session.shape == CallShape::Bidirectional) ==> !(decide(
            session,
            Event::InboundEnd,
        ).1 is Fail),
{
}

/// The state of one call in progress.
pub struct CallSession {
    shape: CallShape,
    state: CallState,
    aes_key: [u8; 16],
    collected: Vec<String>,
    occurrence: usize,
    cause: Option<ErrorKind>,
}

impl View for CallSession {
    type V = SessionView;

    closed spec fn view(&self) -> SessionView {
        SessionView {
            shape: self.shape,
            state: self.state,
            key: self.aes_key@,
            collected: texts_of(self.collected@),
            occurrence: self.occurrence as nat,
            cause: self.cause,
        }
    }
}

impl CallSession {
    /// The session of a call of the given shape that has not begun.
    pub fn open(shape: CallShape, aes_key: [u8; 16]) -> (session: Self)
        ensures
            session@ == opened(shape, aes_key@),
    {
        let session = CallSession {
            shape,
            state: CallState::Idle,
            aes_key,
            collected: Vec::new(),
            occurrence: 0,
            cause: None,
        };
        assert(session@.collected =~= Seq::empty());
        session
    }

    /// The shape of the call.
    pub fn shape(&self) -> (shape: CallShape)
        ensures
            shape == self@.shape,
    {
        self.shape
    }

    /// Where the call stands.
    pub fn state(&self) -> (state: CallState)
        ensures
            state == self@.state,
    {
        self.state
    }

    /// The pause, in milliseconds, that is to follow each reply of the call.
    pub fn pause_after_reply(&self) -> (milliseconds: u64)
        ensures
            milliseconds == pacing_delay(self@.shape),
    {
        match self.shape {
            CallShape::ServerStreaming => PACING_DELAY_MS,
            _ => 0,
        }
    }

    /// Whether the call is over.
    pub fn is_closed(&self) -> (over: bool)
        ensures
            over == (self@.state == CallState::Closed),
    {
        self.state == CallState::Closed
    }

    /// Why the call was closed: `None` while it is open and where it ended
    /// in good order, `PeerDisconnected` where the consumer of its replies
    /// went away, and else the kind of the failure that ended it.
    pub fn cause(&self) -> (cause: Option<ErrorKind>)
        ensures
            cause == self@.cause,
    {
        self.cause
    }

    /// Ends the call with `kind`.
    fn fail(&mut self, kind: ErrorKind) -> (action: Action)
        ensures
            (final(self)@, Decision::Fail(kind)) == failed(old(self)@, kind),
            action matches Action::Fail(failure) && failure == kind,
    {
        self.state = CallState::Closed;
        self.cause = Some(kind);
        Action::Fail(kind)
    }

    /// Ends the call for `kind` without telling the caller.
    fn abandon(&mut self, kind: ErrorKind) -> (action: Action)
        ensures
            final(self)@ == closed_for(old(self)@, kind),
            action is Finish,
    {
        self.state = CallState::Closed;
        self.cause = Some(kind);
        Action::Finish
    }

    /// Ends the call in good order.
    fn finish(&mut self) -> (action: Action)
        ensures
            final(self)@ == closed(old(self)@),
            action is Finish,
    {
        self.state = CallState::Closed;
        Action::Finish
    }

    /// Encrypts the text of a reply under a fresh vector.
    fn seal(&self, text: &str) -> (action: Action)
        ensures
            action matches Action::Emit(response) && carries(
                self@.key,
                response.message@,
                text@,
            ),
    {
        Action::Emit(HelloResponse { message: encrypt_message(&self.aes_key, text) })
    }

    /// Takes an inbound item while the call waits for one.
    fn receive(&mut self, request: &HelloRequest) -> (action: Action)
        requires
            old(self)@.state == CallState::Receiving,
        ensures
            final(self)@ == decide(old(self)@, Event::Inbound(request)).0,
            enacts(old(self)@.key, action, decide(old(self)@, Event::Inbound(request)).1),
    {
        self.state = CallState::Transforming;
        let text = match decrypt_message(&self.aes_key, request.message.as_str()) {
            Ok(text) => text,
            Err(kind) => {
                return self.fail(kind);
            },
        };
        match self.shape {
            CallShape::Unary => {
                self.state = CallState::Draining;
                self.seal(unary_reply_text(text.as_str()).as_str())
            },
            CallShape::ClientStreaming => {
                self.collected.push(text);
                self.state = CallState::Receiving;
                assert(self@.collected =~= old(self)@.collected.push(text@));
                Action::Receive
            },
            CallShape::ServerStreaming => {
                let action = self.seal(stream_reply_text(text.as_str(), 1).as_str());
                self.collected.push(text);
                self.occurrence = 1;
                self.state = CallState::Emitting;
                assert(self@.collected =~= old(self)@.collected.push(text@));
                action
            },
            CallShape::Bidirectional => {
                self.state = CallState::Emitting;
                self.seal(greeting_text(text.as_str()).as_str())
            },
        }
    }

    /// Makes the next reply of a server-streaming call, or resumes reading in
    /// a bidirectional one.
    fn proceed(&mut self) -> (action: Action)
        requires
            old(self)@.state == CallState::Emitting,
        ensures
            final(self)@ == decide_accepted(old(self)@).0,
            enacts(old(self)@.key, action, decide_accepted(old(self)@).1),
    {
        match self.shape {
            CallShape::ServerStreaming => {
                if self.collected.len() == 1 && self.occurrence < STREAM_REPLIES {
                    let occurrence = self.occurrence + 1;
                    let action = self.seal(
                        stream_reply_text(self.collected[0].as_str(), occurrence).as_str(),
                    );
                    self.occurrence = occurrence;
                    if occurrence == STREAM_REPLIES {
                        self.state = CallState::Draining;
                    }
                    action
                } else {
                    self.fail(ErrorKind::InvalidArgument)
                }
            },
            CallShape::Bidirectional => {
                self.state = CallState::Receiving;
                Action::Receive
            },
            _ => self.fail(ErrorKind::InvalidArgument),
        }
    }

    /// Advances the call by one event and says what to do next.
    pub fn step(&mut self, event: Event<'_>) -> (action: Action)
        ensures
            final(self)@ == decide(old(self)@, event).0,
            enacts(old(self)@.key, action, decide(old(self)@, event).1),
    {
        match self.state {
            CallState::Closed => Action::Finish,
            CallState::Idle => match event {
                Event::Start => {
                    self.state = CallState::Receiving;
                    Action::Receive
                },
                _ => self.fail(ErrorKind::InvalidArgument),
            },
            CallState::Receiving => match event {
                Event::Inbound(request) => self.receive(request),
                Event::InboundEnd => match self.shape {
                    CallShape::ClientStreaming => {
                        self.state = CallState::Draining;
                        self.seal(joined_greeting_text(&self.collected).as_str())
                    },
                    CallShape::Bidirectional => self.finish(),
                    _ => self.fail(ErrorKind::InvalidArgument),
                },
                Event::InboundFailed => match self.shape {
                    CallShape::Bidirectional => self.abandon(ErrorKind::InvalidArgument),
                    _ => self.fail(ErrorKind::InvalidArgument),
                },
                _ => self.fail(ErrorKind::InvalidArgument),
            },
            CallState::Emitting => match event {
                Event::Accepted => self.proceed(),
                Event::ConsumerGone => self.abandon(ErrorKind::PeerDisconnected),
                _ => self.fail(ErrorKind::InvalidArgument),
            },
            CallState::Draining => match event {
                Event::Accepted => self.finish(),
                Event::ConsumerGone => self.abandon(ErrorKind::PeerDisconnected),
                _ => self.fail(ErrorKind::InvalidArgument),
            },
            CallState::Transforming => self.fail(ErrorKind::InvalidArgument),
        }
    }
}

} // verus!
