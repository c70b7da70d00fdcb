//! The call dispatcher: the four call shapes of the service, each with the
//! payload codec applied to whatever crosses its boundary.

use crate::crypto::decrypted;
use crate::error::ErrorKind;
use crate::message::{
    carries, decrypted_all, fails_with, lemma_failure_stays, payloads, replies_with, HelloRequest,
    HelloResponse,
};
use crate::session::{
    opened, Action, CallSession, CallShape, CallState, Event, SessionView, STREAM_REPLIES,
};
use crate::static_variables::Global;
use crate::text::{greeting, joined_greeting, stream_reply, unary_reply};
use vstd::prelude::*;

verus! {

/// Whether `reply` is what a bidirectional call makes of `request`: the
/// greeting of its text, or the error that its payload decrypts to.
pub open spec fn answers(
    key: Seq<u8>,
    request: HelloRequest,
    reply: Result<HelloResponse, ErrorKind>,
) -> bool {
    match decrypted(key, request.message@) {
        Ok(text) => replies_with(key, reply, greeting(text)),
        Err(kind) => fails_with(reply, kind),
    }
}

/// The service: the dispatcher of the four call shapes, with the key that it
/// was made with.
#[derive(Debug)]
pub struct SimulationService {
    aes_key: [u8; 16],
}

impl Default for SimulationService {
    /// The service under the key of sixteen zero bytes.
    fn default() -> (service: Self)
        ensures
            service.key() == Seq::new(16, |i: int| 0u8),
    {
        let service = SimulationService { aes_key: [0u8; 16] };
        assert(service.key() =~= Seq::new(16, |i: int| 0u8));
        service
    }
}

impl SimulationService {
    /// The key of the service.
    pub closed spec fn key(&self) -> Seq<u8> {
        self.aes_key@
    }

    /// The service under the given key.
    pub fn new(aes_key: [u8; 16]) -> (service: Self)
        ensures
            service.key() == aes_key@,
    {
        Self { aes_key }
    }

    /// The service under the key of a checked configuration.
    pub fn from_config(config: &Global) -> (service: Self)
        ensures
            service.key() == config.aes_key@,
    {
        Self::new(config.aes_key)
    }

    /// The key of the service.
    pub fn aes_key(&self) -> (key: &[u8; 16])
        ensures
            key@ == self.key(),
    {
        &self.aes_key
    }

    /// The unary call: decrypts the request, answers its text, and encrypts
    /// the answer under a fresh vector. A request that does not decrypt fails
    /// the call with the kind of its error; no reply is made up.
    pub fn unary_rpc(&self, request: &HelloRequest) -> (reply: Result<HelloResponse, ErrorKind>)
        ensures
            match decrypted(self.key(), request.message@) {
                Ok(text) => replies_with(self.key(), reply, unary_reply(text)),
                Err(kind) => fails_with(reply, kind),
            },
    {
        let mut session = CallSession::open(CallShape::Unary, self.aes_key);
        session.step(Event::Start);
        match session.step(Event::Inbound(request)) {
            Action::Emit(response) => {
                session.step(Event::Accepted);
                Ok(response)
            },
            Action::Fail(kind) => Err(kind),
            _ => Err(ErrorKind::InvalidArgument),
        }
    }

    /// The server-streaming call: decrypts the request, and answers it with
    /// three replies, each with its occurrence and each encrypted under a
    /// vector of its own, in the order in which they are made. A request that
    /// does not decrypt fails the call before any reply.
    pub fn server_streaming_rpc(&self, request: &HelloRequest) -> (replies: Result<
        Vec<HelloResponse>,
        ErrorKind,
    >)
        ensures
            match decrypted(self.key(), request.message@) {
                Ok(text) => replies matches Ok(items) && items@.len() == STREAM_REPLIES
                    && forall|i: int|
                    0 <= i < STREAM_REPLIES ==> carries(
                        self.key(),
                        #[trigger] items@[i].message@,
                        stream_reply(text, (i + 1) as nat),
                    ),
                Err(kind) => fails_with(replies, kind),
            },
    {
        let mut session = CallSession::open(CallShape::ServerStreaming, self.aes_key);
        session.step(Event::Start);
        let mut items: Vec<HelloResponse> = Vec::new();
        let mut action = session.step(Event::Inbound(request));
        let ghost key = self.key();
        let ghost outcome = decrypted(key, request.message@);
        loop
            invariant
                key == self.key(),
                outcome == decrypted(key, request.message@),
                outcome matches Err(kind) ==> items@.len() == 0 && action == Action::Fail(kind),
                outcome matches Ok(text) ==> {
                    &&& items@.len() <= STREAM_REPLIES
                    &&& forall|i: int|
                        0 <= i < items@.len() ==> carries(
                            key,
                            #[trigger] items@[i].message@,
                            stream_reply(text, (i + 1) as nat),
                        )
                    &&& session@.shape == CallShape::ServerStreaming
                    &&& session@.key == key
                    &&& if items@.len() == STREAM_REPLIES {
                        action is Finish
                    } else {
                        &&& action matches Action::Emit(response) && carries(
                            key,
                            response.message@,
                            stream_reply(text, (items@.len() + 1) as nat),
                        )
                        &&& session@.collected == seq![text]
                        &&& session@.occurrence == items@.len() + 1
                        &&& session@.state == if items@.len() + 1 == STREAM_REPLIES {
                            CallState::Draining
                        } else {
                            CallState::Emitting
                        }
                    }
                },
            decreases STREAM_REPLIES - items@.len(),
        {
            match action {
                Action::Emit(response) => {
                    items.push(response);
                    action = session.step(Event::Accepted);
                },
                Action::Fail(kind) => {
                    return Err(kind);
                },
                _ => {
                    return Ok(items);
                },
            }
        }
    }

    /// The client-streaming call: decrypts the requests in the order of their
    /// arrival, and when the last has come answers all of them with one
    /// greeting. The first request that does not decrypt fails the whole
    /// call: there is no reply to a part of the stream.
    pub fn client_streaming_rpc(&self, requests: &Vec<HelloRequest>) -> (reply: Result<
        HelloResponse,
        ErrorKind,
    >)
        ensures
            match decrypted_all(self.key(), payloads(requests@)) {
                Ok(texts) => replies_with(self.key(), reply, joined_greeting(texts)),
                Err(kind) => fails_with(reply, kind),
            },
    {
        let mut session = CallSession::open(CallShape::ClientStreaming, self.aes_key);
        session.step(Event::Start);
        let ghost key = self.key();
        let ghost wires = payloads(requests@);
        let mut i: usize = 0;
        while i < requests.len()
            invariant
                i <= requests@.len(),
                key == self.key(),
                wires == payloads(requests@),
                decrypted_all(key, wires.take(i as int)) matches Ok(texts) && session@
                    == (SessionView {
                    state: CallState::Receiving,
                    collected: texts,
                    ..opened(CallShape::ClientStreaming, key)
                }),
            decreases requests@.len() - i,
        {
            proof {
                assert(wires.take(i + 1).drop_last() =~= wires.take(i as int));
                assert(wires.take(i + 1).last() == requests@[i as int].message@);
                if i + 1 < wires.len() {
                    lemma_failure_stays(key, wires, i + 1);
                } else {
                    assert(wires.take(i + 1) =~= wires);
                }
            }
            match session.step(Event::Inbound(&requests[i])) {
                Action::Receive => {},
                Action::Fail(kind) => {
                    return Err(kind);
                },
                _ => {
                    return Err(ErrorKind::InvalidArgument);
                },
            }
            i += 1;
        }
        assert(wires.take(i as int) =~= wires);
        match session.step(Event::InboundEnd) {
            Action::Emit(response) => {
                session.step(Event::Accepted);
                Ok(response)
            },
            Action::Fail(kind) => Err(kind),
            _ => Err(ErrorKind::InvalidArgument),
        }
    }

    /// The bidirectional call: answers each request with a greeting as it
    /// comes, so that the replies stand in the order of the requests. The
    /// first request that does not decrypt ends the call with its error in
    /// place of a reply; no request after it is read.
    pub fn bi_directional_streaming_rpc(&self, requests: &Vec<HelloRequest>) -> (replies: Vec<
        Result<HelloResponse, ErrorKind>,
    >)
        ensures
            replies@.len() <= requests@.len(),
            forall|i: int|
                0 <= i < replies@.len() ==> answers(
                    self.key(),
                    requests@[i],
                    #[trigger] replies@[i],
                ),
            forall|i: int| 0 <= i < replies@.len() - 1 ==> (#[trigger] replies@[i]) is Ok,
            replies@.len() < requests@.len() ==> replies@.len() > 0 && replies@.last() is Err,
    {
        let mut session = CallSession::open(CallShape::Bidirectional, self.aes_key);
        session.step(Event::Start);
        let ghost key = self.key();
        let mut replies: Vec<Result<HelloResponse, ErrorKind>> = Vec::new();
        let mut i: usize = 0;
        while i < requests.len()
            invariant
                i <= requests@.len(),
                key == self.key(),
                replies@.len() == i,
                session@ == (SessionView {
                    state: CallState::Receiving,
                    ..opened(CallShape::Bidirectional, key)
                }),
                forall|j: int|
                    0 <= j < i ==> answers(key, requests@[j], #[trigger] replies@[j])
                        && replies@[j] is Ok,
            decreases requests@.len() - i,
        {
            match session.step(Event::Inbound(&requests[i])) {
                Action::Emit(response) => {
                    replies.push(Ok(response));
                    session.step(Event::Accepted);
                },
                Action::Fail(kind) => {
                    replies.push(Err(kind));
                    return replies;
                },
                _ => {
                    replies.push(Err(ErrorKind::InvalidArgument));
                    return replies;
                },
            }
            i += 1;
        }
        session.step(Event::InboundEnd);
        replies
    }
}

} // verus!
