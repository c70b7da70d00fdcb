//! The hand-over of a reply from a call session to the stream bridge.

use crate::bridge::{SendOutcome, StreamBridge};
use crate::error::ErrorKind;
use crate::message::HelloResponse;
use crate::session::{decide, enacts, Action, CallSession, Event};
use vstd::prelude::*;

verus! {

/// What travels over the bridge of a call: a reply, or the error that ends
/// the call.
pub type Outbound = Result<HelloResponse, ErrorKind>;

/// What became of a reply that was to be delivered.
#[derive(Debug, PartialEq, Eq)]
pub enum Delivery {
    /// The bridge took the reply, or will take none any more; the session
    /// was told, and this is what it wants done next.
    Next(Action),
    /// The bridge is full. The reply comes back, to be delivered when the
    /// consumer has taken an item; session and bridge are as they were.
    Blocked(HelloResponse),
}

/// Hands the reply that `session` has made to `bridge`, and tells the session
/// what became of it.
///
/// Where the bridge takes the reply the session learns that it was accepted.
/// Where the bridge takes nothing any more, because the consumer is gone or
/// the bridge was closed, the session learns that the consumer is gone, which
/// ends the call without an error. A full bridge blocks the delivery and
/// changes nothing.
pub fn deliver(
    session: &mut CallSession,
    bridge: &mut StreamBridge<Outbound>,
    response: HelloResponse,
) -> (delivery: Delivery)
    ensures
        final(bridge)@ == old(bridge)@.after_send(Ok(response)),
        if old(bridge)@.admits() {
            &&& final(session)@ == decide(old(session)@, Event::Accepted).0
            &&& delivery matches Delivery::Next(action) && enacts(
                old(session)@.key,
                action,
                decide(old(session)@, Event::Accepted).1,
            )
        } else if old(bridge)@.connected && !old(bridge)@.closed {
            &&& final(session)@ == old(session)@
            &&& delivery == Delivery::Blocked(response)
        } else {
            &&& final(session)@ == decide(old(session)@, Event::ConsumerGone).0
            &&& delivery matches Delivery::Next(action) && enacts(
                old(session)@.key,
                action,
                decide(old(session)@, Event::ConsumerGone).1,
            )
        },
{
    match bridge.send(Ok(response)) {
        SendOutcome::Sent => Delivery::Next(session.step(Event::Accepted)),
        SendOutcome::Full(Ok(response)) => Delivery::Blocked(response),
        _ => Delivery::Next(session.step(Event::ConsumerGone)),
    }
}

} // verus!
