//! The stream bridge: a bounded buffer between the one task that makes the
//! replies of a call and the one that delivers them.
//!
//! The bridge does not wait. Where the producer would have to, the item
//! comes back to it, and it tries again when the consumer has taken one;
//! where the consumer would have to, it is told that nothing is there yet.

use std::collections::VecDeque;
use vstd::prelude::*;

verus! {

/// The number of items that the bridge of a call holds at most.
pub const BRIDGE_CAPACITY: usize = 4;

/// What became of an item that was sent.
#[derive(Debug, PartialEq, Eq)]
pub enum SendOutcome<T> {
    /// The item is in the buffer.
    Sent,
    /// The buffer is full: the producer has to wait for the consumer. The
    /// item comes back.
    Full(T),
    /// The consumer is gone: nothing will be delivered any more. The item
    /// comes back.
    Disconnected(T),
    /// The producer has closed the bridge before. The item comes back.
    Closed(T),
}

/// What the consumer gets when it asks for the next item.
#[derive(Debug, PartialEq, Eq)]
pub enum Pulled<T> {
    /// The item that has waited longest.
    Item(T),
    /// Nothing is there yet, but more may come.
    Pending,
    /// Nothing is there, and nothing will come.
    End,
}

/// A bridge as a mathematical value.
pub struct BridgeView<T> {
    /// The items that wait, the oldest first.
    pub queue: Seq<T>,
    /// The number of items that may wait at once.
    pub capacity: nat,
    /// Whether the producer has said that no further item will come.
    pub closed: bool,
    /// Whether the consumer is still there.
    pub connected: bool,
}

impl<T> BridgeView<T> {
    /// The empty bridge of the given capacity, open at both ends.
    pub open spec fn empty(capacity: nat) -> Self {
        BridgeView { queue: Seq::empty(), capacity, closed: false, connected: true }
    }

    /// Whether no more items wait than the capacity allows.
    pub open spec fn is_bounded(self) -> bool {
        self.queue.len() <= self.capacity
    }

    /// Whether the buffer has no room.
    pub open spec fn is_full(self) -> bool {
        self.queue.len() >= self.capacity
    }

    /// Whether an item that is sent now is taken into the buffer.
    pub open spec fn admits(self) -> bool {
        self.connected && !self.closed && self.queue.len() < self.capacity
    }

    /// The bridge after `item` was sent.
    pub open spec fn after_send(self, item: T) -> Self {
        if self.admits() {
            BridgeView { queue: self.queue.push(item), ..self }
        } else {
            self
        }
    }

    /// The bridge after the producer closed it.
    pub open spec fn after_close(self) -> Self {
        BridgeView { closed: true, ..self }
    }

    /// The bridge after the consumer asked for an item.
    pub open spec fn after_pull(self) -> Self {
        if self.queue.len() > 0 {
            BridgeView { queue: self.queue.drop_first(), ..self }
        } else {
            self
        }
    }

    /// The bridge after the consumer went away: what waited is dropped.
    pub open spec fn after_disconnect(self) -> Self {
        BridgeView { queue: Seq::empty(), connected: false, ..self }
    }

    /// Whether the consumer has seen, or will see, the end of the sequence
    /// at its next pull.
    pub open spec fn is_drained(self) -> bool {
        self.queue.len() == 0 && (self.closed || !self.connected)
    }
}

/// One thing that is done to a bridge.
pub enum BridgeOp<T> {
    Send(T),
    Pull,
    Close,
    Disconnect,
}

impl<T> BridgeView<T> {
    /// The bridge after `op`.
    pub open spec fn after(self, op: BridgeOp<T>) -> Self {
        match op {
            BridgeOp::Send(item) => self.after_send(item),
            BridgeOp::Pull => self.after_pull(),
            BridgeOp::Close => self.after_close(),
            BridgeOp::Disconnect => self.after_disconnect(),
        }
    }

    /// The bridge after a sequence of operations.
    pub open spec fn after_all(self, ops: Seq<BridgeOp<T>>) -> Self
        decreases ops.len(),
    {
        if ops.len() == 0 {
            self
        } else {
            self.after_all(ops.drop_last()).after(ops.last())
        }
    }

    /// The items that the operations put into the buffer, in their order.
    pub open spec fn taken_in(self, ops: Seq<BridgeOp<T>>) -> Seq<T>
        decreases ops.len(),
    {
        if ops.len() == 0 {
            Seq::empty()
        } else {
            let before = self.after_all(ops.drop_last());
            let earlier = self.taken_in(ops.drop_last());
            match ops.last() {
                BridgeOp::Send(item) => if before.admits() {
                    earlier.push(item)
                } else {
                    earlier
                },
                _ => earlier,
            }
        }
    }

    /// The items that the operations handed to the consumer, in their order.
    pub open spec fn handed_out(self, ops: Seq<BridgeOp<T>>) -> Seq<T>
        decreases ops.len(),
    {
        if ops.len() == 0 {
            Seq::empty()
        } else {
            let before = self.after_all(ops.drop_last());
            let earlier = self.handed_out(ops.drop_last());
            match ops.last() {
                BridgeOp::Pull => if before.queue.len() > 0 {
                    earlier.push(before.queue[0])
                } else {
                    earlier
                },
                _ => earlier,
            }
        }
    }
}

/// The bridge never holds more than its capacity: the empty bridge does not,
/// and no operation makes it so.
pub proof fn lemma_bridge_stays_bounded<T>(capacity: nat, bridge: BridgeView<T>, op: BridgeOp<T>)
    ensures
        BridgeView::<T>::empty(capacity).is_bounded(),
        bridge.is_bounded() ==> bridge.after(op).is_bounded(),
{
}

/// Closing is idempotent, and after it the consumer is not kept waiting:
/// once the buffer is empty every pull is `End`, and no send is taken any
/// more.
pub proof fn lemma_close_is_idempotent<T>(bridge: BridgeView<T>)
    ensures
        bridge.after_close().after_close() == bridge.after_close(),
        !bridge.after_close().admits(),
        bridge.after_close().queue == bridge.queue,
        bridge.queue.len() == 0 ==> bridge.after_close().is_drained(),
{
}

/// Once the consumer is gone no send is taken, whatever is done to the
/// bridge after.
pub proof fn lemma_disconnected_takes_nothing<T>(bridge: BridgeView<T>, ops: Seq<BridgeOp<T>>)
    requires
        !bridge.connected,
    ensures
        !bridge.after_all(ops).connected,
        !bridge.after_all(ops).admits(),
        bridge.taken_in(ops) == Seq::<T>::empty(),
    decreases ops.len(),
{
    if ops.len() > 0 {
        lemma_disconnected_takes_nothing(bridge, ops.drop_last());
    }
}

/// The bridge keeps the order of the items: what the consumer has got and
/// what still waits are, item for item, the beginning of what waited at
/// first and what was taken in since; and as long as the consumer is there,
/// they are all of it.
pub proof fn lemma_bridge_keeps_order<T>(bridge: BridgeView<T>, ops: Seq<BridgeOp<T>>)
    ensures
        bridge.handed_out(ops).is_prefix_of(bridge.queue + bridge.taken_in(ops)),
        (bridge.handed_out(ops) + bridge.after_all(ops).queue).is_prefix_of(
            bridge.queue + bridge.taken_in(ops),
        ),
        bridge.after_all(ops).connected ==> bridge.handed_out(ops) + bridge.after_all(ops).queue
            == bridge.queue + bridge.taken_in(ops),
    decreases ops.len(),
{
    let all = bridge.queue + bridge.taken_in(ops);
    let got = bridge.handed_out(ops);
    let waiting = bridge.after_all(ops).queue;
    if ops.len() == 0 {
        assert(got + waiting =~= all);
    } else {
        let earlier = ops.drop_last();
        lemma_bridge_keeps_order(bridge, earlier);
        let before = bridge.after_all(earlier);
        let was = bridge.queue + bridge.taken_in(earlier);
        let had = bridge.handed_out(earlier);
        assert((had + before.queue).is_prefix_of(was));
        match ops.last() {
            BridgeOp::Send(item) => {
                if before.admits() {
                    assert(all =~= was.push(item));
                    assert(got + waiting =~= (had + before.queue).push(item));
                }
            },
            BridgeOp::Pull => {
                if before.queue.len() > 0 {
                    assert(got + waiting =~= had + before.queue);
                }
            },
            BridgeOp::Close => {},
            BridgeOp::Disconnect => {
                assert(got + waiting =~= had);
                assert(had =~= (had + before.queue).subrange(0, had.len() as int));
            },
        }
        assert((got + waiting).is_prefix_of(all));
    }
    assert(got =~= (got + waiting).subrange(0, got.len() as int));
}

/// The bounded buffer between the producer and the consumer of a stream.
#[derive(Debug)]
pub struct StreamBridge<T> {
    buffer: VecDeque<T>,
    capacity: usize,
    closed: bool,
    connected: bool,
}

impl<T> View for StreamBridge<T> {
    type V = BridgeView<T>;

    closed spec fn view(&self) -> BridgeView<T> {
        BridgeView {
            queue: self.buffer@,
            capacity: self.capacity as nat,
            closed: self.closed,
            connected: self.connected,
        }
    }
}

impl<T> StreamBridge<T> {
    /// The empty bridge of the capacity that a call uses.
    pub fn new() -> (bridge: Self)
        ensures
            bridge@ == BridgeView::<T>::empty(BRIDGE_CAPACITY as nat),
    {
        Self::with_capacity(BRIDGE_CAPACITY)
    }

    /// The empty bridge of the given capacity.
    pub fn with_capacity(capacity: usize) -> (bridge: Self)
        ensures
            bridge@ == BridgeView::<T>::empty(capacity as nat),
    {
        StreamBridge { buffer: VecDeque::new(), capacity, closed: false, connected: true }
    }

    /// The number of items that wait.
    pub fn len(&self) -> (len: usize)
        ensures
            len == self@.queue.len(),
    {
        self.buffer.len()
    }

    /// The number of items that may wait at once.
    pub fn capacity(&self) -> (capacity: usize)
        ensures
            capacity == self@.capacity,
    {
        self.capacity
    }

    /// Whether the producer has closed the bridge.
    pub fn is_closed(&self) -> (closed: bool)
        ensures
            closed == self@.closed,
    {
        self.closed
    }

    /// Whether the consumer is still there.
    pub fn is_connected(&self) -> (connected: bool)
        ensures
            connected == self@.connected,
    {
        self.connected
    }

    /// Sends `item` to the consumer. The item is taken where the bridge is
    /// open at both ends and has room; else it comes back with the reason,
    /// and the bridge is as it was. A full buffer is the signal to the
    /// producer to hold back; a consumer that is gone is the signal to stop.
    pub fn send(&mut self, item: T) -> (outcome: SendOutcome<T>)
        ensures
            final(self)@ == old(self)@.after_send(item),
            match outcome {
                SendOutcome::Sent => old(self)@.admits(),
                SendOutcome::Disconnected(back) => back == item && !old(self)@.connected,
                SendOutcome::Closed(back) => back == item && old(self)@.connected && old(
                    self,
                )@.closed,
                SendOutcome::Full(back) => back == item && old(self)@.connected && !old(
                    self,
                )@.closed && old(self)@.is_full(),
            },
    {
        if !self.connected {
            SendOutcome::Disconnected(item)
        } else if self.closed {
            SendOutcome::Closed(item)
        } else if self.buffer.len() >= self.capacity {
            SendOutcome::Full(item)
        } else {
            self.buffer.push_back(item);
            SendOutcome::Sent
        }
    }

    /// Says that no further item will come. What waits is still delivered.
    /// Closing a closed bridge changes nothing.
    pub fn close(&mut self)
        ensures
            final(self)@ == old(self)@.after_close(),
    {
        self.closed = true;
    }

    /// Gives the consumer the item that has waited longest. Where none
    /// waits, the consumer learns whether to come again: it is `End` once
    /// the producer has closed the bridge or the consumer itself has left,
    /// `Pending` until then.
    pub fn pull(&mut self) -> (pulled: Pulled<T>)
        ensures
            final(self)@ == old(self)@.after_pull(),
            match pulled {
                Pulled::Item(item) => old(self)@.queue.len() > 0 && item == old(self)@.queue[0],
                Pulled::Pending => old(self)@.queue.len() == 0 && !old(self)@.is_drained(),
                Pulled::End => old(self)@.is_drained(),
            },
    {
        match self.buffer.pop_front() {
            Some(item) => {
                assert(self.buffer@ =~= old(self).buffer@.drop_first());
                Pulled::Item(item)
            },
            None => if self.closed || !self.connected {
                Pulled::End
            } else {
                Pulled::Pending
            },
        }
    }

    /// Records that the consumer is gone. What waited is dropped, and every
    /// later send comes back as `Disconnected`.
    pub fn disconnect(&mut self)
        ensures
            final(self)@ == old(self)@.after_disconnect(),
    {
        self.buffer.clear();
        self.connected = false;
    }
}

} // verus!
