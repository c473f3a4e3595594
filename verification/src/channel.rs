//! The single-slot conduit between the producer callback and the pulling side.
//!
//! Sending never blocks: when the slot is taken the new item is discarded and
//! the one already buffered stays. Receiving never blocks either. The channel
//! is plain state; whoever shares it between two contexts supplies the
//! exclusion.
use vstd::prelude::*;
use crate::frame::StreamItem;

verus! {

/// The mathematical state of a [`FrameChannel`].
pub struct ChannelState {
    /// The item in the slot, if there is one.
    pub buffered: Option<StreamItem>,
    /// Whether the sending end still exists.
    pub sender_alive: bool,
    /// Whether the receiving end still exists.
    pub receiver_alive: bool,
}

/// Result of a non-blocking send.
#[derive(Debug, Clone, Copy, PartialEq, Eq)]
pub enum SendOutcome {
    /// The slot was empty and now holds the item.
    Delivered,
    /// The slot was taken; the item was discarded.
    Full,
    /// The receiving end is gone; the item was discarded.
    Disconnected,
}

/// Result of a non-blocking receive.
#[derive(Debug, PartialEq, Eq)]
pub enum RecvOutcome {
    /// The item that was in the slot.
    Item(StreamItem),
    /// Nothing is buffered, and the sending end still exists.
    Empty,
    /// Nothing is buffered, and the sending end is gone.
    Disconnected,
}

impl ChannelState {
    /// A fresh channel: empty, both ends alive.
    pub open spec fn fresh() -> ChannelState {
        ChannelState { buffered: None, sender_alive: true, receiver_alive: true }
    }

    /// Number of buffered items.
    pub open spec fn buffered_count(self) -> nat {
        if self.buffered.is_some() { 1 } else { 0 }
    }

    /// What a send reports in this state.
    pub open spec fn send_outcome(self) -> SendOutcome {
        if !self.receiver_alive {
            SendOutcome::Disconnected
        } else if self.buffered.is_some() {
            SendOutcome::Full
        } else {
            SendOutcome::Delivered
        }
    }

    /// The state after a send of `item`.
    pub open spec fn after_send(self, item: StreamItem) -> ChannelState {
        if self.send_outcome() == SendOutcome::Delivered {
            ChannelState { buffered: Some(item), ..self }
        } else {
            self
        }
    }

    /// What a receive reports in this state.
    pub open spec fn recv_outcome(self) -> RecvOutcome {
        match self.buffered {
            Some(item) => RecvOutcome::Item(item),
            None => if self.sender_alive {
                RecvOutcome::Empty
            } else {
                RecvOutcome::Disconnected
            },
        }
    }

    /// The state after a receive.
    pub open spec fn after_recv(self) -> ChannelState {
        ChannelState { buffered: None, ..self }
    }

    /// The state after the sending end is dropped. A buffered item stays.
    pub open spec fn after_sender_closed(self) -> ChannelState {
        ChannelState { sender_alive: false, ..self }
    }

    /// The state after the receiving end is dropped. A buffered item is lost.
    pub open spec fn after_receiver_closed(self) -> ChannelState {
        ChannelState { buffered: None, receiver_alive: false, ..self }
    }
}

/// A channel of capacity one.
pub struct FrameChannel {
    slot: Option<StreamItem>,
    sender_alive: bool,
    receiver_alive: bool,
}

impl View for FrameChannel {
    type V = ChannelState;

    closed spec fn view(&self) -> ChannelState {
        ChannelState {
            buffered: self.slot,
            sender_alive: self.sender_alive,
            receiver_alive: self.receiver_alive,
        }
    }
}

impl FrameChannel {
    /// Creates an empty channel with both ends alive.
    pub fn new() -> (channel: FrameChannel)
        ensures
            channel@ == ChannelState::fresh(),
    {
        FrameChannel { slot: None, sender_alive: true, receiver_alive: true }
    }

    /// Offers `item` without blocking. It is stored only if the receiving end
    /// exists and the slot is empty; otherwise it is discarded and the channel
    /// is left as it was.
    pub fn try_send(&mut self, item: StreamItem) -> (outcome: SendOutcome)
        ensures
            outcome == old(self)@.send_outcome(),
            final(self)@ == old(self)@.after_send(item),
    {
        if !self.receiver_alive {
            SendOutcome::Disconnected
        } else if self.slot.is_some() {
            SendOutcome::Full
        } else {
            self.slot = Some(item);
            SendOutcome::Delivered
        }
    }

    /// Takes the buffered item without blocking, if there is one.
    pub fn try_recv(&mut self) -> (outcome: RecvOutcome)
        ensures
            outcome == old(self)@.recv_outcome(),
            final(self)@ == old(self)@.after_recv(),
    {
        match self.slot.take() {
            Some(item) => RecvOutcome::Item(item),
            None => if self.sender_alive {
                RecvOutcome::Empty
            } else {
                RecvOutcome::Disconnected
            },
        }
    }

    /// Marks the sending end as gone. What is buffered can still be received.
    pub fn close_sender(&mut self)
        ensures
            final(self)@ == old(self)@.after_sender_closed(),
    {
        self.sender_alive = false;
    }

    /// Marks the receiving end as gone and discards what is buffered.
    pub fn close_receiver(&mut self)
        ensures
            final(self)@ == old(self)@.after_receiver_closed(),
    {
        self.slot = None;
        self.receiver_alive = false;
    }

    /// Whether an item is waiting.
    pub fn has_item(&self) -> (waiting: bool)
        ensures
            waiting == self@.buffered.is_some(),
    {
        self.slot.is_some()
    }
}

/// The slot holds at most one item, whatever is sent.
pub proof fn lemma_capacity_is_one(state: ChannelState, item: StreamItem)
    ensures
        state.buffered_count() <= 1,
        state.after_send(item).buffered_count() <= 1,
        state.buffered.is_some() ==> state.after_send(item) == state,
{
}

/// A second item sent before the first is received is discarded: the send
/// reports `Full`, the channel is unchanged, and the next receive yields the
/// first item and leaves the slot empty.
pub proof fn lemma_newer_item_is_dropped(state: ChannelState, first: StreamItem, second: StreamItem)
    requires
        state.receiver_alive,
        state.buffered.is_none(),
    ensures
        state.send_outcome() == SendOutcome::Delivered,
        state.after_send(first).send_outcome() == SendOutcome::Full,
        state.after_send(first).after_send(second) == state.after_send(first),
        state.after_send(first).after_send(second).recv_outcome() == RecvOutcome::Item(first),
        state.after_send(first).after_send(second).after_recv() == state,
{
}

/// Once the receiving end is gone every send reports `Disconnected` and
/// nothing is ever buffered again.
pub proof fn lemma_send_after_receiver_closed(state: ChannelState, item: StreamItem)
    ensures
        state.after_receiver_closed().send_outcome() == SendOutcome::Disconnected,
        state.after_receiver_closed().after_send(item) == state.after_receiver_closed(),
        state.after_receiver_closed().buffered.is_none(),
{
}

/// A buffered item survives the loss of the sending end; only after it has
/// been received does a receive report `Disconnected`.
pub proof fn lemma_recv_after_sender_closed(state: ChannelState)
    ensures
        state.after_sender_closed().recv_outcome() == (match state.buffered {
            Some(item) => RecvOutcome::Item(item),
            None => RecvOutcome::Disconnected,
        }),
        state.after_sender_closed().after_recv().recv_outcome() == RecvOutcome::Disconnected,
{
}

} // verus!
