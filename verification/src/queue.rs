//! An unbounded first-in, first-out queue of messages.
//!
//! The same type serves both directions: callers append outbound messages
//! that the engine takes from the head, and the engine appends inbound
//! messages that callers take from the head.

use crate::message::{BleMessage, MessageView};
use std::collections::VecDeque;
use vstd::prelude::*;

verus! {

/// Messages in arrival order, oldest first.
pub struct MessageQueue {
    items: VecDeque<BleMessage>,
}

impl View for MessageQueue {
    type V = Seq<MessageView>;

    closed spec fn view(&self) -> Seq<MessageView> {
        self.items@.map_values(|m: BleMessage| m@)
    }
}

impl MessageQueue {
    /// A queue that holds nothing.
    pub fn new() -> (queue: MessageQueue)
        ensures
            queue@ == Seq::<MessageView>::empty(),
    {
        let queue = MessageQueue { items: VecDeque::new() };
        assert(queue@ =~= Seq::<MessageView>::empty());
        queue
    }

    /// The number of messages that wait.
    pub fn len(&self) -> (n: usize)
        ensures
            n == self@.len(),
    {
        self.items.len()
    }

    /// Whether no message waits.
    pub fn is_empty(&self) -> (empty: bool)
        ensures
            empty == (self@.len() == 0),
    {
        self.items.len() == 0
    }

    /// Appends `msg` behind every message that already waits.
    pub fn enqueue(&mut self, msg: BleMessage)
        ensures
            final(self)@ == old(self)@.push(msg@),
    {
        self.items.push_back(msg);
        assert(self@ =~= old(self)@.push(msg@));
    }

    /// Takes the oldest message, if there is one.
    pub fn dequeue(&mut self) -> (head: Option<BleMessage>)
        ensures
            head is Some <==> old(self)@.len() > 0,
            head matches Some(msg) ==> msg@ == old(self)@.first() && final(self)@ == old(
                self,
            )@.drop_first(),
            head is None ==> final(self)@ == old(self)@,
    {
        let head = self.items.pop_front();
        assert(head is Some ==> self@ =~= old(self)@.drop_first());
        head
    }

    /// Discards every message that waits.
    pub fn clear(&mut self)
        ensures
            final(self)@ == Seq::<MessageView>::empty(),
    {
        self.items.clear();
        assert(self@ =~= Seq::<MessageView>::empty());
    }
}

} // verus!
