//! The control channel: a first-in, first-out queue of commands.
//!
//! Any number of producers may put commands in; one consumer takes them out, in the
//! order in which they were put in.  The queue does no locking of its own.

use std::collections::VecDeque;
use vstd::prelude::*;
use crate::command::{WatchCommand, WatchCommandView};

verus! {

/// The commands that were sent and not yet received, oldest first.
#[derive(Clone, Debug, PartialEq, Eq)]
pub struct CommandQueue {
    items: VecDeque<WatchCommand>,
}

impl View for CommandQueue {
    type V = Seq<WatchCommandView>;

    closed spec fn view(&self) -> Seq<WatchCommandView> {
        self.items.deep_view()
    }
}

impl CommandQueue {
    /// An empty queue.
    pub fn new() -> (queue: CommandQueue)
        ensures
            queue@ == Seq::<WatchCommandView>::empty(),
    {
        let queue = CommandQueue { items: VecDeque::new() };
        queue
    }

    /// Whether nothing is waiting.
    pub fn is_empty(&self) -> (empty: bool)
        ensures
            empty == (self@.len() == 0),
    {
        broadcast use vstd::std_specs::vecdeque::axiom_spec_len;

        self.items.len() == 0
    }

    /// The number of commands that are waiting.
    pub fn len(&self) -> (len: usize)
        ensures
            len == self@.len(),
    {
        broadcast use vstd::std_specs::vecdeque::axiom_spec_len;

        self.items.len()
    }

    /// Puts `command` behind everything that is waiting.
    pub fn send(&mut self, command: WatchCommand)
        ensures
            final(self)@ == old(self)@.push(command@),
    {
        self.items.push_back(command);
    }

    /// Takes out the command that has waited longest, if any is waiting.
    pub fn recv(&mut self) -> (command: Option<WatchCommand>)
        ensures
            match command {
                Some(c) => old(self)@.len() > 0 && c@ == old(self)@[0] && final(self)@ == old(
                    self,
                )@.drop_first(),
                None => old(self)@.len() == 0 && final(self)@ == old(self)@,
            },
    {
        let command = self.items.pop_front();
        command
    }
}

} // verus!
