//! The watch controller: the owner of the control channel.
//!
//! Retarget requests from the application and changes seen by the current watch go
//! into one queue, so that the order between "stop watching this root" and a late
//! change below that root is the order in which they were put in.

use vstd::prelude::*;
use crate::channel::CommandQueue;
use crate::command::{ChangeEventView, WatchCommand, WatchCommandView};
use crate::translator::{translate, translation, RawTransition};

verus! {

/// The control channel and the operations that feed it.
#[derive(Clone, Debug, PartialEq, Eq)]
pub struct WatchController {
    channel: CommandQueue,
}

impl View for WatchController {
    type V = Seq<WatchCommandView>;

    /// The commands that wait for the dispatch loop, oldest first.
    closed spec fn view(&self) -> Seq<WatchCommandView> {
        self.channel@
    }
}

/// The queue after a raw notification came in: a reported change is put at the end,
/// and anything else leaves the queue as it was.
pub open spec fn after_notification(
    pending: Seq<WatchCommandView>,
    event: Option<ChangeEventView>,
) -> Seq<WatchCommandView> {
    match event {
        Some(e) => pending.push(WatchCommandView::ChangeEvent(e)),
        None => pending,
    }
}

impl WatchController {
    /// A controller with nothing waiting.
    pub fn new() -> (controller: WatchController)
        ensures
            controller@ == Seq::<WatchCommandView>::empty(),
    {
        WatchController { channel: CommandQueue::new() }
    }

    /// Whether any command waits for the dispatch loop.
    pub fn has_pending(&self) -> (pending: bool)
        ensures
            pending == (self@.len() > 0),
    {
        !self.channel.is_empty()
    }

    /// Asks the dispatch loop to watch `new_root` from now on, or nothing at all.
    ///
    /// The request is only queued.  Asking for the root that is already watched is
    /// queued like any other request.
    pub fn request_retarget(&mut self, new_root: Option<String>)
        ensures
            final(self)@ == old(self)@.push(WatchCommandView::Retarget(new_root.deep_view())),
    {
        self.channel.send(WatchCommand::Retarget(new_root));
    }

    /// Sets the root to watch: `Some` when a folder is opened, `None` when it is closed.
    pub fn set_watch_root(&mut self, root: Option<String>)
        ensures
            final(self)@ == old(self)@.push(WatchCommandView::Retarget(root.deep_view())),
    {
        self.request_retarget(root);
    }

    /// Takes a raw notification of the current watch, classifies it, and queues the
    /// change if it is reported.  The result says whether anything was queued.
    ///
    /// `is_directory` says whether the entry is a directory now; for a rename it
    /// speaks of the destination.
    pub fn notify(&mut self, raw: RawTransition, is_directory: bool) -> (queued: bool)
        ensures
            queued == (translation(raw@, is_directory) is Some),
            final(self)@ == after_notification(old(self)@, translation(raw@, is_directory)),
    {
        match translate(raw, is_directory) {
            Some(command) => {
                self.channel.send(command);
                true
            },
            None => false,
        }
    }

    /// Takes out the command that has waited longest, if any is waiting.
    pub fn next_command(&mut self) -> (command: Option<WatchCommand>)
        ensures
            match command {
                Some(c) => old(self)@.len() > 0 && c@ == old(self)@[0] && final(self)@ == old(
                    self,
                )@.drop_first(),
                None => old(self)@.len() == 0 && final(self)@ == old(self)@,
            },
    {
        self.channel.recv()
    }
}

} // verus!
