//! The dispatcher at work: the application, the installed watch, the control channel
//! and the dispatch loop as one transition system.
//!
//! The model numbers the watches in the order in which the loop installs them, and
//! stamps every change with the number of the watch that reported it.  The stamps
//! exist in the model only; they say which watch a change came from, so that the
//! order in which changes reach the consumer can be stated.

use vstd::prelude::*;
use crate::command::{ChangeEventView, WatchCommandView};
use crate::dispatch::{step_spec, DispatchActionView};
use crate::trace::delivered;

verus! {

/// One thing that happens to the system.
pub enum Happening {
    /// The application asks for a root to be watched, or for none.
    Request(Option<Seq<char>>),
    /// The installed watch reports a change.  Without an installed watch nothing can
    /// be reported, and the happening has no effect.
    Report(ChangeEventView),
    /// The dispatch loop takes the oldest waiting command and carries out its work.
    Dispatch,
}

/// A command on the channel, with the number of the watch that was installed when
/// it was sent.
pub struct StampedCommand {
    pub command: WatchCommandView,
    pub watch: nat,
}

/// A change at the consumer, with the number of the watch that reported it.
pub struct StampedChange {
    pub event: ChangeEventView,
    pub watch: nat,
}

/// The state of the whole system.
pub struct World {
    /// The target of the dispatch loop, which is also the installed watch: the loop
    /// installs and uninstalls within the step that changes its target.
    pub target: Option<Seq<char>>,
    /// How many watches were installed so far.  The installed watch, if there is
    /// one, is the latest.
    pub installs: nat,
    /// The channel, oldest command first.
    pub pending: Seq<StampedCommand>,
    /// What the consumer has received so far, in order.
    pub received: Seq<StampedChange>,
}

/// The system at the start: nothing watched, nothing sent, nothing received.
pub open spec fn initial_world() -> World {
    World { target: None, installs: 0, pending: Seq::empty(), received: Seq::empty() }
}

/// How many watches are installed when `actions` are carried out.
pub open spec fn installs_in(actions: Seq<DispatchActionView>) -> nat
    decreases actions.len(),
{
    if actions.len() == 0 {
        0
    } else {
        match actions.last() {
            DispatchActionView::Install(_) => installs_in(actions.drop_last()) + 1,
            _ => installs_in(actions.drop_last()),
        }
    }
}

/// The changes `events`, each stamped with the watch `watch`.
pub open spec fn stamped(events: Seq<ChangeEventView>, watch: nat) -> Seq<StampedChange> {
    events.map_values(|event: ChangeEventView| StampedChange { event, watch })
}

/// The system after the dispatch loop has handled the oldest waiting command: the
/// work of that step is carried out, so its installs are counted and the changes
/// that it hands on are received.
pub open spec fn after_dispatch(world: World) -> World {
    if world.pending.len() == 0 {
        world
    } else {
        let first = world.pending[0];
        let outcome = step_spec(world.target, first.command);
        World {
            target: outcome.target,
            installs: world.installs + installs_in(outcome.actions),
            pending: world.pending.drop_first(),
            received: world.received + stamped(delivered(outcome.actions), first.watch),
        }
    }
}

/// The system after one happening.
pub open spec fn after(world: World, happening: Happening) -> World {
    match happening {
        Happening::Request(root) => World {
            pending: world.pending.push(
                StampedCommand { command: WatchCommandView::Retarget(root), watch: world.installs },
            ),
            ..world
        },
        Happening::Report(event) => if world.target is Some {
            World {
                pending: world.pending.push(
                    StampedCommand {
                        command: WatchCommandView::ChangeEvent(event),
                        watch: world.installs,
                    },
                ),
                ..world
            }
        } else {
            world
        },
        Happening::Dispatch => after_dispatch(world),
    }
}

/// The system after a history of happenings, from the start.
pub open spec fn after_all(history: Seq<Happening>) -> World
    decreases history.len(),
{
    if history.len() == 0 {
        initial_world()
    } else {
        after(after_all(history.drop_last()), history.last())
    }
}

/// Whether the changes reached the consumer watch by watch: none of an earlier
/// watch stands behind one of a later watch.
pub open spec fn in_watch_order(received: Seq<StampedChange>) -> bool {
    forall|i: int, j: int|
        0 <= i <= j < received.len() ==> (#[trigger] received[i]).watch <= (
        #[trigger] received[j]).watch
}

/// What holds of the system at all times: the stamps never go down along the
/// channel, nor along what the consumer received, nor from the one to the other,
/// and none is above the number of installs.
pub open spec fn consistent(world: World) -> bool {
    &&& in_watch_order(world.received)
    &&& forall|i: int, j: int|
        0 <= i <= j < world.pending.len() ==> (#[trigger] world.pending[i]).watch <= (
        #[trigger] world.pending[j]).watch
    &&& forall|i: int, j: int|
        0 <= i < world.received.len() && 0 <= j < world.pending.len() ==> (
        #[trigger] world.received[i]).watch <= (#[trigger] world.pending[j]).watch
    &&& forall|i: int| 0 <= i < world.pending.len() ==> (#[trigger] world.pending[i]).watch
        <= world.installs
    &&& forall|i: int| 0 <= i < world.received.len() ==> (#[trigger] world.received[i]).watch
        <= world.installs
}

/// No happening breaks the consistency of the system.
pub proof fn lemma_happening_keeps_consistency(world: World, happening: Happening)
    requires
        consistent(world),
    ensures
        consistent(after(world, happening)),
{
}

/// Retargeting is atomic for the consumer, whatever the interleaving.
///
/// Let the application ask for retargets, the installed watch report changes and
/// the dispatch loop handle commands in any order.  Then the changes reach the
/// consumer watch by watch: once it has received a change of one watch, it
/// receives no change of any watch that was installed before that one.
pub proof fn lemma_changes_arrive_in_watch_order(history: Seq<Happening>)
    ensures
        consistent(after_all(history)),
        in_watch_order(after_all(history).received),
    decreases history.len(),
{
    if history.len() > 0 {
        lemma_changes_arrive_in_watch_order(history.drop_last());
        lemma_happening_keeps_consistency(after_all(history.drop_last()), history.last());
    }
}

} // verus!
