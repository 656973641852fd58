//! What holds of the dispatch loop over whole sequences of commands.

use vstd::prelude::*;
use crate::command::{ChangeEventView, WatchCommandView};
use crate::path::{is_stripped, lemma_normalized_is_stripped};
use crate::dispatch::{
    delivery, run_spec, setup, step_spec, teardown, DispatchActionView, DispatchOutcome,
};

verus! {

/// The commands that carry `events`, in order.
pub open spec fn change_commands(events: Seq<ChangeEventView>) -> Seq<WatchCommandView> {
    events.map_values(|event: ChangeEventView| WatchCommandView::ChangeEvent(event))
}

/// The work of handing each of `events` to the consumer, in order and normalized.
pub open spec fn forwards(events: Seq<ChangeEventView>) -> Seq<DispatchActionView> {
    events.map_values(|event: ChangeEventView| DispatchActionView::Forward(event.normalized()))
}

/// `events` as the consumer sees them.
pub open spec fn normalized_events(events: Seq<ChangeEventView>) -> Seq<ChangeEventView> {
    events.map_values(|event: ChangeEventView| event.normalized())
}

/// What the consumer receives when `actions` are carried out: the forwarded
/// changes, in order.
pub open spec fn delivered(actions: Seq<DispatchActionView>) -> Seq<ChangeEventView>
    decreases actions.len(),
{
    if actions.len() == 0 {
        Seq::empty()
    } else {
        match actions.last() {
            DispatchActionView::Forward(event) => delivered(actions.drop_last()).push(event),
            _ => delivered(actions.drop_last()),
        }
    }
}

/// The watch that is installed after `actions` were carried out, starting with the
/// watch `active`; `None` where the actions break the protocol of the watch
/// primitive: an install while a watch is active, an uninstall of a watch that is
/// not the active one, or a change handed on while no watch is active.
pub open spec fn replay(active: Option<Seq<char>>, actions: Seq<DispatchActionView>) -> Option<
    Option<Seq<char>>,
>
    decreases actions.len(),
{
    if actions.len() == 0 {
        Some(active)
    } else {
        match actions[0] {
            DispatchActionView::Uninstall(root) => if active == Some(root) {
                replay(None, actions.drop_first())
            } else {
                None
            },
            DispatchActionView::Install(root) => if active is None {
                replay(Some(root), actions.drop_first())
            } else {
                None
            },
            DispatchActionView::Forward(_) => if active is Some {
                replay(active, actions.drop_first())
            } else {
                None
            },
        }
    }
}

/// Running one command is taking one step.
pub proof fn lemma_run_one(target: Option<Seq<char>>, command: WatchCommandView)
    ensures
        run_spec(target, seq![command]) == step_spec(target, command),
{
    let commands = seq![command];
    let first = step_spec(target, commands[0]);
    assert(run_spec(first.target, commands.drop_first()).actions
        =~= Seq::<DispatchActionView>::empty());
}

/// Running two sequences of commands one after the other is running their
/// concatenation: the second starts where the first ended, and the work is the work
/// of the first followed by the work of the second.
pub proof fn lemma_run_append(
    target: Option<Seq<char>>,
    first: Seq<WatchCommandView>,
    second: Seq<WatchCommandView>,
)
    ensures
        run_spec(target, first + second) == (DispatchOutcome {
            target: run_spec(run_spec(target, first).target, second).target,
            actions: run_spec(target, first).actions + run_spec(
                run_spec(target, first).target,
                second,
            ).actions,
        }),
    decreases first.len(),
{
    if first.len() > 0 {
        let whole = first + second;
        let head = step_spec(target, first[0]);
        assert(whole.drop_first() =~= first.drop_first() + second);
        lemma_run_append(head.target, first.drop_first(), second);
        let middle = run_spec(head.target, first.drop_first());
        let tail = run_spec(middle.target, second);
        assert(head.actions + (middle.actions + tail.actions) =~= (head.actions + middle.actions)
            + tail.actions);
    }
}

/// While a root is watched, every change is handed on, in order, and the target
/// stays.
pub proof fn lemma_changes_while_watching(root: Seq<char>, events: Seq<ChangeEventView>)
    ensures
        run_spec(Some(root), change_commands(events)) == (DispatchOutcome {
            target: Some(root),
            actions: forwards(events),
        }),
    decreases events.len(),
{
    let commands = change_commands(events);
    if events.len() == 0 {
        assert(forwards(events) =~= Seq::<DispatchActionView>::empty());
    } else {
        assert(commands.drop_first() =~= change_commands(events.drop_first()));
        lemma_changes_while_watching(root, events.drop_first());
        assert(delivery(Some(root), events[0]) + forwards(events.drop_first()) =~= forwards(
            events,
        ));
    }
}

/// While nothing is watched, every change is dropped: no stale change reaches the
/// consumer.
pub proof fn lemma_changes_while_idle(events: Seq<ChangeEventView>)
    ensures
        run_spec(None, change_commands(events)) == (DispatchOutcome {
            target: None,
            actions: Seq::empty(),
        }),
    decreases events.len(),
{
    let commands = change_commands(events);
    if events.len() > 0 {
        assert(commands.drop_first() =~= change_commands(events.drop_first()));
        lemma_changes_while_idle(events.drop_first());
    }
}

/// The changes that follow a target, handed on if it names a root and dropped if not.
pub open spec fn forwards_under(target: Option<Seq<char>>, events: Seq<ChangeEventView>) -> Seq<
    DispatchActionView,
> {
    if target is Some {
        forwards(events)
    } else {
        Seq::empty()
    }
}

/// Changes alone never move the target.
pub proof fn lemma_changes_keep_target(target: Option<Seq<char>>, events: Seq<ChangeEventView>)
    ensures
        run_spec(target, change_commands(events)) == (DispatchOutcome {
            target,
            actions: forwards_under(target, events),
        }),
{
    match target {
        Some(root) => lemma_changes_while_watching(root, events),
        None => lemma_changes_while_idle(events),
    }
}

/// What the consumer receives from a sequence of forwards is the normalized events.
pub proof fn lemma_delivered_forwards(events: Seq<ChangeEventView>)
    ensures
        delivered(forwards(events)) == normalized_events(events),
    decreases events.len(),
{
    if events.len() > 0 {
        assert(forwards(events).drop_last() =~= forwards(events.drop_last()));
        lemma_delivered_forwards(events.drop_last());
    }
}

/// What the consumer receives from two runs of work is what it receives from the
/// first, followed by what it receives from the second.
pub proof fn lemma_delivered_append(first: Seq<DispatchActionView>, second: Seq<DispatchActionView>)
    ensures
        delivered(first + second) == delivered(first) + delivered(second),
    decreases second.len(),
{
    if second.len() > 0 {
        let whole = first + second;
        assert(whole.drop_last() =~= first + second.drop_last());
        lemma_delivered_append(first, second.drop_last());
    }
}

/// Tearing a watch down and setting one up hands nothing to the consumer.
pub proof fn lemma_delivered_switch(from: Option<Seq<char>>, to: Option<Seq<char>>)
    ensures
        delivered(teardown(from) + setup(to)) == Seq::<ChangeEventView>::empty(),
{
    lemma_delivered_append(teardown(from), setup(to));
    reveal_with_fuel(delivered, 2);
}

/// Retargeting is atomic for the consumer.
///
/// Let changes `before` be queued while `old_root` is watched, then a retarget to
/// `new_root`, then changes `after`.  The work is: hand on every change of
/// `before`, in order; uninstall the old watch; install the new one, if a root is
/// named; hand on every change of `after`, in order, if a root is named, and drop
/// them otherwise.  So every change queued before the retarget reaches the consumer
/// before the new watch exists, none of them reaches it after a change of the new
/// watch, and none is lost or repeated.
pub proof fn lemma_retarget_atomicity(
    old_root: Seq<char>,
    before: Seq<ChangeEventView>,
    new_root: Option<Seq<char>>,
    after: Seq<ChangeEventView>,
)
    ensures
        run_spec(
            Some(old_root),
            change_commands(before) + seq![WatchCommandView::Retarget(new_root)] + change_commands(
                after,
            ),
        ) == (DispatchOutcome {
            target: new_root,
            actions: forwards(before) + (teardown(Some(old_root)) + setup(new_root))
                + forwards_under(new_root, after),
        }),
        delivered(
            run_spec(
                Some(old_root),
                change_commands(before) + seq![WatchCommandView::Retarget(new_root)]
                    + change_commands(after),
            ).actions,
        ) == normalized_events(before) + delivered(forwards_under(new_root, after)),
        new_root is Some ==> delivered(forwards_under(new_root, after)) == normalized_events(after),
        new_root is None ==> delivered(forwards_under(new_root, after)) == Seq::<
            ChangeEventView,
        >::empty(),
{
    let retarget = seq![WatchCommandView::Retarget(new_root)];
    let switch = teardown(Some(old_root)) + setup(new_root);
    lemma_changes_while_watching(old_root, before);
    lemma_run_one(Some(old_root), WatchCommandView::Retarget(new_root));
    lemma_changes_keep_target(new_root, after);
    lemma_run_append(Some(old_root), change_commands(before), retarget);
    lemma_run_append(Some(old_root), change_commands(before) + retarget, change_commands(after));

    lemma_delivered_append(forwards(before) + switch, forwards_under(new_root, after));
    lemma_delivered_append(forwards(before), switch);
    lemma_delivered_forwards(before);
    lemma_delivered_switch(Some(old_root), new_root);
    lemma_delivered_forwards(after);
}

/// The place of each action in the work of an atomic retarget to a root: the
/// changes queued before the retarget come first, then the uninstall and the
/// install, then the changes queued after it.  No change queued before the retarget
/// stands behind one queued after it.
pub proof fn lemma_retarget_order(
    old_root: Seq<char>,
    before: Seq<ChangeEventView>,
    new_root: Seq<char>,
    after: Seq<ChangeEventView>,
)
    ensures
        ({
            let actions = run_spec(
                Some(old_root),
                change_commands(before) + seq![WatchCommandView::Retarget(Some(new_root))]
                    + change_commands(after),
            ).actions;
            &&& actions.len() == before.len() + 2 + after.len()
            &&& forall|i: int|
                0 <= i < before.len() ==> #[trigger] actions[i] == DispatchActionView::Forward(
                    before[i].normalized(),
                )
            &&& actions[before.len() as int] == DispatchActionView::Uninstall(old_root)
            &&& actions[before.len() as int + 1] == DispatchActionView::Install(new_root)
            &&& forall|k: int|
                before.len() + 2 <= k < actions.len() ==> #[trigger] actions[k]
                    == DispatchActionView::Forward(after[k - before.len() - 2].normalized())
        }),
{
    lemma_retarget_atomicity(old_root, before, Some(new_root), after);
}

/// Retargeting twice to the same root does the full work twice and loses nothing.
///
/// From any target, two retargets to `root` in a row tear down what was watched,
/// install the watch on `root`, uninstall it and install it again.  Every change
/// that is queued after them is handed on once, in order.
pub proof fn lemma_idempotent_retarget(
    target: Option<Seq<char>>,
    root: Seq<char>,
    events: Seq<ChangeEventView>,
)
    ensures
        run_spec(
            target,
            seq![WatchCommandView::Retarget(Some(root)), WatchCommandView::Retarget(Some(root))]
                + change_commands(events),
        ) == (DispatchOutcome {
            target: Some(root),
            actions: teardown(target) + seq![
                DispatchActionView::Install(root),
                DispatchActionView::Uninstall(root),
                DispatchActionView::Install(root),
            ] + forwards(events),
        }),
        delivered(
            run_spec(
                target,
                seq![WatchCommandView::Retarget(Some(root)), WatchCommandView::Retarget(Some(root))]
                    + change_commands(events),
            ).actions,
        ) == normalized_events(events),
{
    let retarget = WatchCommandView::Retarget(Some(root));
    let twice = seq![retarget, retarget];
    let cycle = seq![
        DispatchActionView::Install(root),
        DispatchActionView::Uninstall(root),
        DispatchActionView::Install(root),
    ];
    assert(twice =~= seq![retarget] + seq![retarget]);
    lemma_run_one(target, retarget);
    lemma_run_one(Some(root), retarget);
    lemma_run_append(target, seq![retarget], seq![retarget]);
    assert(run_spec(target, twice).actions =~= teardown(target) + cycle);
    lemma_changes_while_watching(root, events);
    lemma_run_append(target, twice, change_commands(events));

    lemma_delivered_append(teardown(target) + cycle, forwards(events));
    lemma_delivered_append(teardown(target), cycle);
    reveal_with_fuel(delivered, 4);
    lemma_delivered_forwards(events);
}

/// The consumer never sees the extended-length prefix of a forwarded path.
///
/// A change that arrives while a root is watched is handed on, once, with its kind
/// and with both paths stripped: a path that starts with the prefix loses exactly
/// the prefix, and any other path is handed on as it is.
pub proof fn lemma_prefix_normalization(root: Seq<char>, event: ChangeEventView)
    ensures
        step_spec(Some(root), WatchCommandView::ChangeEvent(event)).target == Some(root),
        step_spec(Some(root), WatchCommandView::ChangeEvent(event)).actions == seq![
            DispatchActionView::Forward(event.normalized()),
        ],
        event.normalized().kind == event.kind,
        is_stripped(event.primary_path, event.normalized().primary_path),
        is_stripped(event.secondary_path, event.normalized().secondary_path),
{
    lemma_normalized_is_stripped(event.primary_path);
    lemma_normalized_is_stripped(event.secondary_path);
}

/// Replaying two runs of work one after the other is replaying their concatenation.
pub proof fn lemma_replay_append(
    active: Option<Seq<char>>,
    first: Seq<DispatchActionView>,
    second: Seq<DispatchActionView>,
)
    ensures
        replay(active, first + second) == match replay(active, first) {
            Some(middle) => replay(middle, second),
            None => None,
        },
    decreases first.len(),
{
    if first.len() > 0 {
        let whole = first + second;
        assert(whole.drop_first() =~= first.drop_first() + second);
        match first[0] {
            DispatchActionView::Uninstall(root) => {
                if active == Some(root) {
                    lemma_replay_append(None, first.drop_first(), second);
                }
            },
            DispatchActionView::Install(root) => {
                if active is None {
                    lemma_replay_append(Some(root), first.drop_first(), second);
                }
            },
            DispatchActionView::Forward(_) => {
                if active is Some {
                    lemma_replay_append(active, first.drop_first(), second);
                }
            },
        }
    }
}

/// The work of one step keeps to the protocol of the watch primitive and leaves
/// installed exactly the new target.
pub proof fn lemma_step_keeps_protocol(target: Option<Seq<char>>, command: WatchCommandView)
    ensures
        replay(target, step_spec(target, command).actions) == Some(
            step_spec(target, command).target,
        ),
{
    reveal_with_fuel(replay, 3);
    if let WatchCommandView::Retarget(new_root) = command {
        lemma_replay_append(target, teardown(target), setup(new_root));
    }
}

/// At most one watch is active at any instant.
///
/// Whatever the commands, the work of the loop installs a watch only while none is
/// active, uninstalls only the active one, and hands a change to the consumer only
/// while a watch is active; and the watch that is active at the end is the loop's
/// target.
pub proof fn lemma_single_active_watch(target: Option<Seq<char>>, commands: Seq<WatchCommandView>)
    ensures
        replay(target, run_spec(target, commands).actions) == Some(
            run_spec(target, commands).target,
        ),
    decreases commands.len(),
{
    if commands.len() > 0 {
        let first = step_spec(target, commands[0]);
        let rest = run_spec(first.target, commands.drop_first());
        lemma_step_keeps_protocol(target, commands[0]);
        lemma_single_active_watch(first.target, commands.drop_first());
        lemma_replay_append(target, first.actions, rest.actions);
    }
}

} // verus!
