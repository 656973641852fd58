//! The dispatch loop: one command in, the next target and the work to do out.
//!
//! The loop itself performs nothing.  For each command it says which watch to
//! uninstall, which to install and which change to hand to the consumer; the caller
//! carries that out, in order, before it asks for the next step.

use vstd::prelude::*;
use crate::command::{ChangeEvent, ChangeEventView, WatchCommand, WatchCommandView};
use crate::controller::WatchController;
use crate::target::WatchTarget;
use crate::text::same_text;

verus! {

/// One piece of work for the caller of the dispatch loop.
#[derive(Clone, Debug, PartialEq, Eq)]
pub enum DispatchAction {
    /// Remove the watch on this root.  A failure to do so is not reported back.
    Uninstall(String),
    /// Put a recursive watch on this root.
    Install(String),
    /// Hand this change to the consumer.
    Forward(ChangeEvent),
}

/// The mathematical value of a [`DispatchAction`].
pub enum DispatchActionView {
    Uninstall(Seq<char>),
    Install(Seq<char>),
    Forward(ChangeEventView),
}

impl View for DispatchAction {
    type V = DispatchActionView;

    open spec fn view(&self) -> DispatchActionView {
        match self {
            DispatchAction::Uninstall(root) => DispatchActionView::Uninstall(root@),
            DispatchAction::Install(root) => DispatchActionView::Install(root@),
            DispatchAction::Forward(event) => DispatchActionView::Forward(event@),
        }
    }
}

impl DeepView for DispatchAction {
    type V = DispatchActionView;

    open spec fn deep_view(&self) -> DispatchActionView {
        self@
    }
}

/// Where the loop stands after some commands, and the work they asked for.
pub struct DispatchOutcome {
    pub target: Option<Seq<char>>,
    pub actions: Seq<DispatchActionView>,
}

/// The work that ends the watch on `target`.
pub open spec fn teardown(target: Option<Seq<char>>) -> Seq<DispatchActionView> {
    match target {
        Some(root) => seq![DispatchActionView::Uninstall(root)],
        None => Seq::empty(),
    }
}

/// The work that starts the watch on `target`.
pub open spec fn setup(target: Option<Seq<char>>) -> Seq<DispatchActionView> {
    match target {
        Some(root) => seq![DispatchActionView::Install(root)],
        None => Seq::empty(),
    }
}

/// The work that one change asks for: it is forwarded, with its paths normalized,
/// while a root is watched, and dropped otherwise.
pub open spec fn delivery(target: Option<Seq<char>>, event: ChangeEventView) -> Seq<
    DispatchActionView,
> {
    if target is Some {
        seq![DispatchActionView::Forward(event.normalized())]
    } else {
        Seq::empty()
    }
}

/// One step of the loop.
///
/// A retarget tears the current watch down, if there is one, and then installs the
/// new one, if a root is named; this also happens where the new root is the current
/// one.  A change leaves the target as it is.
pub open spec fn step_spec(target: Option<Seq<char>>, command: WatchCommandView) -> DispatchOutcome {
    match command {
        WatchCommandView::Retarget(new_root) => DispatchOutcome {
            target: new_root,
            actions: teardown(target) + setup(new_root),
        },
        WatchCommandView::ChangeEvent(event) => DispatchOutcome {
            target,
            actions: delivery(target, event),
        },
    }
}

/// The loop run over `commands`, first to last.
pub open spec fn run_spec(target: Option<Seq<char>>, commands: Seq<WatchCommandView>) -> DispatchOutcome
    decreases commands.len(),
{
    if commands.len() == 0 {
        DispatchOutcome { target, actions: Seq::empty() }
    } else {
        let first = step_spec(target, commands[0]);
        let rest = run_spec(first.target, commands.drop_first());
        DispatchOutcome { target: rest.target, actions: first.actions + rest.actions }
    }
}

/// The state of the dispatch loop: the current target.
#[derive(Clone, Debug, PartialEq, Eq)]
pub struct DispatchLoop {
    target: WatchTarget,
}

impl View for DispatchLoop {
    type V = Option<Seq<char>>;

    closed spec fn view(&self) -> Option<Seq<char>> {
        self.target@
    }
}

impl DispatchLoop {
    /// A loop that watches nothing yet.
    pub fn new() -> (dispatch: DispatchLoop)
        ensures
            dispatch@ is None,
    {
        DispatchLoop { target: WatchTarget::idle() }
    }

    /// The current target.
    pub fn target(&self) -> (target: &WatchTarget)
        ensures
            target@ == self@,
    {
        &self.target
    }

    /// Whether a root is being watched.
    pub fn is_watching(&self) -> (watching: bool)
        ensures
            watching == (self@ is Some),
    {
        !self.target.is_idle()
    }

    /// Handles one command: moves to the target that it leaves, and names the work
    /// that it asks for, in the order in which it is to be done.
    pub fn step(&mut self, command: WatchCommand) -> (actions: Vec<DispatchAction>)
        ensures
            step_spec(old(self)@, command@) == (DispatchOutcome {
                target: final(self)@,
                actions: actions.deep_view(),
            }),
    {
        let mut actions: Vec<DispatchAction> = Vec::new();
        match command {
            WatchCommand::Retarget(new_root) => {
                let installed = match &new_root {
                    Some(root) => Some(root.clone()),
                    None => None,
                };
                let previous = self.target.retarget(new_root);
                if let Some(root) = previous {
                    actions.push(DispatchAction::Uninstall(root));
                }
                if let Some(root) = installed {
                    actions.push(DispatchAction::Install(root));
                }
                assert(actions.deep_view() =~= teardown(old(self)@) + setup(final(self)@));
            },
            WatchCommand::ChangeEvent(event) => {
                if self.is_watching() {
                    actions.push(DispatchAction::Forward(event.normalize()));
                }
                assert(actions.deep_view() =~= delivery(old(self)@, event@));
            },
        }
        actions
    }

    /// Takes every waiting command off the controller, oldest first, and says what
    /// is to be done for all of them, in order.
    ///
    /// The answer covers the whole backlog, so the work behind an install is named
    /// before the caller has tried that install.  A caller whose installs can fail
    /// takes one command at a time instead, with [`WatchController::next_command`]
    /// and [`DispatchLoop::step`], and reports a failure with
    /// [`DispatchLoop::install_failed`] before it takes the next.
    pub fn drain(&mut self, controller: &mut WatchController) -> (actions: Vec<DispatchAction>)
        ensures
            final(controller)@.len() == 0,
            run_spec(old(self)@, old(controller)@) == (DispatchOutcome {
                target: final(self)@,
                actions: actions.deep_view(),
            }),
    {
        let mut actions: Vec<DispatchAction> = Vec::new();
        while controller.has_pending()
            invariant
                run_spec(old(self)@, old(controller)@).target == run_spec(
                    self@,
                    controller@,
                ).target,
                run_spec(old(self)@, old(controller)@).actions == actions.deep_view() + run_spec(
                    self@,
                    controller@,
                ).actions,
            decreases controller@.len(),
        {
            if let Some(command) = controller.next_command() {
                let mut more = self.step(command);
                actions.append(&mut more);
            }
        }
        actions
    }

    /// Records that the watch on `root` could not be installed.
    ///
    /// If `root` is the current target, the loop falls back to watching nothing, and
    /// the result is `true`: the caller should tell the consumer that the watch on
    /// this root is disabled.  Otherwise nothing changes.
    pub fn install_failed(&mut self, root: &str) -> (disabled: bool)
        ensures
            disabled == (old(self)@ == Some(root@)),
            final(self)@ == if disabled {
                None
            } else {
                old(self)@
            },
    {
        let hit = match self.target.root() {
            Some(current) => same_text(current.as_str(), root),
            None => false,
        };
        if hit {
            let _ = self.target.retarget(None);
        }
        hit
    }
}

} // verus!
