//! What a handler can ask of the host, and a headless host to state it on.

use vstd::prelude::*;

verus! {

/// One thing a handler asks the host to do.
#[derive(Clone, Copy, Debug, PartialEq, Eq, Structural)]
pub enum Action {
    /// Suppress the default handling of the close request being delivered.
    PreventClose,
    /// Show the main window.
    Show,
    /// Hide the main window.
    Hide,
    /// Ask for input focus on the main window.
    SetFocus,
    /// End the process at once with this exit code.
    Exit { code: i32 },
}

/// Whether the process is still there.
#[derive(Clone, Copy, Debug, PartialEq, Eq, Structural)]
pub enum Life {
    /// The event loop is running.
    Running,
    /// A close request was left to its default handling, which took the window
    /// and the process with it.
    Closed,
    /// A handler asked for the process to end.
    Exited { code: i32 },
}

/// A host without a screen: the main window's two flags and the life of the
/// process.
///
/// It carries every action out. A real host may fail to; the handlers never
/// learn of it, since their answer is fixed before the first action runs.
#[derive(Clone, Copy, Debug, PartialEq, Eq, Structural)]
pub struct Shell {
    /// The window is on screen.
    pub visible: bool,
    /// Input focus was asked for. Nothing in this model takes it away.
    pub focused: bool,
    pub life: Life,
}

/// Every `Show` in `actions` has a `SetFocus` right behind it.
pub open spec fn focus_follows_show(actions: Seq<Action>) -> bool {
    forall|i: int|
        0 <= i < actions.len() && #[trigger] actions[i] == Action::Show ==> i + 1 < actions.len()
            && actions[i + 1] == Action::SetFocus
}

/// `actions` asks for the process to end.
pub open spec fn asks_exit(actions: Seq<Action>) -> bool {
    exists|i: int| 0 <= i < actions.len() && #[trigger] actions[i] is Exit
}

impl Shell {
    /// The process is still there.
    pub open spec fn running(self) -> bool {
        self.life == Life::Running
    }

    /// The host after one action. A process that has ended does nothing more.
    pub open spec fn after(self, action: Action) -> Shell {
        if !self.running() {
            self
        } else {
            match action {
                Action::PreventClose => self,
                Action::Show => Shell { visible: true, ..self },
                Action::Hide => Shell { visible: false, ..self },
                Action::SetFocus => Shell { focused: true, ..self },
                Action::Exit { code } => Shell { life: Life::Exited { code }, ..self },
            }
        }
    }

    /// The host after `actions`, carried out from first to last.
    pub open spec fn after_all(self, actions: Seq<Action>) -> Shell
        decreases actions.len(),
    {
        if actions.len() == 0 {
            self
        } else {
            self.after(actions[0]).after_all(actions.subrange(1, actions.len() as int))
        }
    }

    /// The host after a close request that a handler answered with `actions`:
    /// they are carried out, and unless `PreventClose` is among them the default
    /// handling then takes the window and the process.
    pub open spec fn after_close_request(self, actions: Seq<Action>) -> Shell {
        let next = self.after_all(actions);
        if next.running() && !actions.contains(Action::PreventClose) {
            Shell { visible: false, life: Life::Closed, ..next }
        } else {
            next
        }
    }

    /// A host at startup: the window on screen, focus not asked for, the event
    /// loop running.
    pub fn new() -> (shell: Shell)
        ensures
            shell == (Shell { visible: true, focused: false, life: Life::Running }),
    {
        Shell { visible: true, focused: false, life: Life::Running }
    }

    /// Whether the process is still there.
    pub fn is_running(&self) -> (running: bool)
        ensures
            running == self.running(),
    {
        match self.life {
            Life::Running => true,
            _ => false,
        }
    }

    /// Carries out one action.
    pub fn perform(&mut self, action: Action)
        ensures
            *final(self) == old(self).after(action),
    {
        if self.is_running() {
            match action {
                Action::PreventClose => {},
                Action::Show => {
                    self.visible = true;
                },
                Action::Hide => {
                    self.visible = false;
                },
                Action::SetFocus => {
                    self.focused = true;
                },
                Action::Exit { code } => {
                    self.life = Life::Exited { code };
                },
            }
        }
    }

    /// Carries out `actions` from first to last.
    pub fn perform_all(&mut self, actions: &Vec<Action>)
        ensures
            *final(self) == old(self).after_all(actions@),
    {
        let ghost start = *self;
        let mut done: usize = 0;
        assert(actions@.subrange(0, actions.len() as int) == actions@);
        while done < actions.len()
            invariant
                done <= actions.len(),
                self.after_all(actions@.subrange(done as int, actions.len() as int))
                    == start.after_all(actions@),
            decreases actions.len() - done,
        {
            let ghost rest = actions@.subrange(done as int, actions.len() as int);
            assert(rest.subrange(1, rest.len() as int) == actions@.subrange(
                done + 1,
                actions.len() as int,
            ));
            self.perform(actions[done]);
            done += 1;
        }
        assert(actions@.subrange(done as int, actions.len() as int).len() == 0);
    }

    /// Finishes a close request that a handler answered with `actions`.
    pub fn close_request(&mut self, actions: &Vec<Action>)
        ensures
            *final(self) == old(self).after_close_request(actions@),
    {
        self.perform_all(actions);
        if self.is_running() && !prevents_close(actions) {
            self.visible = false;
            self.life = Life::Closed;
        }
    }
}

/// Carrying out a single action.
pub proof fn lemma_after_all_one(shell: Shell, action: Action)
    ensures
        shell.after_all(seq![action]) == shell.after(action),
{
    reveal_with_fuel(Shell::after_all, 2);
    assert(seq![action].subrange(1, 1) == Seq::<Action>::empty());
}

/// Carrying out two actions.
pub proof fn lemma_after_all_two(shell: Shell, first: Action, second: Action)
    ensures
        shell.after_all(seq![first, second]) == shell.after(first).after(second),
{
    assert(seq![first, second].subrange(1, 2) == seq![second]);
    lemma_after_all_one(shell.after(first), second);
}

/// Whether `PreventClose` is among `actions`.
pub fn prevents_close(actions: &Vec<Action>) -> (prevented: bool)
    ensures
        prevented == actions@.contains(Action::PreventClose),
{
    let mut at: usize = 0;
    while at < actions.len()
        invariant
            at <= actions.len(),
            forall|i: int| 0 <= i < at ==> actions@[i] != Action::PreventClose,
        decreases actions.len() - at,
    {
        if actions[at] == Action::PreventClose {
            return true;
        }
        at += 1;
    }
    false
}

} // verus!
