//! The shell as a state machine over events: it holds the main window (once
//! the frontend has created it) and whether the process still runs.

use vstd::prelude::*;
use crate::dispatch::{Action, ShellEvent, TrayEventKind, action_of, lemma_menu_ids_distinct, dispatch, window_ops, window_ops_of};
use crate::window::{WindowOp, WindowState, lemma_reveal_ops};

verus! {

/// The state that the shell's event handlers act on.
#[derive(Clone, Copy, Debug, PartialEq, Eq, Structural)]
pub struct Shell {
    /// The main window, or `None` while it does not exist.
    pub window: Option<WindowState>,
    /// False once the shell has asked to exit; later events change nothing.
    pub running: bool,
    /// The status code of the exit, once asked for.
    pub exit_code: Option<i32>,
}

impl Shell {
    /// A running shell that has not exited.
    pub open spec fn wf(self) -> bool {
        self.running <==> self.exit_code is None
    }

    /// What the shell answers to `event`: nothing once it has exited.
    pub open spec fn response(self, event: ShellEvent) -> Action {
        if self.running {
            action_of(event)
        } else {
            Action::Ignore
        }
    }

    /// The shell after `action` has been carried out.
    pub open spec fn after_action(self, action: Action) -> Shell {
        match action {
            Action::Exit(code) => Shell { running: false, exit_code: Some(code), ..self },
            _ => Shell {
                window: match self.window {
                    Some(w) => Some(w.after_all(window_ops_of(action))),
                    None => None,
                },
                ..self
            },
        }
    }

    /// The shell after it has handled `event`.
    pub open spec fn step(self, event: ShellEvent) -> Shell {
        if self.running {
            self.after_action(action_of(event))
        } else {
            self
        }
    }

    pub fn new(window: Option<WindowState>) -> (r: Shell)
        ensures
            r == (Shell { window, running: true, exit_code: None }),
            r.wf(),
    {
        Shell { window, running: true, exit_code: None }
    }

    /// The main window has been created in the given state.
    pub fn attach_window(&mut self, w: WindowState)
        ensures
            *final(self) == (Shell { window: Some(w), ..*old(self) }),
    {
        self.window = Some(w);
    }

    pub fn handle(&mut self, event: &ShellEvent) -> (r: Action)
        requires
            old(self).wf(),
        ensures
            r == old(self).response(*event),
            *final(self) == old(self).step(*event),
            final(self).wf(),
    {
        if !self.running {
            return Action::Ignore;
        }
        let action = dispatch(event);
        match action {
            Action::Exit(code) => {
                self.running = false;
                self.exit_code = Some(code);
            },
            _ => {
                let ops = window_ops(action);
                match &mut self.window {
                    Some(w) => w.apply_all(&ops),
                    None => {},
                }
            },
        }
        action
    }
}

/// A second launch while the shell runs brings the existing main window to
/// the foreground: it is shown, unminimized and focused, no other window
/// comes into being, and the process goes on running.
pub proof fn lemma_second_launch_reveals(s: Shell, argv: Vec<String>, cwd: String)
    requires
        s.wf(),
        s.running,
    ensures
        ({
            let e = ShellEvent::SecondLaunch { argv, cwd };
            let t = s.step(e);
            &&& s.response(e) == Action::RevealMainWindow
            &&& t.running
            &&& t.window is Some <==> s.window is Some
            &&& s.window is Some ==> t.window->Some_0.is_revealed()
        }),
{
    if let Some(w) = s.window {
        lemma_reveal_ops(w);
    }
}

/// Clicking "show" while the main window is minimized or hidden leaves it
/// visible, unminimized and focused, and the process running.
pub proof fn lemma_show_reveals(s: Shell, id: String)
    requires
        s.wf(),
        s.running,
        id@ == "show"@,
        s.window is Some,
        s.window->Some_0.minimized || !s.window->Some_0.visible,
    ensures
        ({
            let t = s.step(ShellEvent::MenuItem(id));
            &&& t.running
            &&& t.window is Some
            &&& t.window->Some_0.is_revealed()
        }),
{
    lemma_reveal_ops(s.window->Some_0);
}

/// Clicking "hide" leaves the main window not visible and the process
/// running.
pub proof fn lemma_hide_keeps_running(s: Shell, id: String)
    requires
        s.wf(),
        s.running,
        id@ == "hide"@,
        s.window is Some,
    ensures
        ({
            let e = ShellEvent::MenuItem(id);
            let t = s.step(e);
            &&& s.response(e) == Action::HideMainWindow
            &&& t.running
            &&& t.exit_code is None
            &&& t.window is Some
            &&& !t.window->Some_0.visible
        }),
{
    lemma_menu_ids_distinct();
    reveal_with_fuel(WindowState::after_all, 2);
    assert(window_ops_of(Action::HideMainWindow).drop_last() =~= Seq::<WindowOp>::empty());
}

/// Clicking "quit" ends the process with status 0, and no later event is
/// answered or changes anything.
pub proof fn lemma_quit_exits(s: Shell, id: String)
    requires
        s.wf(),
        s.running,
        id@ == "quit"@,
    ensures
        ({
            let e = ShellEvent::MenuItem(id);
            let t = s.step(e);
            &&& s.response(e) == Action::Exit(0)
            &&& !t.running
            &&& t.exit_code == Some(0i32)
            &&& forall|later: ShellEvent| #[trigger] t.step(later) == t && t.response(later) == Action::Ignore
        }),
{
    lemma_menu_ids_distinct();
}

/// A double click on the tray icon has the same answer and the same effect
/// as clicking "show", whatever state the window was in; while the shell
/// runs, the window ends in the foreground.
pub proof fn lemma_double_click_same_as_show(s: Shell, id: String)
    requires
        s.wf(),
        id@ == "show"@,
    ensures
        ({
            let dc = ShellEvent::TrayIcon(TrayEventKind::DoubleClick);
            let show = ShellEvent::MenuItem(id);
            &&& s.response(dc) == s.response(show)
            &&& s.step(dc) == s.step(show)
            &&& s.running && s.window is Some ==> s.step(dc).window->Some_0.is_revealed()
        }),
{
    if let Some(w) = s.window {
        lemma_reveal_ops(w);
    }
}

} // verus!
