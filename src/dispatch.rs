//! What the shell does in answer to each event that reaches it: a click on an
//! item of the tray menu, an event on the tray icon, or a second launch of the
//! program while this one runs.

use vstd::prelude::*;
use crate::window::WindowOp;

verus! {

/// The shell's answer to one event.
#[derive(Clone, Copy, Debug, PartialEq, Eq, Structural)]
pub enum Action {
    /// Unminimize, show and focus the main window, if it exists.
    RevealMainWindow,
    /// Hide the main window, if it exists.
    HideMainWindow,
    /// End the process at once with this status code.
    Exit(i32),
    /// Nothing to do.
    Ignore,
}

/// The kinds of event that the tray icon reports.
#[derive(Clone, Copy, Debug, PartialEq, Eq, Structural)]
pub enum TrayEventKind {
    Click,
    DoubleClick,
    Enter,
    Move,
    Leave,
}

/// An event that the host runtime delivers to the shell.
#[derive(Clone, Debug)]
pub enum ShellEvent {
    /// The tray menu item with this id was clicked.
    MenuItem(String),
    /// Something happened on the tray icon.
    TrayIcon(TrayEventKind),
    /// The program was launched again, with these arguments and working
    /// directory, while this process runs.
    SecondLaunch { argv: Vec<String>, cwd: String },
}

/// The answer to a click on the menu item with id `id`.
pub open spec fn menu_action_of(id: Seq<char>) -> Action {
    if id == "show"@ {
        Action::RevealMainWindow
    } else if id == "hide"@ {
        Action::HideMainWindow
    } else if id == "quit"@ {
        Action::Exit(0)
    } else {
        Action::Ignore
    }
}

/// The answer to an event on the tray icon: only a double click counts.
pub open spec fn tray_action_of(kind: TrayEventKind) -> Action {
    match kind {
        TrayEventKind::DoubleClick => Action::RevealMainWindow,
        _ => Action::Ignore,
    }
}

/// The answer to any event.
pub open spec fn action_of(event: ShellEvent) -> Action {
    match event {
        ShellEvent::MenuItem(id) => menu_action_of(id@),
        ShellEvent::TrayIcon(kind) => tray_action_of(kind),
        ShellEvent::SecondLaunch { .. } => Action::RevealMainWindow,
    }
}

/// The window operations that carry out `action`, in order.
pub open spec fn window_ops_of(action: Action) -> Seq<WindowOp> {
    match action {
        Action::RevealMainWindow => seq![WindowOp::Unminimize, WindowOp::Show, WindowOp::SetFocus],
        Action::HideMainWindow => seq![WindowOp::Hide],
        _ => Seq::empty(),
    }
}

/// The three menu ids differ from one another.
pub proof fn lemma_menu_ids_distinct()
    ensures
        "show"@ != "hide"@,
        "show"@ != "quit"@,
        "hide"@ != "quit"@,
{
    reveal_strlit("show");
    reveal_strlit("hide");
    reveal_strlit("quit");
    assert("show"@[0] != "hide"@[0]);
    assert("show"@[0] != "quit"@[0]);
    assert("hide"@[0] != "quit"@[0]);
}

pub fn menu_action(id: &str) -> (r: Action)
    ensures
        r == menu_action_of(id@),
{
    let id = id.to_owned();
    if id == "show".to_owned() {
        Action::RevealMainWindow
    } else if id == "hide".to_owned() {
        Action::HideMainWindow
    } else if id == "quit".to_owned() {
        Action::Exit(0)
    } else {
        Action::Ignore
    }
}

pub fn tray_action(kind: TrayEventKind) -> (r: Action)
    ensures
        r == tray_action_of(kind),
{
    match kind {
        TrayEventKind::DoubleClick => Action::RevealMainWindow,
        _ => Action::Ignore,
    }
}

/// A second launch always brings the existing window forward; its arguments
/// and working directory play no part.
pub fn second_launch_action(argv: &Vec<String>, cwd: &str) -> (r: Action)
    ensures
        r == Action::RevealMainWindow,
{
    Action::RevealMainWindow
}

pub fn dispatch(event: &ShellEvent) -> (r: Action)
    ensures
        r == action_of(*event),
{
    match event {
        ShellEvent::MenuItem(id) => menu_action(id.as_str()),
        ShellEvent::TrayIcon(kind) => tray_action(*kind),
        ShellEvent::SecondLaunch { argv, cwd } => second_launch_action(argv, cwd.as_str()),
    }
}

pub fn window_ops(action: Action) -> (r: Vec<WindowOp>)
    ensures
        r@ == window_ops_of(action),
{
    let r = match action {
        Action::RevealMainWindow => vec![WindowOp::Unminimize, WindowOp::Show, WindowOp::SetFocus],
        Action::HideMainWindow => vec![WindowOp::Hide],
        _ => Vec::new(),
    };
    assert(r@ =~= window_ops_of(action));
    r
}

} // verus!
