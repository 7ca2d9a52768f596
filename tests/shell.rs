use vortex::dispatch::{
    dispatch, menu_action, second_launch_action, tray_action, window_ops, Action, ShellEvent,
    TrayEventKind,
};
use vortex::logging::{is_emitted, log_filter, LogLevel, ShellConfig};
use vortex::menu::{main_window_label, tray_menu, tray_tooltip};
use vortex::shell::Shell;
use vortex::window::{WindowOp, WindowState};

fn hidden() -> WindowState {
    WindowState { visible: false, minimized: false, focused: false }
}

fn minimized() -> WindowState {
    WindowState { visible: true, minimized: true, focused: false }
}

fn shown() -> WindowState {
    WindowState { visible: true, minimized: false, focused: true }
}

fn is_revealed(w: WindowState) -> bool {
    w.visible && !w.minimized && w.focused
}

fn menu(id: &str) -> ShellEvent {
    ShellEvent::MenuItem(id.to_string())
}

#[test]
fn menu_ids_map_to_actions() {
    assert_eq!(menu_action("show"), Action::RevealMainWindow);
    assert_eq!(menu_action("hide"), Action::HideMainWindow);
    assert_eq!(menu_action("quit"), Action::Exit(0));
}

#[test]
fn unknown_menu_id_is_ignored() {
    assert_eq!(menu_action("settings"), Action::Ignore);
    assert_eq!(menu_action(""), Action::Ignore);
    assert_eq!(menu_action("Show"), Action::Ignore);
    assert_eq!(menu_action("show "), Action::Ignore);
}

#[test]
fn only_double_click_on_tray_reveals() {
    assert_eq!(tray_action(TrayEventKind::DoubleClick), Action::RevealMainWindow);
    for k in [TrayEventKind::Click, TrayEventKind::Enter, TrayEventKind::Move, TrayEventKind::Leave] {
        assert_eq!(tray_action(k), Action::Ignore);
    }
}

#[test]
fn second_launch_ignores_arguments() {
    let argv = vec!["vortex".to_string(), "--flag".to_string()];
    assert_eq!(second_launch_action(&argv, "/tmp"), Action::RevealMainWindow);
    assert_eq!(second_launch_action(&Vec::new(), ""), Action::RevealMainWindow);
}

#[test]
fn dispatch_covers_every_event() {
    assert_eq!(dispatch(&menu("hide")), Action::HideMainWindow);
    assert_eq!(dispatch(&ShellEvent::TrayIcon(TrayEventKind::Click)), Action::Ignore);
    let e = ShellEvent::SecondLaunch { argv: vec![], cwd: "/".to_string() };
    assert_eq!(dispatch(&e), Action::RevealMainWindow);
}

#[test]
fn window_ops_in_order() {
    assert_eq!(
        window_ops(Action::RevealMainWindow),
        vec![WindowOp::Unminimize, WindowOp::Show, WindowOp::SetFocus]
    );
    assert_eq!(window_ops(Action::HideMainWindow), vec![WindowOp::Hide]);
    assert!(window_ops(Action::Exit(0)).is_empty());
    assert!(window_ops(Action::Ignore).is_empty());
}

#[test]
fn apply_ops_updates_window() {
    let mut w = minimized();
    w.apply_all(&window_ops(Action::RevealMainWindow));
    assert_eq!(w, shown());
    w.apply(WindowOp::Hide);
    assert_eq!(w, WindowState { visible: false, minimized: false, focused: false });
}

#[test]
fn second_launch_brings_window_forward() {
    let mut s = Shell::new(Some(minimized()));
    let e = ShellEvent::SecondLaunch { argv: vec!["vortex".to_string()], cwd: "/home".to_string() };
    assert_eq!(s.handle(&e), Action::RevealMainWindow);
    assert!(s.running);
    assert!(is_revealed(s.window.unwrap()));
}

#[test]
fn show_reveals_hidden_or_minimized_window() {
    for start in [hidden(), minimized()] {
        let mut s = Shell::new(Some(start));
        assert_eq!(s.handle(&menu("show")), Action::RevealMainWindow);
        assert!(s.running);
        assert!(is_revealed(s.window.unwrap()));
    }
}

#[test]
fn hide_keeps_process_alive() {
    let mut s = Shell::new(Some(shown()));
    assert_eq!(s.handle(&menu("hide")), Action::HideMainWindow);
    assert!(!s.window.unwrap().visible);
    assert!(s.running);
    assert_eq!(s.exit_code, None);
}

#[test]
fn quit_exits_with_zero_and_ignores_later_events() {
    let mut s = Shell::new(Some(hidden()));
    assert_eq!(s.handle(&menu("quit")), Action::Exit(0));
    assert!(!s.running);
    assert_eq!(s.exit_code, Some(0));
    let after = s;
    assert_eq!(s.handle(&menu("show")), Action::Ignore);
    assert_eq!(s.handle(&ShellEvent::TrayIcon(TrayEventKind::DoubleClick)), Action::Ignore);
    assert_eq!(s, after);
    assert_eq!(s.window, Some(hidden()));
}

#[test]
fn double_click_matches_show_from_any_state() {
    for start in [hidden(), minimized(), shown()] {
        let mut a = Shell::new(Some(start));
        let mut b = Shell::new(Some(start));
        let ra = a.handle(&ShellEvent::TrayIcon(TrayEventKind::DoubleClick));
        let rb = b.handle(&menu("show"));
        assert_eq!(ra, rb);
        assert_eq!(a, b);
        assert!(is_revealed(a.window.unwrap()));
    }
}

#[test]
fn events_without_window_are_harmless() {
    let mut s = Shell::new(None);
    assert_eq!(s.handle(&menu("show")), Action::RevealMainWindow);
    assert_eq!(s.handle(&menu("hide")), Action::HideMainWindow);
    assert_eq!(s.window, None);
    assert!(s.running);
    s.attach_window(hidden());
    s.handle(&menu("show"));
    assert!(is_revealed(s.window.unwrap()));
}

#[test]
fn tray_single_click_changes_nothing() {
    let mut s = Shell::new(Some(hidden()));
    let before = s;
    assert_eq!(s.handle(&ShellEvent::TrayIcon(TrayEventKind::Click)), Action::Ignore);
    assert_eq!(s, before);
}

#[test]
fn tray_menu_layout() {
    let items = tray_menu();
    let pairs: Vec<(String, String)> = items.into_iter().map(|e| (e.id, e.label)).collect();
    assert_eq!(
        pairs,
        vec![
            ("show".to_string(), "Show Vortex".to_string()),
            ("hide".to_string(), "Hide".to_string()),
            ("quit".to_string(), "Quit".to_string()),
        ]
    );
    assert_eq!(tray_tooltip(), "Vortex");
    assert_eq!(main_window_label(), "main");
}

#[test]
fn release_build_logs_nothing() {
    let filter = log_filter(ShellConfig { verbose_logging: false });
    assert_eq!(filter, None);
    for l in [LogLevel::Error, LogLevel::Warn, LogLevel::Info, LogLevel::Debug, LogLevel::Trace] {
        assert!(!is_emitted(filter, l));
    }
}

#[test]
fn debug_build_logs_info_and_above() {
    let filter = log_filter(ShellConfig { verbose_logging: true });
    assert_eq!(filter, Some(LogLevel::Info));
    assert!(is_emitted(filter, LogLevel::Error));
    assert!(is_emitted(filter, LogLevel::Warn));
    assert!(is_emitted(filter, LogLevel::Info));
    assert!(!is_emitted(filter, LogLevel::Debug));
    assert!(!is_emitted(filter, LogLevel::Trace));
    assert_eq!(LogLevel::Info.rank(), 3);
}
