//! Decision logic of the Vortex desktop shell: what the tray menu holds, how
//! menu clicks, tray-icon events and second launches map to actions on the
//! main window, a model of that window on which the actions are proved to
//! have their intended effect, and the debug-logging configuration.

pub mod window;
pub mod dispatch;
pub mod logging;
pub mod menu;
pub mod shell;
