//! What the daemon does on a signal.

use vstd::prelude::*;

use crate::ec_control::ec_manager::ExternalEvent;

verus! {

/// The signal sent when the terminal of the daemon hangs up.
pub const SIGHUP: i32 = 1;

/// The signal sent on an interrupt from the keyboard.
pub const SIGINT: i32 = 2;

/// The signal sent on a quit from the keyboard.
pub const SIGQUIT: i32 = 3;

/// The signal that asks a process to end.
pub const SIGTERM: i32 = 15;

/// Whether a signal ends the daemon.
pub open spec fn ends_daemon(signal: i32) -> bool {
    signal == SIGTERM || signal == SIGINT || signal == SIGQUIT
}

/// Gives the event that a signal stands for: the end of the daemon for
/// `SIGTERM`, `SIGINT` and `SIGQUIT`, and none for every other signal,
/// `SIGHUP` among them.
pub fn on_signal(signal: i32) -> (event: Option<ExternalEvent>)
    ensures
        ends_daemon(signal) ==> event == Some(ExternalEvent::Shutdown),
        !ends_daemon(signal) ==> event.is_none(),
{
    if signal == SIGTERM || signal == SIGINT || signal == SIGQUIT {
        Some(ExternalEvent::Shutdown)
    } else {
        None
    }
}

} // verus!
