//! The creation flag for launching a process without a console window.

use vstd::prelude::*;

verus! {

/// The creation flag that asks the process launcher to open no console
/// window for the new process, on an operating system that has that
/// concept.
pub const NO_WINDOW_FLAG: u32 = 0x08000000;

/// The creation flag to launch a process without a console window:
/// the hide-window flag where the target operating system knows console
/// windows, and nothing — a no-op — anywhere else.
pub fn window_suppression_flag(os_has_console_windows: bool) -> (flag: Option<u32>)
    ensures
        flag == (if os_has_console_windows {
            Some(NO_WINDOW_FLAG)
        } else {
            None::<u32>
        }),
{
    if os_has_console_windows {
        Some(NO_WINDOW_FLAG)
    } else {
        None
    }
}

} // verus!
