//! Decisions of the main window.
use vstd::prelude::*;

verus! {

/// What closing the window means.
#[derive(Debug, Clone, Copy, PartialEq, Eq, Structural)]
pub enum CloseIntent {
    HideKeepPolling,
    Quit,
}

/// Returns what closing the window means: only an explicit quit ends the
/// program.
pub fn close_intent(is_quit_action: bool) -> (r: CloseIntent)
    ensures
        r == if is_quit_action {
            CloseIntent::Quit
        } else {
            CloseIntent::HideKeepPolling
        },
{
    if is_quit_action {
        CloseIntent::Quit
    } else {
        CloseIntent::HideKeepPolling
    }
}

/// Tells whether the status bar is to be polled. A subscription pushes its
/// changes, so then nothing is polled. Times are milliseconds on one clock;
/// a last time that lies ahead counts as now.
pub fn should_poll_status(sub_active: bool, last: u64, now: u64, interval: u64) -> (r: bool)
    ensures
        r == (!sub_active && (if now >= last {
            now - last
        } else {
            0
        }) >= interval),
{
    !sub_active && now.saturating_sub(last) >= interval
}

} // verus!
