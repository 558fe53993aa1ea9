//! The main window as the shell sees it: hidden or focused, and brought to
//! the front on request.

use vstd::prelude::*;

verus! {

/// The label under which the host knows the main window.
pub const MAIN_WINDOW: &'static str = "main";

/// Whether the main window is in front of the user.
#[derive(Clone, Copy, Debug, PartialEq, Eq, Structural)]
pub enum WindowState {
    /// Not visible, or visible without focus.
    Hidden,
    /// Visible and focused.
    Focused,
}

/// What the host is to do with the main window.
#[derive(Clone, Copy, Debug, PartialEq, Eq, Structural)]
pub enum WindowAction {
    /// Show the window and give it the focus.
    ShowAndFocus,
    /// The window was asked for and does not exist: do nothing.
    SkipMissingWindow,
    /// The event asks for nothing: note it and go on.
    LogUnhandled,
}

/// The window state after an event, and what the host is to do.
#[derive(Clone, Copy, Debug, PartialEq, Eq, Structural)]
pub struct Outcome {
    pub state: WindowState,
    pub action: WindowAction,
}

/// The outcome of a request to bring the main window to the front.
pub open spec fn brought_to_front(state: WindowState, window_present: bool) -> Outcome {
    if window_present {
        Outcome { state: WindowState::Focused, action: WindowAction::ShowAndFocus }
    } else {
        Outcome { state, action: WindowAction::SkipMissingWindow }
    }
}

/// Brings the main window to the front. Where the host found no main
/// window, the request is dropped and the state stays as it was.
pub fn bring_to_front(state: WindowState, window_present: bool) -> (outcome: Outcome)
    ensures
        outcome == brought_to_front(state, window_present),
{
    if window_present {
        Outcome { state: WindowState::Focused, action: WindowAction::ShowAndFocus }
    } else {
        Outcome { state, action: WindowAction::SkipMissingWindow }
    }
}

/// Bringing the window to the front a second time changes nothing, and a
/// focused window stays focused.
pub proof fn lemma_bring_to_front_is_idempotent(state: WindowState, window_present: bool)
    ensures
        brought_to_front(brought_to_front(state, window_present).state, window_present)
            == brought_to_front(state, window_present),
        state == WindowState::Focused ==> brought_to_front(state, window_present).state
            == WindowState::Focused,
{
}

} // verus!
