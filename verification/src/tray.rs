//! The tray icon controller: which events on the icon bring the main window
//! to the front.

use crate::window::{bring_to_front, brought_to_front, Outcome, WindowAction, WindowState};
use vstd::prelude::*;

verus! {

/// A mouse button.
#[derive(Clone, Copy, Debug, PartialEq, Eq, Structural)]
pub enum MouseButton {
    Left,
    Right,
    Middle,
}

/// Whether a button went down or came up.
#[derive(Clone, Copy, Debug, PartialEq, Eq, Structural)]
pub enum ButtonState {
    Up,
    Down,
}

/// What happened on the tray icon, without where it happened.
#[derive(Clone, Copy, Debug, PartialEq, Eq, Structural)]
pub enum TrayEvent {
    Click { button: MouseButton, state: ButtonState },
    DoubleClick { button: MouseButton },
    Enter,
    Move,
    Leave,
    /// An event of a kind that this controller does not know.
    Other,
}

impl TrayEvent {
    /// The events that ask for the main window: the release of a left
    /// click, and a left double click.
    pub open spec fn asks_for_window(self) -> bool {
        ||| self == (TrayEvent::Click { button: MouseButton::Left, state: ButtonState::Up })
        ||| self == (TrayEvent::DoubleClick { button: MouseButton::Left })
    }

    /// Whether the host has to look for the main window before it hands the
    /// event to `on_tray_event`.
    pub fn wants_window(self) -> (wanted: bool)
        ensures
            wanted == self.asks_for_window(),
    {
        match self {
            TrayEvent::Click { button: MouseButton::Left, state: ButtonState::Up } => true,
            TrayEvent::DoubleClick { button: MouseButton::Left } => true,
            _ => false,
        }
    }
}

/// The outcome of a tray event.
pub open spec fn tray_outcome(state: WindowState, event: TrayEvent, window_present: bool)
    -> Outcome {
    if event.asks_for_window() {
        brought_to_front(state, window_present)
    } else {
        Outcome { state, action: WindowAction::LogUnhandled }
    }
}

/// Handles one event on the tray icon. An event that asks for the main
/// window brings it to the front; every other event leaves the state alone.
pub fn on_tray_event(state: WindowState, event: TrayEvent, window_present: bool) -> (outcome:
    Outcome)
    ensures
        outcome == tray_outcome(state, event, window_present),
{
    if event.wants_window() {
        bring_to_front(state, window_present)
    } else {
        Outcome { state, action: WindowAction::LogUnhandled }
    }
}

/// Handling the same event again changes nothing; in particular a focused
/// window stays focused whatever the event.
pub proof fn lemma_tray_event_is_idempotent(
    state: WindowState,
    event: TrayEvent,
    window_present: bool,
)
    ensures
        tray_outcome(tray_outcome(state, event, window_present).state, event, window_present)
            == tray_outcome(state, event, window_present),
        state == WindowState::Focused ==> tray_outcome(state, event, window_present).state
            == WindowState::Focused,
{
}

/// An event changes the state only by focusing a window that exists.
pub proof fn lemma_tray_event_changes_state_only_by_focusing(
    state: WindowState,
    event: TrayEvent,
    window_present: bool,
)
    ensures
        tray_outcome(state, event, window_present).state != state ==> event.asks_for_window()
            && window_present && state == WindowState::Hidden && tray_outcome(
            state,
            event,
            window_present,
        ) == (Outcome { state: WindowState::Focused, action: WindowAction::ShowAndFocus }),
{
}

} // verus!
