//! Showing and hiding the window.
//!
//! The window is either hidden or visible, and starts hidden. The global
//! shortcut toggles it; losing the focus hides it; a request to close it hides
//! it too, and the close is called off, so that one window lasts for as long
//! as the application runs.

use vstd::prelude::*;
use vstd::string::*;

verus! {

/// The environment variable that names the global shortcut.
pub const HOTKEY_VARIABLE: &'static str = "HOTKEY";

/// The global shortcut where none is configured.
pub const DEFAULT_HOTKEY: &'static str = "Ctrl+Cmd+Space";

/// Whether the window can be seen.
#[derive(Clone, Copy, Debug, PartialEq, Eq, Structural)]
pub enum Visibility {
    Hidden,
    Visible,
}

/// What can happen to the window.
#[derive(Clone, Copy, Debug, PartialEq, Eq, Structural)]
pub enum Event {
    /// The global shortcut was pressed.
    ShortcutFired,
    /// The window lost the focus.
    FocusLost,
    /// The user or the system asked to close the window.
    CloseRequested,
}

/// What to do with the window in answer to an event.
#[derive(Clone, Copy, Debug, PartialEq, Eq, Structural)]
pub enum Action {
    /// Place the window under the cursor, show it and give it the focus.
    Reveal,
    /// Hide the window.
    Hide,
    /// Hide the window and call off the close that was asked for.
    HideInsteadOfClosing,
}

/// An answer to an event: what to do, and the state that results.
#[derive(Clone, Copy, Debug, PartialEq, Eq, Structural)]
pub struct Transition {
    pub next: Visibility,
    pub action: Action,
}

/// The state after `event` in state `state`.
pub open spec fn next_state(state: Visibility, event: Event) -> Visibility {
    match (state, event) {
        (Visibility::Hidden, Event::ShortcutFired) => Visibility::Visible,
        _ => Visibility::Hidden,
    }
}

/// What to do on `event` in state `state`.
pub open spec fn action_on(state: Visibility, event: Event) -> Action {
    match (state, event) {
        (_, Event::CloseRequested) => Action::HideInsteadOfClosing,
        (Visibility::Hidden, Event::ShortcutFired) => Action::Reveal,
        _ => Action::Hide,
    }
}

/// Whether the window is still there once `action` has answered `event`: a
/// close that is asked for and not called off destroys it.
pub open spec fn window_survives(event: Event, action: Action) -> bool {
    event == Event::CloseRequested ==> action == Action::HideInsteadOfClosing
}

impl Visibility {
    /// The state at startup: hidden.
    pub fn initial() -> (state: Visibility)
        ensures
            state == Visibility::Hidden,
    {
        Visibility::Hidden
    }

    /// The state of a window that reports itself visible or not.
    pub fn observed(visible: bool) -> (state: Visibility)
        ensures
            state == Visibility::Visible <==> visible,
    {
        if visible {
            Visibility::Visible
        } else {
            Visibility::Hidden
        }
    }
}

/// Answers `event` in state `state`.
pub fn step(state: Visibility, event: Event) -> (transition: Transition)
    ensures
        transition.next == next_state(state, event),
        transition.action == action_on(state, event),
{
    match event {
        Event::CloseRequested => Transition {
            next: Visibility::Hidden,
            action: Action::HideInsteadOfClosing,
        },
        Event::FocusLost => Transition { next: Visibility::Hidden, action: Action::Hide },
        Event::ShortcutFired => match state {
            Visibility::Hidden => Transition { next: Visibility::Visible, action: Action::Reveal },
            Visibility::Visible => Transition { next: Visibility::Hidden, action: Action::Hide },
        },
    }
}

/// Answers the global shortcut for a window that was asked whether it is
/// visible. Where it could not say, nothing is done.
pub fn toggle(visible: Option<bool>) -> (transition: Option<Transition>)
    ensures
        transition is None <==> visible is None,
        visible == Some(true) ==> transition == Some(
            Transition { next: Visibility::Hidden, action: Action::Hide },
        ),
        visible == Some(false) ==> transition == Some(
            Transition { next: Visibility::Visible, action: Action::Reveal },
        ),
{
    match visible {
        None => None,
        Some(flag) => Some(step(Visibility::observed(flag), Event::ShortcutFired)),
    }
}

/// The shortcut to bind: the configured one, or [`DEFAULT_HOTKEY`] where none
/// is configured.
pub fn hotkey_binding(configured: Option<String>) -> (binding: String)
    ensures
        configured matches Some(chosen) ==> binding == chosen,
        configured is None ==> binding@ == DEFAULT_HOTKEY@,
{
    match configured {
        Some(chosen) => chosen,
        None => DEFAULT_HOTKEY.to_owned(),
    }
}

/// Pressing the shortcut twice leaves the window as it was: from hidden it
/// becomes visible and then hidden again. Neither press closes the window.
pub proof fn lemma_toggle_twice(state: Visibility)
    ensures
        next_state(next_state(state, Event::ShortcutFired), Event::ShortcutFired) == state,
        next_state(Visibility::Hidden, Event::ShortcutFired) == Visibility::Visible,
        next_state(Visibility::Visible, Event::ShortcutFired) == Visibility::Hidden,
        action_on(state, Event::ShortcutFired) != Action::HideInsteadOfClosing,
        window_survives(Event::ShortcutFired, action_on(state, Event::ShortcutFired)),
        window_survives(
            Event::ShortcutFired,
            action_on(next_state(state, Event::ShortcutFired), Event::ShortcutFired),
        ),
{
}

/// A request to close the window hides it, whatever state it is in, and the
/// close is called off.
pub proof fn lemma_close_request_hides(state: Visibility)
    ensures
        next_state(state, Event::CloseRequested) == Visibility::Hidden,
        action_on(state, Event::CloseRequested) == Action::HideInsteadOfClosing,
{
}

/// Losing the focus hides the window.
pub proof fn lemma_focus_loss_hides(state: Visibility)
    ensures
        next_state(state, Event::FocusLost) == Visibility::Hidden,
        action_on(state, Event::FocusLost) == Action::Hide,
{
}

/// No event destroys the window, and the window is visible afterwards only
/// if it was revealed.
pub proof fn lemma_window_survives(state: Visibility, event: Event)
    ensures
        window_survives(event, action_on(state, event)),
        next_state(state, event) == Visibility::Visible <==> action_on(state, event)
            == Action::Reveal,
{
}

} // verus!
