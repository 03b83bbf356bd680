use vstd::prelude::*;

verus! {

/// What happened to a window.
#[derive(Clone, Copy, Debug, PartialEq, Eq, Structural)]
pub enum WindowChange {
    Created,
    Focused,
    Retitled,
    Moved,
    Closed,
    FloatingToggled,
}

/// What happened to a workspace.
#[derive(Clone, Copy, Debug, PartialEq, Eq, Structural)]
pub enum WorkspaceChange {
    Initialized,
    Focused,
    Moved,
    Reloaded,
}

/// One incoming window-manager event, reduced to what the reactor decides
/// on. The affected node itself travels beside the event in the caller's
/// hands.
#[derive(Clone, Copy, Debug, PartialEq, Eq, Structural)]
pub enum Event {
    Window(WindowChange),
    Workspace(WorkspaceChange),
    Keybinding,
}

/// What one event obliges the caller to do, always against a freshly
/// fetched snapshot.
#[derive(Clone, Copy, Debug, PartialEq, Eq, Structural)]
pub enum Action {
    /// Recompute the label of the workspace holding the event's window.
    RelabelWindow,
    /// Recompute the label of the workspace holding the now-focused window
    /// (after a close, or after a keybinding that may have changed the
    /// layout without a window event).
    RelabelFocused,
    /// Give a freshly initialized workspace the placeholder label.
    AssignPlaceholder,
    /// Nothing to do.
    Ignore,
}

/// The action each event calls for: window events name their own window,
/// except a close, which falls back to the focused window; keybindings can
/// change the layout without a window event, so they also relabel the
/// focused window; a freshly initialized or reloaded workspace gets the
/// placeholder label; other workspace events change no label.
pub open spec fn spec_react(e: Event) -> Action {
    match e {
        Event::Window(WindowChange::Closed) => Action::RelabelFocused,
        Event::Window(_) => Action::RelabelWindow,
        Event::Keybinding => Action::RelabelFocused,
        Event::Workspace(WorkspaceChange::Initialized) => Action::AssignPlaceholder,
        Event::Workspace(WorkspaceChange::Reloaded) => Action::AssignPlaceholder,
        Event::Workspace(_) => Action::Ignore,
    }
}

/// Decides what to do for one incoming event.
pub fn react(e: Event) -> (a: Action)
    ensures
        a == spec_react(e),
{
    match e {
        Event::Window(WindowChange::Closed) => Action::RelabelFocused,
        Event::Window(_) => Action::RelabelWindow,
        Event::Keybinding => Action::RelabelFocused,
        Event::Workspace(WorkspaceChange::Initialized) => Action::AssignPlaceholder,
        Event::Workspace(WorkspaceChange::Reloaded) => Action::AssignPlaceholder,
        Event::Workspace(_) => Action::Ignore,
    }
}

} // verus!
