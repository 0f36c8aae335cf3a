//! Actions emitted by windows and carried on the action bus, and the
//! `Activity` wrapper that mixes actions with raw key events.

use vstd::prelude::*;

use crate::input::KeyEvent;

verus! {

/// What a window asks the surrounding loop to do.
#[derive(Clone, Debug, PartialEq, Eq)]
pub enum UiActions {
    Redraw,
    Quit,
    DismissDialog,
    ButtonClicked(String),
}

impl UiActions {
    /// The action is a click of the button with this label.
    pub open spec fn is_button_named(self, name: Seq<char>) -> bool {
        match self {
            UiActions::ButtonClicked(s) => s@ == name,
            _ => false,
        }
    }
}

/// An action tagged with the name of the window that raised it.
#[derive(Clone, Debug, PartialEq, Eq)]
pub struct Action {
    pub source: String,
    pub action: UiActions,
}

impl Action {
    /// Tag `action` with the raising window's name.
    pub fn new(source: &str, action: UiActions) -> (r: Action)
        ensures
            r.source@ == source@,
            r.action == action,
    {
        Action { source: source.to_owned(), action }
    }
}

/// Either a ready-made action or a key event still to be handled.
pub enum Activity {
    Action(UiActions),
    Event(KeyEvent),
}

impl Activity {
    /// Wrap an action.
    pub fn ui_action(action: UiActions) -> (r: Activity)
        ensures
            r == Activity::Action(action),
    {
        Activity::Action(action)
    }

    /// Wrap a key event.
    pub fn key_event(key: KeyEvent) -> (r: Activity)
        ensures
            r == Activity::Event(key),
    {
        Activity::Event(key)
    }

    /// The activity that requests one repaint.
    pub fn redraw() -> (r: Activity)
        ensures
            r == Activity::Action(UiActions::Redraw),
    {
        Activity::Action(UiActions::Redraw)
    }

    /// The wrapped action, or `None` when this is a key event.
    pub fn try_into_action(self) -> (r: Option<UiActions>)
        ensures
            match self {
                Activity::Action(action) => r == Some(action),
                Activity::Event(_) => r is None,
            },
    {
        match self {
            Activity::Action(action) => Some(action),
            Activity::Event(_) => None,
        }
    }
}

} // verus!
