//! Top-level tabs and the routing decisions of the event loop: global
//! shortcuts, interpretation of the action a layer returned, and the
//! clamped tab switching.

use vstd::prelude::*;

use crate::action::{Action, UiActions};
use crate::input::{KeyCode, KeyEvent};
use crate::text::str_eq;

verus! {

/// The fixed top-level views, in display order.
#[derive(Clone, Copy, Debug, PartialEq, Eq, Structural, Default)]
pub enum UiTabs {
    #[default]
    Summary,
    Home,
    Network,
    Applications,
    Dmesg,
}

/// The position of a tab in display order.
pub open spec fn tab_index(t: UiTabs) -> int {
    match t {
        UiTabs::Summary => 0,
        UiTabs::Home => 1,
        UiTabs::Network => 2,
        UiTabs::Applications => 3,
        UiTabs::Dmesg => 4,
    }
}

/// How many tabs there are.
pub open spec fn tab_count() -> int {
    5
}

impl UiTabs {
    /// The previous tab in display order, the first tab staying itself.
    pub open spec fn previous_spec(self) -> UiTabs {
        match self {
            UiTabs::Summary => UiTabs::Summary,
            UiTabs::Home => UiTabs::Summary,
            UiTabs::Network => UiTabs::Home,
            UiTabs::Applications => UiTabs::Network,
            UiTabs::Dmesg => UiTabs::Applications,
        }
    }

    /// The next tab in display order, the last tab staying itself.
    pub open spec fn next_spec(self) -> UiTabs {
        match self {
            UiTabs::Summary => UiTabs::Home,
            UiTabs::Home => UiTabs::Network,
            UiTabs::Network => UiTabs::Applications,
            UiTabs::Applications => UiTabs::Dmesg,
            UiTabs::Dmesg => UiTabs::Dmesg,
        }
    }

    /// The position of this tab in display order.
    pub fn index(self) -> (r: usize)
        ensures
            r == tab_index(self),
            0 <= r < tab_count(),
    {
        match self {
            UiTabs::Summary => 0,
            UiTabs::Home => 1,
            UiTabs::Network => 2,
            UiTabs::Applications => 3,
            UiTabs::Dmesg => 4,
        }
    }

    /// The tab at a display position.
    pub fn from_index(i: usize) -> (r: Option<UiTabs>)
        ensures
            i < tab_count() ==> (r matches Some(t) && tab_index(t) == i),
            i >= tab_count() ==> r is None,
    {
        match i {
            0 => Some(UiTabs::Summary),
            1 => Some(UiTabs::Home),
            2 => Some(UiTabs::Network),
            3 => Some(UiTabs::Applications),
            4 => Some(UiTabs::Dmesg),
            _ => None,
        }
    }

    /// The previous tab in display order; the first tab has no previous
    /// tab and is returned unchanged.
    pub fn previous(self) -> (r: UiTabs)
        ensures
            r == self.previous_spec(),
            self == UiTabs::Summary ==> r == self,
            self != UiTabs::Summary ==> tab_index(r) == tab_index(self) - 1,
    {
        match self {
            UiTabs::Summary => UiTabs::Summary,
            UiTabs::Home => UiTabs::Summary,
            UiTabs::Network => UiTabs::Home,
            UiTabs::Applications => UiTabs::Network,
            UiTabs::Dmesg => UiTabs::Applications,
        }
    }

    /// The next tab in display order; the last tab has no next tab and is
    /// returned unchanged.
    pub fn next(self) -> (r: UiTabs)
        ensures
            r == self.next_spec(),
            self == UiTabs::Dmesg ==> r == self,
            self != UiTabs::Dmesg ==> tab_index(r) == tab_index(self) + 1,
    {
        match self {
            UiTabs::Summary => UiTabs::Home,
            UiTabs::Home => UiTabs::Network,
            UiTabs::Network => UiTabs::Applications,
            UiTabs::Applications => UiTabs::Dmesg,
            UiTabs::Dmesg => UiTabs::Dmesg,
        }
    }
}

/// A global shortcut the loop honours before any layer sees the key.
#[derive(Clone, Copy, Debug, PartialEq, Eq, Structural)]
pub enum GlobalCommand {
    /// Request the loop to quit.
    Quit,
    /// Request one repaint.
    Redraw,
    /// Pop the active tab's top layer.
    PopLayer,
    /// Crash on purpose; honoured in debug builds only.
    ManualPanic,
}

/// The global shortcut a key triggers, if any: control together with `e`,
/// `r`, `p` or `a` maps to quit, redraw, pop and manual panic; anything
/// else is left for the layers.
pub fn global_shortcut(key: KeyEvent) -> (r: Option<GlobalCommand>)
    ensures
        r == if key.ctrl_only() && key.code == KeyCode::Char('e') {
            Some(GlobalCommand::Quit)
        } else if key.ctrl_only() && key.code == KeyCode::Char('r') {
            Some(GlobalCommand::Redraw)
        } else if key.ctrl_only() && key.code == KeyCode::Char('p') {
            Some(GlobalCommand::PopLayer)
        } else if key.ctrl_only() && key.code == KeyCode::Char('a') {
            Some(GlobalCommand::ManualPanic)
        } else {
            None::<GlobalCommand>
        },
{
    if key.ctrl && !key.alt && !key.shift {
        match key.code {
            KeyCode::Char(c) => {
                if c == 'e' {
                    Some(GlobalCommand::Quit)
                } else if c == 'r' {
                    Some(GlobalCommand::Redraw)
                } else if c == 'p' {
                    Some(GlobalCommand::PopLayer)
                } else if c == 'a' {
                    Some(GlobalCommand::ManualPanic)
                } else {
                    None
                }
            },
            _ => None,
        }
    } else {
        None
    }
}

/// What the loop does with the action the active layer returned.
#[derive(Clone, Debug, PartialEq, Eq)]
pub enum LayerVerdict {
    /// Pop the active tab's top layer.
    Pop,
    /// Consume the action without any effect.
    Ignore,
    /// Hand the action to the caller of the loop.
    Forward(Action),
}

/// Interpret the action returned by the active layer: a dismissal pops the
/// layer, a click of `Ok` or `Cancel` pops the layer, a click of any other
/// button is consumed, and every other action goes back to the caller.
pub fn interpret_layer_action(action: Action) -> (r: LayerVerdict)
    ensures
        match action.action {
            UiActions::DismissDialog => r == LayerVerdict::Pop,
            UiActions::ButtonClicked(name) => if name@ == "Ok"@ || name@ == "Cancel"@ {
                r == LayerVerdict::Pop
            } else {
                r == LayerVerdict::Ignore
            },
            _ => r == LayerVerdict::Forward(action),
        },
{
    let Action { source, action } = action;
    match action {
        UiActions::DismissDialog => LayerVerdict::Pop,
        UiActions::ButtonClicked(name) => {
            if str_eq(name.as_str(), "Ok") || str_eq(name.as_str(), "Cancel") {
                LayerVerdict::Pop
            } else {
                LayerVerdict::Ignore
            }
        },
        other => LayerVerdict::Forward(Action { source, action: other }),
    }
}

/// The tab selected after a key: control with the left or right arrow
/// moves one tab, clamped at the first and last tab; any other key leaves
/// the selection alone. Checked after the layer saw the key, whether or
/// not the layer consumed it.
pub fn tab_after_key(tab: UiTabs, key: KeyEvent) -> (r: UiTabs)
    ensures
        key.ctrl_only() && key.code == KeyCode::Left ==> r == tab.previous_spec(),
        key.ctrl_only() && key.code == KeyCode::Right ==> r == tab.next_spec(),
        !(key.ctrl_only() && (key.code == KeyCode::Left || key.code == KeyCode::Right)) ==> r
            == tab,
{
    if key.ctrl && !key.alt && !key.shift && key.code == KeyCode::Left {
        tab.previous()
    } else if key.ctrl && !key.alt && !key.shift && key.code == KeyCode::Right {
        tab.next()
    } else {
        tab
    }
}

} // verus!
