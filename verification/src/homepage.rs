//! The home page: a two-pane summary view. It tracks no focus and emits
//! no actions; rendering itself is left to the terminal backend.

use vstd::prelude::*;

use crate::action::Action;
use crate::dialog::IEventHandler;
use crate::geometry::{split_halves, split_halves_spec, Rect};
use crate::input::Event;

verus! {

/// What the home page shows.
struct SummaryState {
    a: i32,
    ip: String,
}

/// The two panes of the home page.
pub struct HomeLayout {
    pub left: Rect,
    pub right: Rect,
}

/// The home page and its cached layout.
pub struct HomePage {
    state: SummaryState,
    layout: Option<HomeLayout>,
}

impl HomePage {
    /// The numeric summary value shown on the page.
    pub closed spec fn a_view(self) -> i32 {
        self.state.a
    }

    /// The address text shown on the page.
    pub closed spec fn ip_view(self) -> Seq<char> {
        self.state.ip@
    }

    /// The cached layout, if a layout pass has run.
    pub closed spec fn layout_view(self) -> Option<HomeLayout> {
        self.layout
    }

    /// A fresh home page with its initial summary values and no cached
    /// layout.
    pub fn new() -> (r: HomePage)
        ensures
            r.a_view() == 1,
            r.ip_view() == "thing"@,
            r.layout_view() is None,
    {
        HomePage { layout: None, state: SummaryState { a: 1, ip: "thing".to_owned() } }
    }

    /// Split the given area into the page's two half-width panes.
    pub fn do_layout(&self, area: &Rect) -> (r: HomeLayout)
        requires
            area.wf(),
        ensures
            r.left == split_halves_spec(*area).0,
            r.right == split_halves_spec(*area).1,
    {
        let (left, right) = split_halves(*area);
        HomeLayout { left, right }
    }

    /// Compute and cache the layout for `area` unless one is cached
    /// already, and return the panes to draw into.
    pub fn layout_for_render(&mut self, area: &Rect) -> (r: (Rect, Rect))
        requires
            area.wf(),
        ensures
            final(self).a_view() == old(self).a_view(),
            final(self).ip_view() == old(self).ip_view(),
            final(self).layout_view() matches Some(l) && l.left == r.0 && l.right == r.1,
            old(self).layout_view() matches Some(l) ==> r == (l.left, l.right),
            old(self).layout_view() is None ==> r == (
                split_halves_spec(*area).0,
                split_halves_spec(*area).1,
            ),
    {
        if self.layout.is_none() {
            let l = self.do_layout(area);
            self.layout = Some(l);
        }
        match &self.layout {
            Some(l) => (l.left, l.right),
            None => (Rect::zero(), Rect::zero()),  // unreachable: a layout was just cached
        }
    }

    /// The numeric summary value.
    pub fn a(&self) -> (r: i32)
        ensures
            r == self.a_view(),
    {
        self.state.a
    }

    /// The address text.
    pub fn ip(&self) -> (r: &String)
        ensures
            r@ == self.ip_view(),
    {
        &self.state.ip
    }

    /// The page tracks no focus of its own.
    pub fn is_focus_tracker(&self) -> (r: bool)
        ensures
            !r,
    {
        false
    }
}

impl IEventHandler for HomePage {
    /// The home page consumes events without reacting to them.
    fn handle_event(&mut self, _event: Event) -> Option<Action> {
        None
    }
}

} // verus!
