//! Modal dialog: wraps an inner content window, adds a button column and
//! a frame, and intercepts the dismissal keys.
//!
//! Event handling order: Escape always dismisses, without consulting the
//! inner window; any other key goes to the inner window, whose returned
//! action is then routed: a click of the `Cancel` button dismisses, a click
//! of any other button is swallowed (an unfinished extension point), and
//! every other action is forwarded unchanged.

use vstd::prelude::*;

use crate::action::{Action, UiActions};
use crate::focus::FocusTracker;
use crate::geometry::{
    centered_rect_fixed, centered_rect_fixed_spec, min_u16, stacked_slot, stacked_slot_spec,
    split_right_column, split_right_column_spec, Rect,
};
use crate::input::{Event, KeyCode, KeyEvent};
use crate::text::str_eq;

verus! {

/// A window that consumes one event and may emit one action.
pub trait IEventHandler {
    fn handle_event(&mut self, event: Event) -> Option<Action>;
}

/// Route the action an inner content window returned from a key event.
/// A click of `Cancel` becomes a dismissal in the dialog's name; a click of
/// any other button yields no action; everything else passes through.
pub fn route_inner_action(name: &str, inner: Option<Action>) -> (r: Option<Action>)
    ensures
        match inner {
            None => r is None,
            Some(a) => match a.action {
                UiActions::ButtonClicked(label) => if label@ == "Cancel"@ {
                    r matches Some(d) && d.action == UiActions::DismissDialog && d.source@
                        == name@
                } else {
                    r is None
                },
                _ => r == Some(a),
            },
        },
{
    match inner {
        None => None,
        Some(a) => {
            let Action { source, action } = a;
            match action {
                UiActions::ButtonClicked(label) => {
                    if str_eq(label.as_str(), "Cancel") {
                        Some(Action::new(name, UiActions::DismissDialog))
                    } else {
                        None
                    }
                },
                other => Some(Action { source, action: other }),
            }
        },
    }
}

/// The width of a button drawn for this label: the label plus one cell of
/// padding on each side, clamped to what a `u16` can hold.
pub open spec fn button_width(label: Seq<char>) -> u16 {
    if label.len() + 2 <= u16::MAX {
        (label.len() + 2) as u16
    } else {
        u16::MAX
    }
}

/// The width of the dialog's button column: the widest button, or zero
/// when there is none.
pub open spec fn button_column_width(labels: Seq<String>) -> u16
    decreases labels.len(),
{
    if labels.len() == 0 {
        0u16
    } else {
        let rest = button_column_width(labels.drop_last());
        let last = button_width(labels.last()@);
        if last >= rest {
            last
        } else {
            rest
        }
    }
}

fn compute_button_column_width(labels: &Vec<String>) -> (r: u16)
    ensures
        r == button_column_width(labels@),
{
    let mut w: u16 = 0;
    let mut i: usize = 0;
    while i < labels.len()
        invariant
            i <= labels@.len(),
            w == button_column_width(labels@.subrange(0, i as int)),
        decreases labels@.len() - i,
    {
        let len = labels[i].as_str().unicode_len();
        let bw: u16 = if len <= (u16::MAX - 2) as usize {
            (len + 2) as u16
        } else {
            u16::MAX
        };
        assert(bw == button_width(labels@[i as int]@));
        if bw > w {
            w = bw;
        }
        proof {
            assert(labels@.subrange(0, i + 1).drop_last() =~= labels@.subrange(0, i as int));
            assert(labels@.subrange(0, i + 1).last() == labels@[i as int]);
        }
        i += 1;
    }
    proof {
        assert(labels@.subrange(0, labels@.len() as int) =~= labels@);
    }
    w
}

/// The rectangles a dialog draws into, recomputed from the parent area on
/// each render: the outer frame, the content pane, and one rectangle per
/// button, stacked from the top of the button column.
pub struct DialogLayout {
    pub frame: Rect,
    pub content: Rect,
    pub buttons: Vec<Rect>,
}

/// The dialog's frame: its fixed size clamped to and centered in `area`.
pub open spec fn dialog_frame_spec(size: (u16, u16), area: Rect) -> Rect {
    centered_rect_fixed_spec(size.0, size.1, area)
}

/// The content pane and button column inside the frame, after one cell of
/// margin all around.
pub open spec fn dialog_panes_spec(size: (u16, u16), labels: Seq<String>, area: Rect) -> (
    Rect,
    Rect,
) {
    split_right_column_spec(
        dialog_frame_spec(size, area).inner_margin_spec(1),
        button_column_width(labels),
    )
}

/// A modal wrapper around an inner content window `D`, with a fixed size
/// and a row of named buttons.
pub struct Dialog<D> {
    name: String,
    focus: FocusTracker,
    size: (u16, u16),
    buttons: Vec<String>,
    state: D,
    layout: DialogLayout,
}

/// Copy a list of button labels.
fn clone_strings(v: &Vec<String>) -> (r: Vec<String>)
    ensures
        r@ == v@,
{
    let mut out: Vec<String> = Vec::new();
    let mut i: usize = 0;
    while i < v.len()
        invariant
            i <= v@.len(),
            out@ =~= v@.subrange(0, i as int),
        decreases v@.len() - i,
    {
        out.push(v[i].clone());
        i += 1;
    }
    proof {
        assert(out@ =~= v@);
    }
    out
}

impl<D> Dialog<D> {
    /// The dialog's window name.
    pub closed spec fn name_view(self) -> Seq<char> {
        self.name@
    }

    /// The button labels, in display order.
    pub closed spec fn buttons_view(self) -> Seq<String> {
        self.buttons@
    }

    /// The fixed (width, height) the dialog asks for.
    pub closed spec fn size_view(self) -> (u16, u16) {
        self.size
    }

    /// The inner content window.
    pub closed spec fn state_view(self) -> D {
        self.state
    }

    /// The rectangles computed by the last layout pass.
    pub closed spec fn layout_view(self) -> DialogLayout {
        self.layout
    }

    /// A dialog of the given fixed size over the content window `state`,
    /// with one focusable child per button and the focus started on
    /// `focused_button`.
    pub fn new(
        name: &str,
        size: (u16, u16),
        buttons: Vec<String>,
        focused_button: &str,
        state: D,
    ) -> (r: Dialog<D>)
        ensures
            r.name_view() == name@,
            r.size_view() == size,
            r.buttons_view() == buttons@,
            r.state_view() == state,
            r.focus_wf(),
    {
        let ids = clone_strings(&buttons);
        Dialog {
            name: name.to_owned(),
            focus: FocusTracker::with_focused(ids, focused_button),
            size,
            buttons,
            state,
            layout: DialogLayout { frame: Rect::zero(), content: Rect::zero(), buttons: Vec::new() },
        }
    }

    /// The focus tracker over the button names.
    pub closed spec fn focus_view(self) -> FocusTracker {
        self.focus
    }

    /// The focus tracker is well formed.
    pub open spec fn focus_wf(self) -> bool {
        self.focus_view().wf()
    }

    /// Move the focus to the next button, wrapping after the last.
    pub fn focus_next(&mut self) -> (r: Option<String>)
        requires
            old(self).focus_wf(),
        ensures
            final(self).focus_wf(),
            final(self).focus_view().ids_view() == old(self).focus_view().ids_view(),
            old(self).focus_view().ids_view().len() == 0 ==> r is None,
            old(self).focus_view().ids_view().len() > 0 ==> {
                let i = match old(self).focus_view().cursor_view() {
                    Some(c) => crate::focus::next_index(
                        c,
                        old(self).focus_view().ids_view().len() as int,
                    ),
                    None => 0,
                };
                final(self).focus_view().cursor_view() == Some(i) && r == Some(
                    old(self).focus_view().ids_view()[i],
                )
            },
    {
        self.focus.focus_next()
    }

    /// Move the focus to the previous button, wrapping before the first.
    pub fn focus_prev(&mut self) -> (r: Option<String>)
        requires
            old(self).focus_wf(),
        ensures
            final(self).focus_wf(),
            final(self).focus_view().ids_view() == old(self).focus_view().ids_view(),
            old(self).focus_view().ids_view().len() == 0 ==> r is None,
            old(self).focus_view().ids_view().len() > 0 ==> {
                let i = match old(self).focus_view().cursor_view() {
                    Some(c) => crate::focus::prev_index(
                        c,
                        old(self).focus_view().ids_view().len() as int,
                    ),
                    None => old(self).focus_view().ids_view().len() - 1,
                };
                final(self).focus_view().cursor_view() == Some(i) && r == Some(
                    old(self).focus_view().ids_view()[i],
                )
            },
    {
        self.focus.focus_prev()
    }

    /// The name of the button that holds focus, if any.
    pub fn get_focused_view_name(&self) -> (r: Option<String>)
        requires
            self.focus_wf(),
        ensures
            match self.focus_view().cursor_view() {
                Some(i) => r == Some(self.focus_view().ids_view()[i]),
                None => r is None,
            },
    {
        self.focus.get_focused_view()
    }

    /// A dialog always reports itself as holding focus while it exists.
    pub fn has_focus(&self) -> (r: bool)
        ensures
            r,
    {
        true
    }

    /// A dialog can always accept focus.
    pub fn can_focus(&self) -> (r: bool)
        ensures
            r,
    {
        true
    }

    /// A dialog tracks the focus of its buttons itself.
    pub fn is_focus_tracker(&self) -> (r: bool)
        ensures
            r,
    {
        true
    }

    /// Recompute the layout from the parent area: the frame centered in the
    /// area, the content pane and button column inside it, and one slot of
    /// three rows per button stacked from the top of the column.
    pub fn do_layout(&mut self, area: &Rect)
        requires
            area.wf(),
        ensures
            final(self).layout_view().frame == dialog_frame_spec(old(self).size_view(), *area),
            final(self).layout_view().content == dialog_panes_spec(
                old(self).size_view(),
                old(self).buttons_view(),
                *area,
            ).0,
            final(self).layout_view().buttons@.len() == old(self).buttons_view().len(),
            forall|i: int|
                0 <= i < old(self).buttons_view().len() ==> final(self).layout_view().buttons@[i]
                    == stacked_slot_spec(
                    dialog_panes_spec(old(self).size_view(), old(self).buttons_view(), *area).1,
                    3,
                    i,
                ),
            final(self).name_view() == old(self).name_view(),
            final(self).buttons_view() == old(self).buttons_view(),
            final(self).size_view() == old(self).size_view(),
            final(self).state_view() == old(self).state_view(),
            final(self).focus_wf() == old(self).focus_wf(),
    {
        let frame = centered_rect_fixed(self.size.0, self.size.1, *area);
        let inner = frame.inner_margin(1);
        let col_w = compute_button_column_width(&self.buttons);
        let (content, column) = split_right_column(inner, col_w);
        let mut rects: Vec<Rect> = Vec::new();
        let n = self.buttons.len();
        let mut i: usize = 0;
        while i < n
            invariant
                n == self.buttons@.len(),
                i <= n,
                column.wf(),
                rects@.len() == i as nat,
                forall|j: int| 0 <= j < i as int ==> rects@[j] == stacked_slot_spec(column, 3, j),
            decreases n - i,
        {
            let slot = stacked_slot(column, 3, i);
            rects.push(slot);
            i += 1;
        }
        self.layout = DialogLayout { frame, content, buttons: rects };
    }

    /// Borrow the rectangles of the last layout pass.
    pub fn layout(&self) -> (r: &DialogLayout)
        ensures
            *r == self.layout_view(),
    {
        &self.layout
    }
}

impl<D: IEventHandler> Dialog<D> {
    /// Handle one key event. Escape always yields a dismissal in the
    /// dialog's name, whatever the inner window's state; any other key is
    /// forwarded to the inner window and its action routed through
    /// `route_inner_action`, so the caller never sees a button click.
    pub fn handle_key_event(&mut self, key: KeyEvent) -> (r: Option<Action>)
        ensures
            key.code == KeyCode::Esc ==> (r matches Some(a) && a.action == UiActions::DismissDialog
                && a.source@ == old(self).name_view()),
            key.code == KeyCode::Esc ==> *final(self) == *old(self),
            match r {
                Some(a) => !(a.action is ButtonClicked),
                None => true,
            },
            final(self).name_view() == old(self).name_view(),
            final(self).buttons_view() == old(self).buttons_view(),
    {
        if key.code == KeyCode::Esc {
            return Some(Action::new(self.name.as_str(), UiActions::DismissDialog));
        }
        let inner = self.state.handle_event(Event::Key(key));
        route_inner_action(self.name.as_str(), inner)
    }

    /// The stock behaviour of every confirming button: report a click of
    /// `Ok`, whatever the callback would say.
    pub fn on_ok_yes<F: Fn(&D) -> Option<UiActions>>(_f: F) -> (r: Option<UiActions>)
        ensures
            (r matches Some(a) && a.is_button_named("Ok"@)),
    {
        Some(UiActions::ButtonClicked("Ok".to_owned()))
    }
}

impl<D: IEventHandler> IEventHandler for Dialog<D> {
    fn handle_event(&mut self, event: Event) -> Option<Action> {
        match event {
            Event::Key(key) => self.handle_key_event(key),
            Event::Tick => None,
        }
    }
}

} // verus!
