use monitor_core::action::{Action, Activity, UiActions};
use monitor_core::dialog::{route_inner_action, Dialog, IEventHandler};
use monitor_core::focus::FocusTracker;
use monitor_core::geometry::{centered_rect_fixed, split_halves, split_right_column, stacked_slot, Rect};
use monitor_core::homepage::HomePage;
use monitor_core::input::{Event, KeyCode, KeyEvent};
use monitor_core::layer_stack::LayerStack;
use monitor_core::tabs::{global_shortcut, interpret_layer_action, tab_after_key, GlobalCommand, LayerVerdict, UiTabs};

struct Inner {
    reply: Option<Action>,
    seen: usize,
}

impl IEventHandler for Inner {
    fn handle_event(&mut self, _event: Event) -> Option<Action> {
        self.seen += 1;
        self.reply.take()
    }
}

fn ids(names: &[&str]) -> Vec<String> {
    names.iter().map(|n| n.to_string()).collect()
}

#[test]
fn layer_stack_lifo() {
    let mut stack: LayerStack<u32> = LayerStack::new();
    assert!(stack.is_empty());
    assert_eq!(stack.pop(), None);
    stack.push(1);
    stack.push(2);
    stack.push(3);
    assert_eq!(stack.len(), 3);
    assert_eq!(stack.pop(), Some(3));
    assert_eq!(stack.pop(), Some(2));
    assert_eq!(stack.pop(), Some(1));
    assert!(stack.is_empty());
    assert_eq!(stack.pop(), None);
}

#[test]
fn layer_stack_access() {
    let mut stack: LayerStack<&str> = LayerStack::new();
    stack.push("page");
    stack.push("dialog");
    assert_eq!(stack.last(), Some(&"dialog"));
    assert_eq!(*stack.get(0), "page");
    stack.set(0, "other");
    assert_eq!(*stack.get(0), "other");
    assert_eq!(stack.len(), 2);
}

#[test]
fn focus_cycles_forward() {
    let mut t = FocusTracker::new(ids(&["a", "b", "c"]));
    assert_eq!(t.get_focused_view(), None);
    assert_eq!(t.focus_next(), Some("a".to_string()));
    assert_eq!(t.focus_next(), Some("b".to_string()));
    assert_eq!(t.focus_next(), Some("c".to_string()));
    assert_eq!(t.focus_next(), Some("a".to_string()));
    assert_eq!(t.get_focused_view(), Some("a".to_string()));
}

#[test]
fn focus_cycles_backward() {
    let mut t = FocusTracker::new(ids(&["a", "b", "c"]));
    assert_eq!(t.focus_prev(), Some("c".to_string()));
    assert_eq!(t.focus_prev(), Some("b".to_string()));
    assert_eq!(t.focus_prev(), Some("a".to_string()));
    assert_eq!(t.focus_prev(), Some("c".to_string()));
}

#[test]
fn focus_empty_registry() {
    let mut t = FocusTracker::new(Vec::new());
    assert_eq!(t.focus_next(), None);
    assert_eq!(t.focus_prev(), None);
    assert_eq!(t.get_focused_view(), None);
}

#[test]
fn focus_starts_on_named_child() {
    let t = FocusTracker::with_focused(ids(&["ok", "cancel"]), "cancel");
    assert_eq!(t.get_focused_view(), Some("cancel".to_string()));
    let t = FocusTracker::with_focused(ids(&["ok", "cancel"]), "absent");
    assert_eq!(t.get_focused_view(), None);
}

#[test]
fn dialog_escape_always_dismisses() {
    let inner = Inner {
        reply: Some(Action::new("inner", UiActions::ButtonClicked("Ok".to_string()))),
        seen: 0,
    };
    let mut d = Dialog::new("confirm", (20, 10), ids(&["Ok", "Cancel"]), "Cancel", inner);
    let r = d.handle_key_event(KeyEvent::plain(KeyCode::Esc)).expect("escape must act");
    assert_eq!(r.action, UiActions::DismissDialog);
    assert_eq!(r.source, "confirm".to_string());
}

#[test]
fn dialog_cancel_click_dismisses() {
    let inner = Inner {
        reply: Some(Action::new("inner", UiActions::ButtonClicked("Cancel".to_string()))),
        seen: 0,
    };
    let mut d = Dialog::new("confirm", (20, 10), ids(&["Ok", "Cancel"]), "Cancel", inner);
    let r = d.handle_key_event(KeyEvent::plain(KeyCode::Enter)).expect("cancel must dismiss");
    assert_eq!(r.action, UiActions::DismissDialog);
}

#[test]
fn dialog_ok_click_yields_nothing() {
    let inner = Inner {
        reply: Some(Action::new("inner", UiActions::ButtonClicked("Ok".to_string()))),
        seen: 0,
    };
    let mut d = Dialog::new("confirm", (20, 10), ids(&["Ok", "Cancel"]), "Cancel", inner);
    assert_eq!(d.handle_key_event(KeyEvent::plain(KeyCode::Enter)), None);
}

#[test]
fn dialog_forwards_other_actions() {
    let inner = Inner { reply: Some(Action::new("inner", UiActions::Redraw)), seen: 0 };
    let mut d = Dialog::new("confirm", (20, 10), ids(&["Ok"]), "Ok", inner);
    let r = d.handle_key_event(KeyEvent::plain(KeyCode::Enter)).expect("forwarded");
    assert_eq!(r.action, UiActions::Redraw);
}

#[test]
fn route_inner_action_table() {
    let cancel = Action::new("w", UiActions::ButtonClicked("Cancel".to_string()));
    let ok = Action::new("w", UiActions::ButtonClicked("Ok".to_string()));
    let quit = Action::new("w", UiActions::Quit);
    let r = route_inner_action("dlg", Some(cancel)).expect("dismiss");
    assert_eq!(r.action, UiActions::DismissDialog);
    assert_eq!(r.source, "dlg".to_string());
    assert_eq!(route_inner_action("dlg", Some(ok)), None);
    assert_eq!(route_inner_action("dlg", Some(quit.clone())), Some(quit));
    assert_eq!(route_inner_action("dlg", None), None);
}

#[test]
fn dialog_layout_rectangles() {
    let inner = Inner { reply: None, seen: 0 };
    let mut d = Dialog::new("confirm", (20, 10), ids(&["Ok", "Cancel"]), "Cancel", inner);
    let area = Rect { x: 0, y: 0, width: 80, height: 24 };
    d.do_layout(&area);
    let layout = d.layout();
    assert_eq!(layout.frame, Rect { x: 30, y: 7, width: 20, height: 10 });
    // one cell of margin, then a button column as wide as "Cancel" plus padding
    assert_eq!(layout.content, Rect { x: 31, y: 8, width: 10, height: 8 });
    assert_eq!(layout.buttons.len(), 2);
    assert_eq!(layout.buttons[0], Rect { x: 41, y: 8, width: 8, height: 3 });
    assert_eq!(layout.buttons[1], Rect { x: 41, y: 11, width: 8, height: 3 });
}

#[test]
fn dialog_layout_degrades_in_tiny_area() {
    let inner = Inner { reply: None, seen: 0 };
    let mut d = Dialog::new("confirm", (50, 20), ids(&["Ok"]), "Ok", inner);
    let area = Rect { x: 0, y: 0, width: 10, height: 1 };
    d.do_layout(&area);
    let layout = d.layout();
    assert_eq!(layout.frame, Rect { x: 0, y: 0, width: 10, height: 1 });
    assert_eq!(layout.content.width, 0);
    assert_eq!(layout.buttons[0].height, 0);
}

#[test]
fn dialog_focus_over_buttons() {
    let inner = Inner { reply: None, seen: 0 };
    let mut d = Dialog::new("confirm", (20, 10), ids(&["Ok", "Cancel"]), "Cancel", inner);
    assert!(d.has_focus());
    assert!(d.can_focus());
    assert_eq!(d.get_focused_view_name(), Some("Cancel".to_string()));
    assert_eq!(d.focus_next(), Some("Ok".to_string()));
    assert_eq!(d.focus_prev(), Some("Cancel".to_string()));
}

#[test]
fn centered_rect_clamps_and_centers() {
    let area = Rect { x: 2, y: 2, width: 10, height: 10 };
    assert_eq!(
        centered_rect_fixed(4, 6, area),
        Rect { x: 5, y: 4, width: 4, height: 6 }
    );
    assert_eq!(centered_rect_fixed(100, 100, area), area);
}

#[test]
fn split_and_stack_geometry() {
    let area = Rect { x: 0, y: 0, width: 30, height: 9 };
    let (left, right) = split_right_column(area, 8);
    assert_eq!(left, Rect { x: 0, y: 0, width: 22, height: 9 });
    assert_eq!(right, Rect { x: 22, y: 0, width: 8, height: 9 });
    let (a, b) = split_halves(Rect { x: 0, y: 0, width: 31, height: 4 });
    assert_eq!(a.width, 16);
    assert_eq!(b.width, 15);
    assert_eq!(stacked_slot(area, 4, 0).height, 4);
    assert_eq!(stacked_slot(area, 4, 1).height, 4);
    assert_eq!(stacked_slot(area, 4, 2).height, 1);
    assert_eq!(stacked_slot(area, 4, 3).height, 0);
}

#[test]
fn tabs_clamp_at_edges() {
    assert_eq!(UiTabs::Summary.previous(), UiTabs::Summary);
    assert_eq!(UiTabs::Dmesg.next(), UiTabs::Dmesg);
    assert_eq!(UiTabs::Home.previous(), UiTabs::Summary);
    assert_eq!(UiTabs::Home.next(), UiTabs::Network);
    assert_eq!(UiTabs::default(), UiTabs::Summary);
    assert_eq!(UiTabs::Network.index(), 2);
    assert_eq!(UiTabs::from_index(4), Some(UiTabs::Dmesg));
    assert_eq!(UiTabs::from_index(5), None);
}

#[test]
fn global_shortcuts() {
    assert_eq!(global_shortcut(KeyEvent::with_ctrl(KeyCode::Char('e'))), Some(GlobalCommand::Quit));
    assert_eq!(global_shortcut(KeyEvent::with_ctrl(KeyCode::Char('r'))), Some(GlobalCommand::Redraw));
    assert_eq!(global_shortcut(KeyEvent::with_ctrl(KeyCode::Char('p'))), Some(GlobalCommand::PopLayer));
    assert_eq!(global_shortcut(KeyEvent::with_ctrl(KeyCode::Char('a'))), Some(GlobalCommand::ManualPanic));
    assert_eq!(global_shortcut(KeyEvent::plain(KeyCode::Char('e'))), None);
    assert_eq!(global_shortcut(KeyEvent::with_ctrl(KeyCode::Char('x'))), None);
}

#[test]
fn layer_action_interpretation() {
    let dismiss = Action::new("w", UiActions::DismissDialog);
    let ok = Action::new("w", UiActions::ButtonClicked("Ok".to_string()));
    let cancel = Action::new("w", UiActions::ButtonClicked("Cancel".to_string()));
    let other = Action::new("w", UiActions::ButtonClicked("Apply".to_string()));
    let quit = Action::new("w", UiActions::Quit);
    assert_eq!(interpret_layer_action(dismiss), LayerVerdict::Pop);
    assert_eq!(interpret_layer_action(ok), LayerVerdict::Pop);
    assert_eq!(interpret_layer_action(cancel), LayerVerdict::Pop);
    assert_eq!(interpret_layer_action(other), LayerVerdict::Ignore);
    assert_eq!(interpret_layer_action(quit.clone()), LayerVerdict::Forward(quit));
}

#[test]
fn tab_switch_keys() {
    let left = KeyEvent::with_ctrl(KeyCode::Left);
    let right = KeyEvent::with_ctrl(KeyCode::Right);
    assert_eq!(tab_after_key(UiTabs::Summary, left), UiTabs::Summary);
    assert_eq!(tab_after_key(UiTabs::Summary, right), UiTabs::Home);
    assert_eq!(tab_after_key(UiTabs::Dmesg, right), UiTabs::Dmesg);
    assert_eq!(tab_after_key(UiTabs::Network, KeyEvent::plain(KeyCode::Left)), UiTabs::Network);
}

#[test]
fn activity_wrapping() {
    assert_eq!(Activity::redraw().try_into_action(), Some(UiActions::Redraw));
    assert_eq!(Activity::ui_action(UiActions::Quit).try_into_action(), Some(UiActions::Quit));
    let key = KeyEvent::plain(KeyCode::Tab);
    assert_eq!(Activity::key_event(key).try_into_action(), None);
}

#[test]
fn homepage_layout_and_state() {
    let page = HomePage::new();
    assert_eq!(page.a(), 1);
    assert_eq!(page.ip().as_str(), "thing");
    assert!(!page.is_focus_tracker());
    let area = Rect { x: 0, y: 0, width: 21, height: 5 };
    let layout = page.do_layout(&area);
    assert_eq!(layout.left, Rect { x: 0, y: 0, width: 11, height: 5 });
    assert_eq!(layout.right, Rect { x: 11, y: 0, width: 10, height: 5 });
}

#[test]
fn dialog_on_ok_yes_reports_ok() {
    let r = Dialog::<Inner>::on_ok_yes(|_d: &Inner| Some(UiActions::Quit));
    assert_eq!(r, Some(UiActions::ButtonClicked("Ok".to_string())));
}
