use rust_ui::event::{EventKind, EventStatus, Key, MouseButton};
use rust_ui::style::CursorStyle;
use rust_ui::widget::slider::{SliderAction, SliderState};

#[test]
fn keys_step_only_with_focus() {
    let mut s = SliderState::new();
    assert_eq!(s.handle_event(EventKind::KeyDown(Key::ArrowRight), false), (SliderAction::Keep, EventStatus::Ignored));
    assert_eq!(s.handle_event(EventKind::FocusGained, false), (SliderAction::Keep, EventStatus::Ignored));
    assert!(s.focused);
    assert_eq!(s.handle_event(EventKind::KeyDown(Key::ArrowUp), false), (SliderAction::StepUp, EventStatus::Consumed));
    assert_eq!(s.handle_event(EventKind::KeyDown(Key::ArrowLeft), false), (SliderAction::StepDown, EventStatus::Consumed));
    assert_eq!(s.handle_event(EventKind::KeyDown(Key::ArrowDown), false), (SliderAction::StepDown, EventStatus::Consumed));
    assert_eq!(s.handle_event(EventKind::KeyDown(Key::Home), false), (SliderAction::ToMin, EventStatus::Consumed));
    assert_eq!(s.handle_event(EventKind::KeyDown(Key::End), false), (SliderAction::ToMax, EventStatus::Consumed));
    assert_eq!(s.handle_event(EventKind::KeyDown(Key::Enter), false), (SliderAction::Keep, EventStatus::Ignored));
}

#[test]
fn press_drag_release() {
    let mut s = SliderState::new();
    assert_eq!(s.handle_event(EventKind::MouseMove, true), (SliderAction::Keep, EventStatus::Ignored));
    assert_eq!(s.handle_event(EventKind::MouseDown(MouseButton::Left), false), (SliderAction::Keep, EventStatus::Ignored));
    assert_eq!(s.handle_event(EventKind::MouseDown(MouseButton::Right), true), (SliderAction::Keep, EventStatus::Ignored));
    assert_eq!(s.handle_event(EventKind::MouseDown(MouseButton::Left), true), (SliderAction::FollowPointer, EventStatus::Consumed));
    assert!(s.dragging);
    assert_eq!(s.handle_event(EventKind::MouseMove, false), (SliderAction::FollowPointer, EventStatus::Consumed));
    assert_eq!(s.handle_event(EventKind::MouseUp(MouseButton::Left), false), (SliderAction::Keep, EventStatus::Consumed));
    assert!(!s.dragging);
    assert_eq!(s.handle_event(EventKind::MouseUp(MouseButton::Left), false), (SliderAction::Keep, EventStatus::Ignored));
}

#[test]
fn losing_focus_drops_the_thumb() {
    let mut s = SliderState::new();
    s.handle_event(EventKind::FocusGained, false);
    s.handle_event(EventKind::MouseDown(MouseButton::Left), true);
    s.handle_event(EventKind::FocusLost, false);
    assert!(!s.dragging && !s.focused);
}

#[test]
fn disabled_slider_ignores_everything() {
    let mut s = SliderState::new().disabled(true);
    assert!(!s.focusable());
    assert_eq!(s.handle_event(EventKind::FocusGained, true), (SliderAction::Keep, EventStatus::Ignored));
    assert!(!s.focused);
    assert_eq!(s.handle_event(EventKind::MouseDown(MouseButton::Left), true), (SliderAction::Keep, EventStatus::Ignored));
    assert_eq!(s.cursor_style(true), CursorStyle::Default);
    assert_eq!(SliderState::new().cursor_style(true), CursorStyle::Pointer);
    assert_eq!(SliderState::new().cursor_style(false), CursorStyle::Default);
}
