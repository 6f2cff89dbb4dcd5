use rust_ui::event::{EventKind, Key, MouseButton};
use rust_ui::widget::scroll_area::{route_scroll_event, ScrollAction, ScrollHits, ScrollPointer};

fn hits(in_viewport: bool, on_v_thumb: bool, on_h_thumb: bool, wheel_moves: bool) -> ScrollHits {
    ScrollHits { in_viewport, on_v_thumb, on_h_thumb, wheel_moves }
}

#[test]
fn grabbing_the_vertical_thumb_then_dragging() {
    let s = ScrollPointer::new();
    let (s, a) = route_scroll_event(s, EventKind::MouseDown(MouseButton::Left), hits(true, true, false, false));
    assert_eq!(a, ScrollAction::Grab);
    assert!(s.dragging_v && !s.dragging_h);
    let (s2, a) = route_scroll_event(s, EventKind::MouseMove, hits(false, false, false, false));
    assert_eq!(a, ScrollAction::DragVertical);
    assert_eq!(s2, s);
    let (s3, a) = route_scroll_event(s2, EventKind::MouseUp(MouseButton::Left), hits(false, false, false, false));
    assert_eq!(a, ScrollAction::Forward);
    assert!(!s3.dragging_v && !s3.dragging_h);
}

#[test]
fn horizontal_thumb_is_grabbed_when_the_vertical_one_is_not_hit() {
    let (s, a) = route_scroll_event(ScrollPointer::new(), EventKind::MouseDown(MouseButton::Right), hits(true, false, true, false));
    assert_eq!(a, ScrollAction::Grab);
    assert!(s.dragging_h && !s.dragging_v);
    let (_, a) = route_scroll_event(s, EventKind::MouseMove, hits(true, false, false, false));
    assert_eq!(a, ScrollAction::DragHorizontal);
}

#[test]
fn moves_update_hover_and_reach_the_content_inside() {
    let (s, a) = route_scroll_event(ScrollPointer::new(), EventKind::MouseMove, hits(true, false, false, false));
    assert_eq!(a, ScrollAction::ForwardMove);
    assert!(s.hovered);
    let (s, a) = route_scroll_event(s, EventKind::MouseMove, hits(false, false, false, false));
    assert_eq!(a, ScrollAction::Ignore);
    assert!(!s.hovered);
}

#[test]
fn wheel_scrolls_only_inside_and_when_it_can_move() {
    let s = ScrollPointer::new();
    assert_eq!(route_scroll_event(s, EventKind::Scroll, hits(true, false, false, true)).1, ScrollAction::ScrollByWheel);
    assert_eq!(route_scroll_event(s, EventKind::Scroll, hits(true, false, false, false)).1, ScrollAction::Ignore);
    assert_eq!(route_scroll_event(s, EventKind::Scroll, hits(false, false, false, true)).1, ScrollAction::Ignore);
}

#[test]
fn presses_outside_are_ignored_and_keys_pass_through() {
    let s = ScrollPointer::new();
    assert_eq!(route_scroll_event(s, EventKind::MouseDown(MouseButton::Left), hits(false, false, false, false)).1, ScrollAction::Ignore);
    assert_eq!(route_scroll_event(s, EventKind::MouseDown(MouseButton::Left), hits(true, false, false, false)).1, ScrollAction::Forward);
    assert_eq!(route_scroll_event(s, EventKind::KeyDown(Key::Tab), hits(false, false, false, false)).1, ScrollAction::Forward);
    assert_eq!(route_scroll_event(s, EventKind::FocusLost, hits(false, false, false, false)).1, ScrollAction::Forward);
    assert_eq!(route_scroll_event(s, EventKind::Resized, hits(false, false, false, false)).1, ScrollAction::Ignore);
    assert_eq!(route_scroll_event(s, EventKind::MouseClick(MouseButton::Left), hits(true, false, false, false)).1, ScrollAction::Ignore);
}
