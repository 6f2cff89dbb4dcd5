use rust_ui::event::{EventKind, EventStatus, Key, MouseButton, Route};
use rust_ui::overlay::{PopoverAlign, PopoverSide};
use rust_ui::style::CursorStyle;
use rust_ui::widget::badge::{badge, BadgeVariant};
use rust_ui::widget::button::{button, ButtonSize, ButtonState, ButtonVariant};
use rust_ui::widget::checkbox::checkbox;
use rust_ui::widget::code_block::{lines_strippable, stripped_lines};
use rust_ui::widget::dialog::Dialog;
use rust_ui::widget::icon::lucide_path_data;
use rust_ui::widget::image::{decode_image, image_from_rgba8, is_remote_source, ObjectFit};
use rust_ui::widget::popover::Popover;
use rust_ui::widget::switch::{switch, SwitchSize};
use rust_ui::widget::tab_view::TabView;
use rust_ui::widget::tooltip::{tooltip, DEFAULT_DELAY_MS};

fn strings(v: &[&str]) -> Vec<String> {
    v.iter().map(|s| s.to_string()).collect()
}

#[test]
fn button_press_and_release_inside_clicks() {
    let mut b = button("Save".to_string());
    assert_eq!(b.mouse_down(true), EventStatus::Consumed);
    assert_eq!(b.state(), ButtonState::Pressed);
    assert_eq!(b.mouse_up(true), (EventStatus::Consumed, true));
    assert_eq!(b.state(), ButtonState::Hovered);
}

#[test]
fn button_release_outside_does_not_click() {
    let mut b = button("Save".to_string());
    b.mouse_down(true);
    assert_eq!(b.mouse_up(false), (EventStatus::Ignored, false));
    assert_eq!(b.state(), ButtonState::Normal);
    assert_eq!(b.mouse_up(true), (EventStatus::Ignored, false));
}

#[test]
fn disabled_and_loading_buttons_never_click() {
    let mut d = button("x".to_string()).disabled(true);
    assert_eq!(d.mouse_down(true), EventStatus::Ignored);
    assert_eq!(d.mouse_up(true), (EventStatus::Ignored, false));
    assert_eq!(d.state(), ButtonState::Disabled);
    assert!(!d.focusable());
    assert_eq!(d.cursor_style(true), CursorStyle::NotAllowed);
    let mut l = button("x".to_string()).loading(true);
    assert_eq!(l.display_label(), "…");
    assert_eq!(l.mouse_down(true), EventStatus::Ignored);
    assert_eq!(l.state(), ButtonState::Disabled);
}

#[test]
fn button_keyboard_activation_needs_focus() {
    let mut b = button("Go".to_string());
    assert_eq!(b.handle_key(Key::Enter), (EventStatus::Ignored, false));
    b.focus_gained();
    assert!(b.shows_focus_ring());
    assert_eq!(b.handle_key(Key::Enter), (EventStatus::Consumed, true));
    assert_eq!(b.handle_key(Key::Char(' ')), (EventStatus::Consumed, true));
    assert_eq!(b.handle_key(Key::Char('x')), (EventStatus::Ignored, false));
    b.mouse_down(true);
    b.focus_lost();
    assert_eq!(b.state(), ButtonState::Normal);
    assert!(!b.is_focused());
}

#[test]
fn button_builders_and_metrics() {
    let b = button("Go".to_string()).variant(ButtonVariant::Outline).size(ButtonSize::Lg).full_width();
    assert!(b.has_border());
    assert!(b.is_full_width());
    assert_eq!(b.button_size().padding(), (22, 11));
    assert_eq!(ButtonSize::Xs.padding(), (8, 3));
    assert_eq!(b.display_label(), "Go");
    assert_eq!(b.cursor_style(true), CursorStyle::Pointer);
    assert_eq!(b.cursor_style(false), CursorStyle::Default);
    assert!(!button("a".to_string()).variant(ButtonVariant::TextOnly).has_border());
}

#[test]
fn button_hover_tracks_pointer() {
    let mut b = button("Go".to_string());
    b.mouse_move(true);
    assert_eq!(b.state(), ButtonState::Hovered);
    b.mouse_move(false);
    assert_eq!(b.state(), ButtonState::Normal);
}

#[test]
fn checkbox_click_flips() {
    let mut c = checkbox("Agree".to_string(), false);
    c.mouse_down(true);
    assert_eq!(c.mouse_up(true), (EventStatus::Consumed, Some(true)));
    assert!(c.is_checked());
    c.mouse_down(true);
    assert_eq!(c.mouse_up(true), (EventStatus::Consumed, Some(false)));
    assert!(!c.is_checked());
}

#[test]
fn checkbox_release_without_press_does_nothing() {
    let mut c = checkbox("Agree".to_string(), true);
    assert_eq!(c.mouse_up(true), (EventStatus::Ignored, None));
    c.mouse_down(true);
    assert_eq!(c.mouse_up(false), (EventStatus::Ignored, None));
    assert!(c.is_checked());
}

#[test]
fn checkbox_keyboard_and_disabled() {
    let mut c = checkbox("Agree".to_string(), false);
    assert_eq!(c.handle_key(Key::Enter), (EventStatus::Ignored, None));
    c.focus_gained();
    assert_eq!(c.handle_key(Key::Char(' ')), (EventStatus::Consumed, Some(true)));
    let mut d = checkbox("No".to_string(), false).disabled(true);
    d.focus_gained();
    assert!(!d.is_focused());
    assert_eq!(d.mouse_down(true), EventStatus::Ignored);
    assert_eq!(d.cursor_style(true), CursorStyle::Default);
    assert!(!d.focusable());
}

#[test]
fn switch_toggles_on_press() {
    let mut s = switch("Wi-Fi".to_string(), false);
    assert_eq!(s.mouse_down(true), (EventStatus::Consumed, Some(true)));
    assert!(s.is_on());
    assert_eq!(s.mouse_down(false), (EventStatus::Ignored, None));
    assert!(s.is_on());
    let mut d = switch("x".to_string(), true).disabled(true);
    assert_eq!(d.mouse_down(true), (EventStatus::Ignored, None));
    assert!(d.is_on());
}

#[test]
fn switch_metrics() {
    assert_eq!(SwitchSize::Sm.track_width(), 32);
    assert_eq!(SwitchSize::Md.track_height(), 22);
    assert_eq!(SwitchSize::Lg.thumb_radius(), 10);
    let s = switch("x".to_string(), false).size(SwitchSize::Lg);
    assert_eq!(s.switch_size(), SwitchSize::Lg);
    assert_eq!(s.cursor_style(true), CursorStyle::Pointer);
}

#[test]
fn badge_variants() {
    let b = badge("New".to_string());
    assert_eq!(b.variant, BadgeVariant::Default);
    assert!(!b.has_border());
    assert!(badge("x".to_string()).variant(BadgeVariant::Outline).has_border());
}

#[test]
fn code_block_trims_and_dedents() {
    let code = "\n\n    fn main() {\n        run();\n    }\n\n";
    assert!(lines_strippable(code));
    assert_eq!(stripped_lines(code), strings(&["fn main() {", "    run();", "}"]));
}

#[test]
fn code_block_blank_lines_do_not_count() {
    let code = "  a\n\n    b\n ";
    assert_eq!(stripped_lines(code), strings(&["a", "", "  b", " "]));
}

#[test]
fn code_block_crlf_and_empty() {
    assert_eq!(stripped_lines("  x\r\n  y"), strings(&["x", "y"]));
    assert_eq!(stripped_lines("\n\n"), Vec::<String>::new());
    assert_eq!(stripped_lines(""), Vec::<String>::new());
    assert_eq!(stripped_lines("a\r"), strings(&["a\r"]));
}

#[test]
fn code_block_indent_counts_bytes() {
    // An ideographic space is three bytes wide: the common indent is two
    // bytes, which would cut it.
    let bad = "\u{3000}x\n  y";
    assert!(!lines_strippable(bad));
    let ok = "\u{3000}x\n\u{3000}y";
    assert!(lines_strippable(ok));
    assert_eq!(stripped_lines(ok), strings(&["x", "y"]));
}

#[test]
fn remote_sources() {
    assert!(is_remote_source("https://example.com/a.png"));
    assert!(is_remote_source("http://x"));
    assert!(!is_remote_source("assets/a.png"));
    assert!(!is_remote_source("http:/x"));
}

#[test]
fn image_from_decoding() {
    let ok = image_from_rgba8(Ok((vec![1, 2, 3, 4], 1, 1))).ok().unwrap();
    assert_eq!(*ok.data, vec![1, 2, 3, 4]);
    assert_eq!((ok.width, ok.height), (1, 1));
    let err = image_from_rgba8(Err("bad".to_string())).err().unwrap();
    assert_eq!(err, "decode: bad");
}

#[test]
fn decode_png_bytes() {
    // A 1x1 opaque red PNG.
    let png: Vec<u8> = vec![
        0x89, 0x50, 0x4e, 0x47, 0x0d, 0x0a, 0x1a, 0x0a, 0x00, 0x00, 0x00, 0x0d, 0x49, 0x48, 0x44, 0x52,
        0x00, 0x00, 0x00, 0x01, 0x00, 0x00, 0x00, 0x01, 0x08, 0x02, 0x00, 0x00, 0x00, 0x90, 0x77, 0x53,
        0xde, 0x00, 0x00, 0x00, 0x0c, 0x49, 0x44, 0x41, 0x54, 0x78, 0x9c, 0x63, 0xf8, 0xcf, 0xc0, 0x00,
        0x00, 0x03, 0x01, 0x01, 0x00, 0xc9, 0xfe, 0x92, 0xef, 0x00, 0x00, 0x00, 0x00, 0x49, 0x45, 0x4e,
        0x44, 0xae, 0x42, 0x60, 0x82,
    ];
    let img = decode_image(&png).ok().unwrap();
    assert_eq!((img.width, img.height), (1, 1));
    assert_eq!(*img.data, vec![255, 0, 0, 255]);
}

#[test]
fn decode_garbage_fails_with_prefix() {
    let err = decode_image(&[1, 2, 3]).err().unwrap();
    assert!(err.starts_with("decode: "));
    assert!(err.len() > "decode: ".len());
}

#[test]
fn object_fit_default() {
    assert_eq!(ObjectFit::default(), ObjectFit::Contain);
}

#[test]
fn dialog_escape_and_backdrop() {
    let mut d = Dialog::new().title("Confirm".to_string());
    assert_eq!(d.handle_event(EventKind::KeyDown(Key::Escape), false), (Route::Ignored, false));
    d.set_open(true);
    assert!(d.blocks_focus_outside());
    assert_eq!(d.handle_event(EventKind::MouseDown(MouseButton::Left), true), (Route::ToContent, false));
    assert_eq!(d.handle_event(EventKind::MouseMove, false), (Route::Ignored, false));
    assert_eq!(d.handle_event(EventKind::Scroll, false), (Route::Consumed, false));
    assert_eq!(d.handle_event(EventKind::TextInput, false), (Route::ToContent, false));
    assert_eq!(d.handle_event(EventKind::MouseDown(MouseButton::Left), false), (Route::Consumed, true));
    assert!(!d.is_open());
    d.set_open(true);
    assert_eq!(d.handle_event(EventKind::KeyDown(Key::Escape), true), (Route::Consumed, true));
    assert!(!d.is_open());
    assert_eq!(d.title_text(), Some(&"Confirm".to_string()));
}

#[test]
fn dialog_without_dismissal() {
    let mut d = Dialog::new().close_on_backdrop(false).close_on_escape(false);
    d.set_open(true);
    assert_eq!(d.handle_event(EventKind::MouseDown(MouseButton::Left), false), (Route::Consumed, false));
    assert_eq!(d.handle_event(EventKind::KeyDown(Key::Escape), false), (Route::ToContent, false));
    assert_eq!(d.handle_event(EventKind::Resized, false), (Route::Consumed, false));
    assert!(d.is_open());
}

#[test]
fn popover_routing() {
    let mut p = Popover::new().side(PopoverSide::Top).align(PopoverAlign::End);
    assert_eq!(p.placement(), (PopoverSide::Top, PopoverAlign::End));
    assert_eq!(p.handle_event(EventKind::MouseDown(MouseButton::Left), false, true), (Route::ToTrigger, false));
    assert_eq!(p.handle_event(EventKind::Scroll, false, true), (Route::Ignored, false));
    p.set_open(true);
    assert!(p.hit_test(true, false));
    assert_eq!(p.handle_event(EventKind::Scroll, false, true), (Route::Consumed, false));
    assert_eq!(p.handle_event(EventKind::MouseMove, true, false), (Route::ToContent, false));
    assert_eq!(p.handle_event(EventKind::MouseDown(MouseButton::Left), false, true), (Route::ToTrigger, false));
    assert_eq!(p.handle_event(EventKind::KeyUp(Key::Enter), false, false), (Route::ToContent, false));
    assert_eq!(p.handle_event(EventKind::MouseDown(MouseButton::Left), false, false), (Route::Consumed, true));
    assert!(!p.is_open());
    assert!(!p.hit_test(true, false));
    p.set_open(true);
    assert_eq!(p.handle_event(EventKind::KeyDown(Key::Escape), false, false), (Route::Consumed, true));
    assert_eq!(p.handle_event(EventKind::KeyDown(Key::Escape), false, false), (Route::ToTrigger, false));
}

#[test]
fn tab_view_shows_active_page() {
    let tv = TabView::new(strings(&["Button", "Input"]));
    assert_eq!(tv.active_key(), "Button");
    assert_eq!(tv.active_page(), Some(0));
    let mut tv = tv.active("Input".to_string());
    assert_eq!(tv.active_page(), Some(1));
    tv.set_active("Nope".to_string());
    assert_eq!(tv.active_page(), None);
    assert_eq!(TabView::new(Vec::new()).active_key(), "");
}

#[test]
fn tooltip_delay() {
    let t = tooltip("Help".to_string());
    assert_eq!(t.placement(), (PopoverSide::Top, PopoverAlign::Center));
    assert!(!t.is_hovering());
    assert!(!t.shows_after(10_000));
    assert!(!t.should_show());
    let mut t = t.delay_ms(0);
    t.update_hover_with(true, false);
    assert!(t.is_hovering());
    assert!(t.shows_after(0));
    assert!(t.should_show());
    t.update_hover_with(false, false);
    assert!(!t.is_hovering());
    assert_eq!(t.hover_age(), 0);
}

#[test]
fn tooltip_waits_for_delay() {
    let mut t = tooltip("Help".to_string());
    t.update_hover_with(true, false);
    assert!(!t.shows_after(DEFAULT_DELAY_MS as u128 - 1));
    assert!(t.shows_after(DEFAULT_DELAY_MS as u128));
    assert!(t.wants_redraw_after(10));
    assert!(!t.wants_redraw_after(DEFAULT_DELAY_MS as u128));
    let mut d = tooltip("x".to_string()).disabled(true);
    d.update_hover_with(true, false);
    assert!(!d.is_hovering());
    assert!(!d.shows_after(100_000));
}

#[test]
fn icon_paths_by_name() {
    assert_eq!(lucide_path_data("plus"), Some("M12 5 L 12 19 M5 12 L 19 12".to_string()));
    assert_eq!(lucide_path_data("check"), Some("M20 6 L 9 17 L 4 12".to_string()));
    assert_eq!(lucide_path_data("nope"), None);
    assert_eq!(lucide_path_data(""), None);
}
