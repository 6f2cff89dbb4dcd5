use rust_ui::color::hex_rgba;
use rust_ui::event::{broadcasts, dispatch_step, translate_key_press, EventKind, EventStatus, Key, KeyDispatch, Modifiers, MouseButton};
use rust_ui::focus::{cycle_focus, focus_transition, next_focus_index, position_of_id, trap_focus};
use rust_ui::style::{CursorStyle, FontWeight, Style, TextAlign};
use rust_ui::text::{chars_of, join_text, same_text};
use rust_ui::widget::stack::{Alignment, AxisPlacement};

type S = Style<u32, u32, u32, u32, u32>;

fn ids(v: &[&str]) -> Vec<String> {
    v.iter().map(|s| s.to_string()).collect()
}

fn no_mods() -> Modifiers {
    Modifiers::default()
}

#[test]
fn hex_rgb() {
    // The 8-bit components that `Color::hex("#ff8800")` is built from.
    assert_eq!(hex_rgba("#ff8800"), [255, 136, 0, 255]);
}

#[test]
fn hex_six_digits_is_opaque() {
    assert_eq!(hex_rgba("#ff8800"), [255, 136, 0, 255]);
}

#[test]
fn hex_eight_digits_carries_alpha() {
    assert_eq!(hex_rgba("#5c7cfa80"), [0x5c, 0x7c, 0xfa, 0x80]);
}

#[test]
fn hex_uppercase_and_repeated_hashes() {
    assert_eq!(hex_rgba("##ABCDEF"), [0xab, 0xcd, 0xef, 255]);
    assert_eq!(hex_rgba("abcdef"), [0xab, 0xcd, 0xef, 255]);
}

#[test]
fn hex_wrong_length_is_black() {
    assert_eq!(hex_rgba("#fff"), [0, 0, 0, 255]);
    assert_eq!(hex_rgba(""), [0, 0, 0, 255]);
}

#[test]
fn hex_invalid_digits_are_black() {
    assert_eq!(hex_rgba("#zz8800"), [0, 0, 0, 255]);
    assert_eq!(hex_rgba("#ffzzzz"), [0, 0, 0, 255]);
    // A plus sign is not a hexadecimal digit.
    assert_eq!(hex_rgba("#+f0000"), [0, 0, 0, 255]);
    assert_eq!(hex_rgba("#12345"), [0, 0, 0, 255]);
}

#[test]
fn hex_non_ascii_text_is_black() {
    // Six bytes whose second component would start inside a character.
    assert_eq!(hex_rgba("#aééb"), [0, 0, 0, 255]);
    assert_eq!(hex_rgba("#ééé"), [0, 0, 0, 255]);
    assert_eq!(hex_rgba("#éééé"), [0, 0, 0, 255]);
}

#[test]
fn hex_many_hashes_and_alpha() {
    assert_eq!(hex_rgba("##5c7cFA80"), [0x5c, 0x7c, 0xfa, 0x80]);
}

#[test]
fn position_of_id_finds_first() {
    let v = ids(&["a", "b", "a"]);
    assert_eq!(position_of_id(&v, "a"), Some(0));
    assert_eq!(position_of_id(&v, "b"), Some(1));
    assert_eq!(position_of_id(&v, "c"), None);
}

#[test]
fn tab_moves_forward_and_wraps() {
    let v = ids(&["a", "b", "c"]);
    assert_eq!(cycle_focus(&v, None, false), Some(0));
    assert_eq!(cycle_focus(&v, Some("a"), false), Some(1));
    assert_eq!(cycle_focus(&v, Some("c"), false), Some(0));
}

#[test]
fn shift_tab_moves_backward_and_wraps() {
    let v = ids(&["a", "b", "c"]);
    assert_eq!(cycle_focus(&v, None, true), Some(2));
    assert_eq!(cycle_focus(&v, Some("a"), true), Some(2));
    assert_eq!(cycle_focus(&v, Some("c"), true), Some(1));
    assert_eq!(cycle_focus(&v, Some("zz"), true), Some(2));
}

#[test]
fn tab_with_nothing_focusable() {
    let v: Vec<String> = Vec::new();
    assert_eq!(cycle_focus(&v, Some("a"), false), None);
}

#[test]
fn tab_then_shift_tab_returns() {
    for i in 0..5usize {
        let j = next_focus_index(5, Some(i), false);
        assert_eq!(next_focus_index(5, Some(j), true), i);
    }
}

#[test]
fn tab_n_times_returns_to_start() {
    let mut i = 2usize;
    for _ in 0..4 {
        i = next_focus_index(4, Some(i), false);
    }
    assert_eq!(i, 2);
}

#[test]
fn trap_pulls_focus_inside() {
    let trap = ids(&["ok", "cancel"]);
    assert_eq!(trap_focus(&trap, Some("outside")), Some(0));
    assert_eq!(trap_focus(&trap, None), Some(0));
    assert_eq!(trap_focus(&trap, Some("cancel")), None);
    assert_eq!(trap_focus(&Vec::new(), Some("outside")), None);
}

#[test]
fn focus_transition_cases() {
    assert_eq!(focus_transition(Some("a"), Some("a")), None);
    assert_eq!(focus_transition(None, None), None);
    assert_eq!(focus_transition(Some("a"), Some("b")), Some((Some("a"), Some("b"))));
    assert_eq!(focus_transition(None, Some("b")), Some((None, Some("b"))));
    assert_eq!(focus_transition(Some("a"), None), Some((Some("a"), None)));
}

#[test]
fn text_helpers() {
    assert_eq!(chars_of("héllo"), vec!['h', 'é', 'l', 'l', 'o']);
    assert!(same_text("abc", "abc"));
    assert!(!same_text("abc", "abd"));
    assert!(!same_text("abc", "ab"));
    assert_eq!(join_text("decode: ", "bad"), "decode: bad");
    assert_eq!(join_text("", "xy"), "xy");
}

#[test]
fn named_keys_are_key_downs() {
    assert_eq!(translate_key_press(Some(Key::Enter), no_mods(), "", None), KeyDispatch::Down(Key::Enter));
}

#[test]
fn command_shortcuts_are_lowercased() {
    let ctrl = Modifiers { ctrl: true, ..Modifiers::default() };
    assert_eq!(translate_key_press(None, ctrl, "A", Some("A".to_string())), KeyDispatch::Down(Key::Char('a')));
    let meta = Modifiers { meta: true, ..Modifiers::default() };
    assert_eq!(translate_key_press(None, meta, "v", None), KeyDispatch::Down(Key::Char('v')));
    assert_eq!(translate_key_press(None, ctrl, "", None), KeyDispatch::Nothing);
}

#[test]
fn typed_text_and_control_characters() {
    assert_eq!(translate_key_press(None, no_mods(), "a", Some("a".to_string())), KeyDispatch::Text("a".to_string()));
    assert_eq!(translate_key_press(None, no_mods(), "", Some("\u{7f}".to_string())), KeyDispatch::Nothing);
    assert_eq!(translate_key_press(None, no_mods(), "", Some(String::new())), KeyDispatch::Nothing);
    assert_eq!(translate_key_press(None, no_mods(), "", None), KeyDispatch::Nothing);
}

#[test]
fn modifiers_command() {
    assert!(Modifiers { ctrl: true, ..Modifiers::default() }.command());
    assert!(Modifiers { meta: true, ..Modifiers::default() }.command());
    assert!(!Modifiers { shift: true, alt: true, ..Modifiers::default() }.command());
}

#[test]
fn style_merge_later_wins() {
    let a: S = Style::new().bg(1).font_size(12).bold();
    let b: S = Style::new().bg(2).text_align(TextAlign::Center);
    let m = a.merge(&b);
    assert_eq!(m.background, Some(2));
    assert_eq!(m.font_size, Some(12));
    assert_eq!(m.font_weight, Some(FontWeight::Bold));
    assert_eq!(m.text_align, Some(TextAlign::Center));
    assert_eq!(m.cursor, None);
}

#[test]
fn style_merge_with_unset_is_identity() {
    let a: S = Style::new().padding(4).cursor(CursorStyle::Pointer).font_family("Inter".to_string());
    let m = a.duplicate().merge(&Style::new());
    assert_eq!(m.padding, Some(4));
    assert_eq!(m.cursor, Some(CursorStyle::Pointer));
    assert_eq!(m.font_family, Some("Inter".to_string()));
    let n: S = Style::new();
    let n = n.merge(&a);
    assert_eq!(n.font_family, Some("Inter".to_string()));
    assert_eq!(n.padding, Some(4));
}

#[test]
fn alignment_axes() {
    assert_eq!(Alignment::BottomRight.horizontal(), AxisPlacement::End);
    assert_eq!(Alignment::BottomRight.vertical(), AxisPlacement::End);
    assert_eq!(Alignment::Center.horizontal(), AxisPlacement::Center);
    assert_eq!(Alignment::TopCenter.vertical(), AxisPlacement::Start);
    assert_eq!(Alignment::default(), Alignment::TopLeft);
}

#[test]
fn pointer_events_are_broadcast_to_children() {
    assert!(broadcasts(EventKind::MouseMove));
    assert!(broadcasts(EventKind::MouseDown(MouseButton::Left)));
    assert!(broadcasts(EventKind::MouseUp(MouseButton::Right)));
    assert!(!broadcasts(EventKind::KeyDown(Key::Tab)));
    assert!(!broadcasts(EventKind::Scroll));
    assert_eq!(dispatch_step(true, EventStatus::Ignored, EventStatus::Consumed), (true, EventStatus::Consumed));
    assert_eq!(dispatch_step(false, EventStatus::Ignored, EventStatus::Consumed), (false, EventStatus::Consumed));
    assert_eq!(dispatch_step(false, EventStatus::Ignored, EventStatus::Ignored), (true, EventStatus::Ignored));
    assert_eq!(dispatch_step(true, EventStatus::Consumed, EventStatus::Ignored), (true, EventStatus::Consumed));
}
