use rust_ui::event::{EventStatus, Key, Modifiers};
use rust_ui::style::CursorStyle;
use rust_ui::widget::input::{Input, InputEffect, InputSize};

fn plain() -> Modifiers {
    Modifiers::default()
}

fn shift() -> Modifiers {
    Modifiers { shift: true, ..Modifiers::default() }
}

fn ctrl() -> Modifiers {
    Modifiers { ctrl: true, ..Modifiers::default() }
}

fn chars(s: &str) -> Vec<char> {
    s.chars().collect()
}

fn focused(value: &str, at: usize) -> Input {
    let mut i = Input::new(value.to_string());
    let r = i.mouse_down(true, false, at);
    assert_eq!(r, (EventStatus::Consumed, InputEffect::Nothing));
    i
}

#[test]
fn new_input_puts_cursor_at_end() {
    let i = Input::new("hello".to_string());
    assert_eq!(i.value(), "hello");
    assert_eq!(i.cursor(), 5);
    assert!(!i.is_focused());
    assert_eq!(i.input_size(), InputSize::Md);
    assert_eq!(InputSize::Sm.height_padding(), 12);
    assert_eq!(InputSize::Lg.height_padding(), 28);
}

#[test]
fn unfocused_input_ignores_keys_and_text() {
    let mut i = Input::new("abc".to_string());
    assert_eq!(i.handle_key(Key::Backspace, plain()), (EventStatus::Ignored, InputEffect::Nothing));
    assert_eq!(i.text_input(&chars("x")), EventStatus::Ignored);
    assert_eq!(i.value(), "abc");
}

#[test]
fn typing_inserts_at_cursor() {
    let mut i = focused("ac", 1);
    assert_eq!(i.text_input(&chars("b")), EventStatus::Consumed);
    assert_eq!(i.value(), "abc");
    assert_eq!(i.cursor(), 2);
}

#[test]
fn backspace_and_delete() {
    let mut i = focused("abcd", 2);
    assert_eq!(i.handle_key(Key::Backspace, plain()), (EventStatus::Consumed, InputEffect::Changed));
    assert_eq!(i.value(), "acd");
    assert_eq!(i.cursor(), 1);
    assert_eq!(i.handle_key(Key::Delete, plain()), (EventStatus::Consumed, InputEffect::Changed));
    assert_eq!(i.value(), "ad");
    assert_eq!(i.cursor(), 1);
    i.handle_key(Key::Home, plain());
    assert_eq!(i.handle_key(Key::Backspace, plain()), (EventStatus::Consumed, InputEffect::Nothing));
    i.handle_key(Key::End, plain());
    assert_eq!(i.handle_key(Key::Delete, plain()), (EventStatus::Consumed, InputEffect::Nothing));
    assert_eq!(i.value(), "ad");
}

#[test]
fn typing_then_backspace_restores() {
    let mut i = focused("hllo", 1);
    i.text_input(&chars("e"));
    assert_eq!(i.value(), "hello");
    i.handle_key(Key::Backspace, plain());
    assert_eq!(i.value(), "hllo");
    assert_eq!(i.cursor(), 1);
}

#[test]
fn arrows_move_and_clamp() {
    let mut i = focused("ab", 0);
    i.handle_key(Key::ArrowLeft, plain());
    assert_eq!(i.cursor(), 0);
    i.handle_key(Key::ArrowRight, plain());
    i.handle_key(Key::ArrowRight, plain());
    i.handle_key(Key::ArrowRight, plain());
    assert_eq!(i.cursor(), 2);
    i.handle_key(Key::ArrowLeft, plain());
    assert_eq!(i.cursor(), 1);
    i.handle_key(Key::ArrowRight, plain());
    assert_eq!(i.cursor(), 2);
}

#[test]
fn shift_arrows_select() {
    let mut i = focused("hello", 1);
    i.handle_key(Key::ArrowRight, shift());
    i.handle_key(Key::ArrowRight, shift());
    assert!(i.has_selection());
    assert_eq!(i.selection_range(), Some((1, 3)));
    // A plain arrow collapses the selection to its edge.
    i.handle_key(Key::ArrowLeft, plain());
    assert_eq!(i.cursor(), 1);
    assert!(!i.has_selection());
    i.handle_key(Key::End, shift());
    assert_eq!(i.selection_range(), Some((1, 5)));
    i.handle_key(Key::Home, shift());
    assert_eq!(i.selection_range(), Some((0, 1)));
}

#[test]
fn select_all_then_type_replaces() {
    let mut i = focused("old", 1);
    i.handle_key(Key::Char('a'), ctrl());
    assert_eq!(i.selection_range(), Some((0, 3)));
    i.text_input(&chars("new"));
    assert_eq!(i.value(), "new");
    assert_eq!(i.cursor(), 3);
    assert!(!i.has_selection());
}

#[test]
fn select_all_then_delete_empties() {
    let mut i = focused("text", 2);
    i.handle_key(Key::Char('a'), ctrl());
    assert_eq!(i.handle_key(Key::Delete, plain()), (EventStatus::Consumed, InputEffect::Changed));
    assert_eq!(i.value(), "");
    assert_eq!(i.cursor(), 0);
}

#[test]
fn copy_cut_and_paste() {
    let mut i = focused("hello world", 0);
    i.handle_key(Key::End, shift());
    assert_eq!(i.handle_key(Key::Char('c'), ctrl()), (EventStatus::Consumed, InputEffect::Copy(chars("hello world"))));
    assert_eq!(i.value(), "hello world");
    i.handle_key(Key::Home, plain());
    for _ in 0..5 {
        i.handle_key(Key::ArrowRight, shift());
    }
    assert_eq!(i.handle_key(Key::Char('x'), ctrl()), (EventStatus::Consumed, InputEffect::Cut(chars("hello"))));
    assert_eq!(i.value(), " world");
    assert_eq!(i.cursor(), 0);
    assert_eq!(i.handle_key(Key::Char('v'), ctrl()), (EventStatus::Consumed, InputEffect::RequestPaste));
    i.paste(&chars("hello"));
    assert_eq!(i.value(), "hello world");
    assert_eq!(i.cursor(), 5);
}

#[test]
fn copy_without_selection_does_nothing() {
    let mut i = focused("abc", 1);
    assert_eq!(i.handle_key(Key::Char('c'), ctrl()), (EventStatus::Consumed, InputEffect::Nothing));
    assert_eq!(i.handle_key(Key::Char('x'), ctrl()), (EventStatus::Consumed, InputEffect::Nothing));
    assert_eq!(i.value(), "abc");
}

#[test]
fn enter_submits() {
    let mut i = focused("q", 1);
    assert_eq!(i.handle_key(Key::Enter, plain()), (EventStatus::Consumed, InputEffect::Submit));
}

#[test]
fn escape_drops_preedit_then_focus() {
    let mut i = focused("ab", 2);
    assert_eq!(i.ime_preedit(chars("に")), EventStatus::Consumed);
    assert_eq!(i.preedit_chars(), &chars("に"));
    i.handle_key(Key::Escape, plain());
    assert!(i.preedit_chars().is_empty());
    assert!(i.is_focused());
    i.handle_key(Key::Escape, plain());
    assert!(!i.is_focused());
}

#[test]
fn backspace_shortens_preedit_first() {
    let mut i = focused("ab", 2);
    i.ime_preedit(chars("xy"));
    assert_eq!(i.handle_key(Key::Backspace, plain()), (EventStatus::Consumed, InputEffect::Nothing));
    assert_eq!(i.preedit_chars(), &chars("x"));
    assert_eq!(i.value(), "ab");
    i.text_input(&chars("日"));
    assert_eq!(i.value(), "ab日");
    assert!(i.preedit_chars().is_empty());
}

#[test]
fn clear_button_empties() {
    let mut i = Input::new("secret".to_string()).clearable().password();
    assert!(i.is_password());
    assert!(i.shows_clear_button());
    assert_eq!(i.mouse_down(true, true, 0), (EventStatus::Consumed, InputEffect::Cleared));
    assert_eq!(i.value(), "");
    assert_eq!(i.cursor(), 0);
    assert!(!i.shows_clear_button());
}

#[test]
fn click_outside_blurs() {
    let mut i = focused("abc", 1);
    i.handle_key(Key::ArrowRight, shift());
    assert_eq!(i.mouse_down(false, false, 0), (EventStatus::Ignored, InputEffect::Nothing));
    assert!(!i.is_focused());
    assert!(!i.has_selection());
}

#[test]
fn disabled_input_cannot_focus() {
    let mut i = Input::new("abc".to_string()).disabled(true);
    assert_eq!(i.mouse_down(true, false, 0), (EventStatus::Ignored, InputEffect::Nothing));
    assert!(!i.is_focused());
    assert!(!i.is_interactive());
    assert_eq!(i.cursor_style(true), CursorStyle::NotAllowed);
    assert_eq!(Input::new(String::new()).cursor_style(true), CursorStyle::Text);
}

#[test]
fn focus_lost_keeps_value() {
    let mut i = focused("abc", 1);
    i.ime_preedit(chars("z"));
    i.handle_key(Key::ArrowRight, shift());
    assert_eq!(i.focus_lost(), EventStatus::Ignored);
    assert!(!i.is_focused());
    assert!(!i.has_selection());
    assert!(i.preedit_chars().is_empty());
    assert_eq!(i.value(), "abc");
}

#[test]
fn hover_and_placeholder() {
    let mut i = Input::new(String::new()).placeholder("Search".to_string());
    assert_eq!(i.placeholder_text(), "Search");
    assert_eq!(i.mouse_move(true), EventStatus::Ignored);
    assert!(i.is_hovered());
    i.mouse_move(false);
    assert!(!i.is_hovered());
}
