use rust_ui::event::{EventStatus, Key};
use rust_ui::style::CursorStyle;
use rust_ui::widget::accordion::{accordion, AccordionItem};
use rust_ui::widget::dropdown_menu::DropdownMenu;
use rust_ui::widget::radio_group::{RadioGroup, RadioGroupOption};
use rust_ui::widget::select::{move_down, move_up, position_in, select, select_entries, selectable_indices, SelectEntry};
use rust_ui::widget::sidebar::{sidebar, sidebar_group, sidebar_item, SidebarGroup};
use rust_ui::widget::tabs::Tabs;
use rust_ui::widget::toast::{ToastItem, ToastStore, ToastVariant, DEFAULT_DURATION_MS};

fn strings(v: &[&str]) -> Vec<String> {
    v.iter().map(|s| s.to_string()).collect()
}

fn fruit_entries() -> Vec<SelectEntry> {
    vec![
        SelectEntry::label("Fruit".to_string()),
        SelectEntry::item("Apple".to_string()),
        SelectEntry::item_disabled("Banana".to_string()),
        SelectEntry::separator(),
        SelectEntry::item("Cherry".to_string()),
    ]
}

#[test]
fn select_entry_rows() {
    let e = fruit_entries();
    assert_eq!(e[0].row_height(), 28);
    assert_eq!(e[1].row_height(), 32);
    assert_eq!(e[3].row_height(), 9);
    assert!(e[1].is_enabled_item());
    assert!(!e[2].is_enabled_item());
    assert_eq!(selectable_indices(&e), vec![1, 4]);
}

#[test]
fn menu_navigation_skips_disabled_and_stops_at_ends() {
    let e = fruit_entries();
    assert_eq!(move_down(&e, None), 4);
    assert_eq!(move_down(&e, Some(1)), 4);
    assert_eq!(move_down(&e, Some(4)), 4);
    assert_eq!(move_up(&e, Some(4)), 1);
    assert_eq!(move_up(&e, Some(1)), 1);
    assert_eq!(position_in(&vec![3, 5, 7], 7), 2);
    assert_eq!(position_in(&vec![3, 5, 7], 9), 0);
}

#[test]
fn select_keyboard_flow() {
    let mut s = select(strings(&["Small", "Medium", "Large"]));
    assert_eq!(s.placeholder_text(), "Select…");
    assert_eq!(s.handle_key(Key::ArrowDown), (EventStatus::Ignored, None));
    s.focus_gained();
    assert_eq!(s.handle_key(Key::ArrowDown), (EventStatus::Consumed, None));
    assert!(s.is_open());
    assert_eq!(s.highlighted_index(), Some(0));
    s.handle_key(Key::ArrowDown);
    s.handle_key(Key::ArrowDown);
    s.handle_key(Key::ArrowDown);
    assert_eq!(s.highlighted_index(), Some(2));
    assert_eq!(s.handle_key(Key::Enter), (EventStatus::Consumed, Some("Large".to_string())));
    assert!(!s.is_open());
    assert_eq!(s.selected_index(), Some(2));
    assert_eq!(s.selected_label(), Some(&"Large".to_string()));
    // Reopening highlights the chosen item; Escape closes without choosing.
    s.handle_key(Key::Char(' '));
    assert_eq!(s.highlighted_index(), Some(2));
    s.handle_key(Key::ArrowUp);
    assert_eq!(s.handle_key(Key::Escape), (EventStatus::Consumed, None));
    assert_eq!(s.selected_index(), Some(2));
    assert_eq!(s.handle_key(Key::Escape), (EventStatus::Ignored, None));
}

#[test]
fn select_mouse_flow() {
    let mut s = select_entries(fruit_entries());
    assert_eq!(s.mouse_down(true, false, None), (EventStatus::Consumed, None));
    assert!(s.is_open());
    assert_eq!(s.highlighted_index(), Some(1));
    s.mouse_move(false, Some(4));
    assert_eq!(s.highlighted_index(), Some(4));
    assert_eq!(s.mouse_down(false, true, Some(4)), (EventStatus::Consumed, Some("Cherry".to_string())));
    assert_eq!(s.selected_index(), Some(4));
    assert!(!s.is_open());
    assert_eq!(s.mouse_down(false, false, None), (EventStatus::Ignored, None));
    s.mouse_down(true, false, None);
    assert_eq!(s.mouse_down(false, false, None), (EventStatus::Consumed, None));
    assert!(!s.is_open());
}

#[test]
fn select_presets_and_disabled() {
    let s = select_entries(fruit_entries()).selected(1);
    assert_eq!(s.selected_index(), Some(4));
    let s = select_entries(fruit_entries()).selected(7);
    assert_eq!(s.selected_index(), None);
    let s = select_entries(fruit_entries()).selected_value("Banana");
    assert_eq!(s.selected_index(), None);
    let s = select_entries(fruit_entries()).selected_value("Apple").invalid(true);
    assert_eq!(s.selected_index(), Some(1));
    assert!(s.is_invalid());
    let mut d = select(strings(&["a"])).disabled(true);
    assert_eq!(d.mouse_down(true, false, None), (EventStatus::Ignored, None));
    assert!(!d.is_open());
    assert_eq!(d.cursor_style(true), CursorStyle::Default);
}

#[test]
fn select_without_enabled_items_stays_closed() {
    let mut s = select_entries(vec![SelectEntry::label("Only".to_string()), SelectEntry::separator()]);
    s.focus_gained();
    assert_eq!(s.handle_key(Key::Enter), (EventStatus::Consumed, None));
    assert!(!s.is_open());
}

#[test]
fn dropdown_activates_items() {
    let mut m = DropdownMenu::new(fruit_entries());
    m.focus_gained();
    assert_eq!(m.handle_key(Key::Enter), (EventStatus::Consumed, None));
    assert!(m.is_open());
    assert_eq!(m.highlighted_index(), Some(1));
    m.handle_key(Key::ArrowDown);
    assert_eq!(m.highlighted_index(), Some(4));
    assert_eq!(m.handle_key(Key::Enter), (EventStatus::Consumed, Some("Cherry".to_string())));
    assert!(!m.is_open());
}

#[test]
fn dropdown_mouse() {
    let mut m = DropdownMenu::new(fruit_entries());
    assert_eq!(m.mouse_down(false, false, None), (EventStatus::Ignored, None));
    assert_eq!(m.mouse_down(false, true, None), (EventStatus::Consumed, None));
    assert!(m.is_open());
    assert_eq!(m.mouse_down(true, false, Some(1)), (EventStatus::Consumed, Some("Apple".to_string())));
    assert!(!m.is_open());
    m.mouse_down(false, true, None);
    assert_eq!(m.mouse_down(false, false, None), (EventStatus::Consumed, None));
    assert!(!m.is_open());
    m.focus_lost();
    assert!(!m.is_open());
}

fn sizes() -> RadioGroup {
    RadioGroup::from_pairs(
        vec![
            ("s".to_string(), "Small".to_string()),
            ("m".to_string(), "Medium".to_string()),
            ("l".to_string(), "Large".to_string()),
        ],
        String::new(),
    )
}

#[test]
fn radio_empty_selection_takes_first() {
    let g = sizes();
    assert_eq!(g.selected_value(), "s");
    assert!(g.is_selected(0));
    assert!(!g.is_selected(1));
    let g = RadioGroup::new(vec![RadioGroupOption::new("a".to_string(), "A".to_string())], "z".to_string());
    assert_eq!(g.selected_value(), "z");
}

#[test]
fn radio_click_chooses() {
    let mut g = sizes();
    assert_eq!(g.mouse_down(Some(2)), (EventStatus::Consumed, Some("l".to_string())));
    assert_eq!(g.selected_value(), "l");
    assert_eq!(g.focused_index(), Some(2));
    assert_eq!(g.mouse_down(Some(2)), (EventStatus::Consumed, None));
    assert_eq!(g.mouse_down(None), (EventStatus::Ignored, None));
}

#[test]
fn radio_arrows_move_focus_not_choice() {
    let mut g = sizes().disabled_option("m");
    assert_eq!(g.selectable_indices(), vec![0, 2]);
    g.focus_gained();
    assert_eq!(g.focused_index(), Some(0));
    assert_eq!(g.handle_key(Key::ArrowDown), (EventStatus::Consumed, None));
    assert_eq!(g.focused_index(), Some(2));
    g.handle_key(Key::ArrowRight);
    assert_eq!(g.focused_index(), Some(2));
    assert_eq!(g.selected_value(), "s");
    assert_eq!(g.handle_key(Key::Enter), (EventStatus::Consumed, Some("l".to_string())));
    g.handle_key(Key::ArrowUp);
    assert_eq!(g.focused_index(), Some(0));
    // The disabled option cannot be chosen by a click.
    assert_eq!(g.mouse_down(Some(1)), (EventStatus::Consumed, None));
    assert_eq!(g.selected_value(), "l");
}

#[test]
fn radio_disabled_group() {
    let mut g = sizes().disabled(true);
    assert!(!g.focusable());
    assert_eq!(g.mouse_down(Some(1)), (EventStatus::Ignored, None));
    assert_eq!(g.handle_key(Key::ArrowDown), (EventStatus::Ignored, None));
    assert_eq!(g.cursor_style(Some(1)), CursorStyle::Default);
}

fn faq() -> Vec<AccordionItem> {
    vec![
        AccordionItem::new("a".to_string(), "First".to_string()),
        AccordionItem::new("b".to_string(), "Second".to_string()),
        AccordionItem::new("c".to_string(), "Third".to_string()).disabled(true),
    ]
}

#[test]
fn accordion_single_mode() {
    let mut a = accordion(faq());
    a.toggle(0);
    assert!(a.is_open("a"));
    a.toggle(1);
    assert!(a.is_open("b"));
    assert!(!a.is_open("a"));
    a.toggle(1);
    assert!(!a.is_open("b"));
    a.toggle(2);
    assert!(!a.is_open("c"));
    a.toggle(9);
    assert!(a.open_values().is_empty());
}

#[test]
fn accordion_multiple_and_not_collapsible() {
    let mut a = accordion(faq()).multiple(true);
    a.toggle(0);
    a.toggle(1);
    assert!(a.is_open("a") && a.is_open("b"));
    a.toggle(0);
    assert!(!a.is_open("a") && a.is_open("b"));
    let mut s = accordion(faq()).collapsible(false).default_open(strings(&["a"]));
    s.toggle(0);
    assert!(s.is_open("a"));
}

#[test]
fn accordion_keyboard_and_mouse() {
    let mut a = accordion(faq());
    assert_eq!(a.handle_key(Key::Enter), (EventStatus::Ignored, false));
    assert_eq!(a.mouse_down(Some(1)), EventStatus::Consumed);
    assert!(a.is_open("b"));
    assert_eq!(a.focused_index(), Some(1));
    assert_eq!(a.handle_key(Key::Char(' ')), (EventStatus::Consumed, false));
    assert!(!a.is_open("b"));
    assert_eq!(a.handle_key(Key::Char('q')), (EventStatus::Ignored, true));
    assert_eq!(a.mouse_down(None), EventStatus::Ignored);
}

#[test]
fn tabs_arrows_switch_and_report() {
    let mut t = Tabs::new(strings(&["One", "Two", "Three"]));
    assert_eq!(t.active_label(), "One");
    assert_eq!(t.handle_key(Key::ArrowRight), (EventStatus::Consumed, Some("Two".to_string())));
    assert_eq!(t.handle_key(Key::ArrowLeft), (EventStatus::Consumed, Some("One".to_string())));
    assert_eq!(t.handle_key(Key::ArrowLeft), (EventStatus::Consumed, None));
    assert_eq!(t.focused_index(), Some(0));
    assert_eq!(t.handle_key(Key::Enter), (EventStatus::Ignored, None));
    assert_eq!(t.mouse_down(Some(2)), (EventStatus::Consumed, Some("Three".to_string())));
    assert!(t.is_active(2));
    assert_eq!(t.handle_key(Key::ArrowRight), (EventStatus::Consumed, None));
    assert_eq!(t.mouse_down(None), (EventStatus::Ignored, None));
    assert!(!Tabs::new(Vec::new()).focusable());
}

#[test]
fn sidebar_selection() {
    let groups: Vec<SidebarGroup> = vec![
        sidebar_group("Getting started".to_string(), vec![sidebar_item("Intro".to_string()), sidebar_item("Install".to_string())]),
        SidebarGroup::unlabelled(vec![sidebar_item("About".to_string())]),
    ];
    let mut s = sidebar(groups).active("Install".to_string());
    assert!(s.is_active(0, 1));
    assert!(!s.is_active(0, 0));
    assert!(!s.is_active(5, 0));
    assert_eq!(s.item_positions(), vec![(0, 0), (0, 1), (1, 0)]);
    assert_eq!(s.mouse_down(Some((1, 0))), (EventStatus::Consumed, Some("About".to_string())));
    assert_eq!(s.active_label(), "About");
    assert_eq!(s.mouse_down(None), (EventStatus::Ignored, None));
    assert_eq!(s.mouse_move(Some((0, 0))), EventStatus::Ignored);
    assert_eq!(s.hovered_item(), Some((0, 0)));
    assert_eq!(s.cursor_style(true), CursorStyle::Pointer);
}

#[test]
fn toast_show_and_dismiss() {
    let mut store = ToastStore::default();
    assert!(store.is_empty());
    let a = store.show("Saved".to_string());
    let b = store.success("Uploaded".to_string());
    let c = store.message("Hi".to_string(), "there".to_string());
    assert_eq!((a, b, c), (1, 2, 3));
    assert_ne!(a, b);
    assert_eq!(store.toasts()[1].variant, ToastVariant::Success);
    assert_eq!(store.toasts()[2].description, Some("there".to_string()));
    assert_eq!(store.toasts()[0].duration_ms, DEFAULT_DURATION_MS);
    store.dismiss(b);
    assert!(!store.contains_id(b));
    assert_eq!(store.toasts().len(), 2);
    // A freed id is never handed out again.
    assert_eq!(store.error("Oops".to_string()), 4);
    assert!(store.contains_id(4) && !store.contains_id(2));
    store.dismiss(99);
    assert_eq!(store.toasts().len(), 3);
    store.dismiss_all();
    assert!(store.is_empty());
}

#[test]
fn toast_expiry() {
    let mut store = ToastStore::default();
    store.push(ToastItem::new(7, "short".to_string()).duration_ms(10));
    store.push(ToastItem::new(8, "sticky".to_string()).duration_ms(0));
    store.push(ToastItem::new(9, "long".to_string()).variant(ToastVariant::Warning));
    assert!(store.needs_timer_after(&vec![0, 0, 0]));
    store.retain_unexpired(&vec![10, 1_000_000, 3999]);
    let ids: Vec<u64> = store.toasts().iter().map(|t| t.id).collect();
    assert_eq!(ids, vec![8, 9]);
    assert!(!store.needs_timer_after(&vec![0, 4000]));
    assert!(store.needs_timer_after(&vec![0, 3999]));
    store.purge_expired();
    assert!(store.contains_id(8));
}

#[test]
fn toast_ids_come_from_a_growing_counter() {
    let mut store = ToastStore::default();
    assert_eq!(store.next_toast_id(), 1);
    let item = store.new_item("made".to_string());
    assert_eq!(item.id, 1);
    assert!(store.is_empty());
    assert_eq!(store.push(item), 1);
    assert_eq!(store.push(ToastItem::new(10, "ten".to_string())), 10);
    assert_eq!(store.next_toast_id(), 11);
    assert_eq!(store.show("next".to_string()), 11);
    store.dismiss(11);
    store.dismiss_all();
    assert_eq!(store.next_toast_id(), 12);
    assert_eq!(store.warning("again".to_string()), 12);
}

#[test]
fn toast_push_takes_any_id() {
    let mut store = ToastStore::default();
    let mut zero = ToastItem::new(1, "zero".to_string());
    zero.id = 0;
    assert_eq!(store.push(zero), 0);
    assert_eq!(store.next_toast_id(), 1);
    store.dismiss(0);
    assert!(store.is_empty());
    store.dismiss(0);
    assert!(store.is_empty());
    assert_eq!(store.push(ToastItem::new(u64::MAX, "last".to_string())), u64::MAX);
    assert_eq!(store.next_toast_id(), u64::MAX);
    assert_eq!(store.toasts().len(), 1);
}

#[test]
fn toast_press_regions() {
    let mut store = ToastStore::default();
    let id = store.warning("Careful".to_string());
    assert_eq!(store.press(Some((id, false))), EventStatus::Consumed);
    assert!(store.contains_id(id));
    assert_eq!(store.press(None), EventStatus::Ignored);
    assert_eq!(ToastStore::cursor_style(Some((id, true))), CursorStyle::Pointer);
    assert_eq!(ToastStore::cursor_style(Some((id, false))), CursorStyle::Default);
    assert_eq!(store.press(Some((id, true))), EventStatus::Consumed);
    assert!(store.is_empty());
}

#[test]
fn toast_item_expiry_rule() {
    let t = ToastItem::new(1, "x".to_string()).duration_ms(100);
    assert!(!t.expired_after(99));
    assert!(t.expired_after(100));
    let p = ToastItem::new(2, "y".to_string()).duration_ms(0);
    assert!(!p.expired_after(u128::MAX));
}
