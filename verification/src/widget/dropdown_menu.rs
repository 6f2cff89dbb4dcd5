//! Dropdown menu: an action menu anchored to a trigger. It navigates like a
//! `Select` but keeps no choice: activating an item reports its label.
use crate::event::{EventStatus, Key};
use crate::overlay::{PopoverAlign, PopoverSide};
use crate::widget::select::{
    down_target, enabled_indices, entry_text, is_activation_key, lemma_enabled_indices, move_down,
    move_up, names_enabled, reports, selectable_indices, up_target, SelectEntry,
};
use vstd::prelude::*;

verus! {

/// The state of a `DropdownMenu`.
pub ghost struct DropdownModel {
    pub entries: Seq<SelectEntry>,
    pub highlighted: Option<usize>,
    pub open: bool,
    pub disabled: bool,
    pub focused: bool,
    pub side: PopoverSide,
    pub align: PopoverAlign,
}

/// The highlight only ever names an enabled item.
pub open spec fn menu_wf(m: DropdownModel) -> bool {
    &&& m.entries.len() <= usize::MAX
    &&& m.highlighted matches Some(h) ==> names_enabled(m.entries, h as int)
}

pub open spec fn menu_closed(m: DropdownModel) -> DropdownModel {
    DropdownModel { open: false, highlighted: None, ..m }
}

/// Opening highlights the first enabled item; with none the menu stays closed.
pub open spec fn menu_opened(m: DropdownModel) -> DropdownModel {
    let sel = enabled_indices(m.entries);
    if sel.len() == 0 {
        DropdownModel { open: false, ..m }
    } else {
        DropdownModel { open: true, highlighted: Some(sel[0]), ..m }
    }
}

pub open spec fn menu_after_key(m: DropdownModel, key: Key) -> DropdownModel {
    if m.disabled {
        m
    } else if key == Key::Escape {
        if m.open { menu_closed(m) } else { m }
    } else if is_activation_key(key) {
        if !m.focused {
            m
        } else if m.open {
            menu_closed(m)
        } else {
            menu_opened(m)
        }
    } else if key == Key::ArrowDown || key == Key::ArrowUp {
        if !m.focused {
            m
        } else if !m.open {
            menu_opened(m)
        } else if enabled_indices(m.entries).len() == 0 {
            m
        } else if key == Key::ArrowDown {
            DropdownModel { highlighted: Some(down_target(m.entries, m.highlighted)), ..m }
        } else {
            DropdownModel { highlighted: Some(up_target(m.entries, m.highlighted)), ..m }
        }
    } else {
        m
    }
}

pub open spec fn menu_key_status(m: DropdownModel, key: Key) -> EventStatus {
    if m.disabled {
        EventStatus::Ignored
    } else if key == Key::Escape {
        if m.open { EventStatus::Consumed } else { EventStatus::Ignored }
    } else if is_activation_key(key) {
        if m.focused { EventStatus::Consumed } else { EventStatus::Ignored }
    } else if key == Key::ArrowDown || key == Key::ArrowUp {
        if !m.focused {
            EventStatus::Ignored
        } else if !m.open {
            EventStatus::Consumed
        } else if enabled_indices(m.entries).len() == 0 {
            EventStatus::Ignored
        } else {
            EventStatus::Consumed
        }
    } else {
        EventStatus::Ignored
    }
}

/// The item a key press activates, if any.
pub open spec fn menu_key_activation(m: DropdownModel, key: Key) -> Option<usize> {
    if !m.disabled && is_activation_key(key) && m.focused && m.open {
        m.highlighted
    } else {
        None
    }
}

/// Dropdown menu state.
pub struct DropdownMenu {
    entries: Vec<SelectEntry>,
    highlighted: Option<usize>,
    open: bool,
    disabled: bool,
    focused: bool,
    side: PopoverSide,
    align: PopoverAlign,
}

impl View for DropdownMenu {
    type V = DropdownModel;

    closed spec fn view(&self) -> DropdownModel {
        DropdownModel {
            entries: self.entries@,
            highlighted: self.highlighted,
            open: self.open,
            disabled: self.disabled,
            focused: self.focused,
            side: self.side,
            align: self.align,
        }
    }
}

/// The label of entry `i`, as `reports` expects it.
fn label_of(entries: &Vec<SelectEntry>, i: usize) -> (r: String)
    requires
        i < entries@.len(),
    ensures
        r@ == entry_text(entries@[i as int]),
{
    match &entries[i] {
        SelectEntry::Item { label, .. } => label.clone(),
        SelectEntry::Label(t) => t.clone(),
        SelectEntry::Separator => String::new(),
    }
}

impl DropdownMenu {
    /// A closed menu over `entries`, below its trigger and start-aligned.
    pub fn new(entries: Vec<SelectEntry>) -> (r: Self)
        ensures
            menu_wf(r@),
            r@ == (DropdownModel {
                entries: entries@,
                highlighted: None,
                open: false,
                disabled: false,
                focused: false,
                side: PopoverSide::Bottom,
                align: PopoverAlign::Start,
            }),
    {
        proof {
            assert(entries@.len() == entries.len());
        }
        DropdownMenu {
            entries,
            highlighted: None,
            open: false,
            disabled: false,
            focused: false,
            side: PopoverSide::Bottom,
            align: PopoverAlign::Start,
        }
    }

    pub fn side(self, side: PopoverSide) -> (r: Self)
        requires
            menu_wf(self@),
        ensures
            menu_wf(r@),
            r@ == (DropdownModel { side, ..self@ }),
    {
        DropdownMenu { side, ..self }
    }

    pub fn align(self, align: PopoverAlign) -> (r: Self)
        requires
            menu_wf(self@),
        ensures
            menu_wf(r@),
            r@ == (DropdownModel { align, ..self@ }),
    {
        DropdownMenu { align, ..self }
    }

    /// Disabling also closes the menu.
    pub fn disabled(self, v: bool) -> (r: Self)
        requires
            menu_wf(self@),
        ensures
            menu_wf(r@),
            v ==> r@ == menu_closed(DropdownModel { disabled: true, ..self@ }),
            !v ==> r@ == (DropdownModel { disabled: false, ..self@ }),
    {
        if v {
            DropdownMenu { disabled: true, open: false, highlighted: None, ..self }
        } else {
            DropdownMenu { disabled: false, ..self }
        }
    }

    pub fn entries(&self) -> (r: &Vec<SelectEntry>)
        ensures
            r@ == self@.entries,
    {
        &self.entries
    }

    pub fn is_open(&self) -> (r: bool)
        ensures
            r == self@.open,
    {
        self.open
    }

    pub fn is_disabled(&self) -> (r: bool)
        ensures
            r == self@.disabled,
    {
        self.disabled
    }

    pub fn highlighted_index(&self) -> (r: Option<usize>)
        ensures
            r == self@.highlighted,
    {
        self.highlighted
    }

    pub fn placement(&self) -> (r: (PopoverSide, PopoverAlign))
        ensures
            r == (self@.side, self@.align),
    {
        (self.side, self.align)
    }

    fn close(&mut self)
        requires
            menu_wf(old(self)@),
        ensures
            menu_wf(final(self)@),
            final(self)@ == menu_closed(old(self)@),
    {
        self.open = false;
        self.highlighted = None;
    }

    fn open_menu(&mut self)
        requires
            menu_wf(old(self)@),
        ensures
            menu_wf(final(self)@),
            final(self)@ == menu_opened(old(self)@),
    {
        let sel = selectable_indices(&self.entries);
        proof {
            lemma_enabled_indices(self.entries@);
        }
        if sel.len() == 0 {
            self.open = false;
            return;
        }
        self.open = true;
        self.highlighted = Some(sel[0]);
    }

    pub fn focus_gained(&mut self) -> (r: EventStatus)
        requires
            menu_wf(old(self)@),
        ensures
            menu_wf(final(self)@),
            final(self)@ == (if old(self)@.disabled { old(self)@ } else { DropdownModel { focused: true, ..old(self)@ } }),
            r == EventStatus::Ignored,
    {
        if !self.disabled {
            self.focused = true;
        }
        EventStatus::Ignored
    }

    pub fn focus_lost(&mut self) -> (r: EventStatus)
        requires
            menu_wf(old(self)@),
        ensures
            menu_wf(final(self)@),
            final(self)@ == (if old(self)@.disabled { old(self)@ } else { menu_closed(DropdownModel { focused: false, ..old(self)@ }) }),
            r == EventStatus::Ignored,
    {
        if !self.disabled {
            self.focused = false;
            self.close();
        }
        EventStatus::Ignored
    }

    /// A key press; returns whether it was consumed and the label of the
    /// item it activated, if any.
    pub fn handle_key(&mut self, key: Key) -> (r: (EventStatus, Option<String>))
        requires
            menu_wf(old(self)@),
        ensures
            menu_wf(final(self)@),
            final(self)@ == menu_after_key(old(self)@, key),
            r.0 == menu_key_status(old(self)@, key),
            reports(r.1, old(self)@.entries, menu_key_activation(old(self)@, key)),
    {
        if self.disabled {
            return (EventStatus::Ignored, None);
        }
        match key {
            Key::Escape => {
                if self.open {
                    self.close();
                    return (EventStatus::Consumed, None);
                }
                (EventStatus::Ignored, None)
            },
            Key::Enter | Key::Char(' ') => {
                if !self.focused {
                    return (EventStatus::Ignored, None);
                }
                if self.open {
                    let label = match self.highlighted {
                        Some(i) => Some(label_of(&self.entries, i)),
                        None => None,
                    };
                    self.close();
                    (EventStatus::Consumed, label)
                } else {
                    self.open_menu();
                    (EventStatus::Consumed, None)
                }
            },
            Key::ArrowDown | Key::ArrowUp => {
                if !self.focused {
                    return (EventStatus::Ignored, None);
                }
                if !self.open {
                    self.open_menu();
                    return (EventStatus::Consumed, None);
                }
                let sel = selectable_indices(&self.entries);
                if sel.len() == 0 {
                    return (EventStatus::Ignored, None);
                }
                let next = if key == Key::ArrowDown {
                    move_down(&self.entries, self.highlighted)
                } else {
                    move_up(&self.entries, self.highlighted)
                };
                self.highlighted = Some(next);
                (EventStatus::Consumed, None)
            },
            _ => (EventStatus::Ignored, None),
        }
    }

    /// The pointer moved; `entry` is the enabled item under it in the open
    /// menu, if any.
    pub fn mouse_move(&mut self, entry: Option<usize>)
        requires
            menu_wf(old(self)@),
            entry matches Some(i) ==> names_enabled(old(self)@.entries, i as int),
        ensures
            menu_wf(final(self)@),
            final(self)@ == (if !old(self)@.disabled && old(self)@.open {
                DropdownModel { highlighted: entry, ..old(self)@ }
            } else {
                old(self)@
            }),
    {
        if !self.disabled && self.open {
            self.highlighted = entry;
        }
    }

    /// Primary button pressed: on the open panel it activates the item under
    /// the pointer; on the trigger it toggles the menu; elsewhere it closes an
    /// open menu. `Ignored` means the trigger should see the event.
    pub fn mouse_down(&mut self, on_panel: bool, on_trigger: bool, entry: Option<usize>) -> (r: (
        EventStatus,
        Option<String>,
    ))
        requires
            menu_wf(old(self)@),
            entry matches Some(i) ==> names_enabled(old(self)@.entries, i as int),
        ensures
            menu_wf(final(self)@),
            old(self)@.disabled ==> final(self)@ == old(self)@ && r.0 == EventStatus::Ignored && r.1 is None,
            !old(self)@.disabled && old(self)@.open && on_panel ==> r.0 == EventStatus::Consumed
                && reports(r.1, old(self)@.entries, entry)
                && final(self)@ == (if entry is Some { menu_closed(old(self)@) } else { old(self)@ }),
            !old(self)@.disabled && !(old(self)@.open && on_panel) && on_trigger ==> r.0 == EventStatus::Consumed
                && r.1 is None
                && final(self)@ == (if old(self)@.open { menu_closed(old(self)@) } else { menu_opened(old(self)@) }),
            !old(self)@.disabled && !(old(self)@.open && on_panel) && !on_trigger && old(self)@.open
                ==> r.0 == EventStatus::Consumed && r.1 is None && final(self)@ == menu_closed(old(self)@),
            !old(self)@.disabled && !on_trigger && !old(self)@.open ==> r.0 == EventStatus::Ignored && r.1 is None
                && final(self)@ == old(self)@,
    {
        if self.disabled {
            return (EventStatus::Ignored, None);
        }
        if self.open && on_panel {
            let label = match entry {
                Some(i) => {
                    let l = label_of(&self.entries, i);
                    self.close();
                    Some(l)
                },
                None => None,
            };
            return (EventStatus::Consumed, label);
        }
        if on_trigger {
            if self.open {
                self.close();
            } else {
                self.open_menu();
            }
            return (EventStatus::Consumed, None);
        }
        if self.open {
            self.close();
            return (EventStatus::Consumed, None);
        }
        (EventStatus::Ignored, None)
    }
}

} // verus!
