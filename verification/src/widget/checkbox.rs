//! Checkbox: a boolean toggle with a label. A click (press and release
//! inside) or Enter/Space while focused flips it; a disabled checkbox
//! ignores everything.
use crate::event::{EventStatus, Key};
use crate::style::CursorStyle;
use vstd::prelude::*;

verus! {

pub ghost struct CheckboxModel {
    pub label: Seq<char>,
    pub checked: bool,
    pub disabled: bool,
    pub hovered: bool,
    pub pressed: bool,
    pub focused: bool,
}

pub open spec fn toggled(m: CheckboxModel) -> CheckboxModel {
    CheckboxModel { checked: !m.checked, ..m }
}

pub open spec fn checkbox_after_down(m: CheckboxModel, inside: bool) -> CheckboxModel {
    if !m.disabled && inside {
        CheckboxModel { pressed: true, ..m }
    } else {
        m
    }
}

pub open spec fn checkbox_up_toggles(m: CheckboxModel, inside: bool) -> bool {
    !m.disabled && m.pressed && inside
}

pub open spec fn checkbox_after_up(m: CheckboxModel, inside: bool) -> CheckboxModel {
    if m.disabled {
        m
    } else if checkbox_up_toggles(m, inside) {
        toggled(CheckboxModel { pressed: false, ..m })
    } else {
        CheckboxModel { pressed: false, ..m }
    }
}

pub struct Checkbox {
    label: String,
    checked: bool,
    disabled: bool,
    hovered: bool,
    pressed: bool,
    focused: bool,
}

impl View for Checkbox {
    type V = CheckboxModel;

    closed spec fn view(&self) -> CheckboxModel {
        CheckboxModel {
            label: self.label@,
            checked: self.checked,
            disabled: self.disabled,
            hovered: self.hovered,
            pressed: self.pressed,
            focused: self.focused,
        }
    }
}

impl Checkbox {
    pub fn new(label: String, checked: bool) -> (r: Self)
        ensures
            r@ == (CheckboxModel {
                label: label@,
                checked,
                disabled: false,
                hovered: false,
                pressed: false,
                focused: false,
            }),
    {
        Checkbox { label, checked, disabled: false, hovered: false, pressed: false, focused: false }
    }

    pub fn checked(self, v: bool) -> (r: Self)
        ensures
            r@ == (CheckboxModel { checked: v, ..self@ }),
    {
        Checkbox { checked: v, ..self }
    }

    pub fn disabled(self, v: bool) -> (r: Self)
        ensures
            r@ == (CheckboxModel { disabled: v, ..self@ }),
    {
        Checkbox { disabled: v, ..self }
    }

    pub fn label(&self) -> (r: &String)
        ensures
            r@ == self@.label,
    {
        &self.label
    }

    pub fn is_checked(&self) -> (r: bool)
        ensures
            r == self@.checked,
    {
        self.checked
    }

    pub fn is_disabled(&self) -> (r: bool)
        ensures
            r == self@.disabled,
    {
        self.disabled
    }

    pub fn is_hovered(&self) -> (r: bool)
        ensures
            r == self@.hovered,
    {
        self.hovered
    }

    pub fn is_pressed(&self) -> (r: bool)
        ensures
            r == self@.pressed,
    {
        self.pressed
    }

    pub fn is_focused(&self) -> (r: bool)
        ensures
            r == self@.focused,
    {
        self.focused
    }

    pub fn focusable(&self) -> (r: bool)
        ensures
            r == !self@.disabled,
    {
        !self.disabled
    }

    /// Flip the checked state; returns the new state.
    fn toggle(&mut self) -> (r: bool)
        ensures
            final(self)@ == toggled(old(self)@),
            r == final(self)@.checked,
    {
        self.checked = !self.checked;
        self.checked
    }

    pub fn focus_gained(&mut self) -> (r: EventStatus)
        ensures
            final(self)@ == (if old(self)@.disabled { old(self)@ } else { CheckboxModel { focused: true, ..old(self)@ } }),
            r == EventStatus::Ignored,
    {
        if !self.disabled {
            self.focused = true;
        }
        EventStatus::Ignored
    }

    pub fn focus_lost(&mut self) -> (r: EventStatus)
        ensures
            final(self)@ == (if old(self)@.disabled { old(self)@ } else { CheckboxModel {
                focused: false,
                pressed: false,
                ..old(self)@
            } }),
            r == EventStatus::Ignored,
    {
        if !self.disabled {
            self.focused = false;
            self.pressed = false;
        }
        EventStatus::Ignored
    }

    /// Enter or Space flips a focused, enabled checkbox. Returns whether
    /// consumed and the new checked state when it flipped.
    pub fn handle_key(&mut self, key: Key) -> (r: (EventStatus, Option<bool>))
        ensures
            (key == Key::Enter || key == Key::Char(' ')) && !old(self)@.disabled && old(self)@.focused ==> {
                &&& final(self)@ == toggled(old(self)@)
                &&& r == (EventStatus::Consumed, Some(final(self)@.checked))
            },
            !((key == Key::Enter || key == Key::Char(' ')) && !old(self)@.disabled && old(self)@.focused) ==> {
                &&& final(self)@ == old(self)@
                &&& r == (EventStatus::Ignored, None::<bool>)
            },
    {
        let activation = match key {
            Key::Enter => true,
            Key::Char(c) => c == ' ',
            _ => false,
        };
        if activation && !self.disabled && self.focused {
            let v = self.toggle();
            (EventStatus::Consumed, Some(v))
        } else {
            (EventStatus::Ignored, None)
        }
    }

    pub fn mouse_move(&mut self, inside: bool) -> (r: EventStatus)
        ensures
            final(self)@ == (if old(self)@.disabled { old(self)@ } else { CheckboxModel { hovered: inside, ..old(self)@ } }),
            r == EventStatus::Ignored,
    {
        if !self.disabled {
            self.hovered = inside;
        }
        EventStatus::Ignored
    }

    pub fn mouse_down(&mut self, inside: bool) -> (r: EventStatus)
        ensures
            final(self)@ == checkbox_after_down(old(self)@, inside),
            r == (if !old(self)@.disabled && inside { EventStatus::Consumed } else { EventStatus::Ignored }),
    {
        if !self.disabled && inside {
            self.pressed = true;
            EventStatus::Consumed
        } else {
            EventStatus::Ignored
        }
    }

    /// Primary button released; returns whether consumed and the new checked
    /// state when it flipped.
    pub fn mouse_up(&mut self, inside: bool) -> (r: (EventStatus, Option<bool>))
        ensures
            final(self)@ == checkbox_after_up(old(self)@, inside),
            checkbox_up_toggles(old(self)@, inside) ==> r == (EventStatus::Consumed, Some(final(self)@.checked)),
            !checkbox_up_toggles(old(self)@, inside) ==> r == (EventStatus::Ignored, None::<bool>),
    {
        if self.disabled {
            return (EventStatus::Ignored, None);
        }
        let was_pressed = self.pressed;
        self.pressed = false;
        if was_pressed && inside {
            let v = self.toggle();
            (EventStatus::Consumed, Some(v))
        } else {
            (EventStatus::Ignored, None)
        }
    }

    pub fn cursor_style(&self, inside: bool) -> (r: CursorStyle)
        ensures
            r == (if !self@.disabled && inside { CursorStyle::Pointer } else { CursorStyle::Default }),
    {
        if !self.disabled && inside {
            CursorStyle::Pointer
        } else {
            CursorStyle::Default
        }
    }
}

/// Shorthand constructor.
pub fn checkbox(label: String, checked: bool) -> (r: Checkbox)
    ensures
        r@ == (CheckboxModel { label: label@, checked, disabled: false, hovered: false, pressed: false, focused: false }),
{
    Checkbox::new(label, checked)
}

/// Law: a toggle (the step behind a click, Enter or Space) flips `checked`
/// and nothing else, and a second toggle gives the checkbox back.
pub proof fn lemma_toggle_twice(m: CheckboxModel)
    ensures
        toggled(m).checked == !m.checked,
        toggled(m) == (CheckboxModel { checked: toggled(m).checked, ..m }),
        toggled(toggled(m)) == m,
{
}

/// Law: on an enabled checkbox a press and a release inside flip the checked
/// state exactly once; two such clicks give it back.
pub proof fn lemma_click_flips(m: CheckboxModel)
    requires
        !m.disabled,
    ensures
        checkbox_after_up(checkbox_after_down(m, true), true).checked == !m.checked,
        checkbox_after_up(
            checkbox_after_down(checkbox_after_up(checkbox_after_down(m, true), true), true),
            true,
        ).checked == m.checked,
{
}

} // verus!
