//! Button: a press-and-release state machine. A click is a primary press and
//! release both inside the button, or Enter/Space while it has focus; a
//! disabled or loading button never clicks.
use crate::event::{EventStatus, Key};
use crate::style::CursorStyle;
use vstd::prelude::*;

verus! {

/// Visual variant of the button.
#[derive(Debug, Clone, Copy, PartialEq, Eq, Structural)]
pub enum ButtonVariant {
    /// Filled with accent color (primary action).
    Primary,
    /// Subtle background (secondary action).
    Secondary,
    /// Transparent background with visible border.
    Outline,
    /// Red / danger action.
    Danger,
    /// No background, no border: text only.
    TextOnly,
}

impl Default for ButtonVariant {
    fn default() -> (r: Self)
        ensures
            r == ButtonVariant::Primary,
    {
        ButtonVariant::Primary
    }
}

/// Size scale for the button.
#[derive(Debug, Clone, Copy, PartialEq, Eq, Structural)]
pub enum ButtonSize {
    Xs,
    Sm,
    Md,
    Lg,
}

impl Default for ButtonSize {
    fn default() -> (r: Self)
        ensures
            r == ButtonSize::Md,
    {
        ButtonSize::Md
    }
}

impl ButtonSize {
    /// (horizontal, vertical) padding in pixels.
    pub fn padding(&self) -> (r: (u32, u32))
        ensures
            r == match *self {
                ButtonSize::Xs => (8u32, 3u32),
                ButtonSize::Sm => (12u32, 5u32),
                ButtonSize::Md => (16u32, 8u32),
                ButtonSize::Lg => (22u32, 11u32),
            },
    {
        match self {
            ButtonSize::Xs => (8, 3),
            ButtonSize::Sm => (12, 5),
            ButtonSize::Md => (16, 8),
            ButtonSize::Lg => (22, 11),
        }
    }
}

/// Interactive state of a button.
#[derive(Debug, Clone, Copy, PartialEq, Eq, Structural)]
pub enum ButtonState {
    Normal,
    Hovered,
    Pressed,
    Disabled,
}

/// The state of a button.
pub ghost struct ButtonModel {
    pub label: Seq<char>,
    pub variant: ButtonVariant,
    pub size: ButtonSize,
    pub state: ButtonState,
    pub focused: bool,
    pub disabled: bool,
    pub loading: bool,
    pub full_width: bool,
}

pub open spec fn interactive(m: ButtonModel) -> bool {
    !m.disabled && !m.loading
}

pub open spec fn button_after_move(m: ButtonModel, inside: bool) -> ButtonModel {
    if !interactive(m) {
        m
    } else if inside {
        ButtonModel { state: if m.state == ButtonState::Pressed { ButtonState::Pressed } else { ButtonState::Hovered }, ..m }
    } else {
        ButtonModel { state: ButtonState::Normal, ..m }
    }
}

pub open spec fn button_after_down(m: ButtonModel, inside: bool) -> ButtonModel {
    if interactive(m) && inside {
        ButtonModel { state: ButtonState::Pressed, ..m }
    } else {
        m
    }
}

/// Releasing clicks when the button was pressed and the pointer is inside.
pub open spec fn release_clicks(m: ButtonModel, inside: bool) -> bool {
    interactive(m) && m.state == ButtonState::Pressed && inside
}

pub open spec fn button_after_up(m: ButtonModel, inside: bool) -> ButtonModel {
    if !interactive(m) {
        m
    } else if release_clicks(m, inside) {
        ButtonModel { state: ButtonState::Hovered, ..m }
    } else {
        ButtonModel { state: ButtonState::Normal, ..m }
    }
}

pub struct Button {
    label: String,
    variant: ButtonVariant,
    size: ButtonSize,
    state: ButtonState,
    focused: bool,
    disabled: bool,
    loading: bool,
    full_width: bool,
}

impl View for Button {
    type V = ButtonModel;

    closed spec fn view(&self) -> ButtonModel {
        ButtonModel {
            label: self.label@,
            variant: self.variant,
            size: self.size,
            state: self.state,
            focused: self.focused,
            disabled: self.disabled,
            loading: self.loading,
            full_width: self.full_width,
        }
    }
}

impl Button {
    pub fn new(label: String) -> (r: Self)
        ensures
            r@ == (ButtonModel {
                label: label@,
                variant: ButtonVariant::Primary,
                size: ButtonSize::Md,
                state: ButtonState::Normal,
                focused: false,
                disabled: false,
                loading: false,
                full_width: false,
            }),
    {
        Button {
            label,
            variant: ButtonVariant::Primary,
            size: ButtonSize::Md,
            state: ButtonState::Normal,
            focused: false,
            disabled: false,
            loading: false,
            full_width: false,
        }
    }

    pub fn variant(self, v: ButtonVariant) -> (r: Self)
        ensures
            r@ == (ButtonModel { variant: v, ..self@ }),
    {
        Button { variant: v, ..self }
    }

    pub fn size(self, s: ButtonSize) -> (r: Self)
        ensures
            r@ == (ButtonModel { size: s, ..self@ }),
    {
        Button { size: s, ..self }
    }

    pub fn full_width(self) -> (r: Self)
        ensures
            r@ == (ButtonModel { full_width: true, ..self@ }),
    {
        Button { full_width: true, ..self }
    }

    /// Loading shows "…" and, when set, disables the button's visuals.
    pub fn loading(self, l: bool) -> (r: Self)
        ensures
            r@ == (ButtonModel {
                loading: l,
                state: if l { ButtonState::Disabled } else { self@.state },
                ..self@
            }),
    {
        if l {
            Button { loading: true, state: ButtonState::Disabled, ..self }
        } else {
            Button { loading: false, ..self }
        }
    }

    pub fn disabled(self, d: bool) -> (r: Self)
        ensures
            r@ == (ButtonModel {
                disabled: d,
                state: if d { ButtonState::Disabled } else { ButtonState::Normal },
                ..self@
            }),
    {
        Button { disabled: d, state: if d { ButtonState::Disabled } else { ButtonState::Normal }, ..self }
    }

    pub fn label(&self) -> (r: &String)
        ensures
            r@ == self@.label,
    {
        &self.label
    }

    pub fn button_variant(&self) -> (r: ButtonVariant)
        ensures
            r == self@.variant,
    {
        self.variant
    }

    pub fn button_size(&self) -> (r: ButtonSize)
        ensures
            r == self@.size,
    {
        self.size
    }

    pub fn state(&self) -> (r: ButtonState)
        ensures
            r == self@.state,
    {
        self.state
    }

    pub fn is_focused(&self) -> (r: bool)
        ensures
            r == self@.focused,
    {
        self.focused
    }

    pub fn is_loading(&self) -> (r: bool)
        ensures
            r == self@.loading,
    {
        self.loading
    }

    pub fn is_full_width(&self) -> (r: bool)
        ensures
            r == self@.full_width,
    {
        self.full_width
    }

    /// Neither disabled nor loading.
    pub fn is_interactive(&self) -> (r: bool)
        ensures
            r == interactive(self@),
    {
        !self.disabled && !self.loading
    }

    /// A button takes focus unless it is in the disabled state.
    pub fn focusable(&self) -> (r: bool)
        ensures
            r == (self@.state != ButtonState::Disabled),
    {
        self.state != ButtonState::Disabled
    }

    /// The text shown: "…" while loading, the label otherwise.
    pub fn display_label(&self) -> (r: String)
        ensures
            self@.loading ==> r@ == "…"@,
            !self@.loading ==> r@ == self@.label,
    {
        if self.loading {
            "…".to_owned()
        } else {
            self.label.clone()
        }
    }

    /// The focus ring shows on a focused, interactive button.
    pub fn shows_focus_ring(&self) -> (r: bool)
        ensures
            r == (self@.focused && interactive(self@)),
    {
        self.focused && self.is_interactive()
    }

    /// Secondary and outline buttons draw a border.
    pub fn has_border(&self) -> (r: bool)
        ensures
            r == (self@.variant == ButtonVariant::Secondary || self@.variant == ButtonVariant::Outline),
    {
        match self.variant {
            ButtonVariant::Secondary | ButtonVariant::Outline => true,
            _ => false,
        }
    }

    pub fn focus_gained(&mut self) -> (r: EventStatus)
        ensures
            final(self)@ == (ButtonModel { focused: true, ..old(self)@ }),
            r == EventStatus::Ignored,
    {
        self.focused = true;
        EventStatus::Ignored
    }

    /// Losing focus also resets the pressed/hovered state.
    pub fn focus_lost(&mut self) -> (r: EventStatus)
        ensures
            final(self)@ == (ButtonModel {
                focused: false,
                state: if interactive(old(self)@) { ButtonState::Normal } else { ButtonState::Disabled },
                ..old(self)@
            }),
            r == EventStatus::Ignored,
    {
        self.focused = false;
        self.state = if self.disabled || self.loading { ButtonState::Disabled } else { ButtonState::Normal };
        EventStatus::Ignored
    }

    /// A key press: Enter or Space clicks a focused interactive button.
    /// Returns whether the event was consumed and whether it clicked.
    pub fn handle_key(&mut self, key: Key) -> (r: (EventStatus, bool))
        ensures
            final(self)@ == old(self)@,
            r.1 == ((key == Key::Enter || key == Key::Char(' ')) && old(self)@.focused && interactive(old(self)@)),
            r.0 == (if r.1 { EventStatus::Consumed } else { EventStatus::Ignored }),
    {
        let activation = match key {
            Key::Enter => true,
            Key::Char(c) => c == ' ',
            _ => false,
        };
        if activation && self.focused && self.is_interactive() {
            (EventStatus::Consumed, true)
        } else {
            (EventStatus::Ignored, false)
        }
    }

    /// The pointer moved; `inside` tells whether it is over the button.
    pub fn mouse_move(&mut self, inside: bool) -> (r: EventStatus)
        ensures
            final(self)@ == button_after_move(old(self)@, inside),
            r == EventStatus::Ignored,
    {
        if !self.is_interactive() {
            return EventStatus::Ignored;
        }
        self.state = if inside {
            if self.state == ButtonState::Pressed {
                ButtonState::Pressed
            } else {
                ButtonState::Hovered
            }
        } else {
            ButtonState::Normal
        };
        EventStatus::Ignored
    }

    /// Primary button pressed; `inside` tells whether over the button.
    pub fn mouse_down(&mut self, inside: bool) -> (r: EventStatus)
        ensures
            final(self)@ == button_after_down(old(self)@, inside),
            r == (if interactive(old(self)@) && inside { EventStatus::Consumed } else { EventStatus::Ignored }),
    {
        if !self.is_interactive() {
            return EventStatus::Ignored;
        }
        if inside {
            self.state = ButtonState::Pressed;
            EventStatus::Consumed
        } else {
            EventStatus::Ignored
        }
    }

    /// Primary button released; returns whether consumed and whether it clicked.
    pub fn mouse_up(&mut self, inside: bool) -> (r: (EventStatus, bool))
        ensures
            final(self)@ == button_after_up(old(self)@, inside),
            r.1 == release_clicks(old(self)@, inside),
            r.0 == (if r.1 { EventStatus::Consumed } else { EventStatus::Ignored }),
    {
        if !self.is_interactive() {
            return (EventStatus::Ignored, false);
        }
        if self.state == ButtonState::Pressed && inside {
            self.state = ButtonState::Hovered;
            (EventStatus::Consumed, true)
        } else {
            self.state = ButtonState::Normal;
            (EventStatus::Ignored, false)
        }
    }

    /// Cursor shape for a pointer over (or away from) the button.
    pub fn cursor_style(&self, inside: bool) -> (r: CursorStyle)
        ensures
            r == (if !inside {
                CursorStyle::Default
            } else if !interactive(self@) {
                CursorStyle::NotAllowed
            } else {
                CursorStyle::Pointer
            }),
    {
        if !inside {
            CursorStyle::Default
        } else if self.disabled || self.loading {
            CursorStyle::NotAllowed
        } else {
            CursorStyle::Pointer
        }
    }
}

/// Shorthand constructor.
pub fn button(label: String) -> (r: Button)
    ensures
        r@ == (ButtonModel {
            label: label@,
            variant: ButtonVariant::Primary,
            size: ButtonSize::Md,
            state: ButtonState::Normal,
            focused: false,
            disabled: false,
            loading: false,
            full_width: false,
        }),
{
    Button::new(label)
}

/// Law: on an interactive button, a press inside followed by a release
/// inside is a click; a release without a press inside is never a click,
/// and a disabled or loading button never clicks.
pub proof fn lemma_press_release_clicks(m: ButtonModel)
    ensures
        interactive(m) ==> release_clicks(button_after_down(m, true), true),
        m.state != ButtonState::Pressed ==> !release_clicks(button_after_down(m, false), true),
        !interactive(m) ==> !release_clicks(button_after_down(m, true), true),
{
}

} // verus!
