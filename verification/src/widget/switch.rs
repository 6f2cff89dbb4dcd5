//! Switch: an on/off toggle flipped by a press inside it.
use crate::event::EventStatus;
use crate::style::CursorStyle;
use vstd::prelude::*;

verus! {

#[derive(Debug, Clone, Copy, PartialEq, Eq, Structural)]
pub enum SwitchSize {
    Sm,
    Md,
    Lg,
}

impl SwitchSize {
    /// Track width in pixels.
    pub fn track_width(&self) -> (r: u32)
        ensures
            r == match *self {
                SwitchSize::Sm => 32u32,
                SwitchSize::Md => 40u32,
                SwitchSize::Lg => 48u32,
            },
    {
        match self {
            SwitchSize::Sm => 32,
            SwitchSize::Md => 40,
            SwitchSize::Lg => 48,
        }
    }

    /// Track height in pixels.
    pub fn track_height(&self) -> (r: u32)
        ensures
            r == match *self {
                SwitchSize::Sm => 18u32,
                SwitchSize::Md => 22u32,
                SwitchSize::Lg => 26u32,
            },
    {
        match self {
            SwitchSize::Sm => 18,
            SwitchSize::Md => 22,
            SwitchSize::Lg => 26,
        }
    }

    /// Thumb radius in pixels.
    pub fn thumb_radius(&self) -> (r: u32)
        ensures
            r == match *self {
                SwitchSize::Sm => 6u32,
                SwitchSize::Md => 8u32,
                SwitchSize::Lg => 10u32,
            },
    {
        match self {
            SwitchSize::Sm => 6,
            SwitchSize::Md => 8,
            SwitchSize::Lg => 10,
        }
    }
}

pub ghost struct SwitchModel {
    pub label: Seq<char>,
    pub on: bool,
    pub hovered: bool,
    pub disabled: bool,
    pub size: SwitchSize,
}

pub struct Switch {
    label: String,
    on: bool,
    hovered: bool,
    disabled: bool,
    size: SwitchSize,
}

impl View for Switch {
    type V = SwitchModel;

    closed spec fn view(&self) -> SwitchModel {
        SwitchModel { label: self.label@, on: self.on, hovered: self.hovered, disabled: self.disabled, size: self.size }
    }
}

impl Switch {
    pub fn new(label: String, on: bool) -> (r: Self)
        ensures
            r@ == (SwitchModel { label: label@, on, hovered: false, disabled: false, size: SwitchSize::Md }),
    {
        Switch { label, on, hovered: false, disabled: false, size: SwitchSize::Md }
    }

    pub fn disabled(self, disabled: bool) -> (r: Self)
        ensures
            r@ == (SwitchModel { disabled, ..self@ }),
    {
        Switch { disabled, ..self }
    }

    pub fn size(self, size: SwitchSize) -> (r: Self)
        ensures
            r@ == (SwitchModel { size, ..self@ }),
    {
        Switch { size, ..self }
    }

    pub fn label(&self) -> (r: &String)
        ensures
            r@ == self@.label,
    {
        &self.label
    }

    pub fn is_on(&self) -> (r: bool)
        ensures
            r == self@.on,
    {
        self.on
    }

    pub fn is_hovered(&self) -> (r: bool)
        ensures
            r == self@.hovered,
    {
        self.hovered
    }

    pub fn is_disabled(&self) -> (r: bool)
        ensures
            r == self@.disabled,
    {
        self.disabled
    }

    pub fn switch_size(&self) -> (r: SwitchSize)
        ensures
            r == self@.size,
    {
        self.size
    }

    pub fn mouse_move(&mut self, inside: bool) -> (r: EventStatus)
        ensures
            final(self)@ == (if old(self)@.disabled { old(self)@ } else { SwitchModel { hovered: inside, ..old(self)@ } }),
            r == EventStatus::Ignored,
    {
        if !self.disabled {
            self.hovered = inside;
        }
        EventStatus::Ignored
    }

    /// A press inside an enabled switch flips it; returns whether consumed
    /// and the new state when it flipped.
    pub fn mouse_down(&mut self, inside: bool) -> (r: (EventStatus, Option<bool>))
        ensures
            !old(self)@.disabled && inside ==> final(self)@ == (SwitchModel { on: !old(self)@.on, ..old(self)@ })
                && r == (EventStatus::Consumed, Some(!old(self)@.on)),
            !(!old(self)@.disabled && inside) ==> final(self)@ == old(self)@ && r == (EventStatus::Ignored, None::<bool>),
    {
        if !self.disabled && inside {
            self.on = !self.on;
            (EventStatus::Consumed, Some(self.on))
        } else {
            (EventStatus::Ignored, None)
        }
    }

    pub fn cursor_style(&self, inside: bool) -> (r: CursorStyle)
        ensures
            r == (if !self@.disabled && inside { CursorStyle::Pointer } else { CursorStyle::Default }),
    {
        if !self.disabled && inside {
            CursorStyle::Pointer
        } else {
            CursorStyle::Default
        }
    }
}

/// Shorthand constructor.
pub fn switch(label: String, on: bool) -> (r: Switch)
    ensures
        r@ == (SwitchModel { label: label@, on, hovered: false, disabled: false, size: SwitchSize::Md }),
{
    Switch::new(label, on)
}

} // verus!
