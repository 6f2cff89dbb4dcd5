//! Tooltip: a label shown next to a trigger after the pointer rests on it
//! for a delay. Hovering the shown label keeps it open.
use crate::clock::{clock_now, millis_since};
use crate::overlay::{PopoverAlign, PopoverSide};
use std::time::Instant;
use vstd::prelude::*;

verus! {

/// Default hover delay, in milliseconds.
pub const DEFAULT_DELAY_MS: u64 = 400;

pub ghost struct TooltipModel {
    pub label: Seq<char>,
    pub side: PopoverSide,
    pub align: PopoverAlign,
    pub delay_ms: u64,
    pub disabled: bool,
    pub hover_trigger: bool,
    pub hover_panel: bool,
    /// When the pointer came onto the trigger.
    pub hover_start: Option<Instant>,
}

pub open spec fn hovering(m: TooltipModel) -> bool {
    m.hover_trigger || m.hover_panel
}

/// The label shows when `elapsed_ms` have passed since the hover began.
pub open spec fn shows_after(m: TooltipModel, elapsed_ms: int) -> bool {
    !m.disabled && hovering(m) && (m.delay_ms == 0 || (m.hover_start is Some && elapsed_ms >= m.delay_ms))
}

pub open spec fn hover_reset(m: TooltipModel) -> TooltipModel {
    TooltipModel { hover_trigger: false, hover_panel: false, hover_start: None, ..m }
}

pub struct Tooltip {
    label: String,
    side: PopoverSide,
    align: PopoverAlign,
    delay_ms: u64,
    disabled: bool,
    hover_trigger: bool,
    hover_panel: bool,
    hover_start: Option<Instant>,
}

impl View for Tooltip {
    type V = TooltipModel;

    closed spec fn view(&self) -> TooltipModel {
        TooltipModel {
            label: self.label@,
            side: self.side,
            align: self.align,
            delay_ms: self.delay_ms,
            disabled: self.disabled,
            hover_trigger: self.hover_trigger,
            hover_panel: self.hover_panel,
            hover_start: self.hover_start,
        }
    }
}

impl Tooltip {
    /// A tooltip above its trigger, centered, after the default delay.
    pub fn new(label: String) -> (r: Self)
        ensures
            r@ == (TooltipModel {
                label: label@,
                side: PopoverSide::Top,
                align: PopoverAlign::Center,
                delay_ms: DEFAULT_DELAY_MS,
                disabled: false,
                hover_trigger: false,
                hover_panel: false,
                hover_start: None,
            }),
    {
        Tooltip {
            label,
            side: PopoverSide::Top,
            align: PopoverAlign::Center,
            delay_ms: DEFAULT_DELAY_MS,
            disabled: false,
            hover_trigger: false,
            hover_panel: false,
            hover_start: None,
        }
    }

    pub fn side(self, side: PopoverSide) -> (r: Self)
        ensures
            r@ == (TooltipModel { side, ..self@ }),
    {
        Tooltip { side, ..self }
    }

    pub fn align(self, align: PopoverAlign) -> (r: Self)
        ensures
            r@ == (TooltipModel { align, ..self@ }),
    {
        Tooltip { align, ..self }
    }

    pub fn delay_ms(self, ms: u64) -> (r: Self)
        ensures
            r@ == (TooltipModel { delay_ms: ms, ..self@ }),
    {
        Tooltip { delay_ms: ms, ..self }
    }

    pub fn disabled(self, v: bool) -> (r: Self)
        ensures
            r@ == (TooltipModel { disabled: v, ..self@ }),
    {
        Tooltip { disabled: v, ..self }
    }

    pub fn label(&self) -> (r: &String)
        ensures
            r@ == self@.label,
    {
        &self.label
    }

    pub fn placement(&self) -> (r: (PopoverSide, PopoverAlign))
        ensures
            r == (self@.side, self@.align),
    {
        (self.side, self.align)
    }

    pub fn is_hovering(&self) -> (r: bool)
        ensures
            r == hovering(self@),
    {
        self.hover_trigger || self.hover_panel
    }

    /// Whether the label shows when `elapsed_ms` milliseconds have passed
    /// since the hover began.
    pub fn shows_after(&self, elapsed_ms: u128) -> (r: bool)
        ensures
            r == shows_after(self@, elapsed_ms as int),
    {
        if self.disabled || !self.is_hovering() {
            return false;
        }
        if self.delay_ms == 0 {
            return true;
        }
        match self.hover_start {
            Some(_) => elapsed_ms >= self.delay_ms as u128,
            None => false,
        }
    }

    /// Whether the label shows now (this reads the clock): only while hovering
    /// an enabled tooltip, and at once when there is no delay.
    pub fn should_show(&self) -> (r: bool)
        ensures
            exists|e: int| #![trigger shows_after(self@, e)]
                e >= 0 && (self@.hover_start is None ==> e == 0) && r == shows_after(self@, e),
    {
        let elapsed = match &self.hover_start {
            Some(t) => millis_since(t),
            None => 0,
        };
        let r = self.shows_after(elapsed);
        assert(r == shows_after(self@, elapsed as int));
        r
    }

    /// The pointer moved. `over_trigger`: it is over the trigger;
    /// `panel_hit`: it is over the label, which is showing. Coming onto the
    /// trigger starts the hover timer (once); resting on the shown label keeps
    /// the hover; anywhere else the hover ends.
    pub fn update_hover_with(&mut self, over_trigger: bool, panel_hit: bool)
        ensures
            old(self)@.disabled ==> final(self)@ == hover_reset(old(self)@),
            !old(self)@.disabled && over_trigger ==> final(self)@.hover_trigger
                && final(self)@.hover_panel == old(self)@.hover_panel
                && final(self)@.hover_start is Some
                && (old(self)@.hover_start is Some ==> final(self)@.hover_start == old(self)@.hover_start)
                && final(self)@ == (TooltipModel {
                    hover_trigger: true,
                    hover_start: final(self)@.hover_start,
                    ..old(self)@
                }),
            !old(self)@.disabled && !over_trigger && panel_hit ==> final(self)@ == (TooltipModel {
                hover_trigger: true,
                hover_panel: true,
                ..old(self)@
            }),
            !old(self)@.disabled && !over_trigger && !panel_hit ==> final(self)@ == hover_reset(old(self)@),
    {
        if self.disabled {
            self.hover_trigger = false;
            self.hover_panel = false;
            self.hover_start = None;
            return;
        }
        if over_trigger {
            self.hover_trigger = true;
            if self.hover_start.is_none() {
                self.hover_start = Some(clock_now());
            }
        } else if panel_hit {
            self.hover_panel = true;
            self.hover_trigger = true;
        } else {
            self.hover_trigger = false;
            self.hover_panel = false;
            self.hover_start = None;
        }
    }

    /// The pointer moved (the label's showing is read from the clock).
    pub fn update_hover(&mut self, over_trigger: bool, over_panel: bool)
        ensures
            old(self)@.disabled ==> final(self)@ == hover_reset(old(self)@),
            !old(self)@.disabled && over_trigger ==> final(self)@.hover_start is Some
                && (old(self)@.hover_start is Some ==> final(self)@.hover_start == old(self)@.hover_start)
                && final(self)@ == (TooltipModel {
                    hover_trigger: true,
                    hover_start: final(self)@.hover_start,
                    ..old(self)@
                }),
            !old(self)@.disabled && !over_trigger && over_panel ==> exists|e: int|
                #![trigger shows_after(old(self)@, e)]
                e >= 0 && (old(self)@.hover_start is None ==> e == 0) && final(self)@ == (if shows_after(
                    old(self)@,
                    e,
                ) {
                    TooltipModel { hover_trigger: true, hover_panel: true, ..old(self)@ }
                } else {
                    hover_reset(old(self)@)
                }),
            !old(self)@.disabled && !over_trigger && !over_panel ==> final(self)@ == hover_reset(old(self)@),
    {
        let panel_hit = over_panel && self.should_show();
        self.update_hover_with(over_trigger, panel_hit);
    }

    /// Whether a frame is needed to show the label later: the pointer rests
    /// on the trigger of an enabled tooltip whose delay has not yet passed
    /// (`elapsed_ms` since the hover began).
    pub fn wants_redraw_after(&self, elapsed_ms: u128) -> (r: bool)
        ensures
            r == (!self@.disabled && !shows_after(self@, elapsed_ms as int) && self@.hover_trigger
                && self@.delay_ms > 0 && self@.hover_start is Some && elapsed_ms < self@.delay_ms),
    {
        if self.disabled || self.shows_after(elapsed_ms) {
            return false;
        }
        if !self.hover_trigger || self.delay_ms == 0 {
            return false;
        }
        match self.hover_start {
            Some(_) => elapsed_ms < self.delay_ms as u128,
            None => false,
        }
    }

    /// Milliseconds since the hover began (0 when not hovering).
    pub fn hover_age(&self) -> (r: u128)
        ensures
            self@.hover_start is None ==> r == 0,
    {
        match &self.hover_start {
            Some(t) => millis_since(t),
            None => 0,
        }
    }
}

/// Shorthand constructor.
pub fn tooltip(label: String) -> (r: Tooltip)
    ensures
        r@ == (TooltipModel {
            label: label@,
            side: PopoverSide::Top,
            align: PopoverAlign::Center,
            delay_ms: DEFAULT_DELAY_MS,
            disabled: false,
            hover_trigger: false,
            hover_panel: false,
            hover_start: None,
        }),
{
    Tooltip::new(label)
}

/// Law: the label never shows for a disabled tooltip or without a hover,
/// and once shown it stays shown as more time passes.
pub proof fn lemma_show_monotone(m: TooltipModel, e1: int, e2: int)
    requires
        e1 <= e2,
    ensures
        m.disabled || !hovering(m) ==> !shows_after(m, e1),
        shows_after(m, e1) ==> shows_after(m, e2),
{
}

} // verus!
