//! Popover: a floating panel anchored to a trigger widget. Escape or a
//! press outside both the trigger and the panel closes it.
use crate::event::{EventKind, Key, MouseButton, Route};
use crate::overlay::{PopoverAlign, PopoverSide};
use vstd::prelude::*;

verus! {

pub ghost struct PopoverModel {
    pub open: bool,
    pub side: PopoverSide,
    pub align: PopoverAlign,
}

/// Where a popover sends an event, and whether the event closes it.
/// `in_panel`: the pointer lies on the open panel; `in_trigger`: it lies on
/// the trigger.
pub open spec fn popover_routing(m: PopoverModel, ev: EventKind, in_panel: bool, in_trigger: bool) -> (
    Route,
    bool,
) {
    match ev {
        EventKind::KeyDown(Key::Escape) if m.open => (Route::Consumed, true),
        EventKind::MouseDown(MouseButton::Left) => if m.open && in_panel {
            (Route::ToContent, false)
        } else if m.open && !in_trigger {
            (Route::Consumed, true)
        } else {
            (Route::ToTrigger, false)
        },
        EventKind::MouseUp(MouseButton::Left) | EventKind::MouseMove => if m.open && in_panel {
            (Route::ToContent, false)
        } else {
            (Route::ToTrigger, false)
        },
        EventKind::Scroll => if m.open && (in_panel || in_trigger) {
            (Route::Consumed, false)
        } else {
            (Route::Ignored, false)
        },
        _ => if m.open {
            (Route::ToContent, false)
        } else {
            (Route::ToTrigger, false)
        },
    }
}

pub struct Popover {
    open: bool,
    side: PopoverSide,
    align: PopoverAlign,
}

impl View for Popover {
    type V = PopoverModel;

    closed spec fn view(&self) -> PopoverModel {
        PopoverModel { open: self.open, side: self.side, align: self.align }
    }
}

impl Popover {
    /// A closed popover below its trigger, aligned to the trigger's start.
    pub fn new() -> (r: Self)
        ensures
            r@ == (PopoverModel { open: false, side: PopoverSide::Bottom, align: PopoverAlign::Start }),
    {
        Popover { open: false, side: PopoverSide::Bottom, align: PopoverAlign::Start }
    }

    pub fn side(self, side: PopoverSide) -> (r: Self)
        ensures
            r@ == (PopoverModel { side, ..self@ }),
    {
        Popover { side, ..self }
    }

    pub fn align(self, align: PopoverAlign) -> (r: Self)
        ensures
            r@ == (PopoverModel { align, ..self@ }),
    {
        Popover { align, ..self }
    }

    pub fn placement(&self) -> (r: (PopoverSide, PopoverAlign))
        ensures
            r == (self@.side, self@.align),
    {
        (self.side, self.align)
    }

    pub fn is_open(&self) -> (r: bool)
        ensures
            r == self@.open,
    {
        self.open
    }

    /// Opens or closes the popover (what its trigger does).
    pub fn set_open(&mut self, v: bool)
        ensures
            final(self)@ == (PopoverModel { open: v, ..old(self)@ }),
    {
        self.open = v;
    }

    /// Whether a point belongs to the popover: on the trigger, or on the
    /// panel while it is open.
    pub fn hit_test(&self, in_panel: bool, in_trigger: bool) -> (r: bool)
        ensures
            r == (in_trigger || (self@.open && in_panel)),
    {
        in_trigger || (self.open && in_panel)
    }

    /// Routes one event. Returns where it goes and whether it closed the
    /// popover (the caller then runs its close callback).
    pub fn handle_event(&mut self, ev: EventKind, in_panel: bool, in_trigger: bool) -> (r: (Route, bool))
        ensures
            r == popover_routing(old(self)@, ev, in_panel, in_trigger),
            final(self)@ == (PopoverModel { open: old(self)@.open && !r.1, ..old(self)@ }),
    {
        let open = self.open;
        let r = match ev {
            EventKind::KeyDown(Key::Escape) if open => (Route::Consumed, true),
            EventKind::MouseDown(MouseButton::Left) => if open && in_panel {
                (Route::ToContent, false)
            } else if open && !in_trigger {
                (Route::Consumed, true)
            } else {
                (Route::ToTrigger, false)
            },
            EventKind::MouseUp(MouseButton::Left) | EventKind::MouseMove => if open && in_panel {
                (Route::ToContent, false)
            } else {
                (Route::ToTrigger, false)
            },
            EventKind::Scroll => if open && (in_panel || in_trigger) {
                (Route::Consumed, false)
            } else {
                (Route::Ignored, false)
            },
            _ => if open {
                (Route::ToContent, false)
            } else {
                (Route::ToTrigger, false)
            },
        };
        if r.1 {
            self.open = false;
        }
        r
    }
}

/// A popover closes only while open, and only on Escape or on a left press
/// that lands on neither its panel nor its trigger.
pub proof fn lemma_popover_closes_only_on_dismiss(
    m: PopoverModel,
    ev: EventKind,
    in_panel: bool,
    in_trigger: bool,
)
    ensures
        popover_routing(m, ev, in_panel, in_trigger).1 <==> m.open && (ev == EventKind::KeyDown(
            Key::Escape,
        ) || (ev == EventKind::MouseDown(MouseButton::Left) && !in_panel && !in_trigger)),
{
}

/// A closed popover hands every event but a scroll to its trigger.
pub proof fn lemma_closed_popover_defers_to_trigger(
    m: PopoverModel,
    ev: EventKind,
    in_panel: bool,
    in_trigger: bool,
)
    requires
        !m.open,
        ev != EventKind::Scroll,
    ensures
        popover_routing(m, ev, in_panel, in_trigger) == (Route::ToTrigger, false),
{
}

} // verus!
