//! Sliders: how focus, keys and the pointer grab, move and release the
//! thumb. The value itself (a float on a range, snapped to a step) is kept
//! by the backend, which performs the action each event asks for.
use crate::event::{EventKind, EventStatus, Key, MouseButton};
use crate::style::CursorStyle;
use vstd::prelude::*;

verus! {

/// The interaction state of a slider.
#[derive(Debug, Clone, Copy, PartialEq, Eq, Structural)]
pub struct SliderState {
    pub disabled: bool,
    pub focused: bool,
    /// The thumb is held by the pointer.
    pub dragging: bool,
}

/// What an event does to the slider's value.
#[derive(Debug, Clone, Copy, PartialEq, Eq, Structural)]
pub enum SliderAction {
    /// The value stays.
    Keep,
    /// One step up.
    StepUp,
    /// One step down.
    StepDown,
    /// To the range's minimum.
    ToMin,
    /// To the range's maximum.
    ToMax,
    /// To the point of the track under the pointer.
    FollowPointer,
}

/// The next state, the action and the answer for an event of `kind`;
/// `on_slider`: the event's pointer is on the track or the thumb.
pub open spec fn slider_step(s: SliderState, kind: EventKind, on_slider: bool) -> (SliderState, SliderAction, EventStatus) {
    let keyed = |a: SliderAction|
        if s.focused {
            (s, a, EventStatus::Consumed)
        } else {
            (s, SliderAction::Keep, EventStatus::Ignored)
        };
    if s.disabled {
        (s, SliderAction::Keep, EventStatus::Ignored)
    } else {
        match kind {
            EventKind::FocusGained => (
                SliderState { focused: true, ..s },
                SliderAction::Keep,
                EventStatus::Ignored,
            ),
            EventKind::FocusLost => (
                SliderState { focused: false, dragging: false, ..s },
                SliderAction::Keep,
                EventStatus::Ignored,
            ),
            EventKind::KeyDown(Key::ArrowRight) | EventKind::KeyDown(Key::ArrowUp) => keyed(
                SliderAction::StepUp,
            ),
            EventKind::KeyDown(Key::ArrowLeft) | EventKind::KeyDown(Key::ArrowDown) => keyed(
                SliderAction::StepDown,
            ),
            EventKind::KeyDown(Key::Home) => keyed(SliderAction::ToMin),
            EventKind::KeyDown(Key::End) => keyed(SliderAction::ToMax),
            EventKind::MouseMove => if s.dragging {
                (s, SliderAction::FollowPointer, EventStatus::Consumed)
            } else {
                (s, SliderAction::Keep, EventStatus::Ignored)
            },
            EventKind::MouseDown(MouseButton::Left) => if on_slider {
                (SliderState { dragging: true, ..s }, SliderAction::FollowPointer, EventStatus::Consumed)
            } else {
                (s, SliderAction::Keep, EventStatus::Ignored)
            },
            EventKind::MouseUp(MouseButton::Left) => if s.dragging {
                (SliderState { dragging: false, ..s }, SliderAction::Keep, EventStatus::Consumed)
            } else {
                (s, SliderAction::Keep, EventStatus::Ignored)
            },
            _ => (s, SliderAction::Keep, EventStatus::Ignored),
        }
    }
}

impl SliderState {
    /// An enabled slider, neither focused nor held.
    pub fn new() -> (r: Self)
        ensures
            !r.disabled && !r.focused && !r.dragging,
    {
        SliderState { disabled: false, focused: false, dragging: false }
    }

    /// Enable or disable the slider.
    pub fn disabled(self, v: bool) -> (r: Self)
        ensures
            r == (SliderState { disabled: v, ..self }),
    {
        SliderState { disabled: v, ..self }
    }

    /// Only an enabled slider takes the keyboard focus.
    pub fn focusable(&self) -> (r: bool)
        ensures
            r == !self.disabled,
    {
        !self.disabled
    }

    /// Handles an event of `kind`; `on_slider`: its pointer is on the track
    /// or the thumb. Returns what to do to the value, and the answer.
    pub fn handle_event(&mut self, kind: EventKind, on_slider: bool) -> (r: (SliderAction, EventStatus))
        ensures
            (*final(self), r.0, r.1) == slider_step(*old(self), kind, on_slider),
    {
        if self.disabled {
            return (SliderAction::Keep, EventStatus::Ignored);
        }
        let step_key = match kind {
            EventKind::KeyDown(Key::ArrowRight) | EventKind::KeyDown(Key::ArrowUp) => Some(
                SliderAction::StepUp,
            ),
            EventKind::KeyDown(Key::ArrowLeft) | EventKind::KeyDown(Key::ArrowDown) => Some(
                SliderAction::StepDown,
            ),
            EventKind::KeyDown(Key::Home) => Some(SliderAction::ToMin),
            EventKind::KeyDown(Key::End) => Some(SliderAction::ToMax),
            _ => None,
        };
        if let Some(a) = step_key {
            return if self.focused {
                (a, EventStatus::Consumed)
            } else {
                (SliderAction::Keep, EventStatus::Ignored)
            };
        }
        match kind {
            EventKind::FocusGained => {
                self.focused = true;
                (SliderAction::Keep, EventStatus::Ignored)
            },
            EventKind::FocusLost => {
                self.focused = false;
                self.dragging = false;
                (SliderAction::Keep, EventStatus::Ignored)
            },
            EventKind::MouseMove => if self.dragging {
                (SliderAction::FollowPointer, EventStatus::Consumed)
            } else {
                (SliderAction::Keep, EventStatus::Ignored)
            },
            EventKind::MouseDown(MouseButton::Left) => if on_slider {
                self.dragging = true;
                (SliderAction::FollowPointer, EventStatus::Consumed)
            } else {
                (SliderAction::Keep, EventStatus::Ignored)
            },
            EventKind::MouseUp(MouseButton::Left) => if self.dragging {
                self.dragging = false;
                (SliderAction::Keep, EventStatus::Consumed)
            } else {
                (SliderAction::Keep, EventStatus::Ignored)
            },
            _ => (SliderAction::Keep, EventStatus::Ignored),
        }
    }

    /// The pointer shows a hand over the track or thumb of an enabled slider.
    pub fn cursor_style(&self, on_slider: bool) -> (r: CursorStyle)
        ensures
            r == (if !self.disabled && on_slider {
                CursorStyle::Pointer
            } else {
                CursorStyle::Default
            }),
    {
        if !self.disabled && on_slider {
            CursorStyle::Pointer
        } else {
            CursorStyle::Default
        }
    }
}

/// Law: a held thumb stays held until the left button is released or the
/// slider loses the focus, and while held every pointer move is consumed
/// and moves the value.
pub proof fn lemma_drag_until_release(s: SliderState, kind: EventKind, on_slider: bool)
    requires
        !s.disabled,
        s.dragging,
    ensures
        !slider_step(s, kind, on_slider).0.dragging <==> (kind == EventKind::MouseUp(MouseButton::Left)
            || kind == EventKind::FocusLost),
        kind == EventKind::MouseMove ==> slider_step(s, kind, on_slider).1 == SliderAction::FollowPointer
            && slider_step(s, kind, on_slider).2 == EventStatus::Consumed,
{
}

/// Law: without the focus, keys never change the value.
pub proof fn lemma_keys_need_focus(s: SliderState, k: Key, on_slider: bool)
    requires
        !s.focused,
    ensures
        slider_step(s, EventKind::KeyDown(k), on_slider).1 == SliderAction::Keep,
        slider_step(s, EventKind::KeyDown(k), on_slider).2 == EventStatus::Ignored,
{
}

} // verus!
