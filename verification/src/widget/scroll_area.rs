//! Scroll areas: which events drag a scrollbar thumb, turn the wheel, reach
//! the scrolled content, or are ignored. Offsets and thumb geometry are
//! measured by the backend and handed in as what the pointer hits.
use crate::event::EventKind;
use vstd::prelude::*;

verus! {

/// The pointer state of a scroll area.
#[derive(Debug, Clone, Copy, PartialEq, Eq, Structural)]
pub struct ScrollPointer {
    /// The vertical thumb is held.
    pub dragging_v: bool,
    /// The horizontal thumb is held.
    pub dragging_h: bool,
    /// The pointer was last seen over the viewport.
    pub hovered: bool,
}

impl ScrollPointer {
    /// Nothing held, pointer elsewhere.
    pub fn new() -> (r: Self)
        ensures
            !r.dragging_v && !r.dragging_h && !r.hovered,
    {
        ScrollPointer { dragging_v: false, dragging_h: false, hovered: false }
    }
}

/// What an event's pointer position hits, and whether its wheel delta can
/// move the content (some axis with room to scroll has a nonzero delta).
#[derive(Debug, Clone, Copy, PartialEq, Eq, Structural)]
pub struct ScrollHits {
    pub in_viewport: bool,
    pub on_v_thumb: bool,
    pub on_h_thumb: bool,
    pub wheel_moves: bool,
}

/// What the scroll area does with an event.
#[derive(Debug, Clone, Copy, PartialEq, Eq, Structural)]
pub enum ScrollAction {
    /// Scroll vertically to follow the held thumb; consumed.
    DragVertical,
    /// Scroll horizontally to follow the held thumb; consumed.
    DragHorizontal,
    /// A thumb was grabbed: remember the pointer and the offsets; consumed.
    Grab,
    /// Scroll by the wheel delta, kept within range; consumed.
    ScrollByWheel,
    /// Hand the event to the content, moved by the scroll offsets; the
    /// content's answer is the answer.
    Forward,
    /// Hand a pointer move to the content; ignored whatever it answers.
    ForwardMove,
    /// Ignored.
    Ignore,
}

/// The next pointer state and the action for an event of `kind` hitting `h`.
pub open spec fn scroll_step(s: ScrollPointer, kind: EventKind, h: ScrollHits) -> (ScrollPointer, ScrollAction) {
    match kind {
        EventKind::MouseMove => if s.dragging_v {
            (s, ScrollAction::DragVertical)
        } else if s.dragging_h {
            (s, ScrollAction::DragHorizontal)
        } else {
            (
                ScrollPointer { hovered: h.in_viewport, ..s },
                if h.in_viewport {
                    ScrollAction::ForwardMove
                } else {
                    ScrollAction::Ignore
                },
            )
        },
        EventKind::Scroll => (s, if h.in_viewport && h.wheel_moves {
            ScrollAction::ScrollByWheel
        } else {
            ScrollAction::Ignore
        }),
        EventKind::MouseDown(_) => if h.on_v_thumb {
            (ScrollPointer { dragging_v: true, ..s }, ScrollAction::Grab)
        } else if h.on_h_thumb {
            (ScrollPointer { dragging_h: true, ..s }, ScrollAction::Grab)
        } else if h.in_viewport {
            (s, ScrollAction::Forward)
        } else {
            (s, ScrollAction::Ignore)
        },
        EventKind::MouseUp(_) => (
            ScrollPointer { dragging_v: false, dragging_h: false, ..s },
            ScrollAction::Forward,
        ),
        EventKind::KeyDown(_) | EventKind::KeyUp(_) | EventKind::TextInput | EventKind::ImePreedit
        | EventKind::FocusGained | EventKind::FocusLost => (s, ScrollAction::Forward),
        _ => (s, ScrollAction::Ignore),
    }
}

/// Routes an event of `kind`, hitting `hits`, through a scroll area whose
/// pointer state is `state`: the next state and what to do.
pub fn route_scroll_event(state: ScrollPointer, kind: EventKind, hits: ScrollHits) -> (r: (ScrollPointer, ScrollAction))
    ensures
        r == scroll_step(state, kind, hits),
{
    match kind {
        EventKind::MouseMove => {
            if state.dragging_v {
                (state, ScrollAction::DragVertical)
            } else if state.dragging_h {
                (state, ScrollAction::DragHorizontal)
            } else {
                let next = ScrollPointer { hovered: hits.in_viewport, ..state };
                if hits.in_viewport {
                    (next, ScrollAction::ForwardMove)
                } else {
                    (next, ScrollAction::Ignore)
                }
            }
        },
        EventKind::Scroll => {
            if hits.in_viewport && hits.wheel_moves {
                (state, ScrollAction::ScrollByWheel)
            } else {
                (state, ScrollAction::Ignore)
            }
        },
        EventKind::MouseDown(_) => {
            if hits.on_v_thumb {
                (ScrollPointer { dragging_v: true, ..state }, ScrollAction::Grab)
            } else if hits.on_h_thumb {
                (ScrollPointer { dragging_h: true, ..state }, ScrollAction::Grab)
            } else if hits.in_viewport {
                (state, ScrollAction::Forward)
            } else {
                (state, ScrollAction::Ignore)
            }
        },
        EventKind::MouseUp(_) => (
            ScrollPointer { dragging_v: false, dragging_h: false, ..state },
            ScrollAction::Forward,
        ),
        EventKind::KeyDown(_) | EventKind::KeyUp(_) | EventKind::TextInput | EventKind::ImePreedit
        | EventKind::FocusGained | EventKind::FocusLost => (state, ScrollAction::Forward),
        _ => (state, ScrollAction::Ignore),
    }
}

/// Law: while a thumb is held, every pointer move drives the scroll and
/// none reaches the content; releasing any button lets go of both thumbs.
pub proof fn lemma_drag_holds_until_release(s: ScrollPointer, h: ScrollHits, b: crate::event::MouseButton)
    requires
        s.dragging_v || s.dragging_h,
    ensures
        scroll_step(s, EventKind::MouseMove, h).0 == s,
        scroll_step(s, EventKind::MouseMove, h).1 == ScrollAction::DragVertical || scroll_step(
            s,
            EventKind::MouseMove,
            h,
        ).1 == ScrollAction::DragHorizontal,
        !scroll_step(s, EventKind::MouseUp(b), h).0.dragging_v,
        !scroll_step(s, EventKind::MouseUp(b), h).0.dragging_h,
{
}

} // verus!
