//! Overlay placement vocabulary (anchor side and alignment of popups).
use vstd::prelude::*;

verus! {

/// Which edge of the anchor the popup attaches to.
#[derive(Debug, Clone, Copy, PartialEq, Eq, Structural)]
pub enum PopoverSide {
    Bottom,
    Top,
    Left,
    Right,
}

impl Default for PopoverSide {
    fn default() -> (r: Self)
        ensures
            r == PopoverSide::Bottom,
    {
        PopoverSide::Bottom
    }
}

/// Alignment along the anchor edge.
#[derive(Debug, Clone, Copy, PartialEq, Eq, Structural)]
pub enum PopoverAlign {
    Start,
    Center,
    End,
}

impl Default for PopoverAlign {
    fn default() -> (r: Self)
        ensures
            r == PopoverAlign::Start,
    {
        PopoverAlign::Start
    }
}

} // verus!
