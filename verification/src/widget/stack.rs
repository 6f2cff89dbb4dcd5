//! Stack alignment: where children sit inside the stack's bounds.
use vstd::prelude::*;

verus! {

/// How children are aligned within the Stack bounds.
#[derive(Debug, Clone, Copy, PartialEq, Eq, Structural)]
pub enum Alignment {
    TopLeft,
    TopCenter,
    TopRight,
    CenterLeft,
    Center,
    CenterRight,
    BottomLeft,
    BottomCenter,
    BottomRight,
}

impl Default for Alignment {
    fn default() -> (r: Self)
        ensures
            r == Alignment::TopLeft,
    {
        Alignment::TopLeft
    }
}

/// Placement along one axis.
#[derive(Debug, Clone, Copy, PartialEq, Eq, Structural)]
pub enum AxisPlacement {
    Start,
    Center,
    End,
}

impl Alignment {
    /// The horizontal part: left, center or right.
    pub fn horizontal(&self) -> (r: AxisPlacement)
        ensures
            r == match *self {
                Alignment::TopLeft | Alignment::CenterLeft | Alignment::BottomLeft => AxisPlacement::Start,
                Alignment::TopCenter | Alignment::Center | Alignment::BottomCenter => AxisPlacement::Center,
                _ => AxisPlacement::End,
            },
    {
        match self {
            Alignment::TopLeft | Alignment::CenterLeft | Alignment::BottomLeft => AxisPlacement::Start,
            Alignment::TopCenter | Alignment::Center | Alignment::BottomCenter => AxisPlacement::Center,
            Alignment::TopRight | Alignment::CenterRight | Alignment::BottomRight => AxisPlacement::End,
        }
    }

    /// The vertical part: top, center or bottom.
    pub fn vertical(&self) -> (r: AxisPlacement)
        ensures
            r == match *self {
                Alignment::TopLeft | Alignment::TopCenter | Alignment::TopRight => AxisPlacement::Start,
                Alignment::CenterLeft | Alignment::Center | Alignment::CenterRight => AxisPlacement::Center,
                _ => AxisPlacement::End,
            },
    {
        match self {
            Alignment::TopLeft | Alignment::TopCenter | Alignment::TopRight => AxisPlacement::Start,
            Alignment::CenterLeft | Alignment::Center | Alignment::CenterRight => AxisPlacement::Center,
            Alignment::BottomLeft | Alignment::BottomCenter | Alignment::BottomRight => AxisPlacement::End,
        }
    }
}

} // verus!
