//! Badge: a small status label.
use vstd::prelude::*;

verus! {

/// Visual style for a badge.
#[derive(Debug, Clone, Copy, PartialEq, Eq, Structural)]
pub enum BadgeVariant {
    Default,
    Secondary,
    Destructive,
    Outline,
}

impl Default for BadgeVariant {
    fn default() -> (r: Self)
        ensures
            r == BadgeVariant::Default,
    {
        BadgeVariant::Default
    }
}

pub struct Badge {
    pub label: String,
    pub variant: BadgeVariant,
}

impl Badge {
    pub fn new(label: String) -> (r: Self)
        ensures
            r.label == label,
            r.variant == BadgeVariant::Default,
    {
        Badge { label, variant: BadgeVariant::Default }
    }

    pub fn variant(self, variant: BadgeVariant) -> (r: Self)
        ensures
            r.label == self.label,
            r.variant == variant,
    {
        Badge { variant, ..self }
    }

    /// Only the outline variant draws a border.
    pub fn has_border(&self) -> (r: bool)
        ensures
            r == (self.variant == BadgeVariant::Outline),
    {
        self.variant == BadgeVariant::Outline
    }
}

/// Shorthand constructor.
pub fn badge(label: String) -> (r: Badge)
    ensures
        r.label == label,
        r.variant == BadgeVariant::Default,
{
    Badge::new(label)
}

} // verus!
