//! Layout vocabulary.
use vstd::prelude::*;

verus! {

/// Display mode of a layout node.
#[derive(Debug, Clone, Copy, PartialEq, Eq, Structural)]
pub enum DisplayMode {
    Flex,
    Grid,
    Block,
    /// Not displayed (`display: none`).
    Hidden,
}

impl Default for DisplayMode {
    fn default() -> (r: Self)
        ensures
            r == DisplayMode::Flex,
    {
        DisplayMode::Flex
    }
}

} // verus!
