//! Divider orientation.
use vstd::prelude::*;

verus! {

#[derive(Debug, Clone, Copy, PartialEq, Eq, Structural)]
pub enum DividerAxis {
    Horizontal,
    Vertical,
}

} // verus!
