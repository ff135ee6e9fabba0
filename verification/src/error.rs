//! Errors of the resources a shader needs.

use vstd::prelude::*;

verus! {

/// The error indicating some object is not set.
#[derive(Clone, Copy, Debug, PartialEq, Eq, Structural)]
pub enum NotSet {
    /// Returns when globals is not set.
    Globals,
    /// Returns when textures is not set.
    Textures,
    /// Returns when lights is not set.
    Lights,
    /// Returns when spaces is not set.
    Spaces,
}

/// Returned when an invalid buffer size is provided.
#[derive(Clone, Copy, Debug, PartialEq, Eq, Structural)]
pub struct InvalidSize;

} // verus!
