//! Zero-sized markers denoting the four std140 alignment requirements.

use vstd::prelude::*;

verus! {

/// Marker for a 4-byte alignment requirement.
#[derive(Clone, Copy, Debug, PartialEq, Eq, Structural)]
pub struct Align4;

/// Marker for an 8-byte alignment requirement.
#[derive(Clone, Copy, Debug, PartialEq, Eq, Structural)]
pub struct Align8;

/// Marker for a 16-byte alignment requirement.
#[derive(Clone, Copy, Debug, PartialEq, Eq, Structural)]
pub struct Align16;

/// Marker for a 32-byte alignment requirement.
#[derive(Clone, Copy, Debug, PartialEq, Eq, Structural)]
pub struct Align32;

impl Align4 {
    /// The numeric alignment this marker denotes.
    pub fn value(&self) -> (r: usize)
        ensures
            r == 4,
    {
        4
    }
}

impl Align8 {
    /// The numeric alignment this marker denotes.
    pub fn value(&self) -> (r: usize)
        ensures
            r == 8,
    {
        8
    }
}

impl Align16 {
    /// The numeric alignment this marker denotes.
    pub fn value(&self) -> (r: usize)
        ensures
            r == 16,
    {
        16
    }
}

impl Align32 {
    /// The numeric alignment this marker denotes.
    pub fn value(&self) -> (r: usize)
        ensures
            r == 32,
    {
        32
    }
}

} // verus!
