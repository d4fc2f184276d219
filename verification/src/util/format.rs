//! Pixel and sample formats, and channel layouts, by their native numbers.

use vstd::prelude::*;

verus! {

/// A pixel format, by its native enumerator.
#[derive(Clone, Copy, Debug, PartialEq, Eq, Hash)]
pub struct Pixel(pub i32);

/// A sample format, by its native enumerator.
#[derive(Clone, Copy, Debug, PartialEq, Eq, Hash)]
pub struct Sample(pub i32);

/// A channel layout, as the mask of the channels it has.
#[derive(Clone, Copy, Debug, PartialEq, Eq, Hash)]
pub struct ChannelLayout(pub u64);

} // verus!
