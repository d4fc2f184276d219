//! What every other part of the crate rests on: the error taxonomy, media
//! kinds, rationals, option dictionaries and the interrupt bridge.

use vstd::prelude::*;
use crate::native::{Library, Reply, Step};

pub mod dictionary;
pub mod error;
pub mod format;
pub mod frame;
pub mod interrupt;
pub mod media;
pub mod rational;



verus! {

/// Asks the library behind this module for its version number.
pub fn version(replies: &[Reply]) -> (step: Step<(), u32>)
    ensures
        step == crate::native::version_spec(Library::Util, replies@),
{
    crate::native::version(Library::Util, replies)
}

} // verus!
