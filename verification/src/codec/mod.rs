//! Codecs: lookup, contexts, and the decoder and encoder built on them.

use vstd::prelude::*;
use crate::native::{Library, Reply, Step};

pub mod codec;
pub mod context;
pub mod decoder;
pub mod discard;
pub mod encoder;
pub mod laws;
pub mod loopback;
pub mod packet;

pub use self::codec::Codec;
pub use self::context::Context;
pub use self::discard::Discard;
pub use self::packet::Packet;

verus! {

/// Asks the library behind this module for its version number.
pub fn version(replies: &[Reply]) -> (step: Step<(), u32>)
    ensures
        step == crate::native::version_spec(Library::Codec, replies@),
{
    crate::native::version(Library::Codec, replies)
}

} // verus!
