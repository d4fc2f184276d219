//! A codec implementation of the native library.

use vstd::prelude::*;

verus! {

/// A codec that the native library has registered. Codecs are never freed.
#[derive(Clone, Copy, Debug, PartialEq, Eq, Hash)]
pub struct Codec {
    pub handle: usize,
}

impl Codec {
    /// Wraps a codec that a lookup produced.
    pub fn wrap(handle: usize) -> (codec: Codec)
        requires
            handle != 0,
        ensures
            codec == (Codec { handle }),
    {
        Codec { handle }
    }

    pub fn as_ptr(&self) -> (handle: usize)
        ensures
            handle == self.handle,
    {
        self.handle
    }
}

/// What a codec is asked to do.
#[derive(Clone, Copy, Debug, PartialEq, Eq, Hash, Structural)]
pub enum Role {
    Decode,
    Encode,
}

} // verus!
