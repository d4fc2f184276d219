//! Scaling contexts: one picture size and pixel format into another.

use vstd::prelude::*;
use crate::native::{Call, Kind, Reply, Step};
use crate::util::error::Error;
use crate::util::format::Pixel;

verus! {

/// Scaling algorithms, as a set of native flag bits.
#[derive(Clone, Copy, Debug, PartialEq, Eq, Hash)]
pub struct Flags(pub i32);

/// The flag of the fast bilinear algorithm.
pub const FAST_BILINEAR: i32 = 1;

/// One side of a scaling: a pixel format and a size.
#[derive(Clone, Copy, Debug, PartialEq, Eq, Hash)]
pub struct Definition {
    pub format: Pixel,
    pub width: u32,
    pub height: u32,
}

/// A scaling context that this wrapper owns, with the two sides it was made
/// for.
#[derive(Debug, PartialEq, Eq, Hash)]
pub struct Context {
    pub handle: usize,
    pub input: Definition,
    pub output: Definition,
}

impl Flags {
    pub fn bits(&self) -> (bits: i32)
        ensures
            bits == self.0,
    {
        self.0
    }
}

impl Context {
    /// Making a scaling context: one call, which is given the sizes as the
    /// native library counts them, in 32 signed bits. A null handle in the
    /// reply is `InvalidData`: the native library takes no such scaling.
    pub open spec fn get_spec(
        source: Definition,
        target: Definition,
        flags: Flags,
        replies: Seq<Reply>,
    ) -> Step<(), Result<Context, Error>> {
        if replies.len() == 0 {
            Step::Call(
                Call::GetScaler {
                    source_format: source.format.0,
                    source_width: source.width as i32,
                    source_height: source.height as i32,
                    target_format: target.format.0,
                    target_width: target.width as i32,
                    target_height: target.height as i32,
                    flags: flags.0,
                },
                (),
            )
        } else if replies[0].handle == 0 {
            Step::Done(Err(Error::InvalidData))
        } else {
            Step::Done(Ok(Context { handle: replies[0].handle, input: source, output: target }))
        }
    }

    /// Makes a scaling context from one format and size to another.
    pub fn get(
        src_format: Pixel,
        src_w: u32,
        src_h: u32,
        dst_format: Pixel,
        dst_w: u32,
        dst_h: u32,
        flags: Flags,
        replies: &[Reply],
    ) -> (step: Step<(), Result<Context, Error>>)
        ensures
            step == Self::get_spec(
                Definition { format: src_format, width: src_w, height: src_h },
                Definition { format: dst_format, width: dst_w, height: dst_h },
                flags,
                replies@,
            ),
    {
        let input = Definition { format: src_format, width: src_w, height: src_h };
        let output = Definition { format: dst_format, width: dst_w, height: dst_h };
        if replies.len() == 0 {
            Step::Call(
                Call::GetScaler {
                    source_format: src_format.0,
                    source_width: #[verifier::truncate] (src_w as i32),
                    source_height: #[verifier::truncate] (src_h as i32),
                    target_format: dst_format.0,
                    target_width: #[verifier::truncate] (dst_w as i32),
                    target_height: #[verifier::truncate] (dst_h as i32),
                    flags: flags.0,
                },
                (),
            )
        } else if replies[0].handle == 0 {
            Step::Done(Err(Error::InvalidData))
        } else {
            Step::Done(Ok(Context { handle: replies[0].handle, input, output }))
        }
    }

    pub fn as_ptr(&self) -> (handle: usize)
        ensures
            handle == self.handle,
    {
        self.handle
    }

    /// The call that destroys the scaling context.
    pub fn release(self) -> (calls: Vec<Call>)
        ensures
            calls@ == Kind::Scaler.spec_release(self.handle),
    {
        Kind::Scaler.release(self.handle)
    }
}

} // verus!
