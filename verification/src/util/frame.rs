//! Frames: units of raw audio or video.

use vstd::prelude::*;
use crate::native::{Call, Kind, Reply, Step};
use crate::util::error::Error;

verus! {

/// A frame that this wrapper owns. The native library counts references to a
/// frame's buffers, so another owner of the same data is another frame.
#[derive(Debug, PartialEq, Eq, Hash)]
pub struct Frame {
    pub handle: usize,
}

impl Frame {
    /// Wraps a frame that the native library has just allocated.
    pub fn wrap(handle: usize) -> (frame: Frame)
        requires
            handle != 0,
        ensures
            frame == (Frame { handle }),
    {
        Frame { handle }
    }

    pub fn as_ptr(&self) -> (handle: usize)
        ensures
            handle == self.handle,
    {
        self.handle
    }

    pub fn as_mut_ptr(&mut self) -> (handle: usize)
        ensures
            handle == old(self).handle,
            *final(self) == *old(self),
    {
        self.handle
    }

    /// Making another owner of the same data: the native library makes a
    /// second frame that refers to the buffers of this one, and copies
    /// nothing. The second frame is a resource of its own, with a handle of
    /// its own. A native library that hands out no frame is a `Bug`.
    pub open spec fn share_spec(self, replies: Seq<Reply>) -> Step<(), Result<Frame, Error>> {
        if replies.len() == 0 {
            Step::Call(Call::ShareFrame { frame: self.handle }, ())
        } else if replies[0].handle == 0 {
            Step::Done(Err(Error::Bug))
        } else {
            Step::Done(Ok(Frame { handle: replies[0].handle }))
        }
    }

    /// Makes another frame that shares the data of this one.
    pub fn share(&self, replies: &[Reply]) -> (step: Step<(), Result<Frame, Error>>)
        ensures
            step == self.share_spec(replies@),
    {
        if replies.len() == 0 {
            Step::Call(Call::ShareFrame { frame: self.handle }, ())
        } else if replies[0].handle == 0 {
            Step::Done(Err(Error::Bug))
        } else {
            Step::Done(Ok(Frame { handle: replies[0].handle }))
        }
    }

    /// The call that destroys the frame.
    pub fn release(self) -> (calls: Vec<Call>)
        ensures
            calls@ == Kind::Frame.spec_release(self.handle),
    {
        Kind::Frame.release(self.handle)
    }
}

} // verus!
