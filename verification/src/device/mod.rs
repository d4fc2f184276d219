//! Capture and playback devices.

use vstd::prelude::*;
use crate::native::{Call, Library, Reply, Step};

verus! {

/// What the native library tells about one device. The list that the record
/// belongs to owns it: an `Info` is a view, and frees nothing.
#[derive(Debug, PartialEq, Eq, Hash)]
pub struct Info {
    pub handle: usize,
}

impl Info {
    /// Wraps one record of a device list.
    pub fn wrap(handle: usize) -> (info: Info)
        requires
            handle != 0,
        ensures
            info == (Info { handle }),
    {
        Info { handle }
    }

    pub fn as_ptr(&self) -> (handle: usize)
        ensures
            handle == self.handle,
    {
        self.handle
    }

    pub fn as_mut_ptr(&mut self) -> (handle: usize)
        ensures
            handle == old(self).handle,
            *final(self) == *old(self),
    {
        self.handle
    }
}

/// The call that registers every input and output device.
pub fn register_all() -> (call: Call)
    ensures
        call == Call::RegisterDevices,
{
    Call::RegisterDevices
}

/// Asks the library behind this module for its version number.
pub fn version(replies: &[Reply]) -> (step: Step<(), u32>)
    ensures
        step == crate::native::version_spec(Library::Device, replies@),
{
    crate::native::version(Library::Device, replies)
}

} // verus!
