//! Packets: units of compressed data with their timing.

use vstd::prelude::*;
use crate::native::{Call, Kind};

verus! {

/// A packet that this wrapper owns.
#[derive(Debug, PartialEq, Eq, Hash)]
pub struct Packet {
    pub handle: usize,
}

impl Packet {
    /// Wraps a packet that the native library has just allocated.
    pub fn wrap(handle: usize) -> (packet: Packet)
        requires
            handle != 0,
        ensures
            packet == (Packet { handle }),
    {
        Packet { handle }
    }

    pub fn as_ptr(&self) -> (handle: usize)
        ensures
            handle == self.handle,
    {
        self.handle
    }

    pub fn as_mut_ptr(&mut self) -> (handle: usize)
        ensures
            handle == old(self).handle,
            *final(self) == *old(self),
    {
        self.handle
    }

    /// The call that destroys the packet.
    pub fn release(self) -> (calls: Vec<Call>)
        ensures
            calls@ == Kind::Packet.spec_release(self.handle),
    {
        Kind::Packet.release(self.handle)
    }
}

} // verus!
