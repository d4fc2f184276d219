//! Option and metadata dictionaries.
//!
//! The pairs of a dictionary live in the native library; a wrapper owns the
//! handle. The empty dictionary is the null handle. A native call that takes
//! a dictionary for in/out use may free it and put another in its place, so
//! the wrapper is disowned before such a call and whatever handle the call
//! leaves is owned again after it, whether it succeeded or not.

use vstd::prelude::*;
use crate::native::{Call, Kind};

verus! {

/// A dictionary that this wrapper owns.
#[derive(Debug, PartialEq, Eq, Hash)]
pub struct Owned {
    handle: usize,
}

impl Owned {
    /// The handle that this wrapper owns.
    pub closed spec fn ptr(self) -> usize {
        self.handle
    }

    /// The empty dictionary.
    pub fn new() -> (dictionary: Owned)
        ensures
            dictionary.ptr() == 0,
    {
        Owned { handle: 0 }
    }

    /// Takes ownership of a dictionary that the native library left behind.
    pub fn own(handle: usize) -> (dictionary: Owned)
        ensures
            dictionary.ptr() == handle,
    {
        Owned { handle }
    }

    /// Gives the handle up: from here on no wrapper owns it.
    pub fn disown(self) -> (handle: usize)
        ensures
            handle == self.ptr(),
    {
        self.handle
    }

    pub fn as_ptr(&self) -> (handle: usize)
        ensures
            handle == self.ptr(),
    {
        self.handle
    }

    /// The call that destroys the dictionary.
    pub fn release(self) -> (calls: Vec<Call>)
        ensures
            calls@ == Kind::Dictionary.spec_release(self.ptr()),
    {
        Kind::Dictionary.release(self.handle)
    }
}

/// Owning a disowned handle again gives back the wrapper that was disowned:
/// a wrapper is its handle and nothing else, so the wrapper that is made of
/// the handle of another is that other.
pub proof fn own_undoes_disown(disowned: Owned, owned: Owned)
    requires
        owned.ptr() == disowned.ptr(),
    ensures
        owned == disowned,
{
}

} // verus!
