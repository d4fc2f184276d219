//! Which frames a decoder may skip.

use vstd::prelude::*;

verus! {

/// A discard level, from nothing to everything.
#[derive(Clone, Copy, Debug, PartialEq, Eq, Hash)]
pub enum Discard {
    Nothing,
    Default,
    NonReference,
    Bidirectional,
    NonIntra,
    NonKey,
    All,
}

impl Discard {
    /// The native enumerator of this level.
    pub open spec fn spec_code(self) -> i32 {
        match self {
            Discard::Nothing => -16i32,
            Discard::Default => 0,
            Discard::NonReference => 8,
            Discard::Bidirectional => 16,
            Discard::NonIntra => 24,
            Discard::NonKey => 32,
            Discard::All => 48,
        }
    }

    /// The native enumerator of this level.
    pub fn code(self) -> (code: i32)
        ensures
            code == self.spec_code(),
    {
        match self {
            Discard::Nothing => -16,
            Discard::Default => 0,
            Discard::NonReference => 8,
            Discard::Bidirectional => 16,
            Discard::NonIntra => 24,
            Discard::NonKey => 32,
            Discard::All => 48,
        }
    }
}

} // verus!
