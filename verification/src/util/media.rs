//! The kinds of media that a stream or a codec can carry.

use vstd::prelude::*;
use vstd::std_specs::convert::FromSpecImpl;

verus! {

/// The kind of media. The set is closed: whatever the native library reports
/// beyond these five kinds is `Unknown`.
#[derive(Clone, Copy, Debug, PartialEq, Eq, Hash, Structural)]
pub enum Type {
    Unknown,
    Video,
    Audio,
    Data,
    Subtitle,
    Attachment,
}

impl Type {
    /// The kind that a native enumerator stands for.
    pub open spec fn of(code: i32) -> Type {
        if code == 0 {
            Type::Video
        } else if code == 1 {
            Type::Audio
        } else if code == 2 {
            Type::Data
        } else if code == 3 {
            Type::Subtitle
        } else if code == 4 {
            Type::Attachment
        } else {
            Type::Unknown
        }
    }

    /// The native enumerator of this kind.
    pub open spec fn spec_code(self) -> i32 {
        match self {
            Type::Unknown => -1i32,
            Type::Video => 0,
            Type::Audio => 1,
            Type::Data => 2,
            Type::Subtitle => 3,
            Type::Attachment => 4,
        }
    }

    /// The native enumerator of this kind.
    pub fn code(self) -> (code: i32)
        ensures
            code == self.spec_code(),
    {
        match self {
            Type::Unknown => -1,
            Type::Video => 0,
            Type::Audio => 1,
            Type::Data => 2,
            Type::Subtitle => 3,
            Type::Attachment => 4,
        }
    }
}

impl From<i32> for Type {
    /// Reads a native enumerator.
    fn from(code: i32) -> (kind: Type) {
        match code {
            0 => Type::Video,
            1 => Type::Audio,
            2 => Type::Data,
            3 => Type::Subtitle,
            4 => Type::Attachment,
            _ => Type::Unknown,
        }
    }
}

impl FromSpecImpl<i32> for Type {
    open spec fn obeys_from_spec() -> bool {
        true
    }

    open spec fn from_spec(code: i32) -> Type {
        Type::of(code)
    }
}

/// A kind survives the way to its enumerator and back.
pub proof fn kind_survives_its_code(kind: Type)
    ensures
        Type::of(kind.spec_code()) == kind,
{
}

} // verus!
