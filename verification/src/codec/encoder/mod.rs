//! Encoding: lookup, the encoder and its typed forms.

use vstd::prelude::*;
use crate::codec::codec::Codec;
use crate::native::{Call, Reply, Step};

pub mod audio;
pub mod encoder;
pub mod subtitle;
pub mod video;

pub use self::audio::Audio;
pub use self::encoder::Encoder;
pub use self::subtitle::Subtitle;
pub use self::video::Video;

verus! {

/// Looking an encoder up: one call, and the codec that the native library
/// answers is taken as it is. Where it has several for `id`, the choice is
/// its own, its first in the order of registration; no preference is applied
/// here. A null handle in the reply is none.
pub open spec fn find_spec(id: i32, replies: Seq<Reply>) -> Step<(), Option<Codec>> {
    if replies.len() == 0 {
        Step::Call(Call::FindEncoder { id }, ())
    } else if replies[0].handle == 0 {
        Step::Done(None)
    } else {
        Step::Done(Some(Codec { handle: replies[0].handle }))
    }
}

/// Looks up the encoder for a codec identifier.
pub fn find(id: i32, replies: &[Reply]) -> (step: Step<(), Option<Codec>>)
    ensures
        step == find_spec(id, replies@),
{
    if replies.len() == 0 {
        Step::Call(Call::FindEncoder { id }, ())
    } else if replies[0].handle == 0 {
        Step::Done(None)
    } else {
        Step::Done(Some(Codec { handle: replies[0].handle }))
    }
}

} // verus!
