//! The encoder of audio: configured first, then opened.

use vstd::prelude::*;
use crate::codec::codec::Codec;
use crate::codec::encoder::encoder::Encoder as Super;
use crate::native::{Reply, Step};
use crate::util::error::Error;

verus! {

/// An encoder of audio that is being configured.
#[derive(Debug, PartialEq, Eq, Hash)]
pub struct Audio(pub Super);

/// An encoder of audio that has been opened.
#[derive(Debug, PartialEq, Eq, Hash)]
pub struct Encoder(pub Audio);

impl Audio {
    /// Opening, told of the typed encoder.
    pub open spec fn open_spec(self, codec: Option<Codec>, replies: Seq<Reply>) -> Step<
        Audio,
        Result<Encoder, Error>,
    > {
        match self.0.open_spec(codec, replies) {
            Step::Call(call, encoder) => Step::Call(call, Audio(encoder)),
            Step::Done(Ok(encoder)) => Step::Done(Ok(Encoder(Audio(encoder)))),
            Step::Done(Err(error)) => Step::Done(Err(error)),
        }
    }

    /// Opens the encoder with the codec that its context is bound to.
    pub fn open(self, replies: &[Reply]) -> (step: Step<Audio, Result<Encoder, Error>>)
        ensures
            step == self.open_spec(None, replies@),
    {
        match self.0.open(None, replies) {
            Step::Call(call, encoder) => Step::Call(call, Audio(encoder)),
            Step::Done(Ok(encoder)) => Step::Done(Ok(Encoder(Audio(encoder)))),
            Step::Done(Err(error)) => Step::Done(Err(error)),
        }
    }

    /// Opens the encoder with `codec`; a codec that cannot encode is
    /// `EncoderNotFound`.
    pub fn open_as(self, codec: Codec, replies: &[Reply]) -> (step: Step<Audio, Result<Encoder, Error>>)
        ensures
            step == self.open_spec(Some(codec), replies@),
    {
        match self.0.open(Some(codec), replies) {
            Step::Call(call, encoder) => Step::Call(call, Audio(encoder)),
            Step::Done(Ok(encoder)) => Step::Done(Ok(Encoder(Audio(encoder)))),
            Step::Done(Err(error)) => Step::Done(Err(error)),
        }
    }
}

} // verus!
