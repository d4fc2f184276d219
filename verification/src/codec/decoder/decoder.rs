//! The decoder before it is opened.

use vstd::prelude::*;
use crate::codec::codec::{Codec, Role};
use crate::codec::context::{Context, Stage};
use crate::codec::decoder::{Audio, Check, Conceal, Opened, Subtitle, Video};
use crate::codec::discard::Discard;
use crate::native::{release_then_fail, released, Call, Field, Kind, Reply, Step};
use crate::util::dictionary::Owned;
use crate::util::error::Error;
use crate::util::media::Type;
use crate::util::rational::Rational;

verus! {

/// A codec context that is to decode, not yet opened. Opening consumes it.
#[derive(Debug, PartialEq, Eq, Hash)]
pub struct Decoder(pub Context);

/// An opening of a context, told as the opening of a decoder.
pub open spec fn as_opening(step: Step<Context, Result<Context, Error>>) -> Step<
    Decoder,
    Result<Opened, Error>,
> {
    match step {
        Step::Call(call, context) => Step::Call(call, Decoder(context)),
        Step::Done(Ok(context)) => Step::Done(Ok(Opened(Decoder(context)))),
        Step::Done(Err(error)) => Step::Done(Err(error)),
    }
}

/// An opening of a context with options, told as the opening of a decoder.
pub open spec fn as_opening_with(step: Step<(Context, Owned), Result<Context, Error>>) -> Step<
    (Decoder, Owned),
    Result<Opened, Error>,
> {
    match step {
        Step::Call(call, (context, options)) => Step::Call(call, (Decoder(context), options)),
        Step::Done(Ok(context)) => Step::Done(Ok(Opened(Decoder(context)))),
        Step::Done(Err(error)) => Step::Done(Err(error)),
    }
}

fn opening(step: Step<Context, Result<Context, Error>>) -> (told: Step<
    Decoder,
    Result<Opened, Error>,
>)
    ensures
        told == as_opening(step),
{
    match step {
        Step::Call(call, context) => Step::Call(call, Decoder(context)),
        Step::Done(Ok(context)) => Step::Done(Ok(Opened(Decoder(context)))),
        Step::Done(Err(error)) => Step::Done(Err(error)),
    }
}

impl Context {
    /// Takes the context as a decoder.
    pub fn decoder(self) -> (decoder: Decoder)
        ensures
            decoder == Decoder(self),
    {
        Decoder(self)
    }
}

impl Decoder {
    /// Opening with the codec that the context is already bound to.
    pub open spec fn open_spec(self, replies: Seq<Reply>) -> Step<Decoder, Result<Opened, Error>> {
        as_opening(self.0.open_spec(0, 0, replies))
    }

    /// Opens the decoder with the codec that its context is bound to: one
    /// native call, and status 0 is success. On any other status the context
    /// is freed, and the status is reported as the failure.
    pub fn open(self, replies: &[Reply]) -> (step: Step<Decoder, Result<Opened, Error>>)
        ensures
            step == self.open_spec(replies@),
    {
        opening(self.0.open(0, 0, replies))
    }

    /// Opening with a given codec.
    pub open spec fn open_as_spec(self, codec: Codec, replies: Seq<Reply>) -> Step<
        Decoder,
        Result<Opened, Error>,
    > {
        as_opening(self.0.open_as_spec(codec, Role::Decode, 0, replies))
    }

    /// Opens the decoder with `codec`. A codec that cannot decode is
    /// `DecoderNotFound`, and then the context is freed unopened.
    pub fn open_as(self, codec: Codec, replies: &[Reply]) -> (step: Step<
        Decoder,
        Result<Opened, Error>,
    >)
        ensures
            step == self.open_as_spec(codec, replies@),
    {
        opening(self.0.open_as(codec, Role::Decode, 0, replies))
    }

    /// Opening with a given codec and options.
    pub open spec fn open_as_with_spec(self, codec: Codec, options: Owned, replies: Seq<Reply>) -> Step<
        (Decoder, Owned),
        Result<Opened, Error>,
    > {
        as_opening_with(self.0.open_as_with_spec(codec, Role::Decode, options, replies))
    }

    /// Opens the decoder with `codec` and an options dictionary. The
    /// dictionary is consumed: whatever the native library leaves of it is
    /// freed right after the opening call, on success and on failure.
    pub fn open_as_with(self, codec: Codec, options: Owned, replies: &[Reply]) -> (step: Step<
        (Decoder, Owned),
        Result<Opened, Error>,
    >)
        ensures
            step == self.open_as_with_spec(codec, options, replies@),
    {
        match self.0.open_as_with(codec, Role::Decode, options, replies) {
            Step::Call(call, (context, options)) => Step::Call(call, (Decoder(context), options)),
            Step::Done(Ok(context)) => Step::Done(Ok(Opened(Decoder(context)))),
            Step::Done(Err(error)) => Step::Done(Err(error)),
        }
    }

    /// Opening with `codec`, from reply `at` on, for a decoder of one medium:
    /// after the opening, the context's media kind is read, and a context of
    /// another kind is `InvalidData`: it is freed before that is reported.
    pub open(crate) spec fn open_for_spec(self, codec: Codec, medium: Type, at: int, replies: Seq<Reply>) -> Step<
        Decoder,
        Result<Opened, Error>,
    > {
        match self.0.open_as_spec(codec, Role::Decode, at, replies) {
            Step::Call(call, context) => Step::Call(call, Decoder(context)),
            Step::Done(Err(error)) => Step::Done(Err(error)),
            Step::Done(Ok(context)) => {
                if replies.len() <= at + 2 {
                    Step::Call(
                        Call::Read { object: self.0.handle, field: Field::CodecType },
                        self,
                    )
                } else if Type::of(replies[at + 2].status) == medium {
                    Step::Done(Ok(Opened(Decoder(context))))
                } else {
                    released(
                        Kind::Codec,
                        self.0.handle,
                        Error::InvalidData,
                        self,
                        at + 3,
                        replies,
                    )
                }
            },
        }
    }

    fn open_for(self, codec: Codec, medium: Type, at: usize, replies: &[Reply]) -> (step: Step<
        Decoder,
        Result<Opened, Error>,
    >)
        requires
            at <= 3,
        ensures
            step == self.open_for_spec(codec, medium, at as int, replies@),
    {
        let handle = self.0.handle;
        match self.0.open_as(codec, Role::Decode, at, replies) {
            Step::Call(call, context) => Step::Call(call, Decoder(context)),
            Step::Done(Err(error)) => Step::Done(Err(error)),
            Step::Done(Ok(context)) => {
                let given = Decoder(Context { handle, stage: Stage::Unopened });
                if replies.len() <= at + 2 {
                    Step::Call(Call::Read { object: handle, field: Field::CodecType }, given)
                } else if Type::from(replies[at + 2].status) == medium {
                    Step::Done(Ok(Opened(Decoder(context))))
                } else {
                    release_then_fail(
                        Kind::Codec,
                        handle,
                        Error::InvalidData,
                        given,
                        at + 3,
                        replies,
                    )
                }
            },
        }
    }

    /// Choosing the codec and opening with it, for a decoder of one medium.
    ///
    /// If the context is already bound to a codec, that codec is taken. Else
    /// the codec is looked up by the context's codec identifier, and the
    /// codec that the native library answers is taken; where it has none,
    /// the decoder is `DecoderNotFound`. A decoder that is not unopened is
    /// `InvalidState`. Whatever the failure, the context is freed before it
    /// is reported.
    pub open(crate) spec fn select_spec(self, medium: Type, replies: Seq<Reply>) -> Step<
        Decoder,
        Result<Opened, Error>,
    > {
        if !(self.0.stage is Unopened) {
            released(Kind::Codec, self.0.handle, Error::InvalidState, self, 0, replies)
        } else if replies.len() == 0 {
            Step::Call(Call::Read { object: self.0.handle, field: Field::Codec }, self)
        } else if replies[0].handle != 0 {
            self.open_for_spec(Codec { handle: replies[0].handle }, medium, 1, replies)
        } else if replies.len() == 1 {
            Step::Call(Call::Read { object: self.0.handle, field: Field::CodecId }, self)
        } else if replies.len() == 2 {
            Step::Call(Call::FindDecoder { id: replies[1].status }, self)
        } else if replies[2].handle == 0 {
            released(Kind::Codec, self.0.handle, Error::DecoderNotFound, self, 3, replies)
        } else {
            self.open_for_spec(Codec { handle: replies[2].handle }, medium, 3, replies)
        }
    }

    fn select(self, medium: Type, replies: &[Reply]) -> (step: Step<Decoder, Result<Opened, Error>>)
        ensures
            step == self.select_spec(medium, replies@),
    {
        let handle = self.0.handle;
        if self.0.stage != Stage::Unopened {
            release_then_fail(Kind::Codec, handle, Error::InvalidState, self, 0, replies)
        } else if replies.len() == 0 {
            Step::Call(self.0.codec(), self)
        } else if replies[0].handle != 0 {
            self.open_for(Codec { handle: replies[0].handle }, medium, 1, replies)
        } else if replies.len() == 1 {
            Step::Call(self.0.id(), self)
        } else if replies.len() == 2 {
            Step::Call(Call::FindDecoder { id: replies[1].status }, self)
        } else if replies[2].handle == 0 {
            release_then_fail(Kind::Codec, handle, Error::DecoderNotFound, self, 3, replies)
        } else {
            self.open_for(Codec { handle: replies[2].handle }, medium, 3, replies)
        }
    }

    /// Opening as a video decoder.
    pub open spec fn video_spec(self, replies: Seq<Reply>) -> Step<Decoder, Result<Video, Error>> {
        match self.select_spec(Type::Video, replies) {
            Step::Call(call, decoder) => Step::Call(call, decoder),
            Step::Done(Ok(opened)) => Step::Done(Ok(Video(opened))),
            Step::Done(Err(error)) => Step::Done(Err(error)),
        }
    }

    /// Opens the decoder as a video decoder: with the codec that the context
    /// is bound to, else with the first decoder that the native library has
    /// for the context's codec identifier, else `DecoderNotFound`. A context
    /// that turns out not to carry video is `InvalidData`.
    pub fn video(self, replies: &[Reply]) -> (step: Step<Decoder, Result<Video, Error>>)
        ensures
            step == self.video_spec(replies@),
    {
        match self.select(Type::Video, replies) {
            Step::Call(call, decoder) => Step::Call(call, decoder),
            Step::Done(Ok(opened)) => Step::Done(Ok(Video(opened))),
            Step::Done(Err(error)) => Step::Done(Err(error)),
        }
    }

    /// Opening as an audio decoder.
    pub open spec fn audio_spec(self, replies: Seq<Reply>) -> Step<Decoder, Result<Audio, Error>> {
        match self.select_spec(Type::Audio, replies) {
            Step::Call(call, decoder) => Step::Call(call, decoder),
            Step::Done(Ok(opened)) => Step::Done(Ok(Audio(opened))),
            Step::Done(Err(error)) => Step::Done(Err(error)),
        }
    }

    /// Opens the decoder as an audio decoder: with the codec that the context
    /// is bound to, else with the first decoder that the native library has
    /// for the context's codec identifier, else `DecoderNotFound`. A context
    /// that turns out not to carry audio is `InvalidData`.
    pub fn audio(self, replies: &[Reply]) -> (step: Step<Decoder, Result<Audio, Error>>)
        ensures
            step == self.audio_spec(replies@),
    {
        match self.select(Type::Audio, replies) {
            Step::Call(call, decoder) => Step::Call(call, decoder),
            Step::Done(Ok(opened)) => Step::Done(Ok(Audio(opened))),
            Step::Done(Err(error)) => Step::Done(Err(error)),
        }
    }

    /// Opening as a subtitle decoder.
    pub open spec fn subtitle_spec(self, replies: Seq<Reply>) -> Step<
        Decoder,
        Result<Subtitle, Error>,
    > {
        match self.select_spec(Type::Subtitle, replies) {
            Step::Call(call, decoder) => Step::Call(call, decoder),
            Step::Done(Ok(opened)) => Step::Done(Ok(Subtitle(opened))),
            Step::Done(Err(error)) => Step::Done(Err(error)),
        }
    }

    /// Opens the decoder as a subtitle decoder: with the codec that the
    /// context is bound to, else with the first decoder that the native
    /// library has for the context's codec identifier, else
    /// `DecoderNotFound`. A context that turns out not to carry subtitles is
    /// `InvalidData`.
    pub fn subtitle(self, replies: &[Reply]) -> (step: Step<Decoder, Result<Subtitle, Error>>)
        ensures
            step == self.subtitle_spec(replies@),
    {
        match self.select(Type::Subtitle, replies) {
            Step::Call(call, decoder) => Step::Call(call, decoder),
            Step::Done(Ok(opened)) => Step::Done(Ok(Subtitle(opened))),
            Step::Done(Err(error)) => Step::Done(Err(error)),
        }
    }

    /// The write that sets how damaged data is concealed.
    pub fn conceal(&mut self, value: Conceal) -> (call: Call)
        ensures
            call == (Call::Write {
                object: old(self).0.ptr(),
                field: Field::ErrorConcealment,
                value: value.0 as i64,
            }),
            *final(self) == *old(self),
    {
        Call::Write { object: self.0.handle, field: Field::ErrorConcealment, value: value.0 as i64 }
    }

    /// The write that sets how strictly the input is checked.
    pub fn check(&mut self, value: Check) -> (call: Call)
        ensures
            call == (Call::Write {
                object: old(self).0.ptr(),
                field: Field::ErrorRecognition,
                value: value.0 as i64,
            }),
            *final(self) == *old(self),
    {
        Call::Write { object: self.0.handle, field: Field::ErrorRecognition, value: value.0 as i64 }
    }

    /// The write that sets which frames skip the loop filter.
    pub fn skip_loop_filter(&mut self, value: Discard) -> (call: Call)
        ensures
            call == (Call::Write {
                object: old(self).0.ptr(),
                field: Field::SkipLoopFilter,
                value: value.spec_code() as i64,
            }),
            *final(self) == *old(self),
    {
        Call::Write {
            object: self.0.handle,
            field: Field::SkipLoopFilter,
            value: value.code() as i64,
        }
    }

    /// The write that sets which frames skip the inverse transform.
    pub fn skip_idct(&mut self, value: Discard) -> (call: Call)
        ensures
            call == (Call::Write {
                object: old(self).0.ptr(),
                field: Field::SkipIdct,
                value: value.spec_code() as i64,
            }),
            *final(self) == *old(self),
    {
        Call::Write { object: self.0.handle, field: Field::SkipIdct, value: value.code() as i64 }
    }

    /// The write that sets which frames are not decoded at all.
    pub fn skip_frame(&mut self, value: Discard) -> (call: Call)
        ensures
            call == (Call::Write {
                object: old(self).0.ptr(),
                field: Field::SkipFrame,
                value: value.spec_code() as i64,
            }),
            *final(self) == *old(self),
    {
        Call::Write { object: self.0.handle, field: Field::SkipFrame, value: value.code() as i64 }
    }

    /// Reading the time base of the packets: numerator, then denominator.
    pub open(crate) spec fn packet_time_base_spec(self, replies: Seq<Reply>) -> Step<(), Rational> {
        if replies.len() == 0 {
            Step::Call(
                Call::Read { object: self.0.handle, field: Field::PacketTimeBaseNumerator },
                (),
            )
        } else if replies.len() == 1 {
            Step::Call(
                Call::Read { object: self.0.handle, field: Field::PacketTimeBaseDenominator },
                (),
            )
        } else {
            Step::Done(Rational(replies[0].status, replies[1].status))
        }
    }

    /// Reads the time base in which the packets' time stamps count.
    pub fn packet_time_base(&self, replies: &[Reply]) -> (step: Step<(), Rational>)
        ensures
            step == self.packet_time_base_spec(replies@),
    {
        if replies.len() == 0 {
            Step::Call(
                Call::Read { object: self.0.handle, field: Field::PacketTimeBaseNumerator },
                (),
            )
        } else if replies.len() == 1 {
            Step::Call(
                Call::Read { object: self.0.handle, field: Field::PacketTimeBaseDenominator },
                (),
            )
        } else {
            Step::Done(Rational(replies[0].status, replies[1].status))
        }
    }

    /// The two writes that set the time base of the packets: numerator, then
    /// denominator.
    pub fn set_packet_time_base(&mut self, value: Rational) -> (calls: (Call, Call))
        ensures
            calls.0 == (Call::Write {
                object: old(self).0.ptr(),
                field: Field::PacketTimeBaseNumerator,
                value: value.0 as i64,
            }),
            calls.1 == (Call::Write {
                object: old(self).0.ptr(),
                field: Field::PacketTimeBaseDenominator,
                value: value.1 as i64,
            }),
            *final(self) == *old(self),
    {
        (
            Call::Write {
                object: self.0.handle,
                field: Field::PacketTimeBaseNumerator,
                value: value.0 as i64,
            },
            Call::Write {
                object: self.0.handle,
                field: Field::PacketTimeBaseDenominator,
                value: value.1 as i64,
            },
        )
    }
}

} // verus!
