//! The encoder: configuration before it is opened, frames in and packets out
//! after.

use vstd::prelude::*;
use libc::c_int;
use crate::codec::codec::{Codec, Role};
use crate::codec::context::{Context, Stage};
use crate::codec::encoder::{audio, subtitle, video};
use crate::codec::packet::Packet;
use crate::native::{release_then_fail, released, Call, Field, Kind, Reply, Step};
use crate::util::error::Error;
use crate::util::frame::Frame;
use crate::util::media::Type;

verus! {

/// A codec context that is to encode.
///
/// Its context's stage gates what it does: parameters are set while it is
/// unopened, frames are sent while it is ready, packets are received while it
/// is ready or draining. Anything else is `InvalidState`, decided before the
/// native library is touched.
#[derive(Debug, PartialEq, Eq, Hash)]
pub struct Encoder(pub Context);

impl Context {
    /// Takes the context as an encoder.
    pub fn encoder(self) -> (encoder: Encoder)
        ensures
            encoder == Encoder(self),
    {
        Encoder(self)
    }
}

impl Encoder {
    /// Taking the encoder for one medium: the context's media kind is read;
    /// an unknown kind is set to `medium`, `medium` itself is accepted, and
    /// any other kind is `InvalidData`: the context is freed before that is
    /// reported.
    pub open(crate) spec fn typed_spec(self, medium: Type, replies: Seq<Reply>) -> Step<
        Encoder,
        Result<Encoder, Error>,
    > {
        if replies.len() == 0 {
            Step::Call(Call::Read { object: self.0.handle, field: Field::CodecType }, self)
        } else if Type::of(replies[0].status) is Unknown {
            if replies.len() == 1 {
                Step::Call(
                    Call::Write {
                        object: self.0.handle,
                        field: Field::CodecType,
                        value: medium.spec_code() as i64,
                    },
                    self,
                )
            } else {
                Step::Done(Ok(self))
            }
        } else if Type::of(replies[0].status) == medium {
            Step::Done(Ok(self))
        } else {
            released(Kind::Codec, self.0.handle, Error::InvalidData, self, 1, replies)
        }
    }

    fn typed(self, medium: Type, replies: &[Reply]) -> (step: Step<Encoder, Result<Encoder, Error>>)
        ensures
            step == self.typed_spec(medium, replies@),
    {
        let handle = self.0.handle;
        if replies.len() == 0 {
            Step::Call(self.0.medium(), self)
        } else {
            let found = Type::from(replies[0].status);
            if found == Type::Unknown {
                if replies.len() == 1 {
                    Step::Call(
                        Call::Write {
                            object: handle,
                            field: Field::CodecType,
                            value: medium.code() as i64,
                        },
                        self,
                    )
                } else {
                    Step::Done(Ok(self))
                }
            } else if found == medium {
                Step::Done(Ok(self))
            } else {
                release_then_fail(Kind::Codec, handle, Error::InvalidData, self, 1, replies)
            }
        }
    }

    /// Taking the encoder as a video encoder.
    pub open spec fn video_spec(self, replies: Seq<Reply>) -> Step<
        Encoder,
        Result<video::Video, Error>,
    > {
        match self.typed_spec(Type::Video, replies) {
            Step::Call(call, encoder) => Step::Call(call, encoder),
            Step::Done(Ok(encoder)) => Step::Done(Ok(video::Video(encoder))),
            Step::Done(Err(error)) => Step::Done(Err(error)),
        }
    }

    /// Takes the encoder as a video encoder. A context of unknown media kind
    /// becomes a video context; one of another kind is `InvalidData`.
    pub fn video(self, replies: &[Reply]) -> (step: Step<Encoder, Result<video::Video, Error>>)
        ensures
            step == self.video_spec(replies@),
    {
        match self.typed(Type::Video, replies) {
            Step::Call(call, encoder) => Step::Call(call, encoder),
            Step::Done(Ok(encoder)) => Step::Done(Ok(video::Video(encoder))),
            Step::Done(Err(error)) => Step::Done(Err(error)),
        }
    }

    /// Taking the encoder as an audio encoder.
    pub open spec fn audio_spec(self, replies: Seq<Reply>) -> Step<
        Encoder,
        Result<audio::Audio, Error>,
    > {
        match self.typed_spec(Type::Audio, replies) {
            Step::Call(call, encoder) => Step::Call(call, encoder),
            Step::Done(Ok(encoder)) => Step::Done(Ok(audio::Audio(encoder))),
            Step::Done(Err(error)) => Step::Done(Err(error)),
        }
    }

    /// Takes the encoder as an audio encoder. A context of unknown media kind
    /// becomes an audio context; one of another kind is `InvalidData`.
    pub fn audio(self, replies: &[Reply]) -> (step: Step<Encoder, Result<audio::Audio, Error>>)
        ensures
            step == self.audio_spec(replies@),
    {
        match self.typed(Type::Audio, replies) {
            Step::Call(call, encoder) => Step::Call(call, encoder),
            Step::Done(Ok(encoder)) => Step::Done(Ok(audio::Audio(encoder))),
            Step::Done(Err(error)) => Step::Done(Err(error)),
        }
    }

    /// Taking the encoder as a subtitle encoder.
    pub open spec fn subtitle_spec(self, replies: Seq<Reply>) -> Step<
        Encoder,
        Result<subtitle::Subtitle, Error>,
    > {
        match self.typed_spec(Type::Subtitle, replies) {
            Step::Call(call, encoder) => Step::Call(call, encoder),
            Step::Done(Ok(encoder)) => Step::Done(Ok(subtitle::Subtitle(encoder))),
            Step::Done(Err(error)) => Step::Done(Err(error)),
        }
    }

    /// Takes the encoder as a subtitle encoder. A context of unknown media
    /// kind becomes a subtitle context; one of another kind is `InvalidData`.
    pub fn subtitle(self, replies: &[Reply]) -> (step: Step<
        Encoder,
        Result<subtitle::Subtitle, Error>,
    >)
        ensures
            step == self.subtitle_spec(replies@),
    {
        match self.typed(Type::Subtitle, replies) {
            Step::Call(call, encoder) => Step::Call(call, encoder),
            Step::Done(Ok(encoder)) => Step::Done(Ok(subtitle::Subtitle(encoder))),
            Step::Done(Err(error)) => Step::Done(Err(error)),
        }
    }

    /// Opening, told of the encoder: with `codec` if there is one, which is
    /// first asked whether it can encode, else with the codec that the
    /// context is bound to.
    pub open spec fn open_spec(self, codec: Option<Codec>, replies: Seq<Reply>) -> Step<
        Encoder,
        Result<Encoder, Error>,
    > {
        let step = match codec {
            Some(codec) => self.0.open_as_spec(codec, Role::Encode, 0, replies),
            None => self.0.open_spec(0, 0, replies),
        };
        match step {
            Step::Call(call, context) => Step::Call(call, Encoder(context)),
            Step::Done(Ok(context)) => Step::Done(Ok(Encoder(context))),
            Step::Done(Err(error)) => Step::Done(Err(error)),
        }
    }

    /// Opens the encoder, with `codec` or with the codec that its context is
    /// bound to. A codec that cannot encode is `EncoderNotFound`; an encoder
    /// that is not unopened is `InvalidState`.
    pub fn open(self, codec: Option<Codec>, replies: &[Reply]) -> (step: Step<
        Encoder,
        Result<Encoder, Error>,
    >)
        ensures
            step == self.open_spec(codec, replies@),
    {
        let step = match codec {
            Some(codec) => self.0.open_as(codec, Role::Encode, 0, replies),
            None => self.0.open(0, 0, replies),
        };
        match step {
            Step::Call(call, context) => Step::Call(call, Encoder(context)),
            Step::Done(Ok(context)) => Step::Done(Ok(Encoder(context))),
            Step::Done(Err(error)) => Step::Done(Err(error)),
        }
    }

    /// Sends one frame to the encoder. Only a ready encoder takes frames; a
    /// null frame is the end-of-input signal, as `send_eof` sends it. A
    /// negative status is the failure, the host's "would block" when the
    /// native buffers are full.
    pub fn send_frame(&mut self, frame: &Frame, replies: &[Reply]) -> (step: Step<
        (),
        Result<(), Error>,
    >)
        ensures
            step == old(self).0.sent_spec(
                Call::SendFrame { context: old(self).0.ptr(), frame: frame.handle },
                replies@,
            ),
            final(self).0.ptr() == old(self).0.ptr(),
            final(self).0.stage() == old(self).0.sent_stage(frame.handle == 0, replies@),
    {
        let call = Call::SendFrame { context: self.0.handle, frame: frame.handle };
        self.0.send(call, frame.handle == 0, replies)
    }

    /// Signals the end of input by sending the null frame: the encoder
    /// starts to drain, and takes no more frames.
    pub fn send_eof(&mut self, replies: &[Reply]) -> (step: Step<(), Result<(), Error>>)
        ensures
            step == old(self).0.sent_spec(
                Call::SendFrame { context: old(self).0.ptr(), frame: 0 },
                replies@,
            ),
            final(self).0.ptr() == old(self).0.ptr(),
            final(self).0.stage() == old(self).0.sent_stage(true, replies@),
    {
        let call = Call::SendFrame { context: self.0.handle, frame: 0 };
        self.0.send(call, true, replies)
    }

    /// Asks the encoder for one packet, on a host whose `errno` for "would
    /// block" is `again`. A ready encoder that needs more input reports that
    /// `errno`; an encoder that has nothing left reports `Eof` and is spent.
    pub fn receive_packet(&mut self, packet: &mut Packet, replies: &[Reply], again: i32) -> (step:
        Step<(), Result<(), Error>>)
        ensures
            step == old(self).0.received_spec(
                Call::ReceivePacket { context: old(self).0.ptr(), packet: old(packet).handle },
                replies@,
                again,
            ),
            final(self).0.ptr() == old(self).0.ptr(),
            final(self).0.stage() == old(self).0.received_stage(replies@, again),
            *final(packet) == *old(packet),
    {
        let call = Call::ReceivePacket { context: self.0.handle, packet: packet.handle };
        self.0.receive(call, replies, again)
    }

    /// Setting a parameter: the write of `value` to `field`, for an unopened
    /// encoder; an opened one no longer takes parameters.
    pub open(crate) spec fn set_spec(self, field: Field, value: i64) -> Result<Call, Error> {
        if self.0.stage is Unopened {
            Ok(Call::Write { object: self.0.handle, field, value })
        } else {
            Err(Error::InvalidState)
        }
    }

    fn set(&self, field: Field, value: i64) -> (call: Result<Call, Error>)
        ensures
            call == self.set_spec(field, value),
    {
        if self.0.stage == Stage::Unopened {
            Ok(Call::Write { object: self.0.handle, field, value })
        } else {
            Err(Error::InvalidState)
        }
    }

    /// Sets the target bit rate, in bits per second.
    pub fn set_bit_rate(&mut self, value: usize) -> (call: Result<Call, Error>)
        ensures
            call == old(self).set_spec(Field::BitRate, value as i64),
            *final(self) == *old(self),
    {
        self.set(Field::BitRate, #[verifier::truncate] (value as i64))
    }

    /// Sets the highest bit rate that the encoder may reach.
    pub fn set_max_bit_rate(&mut self, value: usize) -> (call: Result<Call, Error>)
        ensures
            call == old(self).set_spec(Field::MaxBitRate, value as i64),
            *final(self) == *old(self),
    {
        self.set(Field::MaxBitRate, #[verifier::truncate] (value as i64))
    }

    /// Sets how far the bit rate may stray from its target. The native field
    /// is 32 bits wide, and takes the low 32 bits of `value`.
    pub fn set_tolerance(&mut self, value: usize) -> (call: Result<Call, Error>)
        ensures
            call == old(self).set_spec(Field::BitRateTolerance, (value as i32) as i64),
            *final(self) == *old(self),
    {
        let narrow: c_int = #[verifier::truncate] (value as c_int);
        self.set(Field::BitRateTolerance, narrow as i64)
    }

    /// Sets the global quality. The native field is 32 bits wide, and takes
    /// the low 32 bits of `value`.
    pub fn set_quality(&mut self, value: usize) -> (call: Result<Call, Error>)
        ensures
            call == old(self).set_spec(Field::GlobalQuality, (value as i32) as i64),
            *final(self) == *old(self),
    {
        let narrow: c_int = #[verifier::truncate] (value as c_int);
        self.set(Field::GlobalQuality, narrow as i64)
    }

    /// The compression level that is written for `value`: the low 32 bits of
    /// a given level, and -1, the codec's own default, for none.
    pub open spec fn compression_spec(value: Option<usize>) -> i64 {
        match value {
            Some(level) => (level as i32) as i64,
            None => -1i64,
        }
    }

    /// Sets the compression level, or with `None` leaves it to the codec.
    pub fn set_compression(&mut self, value: Option<usize>) -> (call: Result<Call, Error>)
        ensures
            call == old(self).set_spec(Field::CompressionLevel, Self::compression_spec(value)),
            *final(self) == *old(self),
    {
        match value {
            Some(level) => {
                let narrow: c_int = #[verifier::truncate] (level as c_int);
                self.set(Field::CompressionLevel, narrow as i64)
            },
            None => self.set(Field::CompressionLevel, -1),
        }
    }
}

} // verus!
