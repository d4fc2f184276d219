//! Decoding: lookup, the opened decoder and its typed forms.

use vstd::prelude::*;
use crate::codec::codec::Codec;
use crate::codec::packet::Packet;
use crate::native::{release_then_fail, released, Call, Field, Kind, Reply, Step};
use crate::util::error::Error;
use crate::util::frame::Frame;
use crate::util::media::Type;

pub mod decoder;

pub use self::decoder::Decoder;

verus! {

/// Ways of concealing damage, as a set of native flag bits.
#[derive(Clone, Copy, Debug, PartialEq, Eq, Hash)]
pub struct Conceal(pub i32);

/// Ways of checking the input, as a set of native flag bits.
#[derive(Clone, Copy, Debug, PartialEq, Eq, Hash)]
pub struct Check(pub i32);

impl Conceal {
    pub fn bits(&self) -> (bits: i32)
        ensures
            bits == self.0,
    {
        self.0
    }
}

impl Check {
    pub fn bits(&self) -> (bits: i32)
        ensures
            bits == self.0,
    {
        self.0
    }
}

/// A decoder that has been opened: it takes packets and gives frames.
#[derive(Debug, PartialEq, Eq, Hash)]
pub struct Opened(pub Decoder);

/// An opened decoder of video.
#[derive(Debug, PartialEq, Eq, Hash)]
pub struct Video(pub Opened);

/// An opened decoder of audio.
#[derive(Debug, PartialEq, Eq, Hash)]
pub struct Audio(pub Opened);

/// An opened decoder of subtitles.
#[derive(Debug, PartialEq, Eq, Hash)]
pub struct Subtitle(pub Opened);

/// Looking a decoder up: one call, and the codec that the native library
/// answers is taken as it is. Where it has several for `id`, the choice is
/// its own, its first in the order of registration; no preference is applied
/// here. A null handle in the reply is none.
pub open(crate) spec fn find_spec(id: i32, replies: Seq<Reply>) -> Step<(), Option<Codec>> {
    if replies.len() == 0 {
        Step::Call(Call::FindDecoder { id }, ())
    } else if replies[0].handle == 0 {
        Step::Done(None)
    } else {
        Step::Done(Some(Codec { handle: replies[0].handle }))
    }
}

/// Looks up the decoder for a codec identifier.
pub fn find(id: i32, replies: &[Reply]) -> (step: Step<(), Option<Codec>>)
    ensures
        step == find_spec(id, replies@),
{
    if replies.len() == 0 {
        Step::Call(Call::FindDecoder { id }, ())
    } else if replies[0].handle == 0 {
        Step::Done(None)
    } else {
        Step::Done(Some(Codec { handle: replies[0].handle }))
    }
}

impl Opened {
    /// Narrowing to one medium: the context's media kind is read, and an
    /// opened decoder of another kind is `InvalidData`: its context is freed
    /// before that is reported.
    pub open(crate) spec fn narrow_spec(self, medium: Type, replies: Seq<Reply>) -> Step<
        Opened,
        Result<Opened, Error>,
    > {
        if replies.len() == 0 {
            Step::Call(Call::Read { object: self.0.0.handle, field: Field::CodecType }, self)
        } else if Type::of(replies[0].status) == medium {
            Step::Done(Ok(self))
        } else {
            released(Kind::Codec, self.0.0.handle, Error::InvalidData, self, 1, replies)
        }
    }

    fn narrow(self, medium: Type, replies: &[Reply]) -> (step: Step<Opened, Result<Opened, Error>>)
        ensures
            step == self.narrow_spec(medium, replies@),
    {
        let handle = self.0.0.handle;
        if replies.len() == 0 {
            Step::Call(self.0.0.medium(), self)
        } else if Type::from(replies[0].status) == medium {
            Step::Done(Ok(self))
        } else {
            release_then_fail(Kind::Codec, handle, Error::InvalidData, self, 1, replies)
        }
    }

    pub open spec fn video_spec(self, replies: Seq<Reply>) -> Step<Opened, Result<Video, Error>> {
        match self.narrow_spec(Type::Video, replies) {
            Step::Call(call, opened) => Step::Call(call, opened),
            Step::Done(Ok(opened)) => Step::Done(Ok(Video(opened))),
            Step::Done(Err(error)) => Step::Done(Err(error)),
        }
    }

    /// Takes the opened decoder as a video decoder, `InvalidData` if its
    /// context carries anything else.
    pub fn video(self, replies: &[Reply]) -> (step: Step<Opened, Result<Video, Error>>)
        ensures
            step == self.video_spec(replies@),
    {
        match self.narrow(Type::Video, replies) {
            Step::Call(call, opened) => Step::Call(call, opened),
            Step::Done(Ok(opened)) => Step::Done(Ok(Video(opened))),
            Step::Done(Err(error)) => Step::Done(Err(error)),
        }
    }

    pub open spec fn audio_spec(self, replies: Seq<Reply>) -> Step<Opened, Result<Audio, Error>> {
        match self.narrow_spec(Type::Audio, replies) {
            Step::Call(call, opened) => Step::Call(call, opened),
            Step::Done(Ok(opened)) => Step::Done(Ok(Audio(opened))),
            Step::Done(Err(error)) => Step::Done(Err(error)),
        }
    }

    /// Takes the opened decoder as an audio decoder, `InvalidData` if its
    /// context carries anything else.
    pub fn audio(self, replies: &[Reply]) -> (step: Step<Opened, Result<Audio, Error>>)
        ensures
            step == self.audio_spec(replies@),
    {
        match self.narrow(Type::Audio, replies) {
            Step::Call(call, opened) => Step::Call(call, opened),
            Step::Done(Ok(opened)) => Step::Done(Ok(Audio(opened))),
            Step::Done(Err(error)) => Step::Done(Err(error)),
        }
    }

    pub open spec fn subtitle_spec(self, replies: Seq<Reply>) -> Step<
        Opened,
        Result<Subtitle, Error>,
    > {
        match self.narrow_spec(Type::Subtitle, replies) {
            Step::Call(call, opened) => Step::Call(call, opened),
            Step::Done(Ok(opened)) => Step::Done(Ok(Subtitle(opened))),
            Step::Done(Err(error)) => Step::Done(Err(error)),
        }
    }

    /// Takes the opened decoder as a subtitle decoder, `InvalidData` if its
    /// context carries anything else.
    pub fn subtitle(self, replies: &[Reply]) -> (step: Step<Opened, Result<Subtitle, Error>>)
        ensures
            step == self.subtitle_spec(replies@),
    {
        match self.narrow(Type::Subtitle, replies) {
            Step::Call(call, opened) => Step::Call(call, opened),
            Step::Done(Ok(opened)) => Step::Done(Ok(Subtitle(opened))),
            Step::Done(Err(error)) => Step::Done(Err(error)),
        }
    }

    /// Sends one packet to the decoder. Only a ready decoder takes packets;
    /// a null packet is the end-of-input signal, as `send_eof` sends it.
    pub fn send_packet(&mut self, packet: &Packet, replies: &[Reply]) -> (step: Step<
        (),
        Result<(), Error>,
    >)
        ensures
            step == old(self).0.0.sent_spec(
                Call::SendPacket { context: old(self).0.0.ptr(), packet: packet.handle },
                replies@,
            ),
            final(self).0.0.ptr() == old(self).0.0.ptr(),
            final(self).0.0.stage() == old(self).0.0.sent_stage(packet.handle == 0, replies@),
    {
        let call = Call::SendPacket { context: self.0.0.handle, packet: packet.handle };
        self.0.0.send(call, packet.handle == 0, replies)
    }

    /// Signals the end of input: the decoder starts to drain, and takes no
    /// more packets.
    pub fn send_eof(&mut self, replies: &[Reply]) -> (step: Step<(), Result<(), Error>>)
        ensures
            step == old(self).0.0.sent_spec(
                Call::SendPacket { context: old(self).0.0.ptr(), packet: 0 },
                replies@,
            ),
            final(self).0.0.ptr() == old(self).0.0.ptr(),
            final(self).0.0.stage() == old(self).0.0.sent_stage(true, replies@),
    {
        let call = Call::SendPacket { context: self.0.0.handle, packet: 0 };
        self.0.0.send(call, true, replies)
    }

    /// Asks the decoder for one frame, on a host whose `errno` for "would
    /// block" is `again`. A ready decoder that needs more input reports that
    /// `errno`; a decoder that has nothing left reports `Eof` and is spent.
    pub fn receive_frame(&mut self, frame: &mut Frame, replies: &[Reply], again: i32) -> (step:
        Step<(), Result<(), Error>>)
        ensures
            step == old(self).0.0.received_spec(
                Call::ReceiveFrame { context: old(self).0.0.ptr(), frame: old(frame).handle },
                replies@,
                again,
            ),
            final(self).0.0.ptr() == old(self).0.0.ptr(),
            final(self).0.0.stage() == old(self).0.0.received_stage(replies@, again),
            *final(frame) == *old(frame),
    {
        let call = Call::ReceiveFrame { context: self.0.0.handle, frame: frame.handle };
        self.0.0.receive(call, replies, again)
    }
}

} // verus!
