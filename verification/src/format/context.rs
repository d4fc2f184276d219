//! Container contexts: an input that is read, an output that is written.

use vstd::prelude::*;
use crate::codec::packet::Packet;
use crate::native::{Call, Field, Kind, Reply, Step, StreamField};
use crate::util::media::Type;
use crate::util::rational::Rational;
use crate::util::error::Error;

verus! {

/// A container that is open for reading.
#[derive(Debug, PartialEq, Eq, Hash)]
pub struct Input {
    pub handle: usize,
}

/// Where an output stands. It only ever moves down this list, and packets
/// are written in the middle stage alone.
#[derive(Clone, Copy, Debug, PartialEq, Eq, Hash, Structural)]
pub enum Lifecycle {
    Allocated,
    HeaderWritten,
    TrailerWritten,
}

/// A container that is open for writing. Its stage is the wrapper's own
/// record: nothing but the operations of this crate moves it.
#[derive(Debug, PartialEq, Eq, Hash)]
pub struct Output {
    pub(crate) handle: usize,
    pub(crate) stage: Lifecycle,
}

/// A container context of either direction.
#[derive(Debug, PartialEq, Eq, Hash)]
pub enum Context {
    Input(Input),
    Output(Output),
}

/// A stream of a container: its place in the context it belongs to, and what
/// the context held of it when the stream was taken. A stream owns nothing,
/// and is good for as long as its context is.
#[derive(Clone, Copy, Debug, PartialEq, Eq, Hash)]
pub struct Stream {
    pub context: usize,
    pub index: usize,
    /// The codec identifier of the stream.
    pub id: i32,
    /// The media kind of the stream.
    pub medium: Type,
    /// The unit in which the stream's time stamps count.
    pub time_base: Rational,
    /// The average frame rate of the stream.
    pub rate: Rational,
    /// The metadata dictionary of the stream, which the stream owns.
    pub metadata: usize,
}

/// The call that reads one field of a stream.
pub open spec fn reading(context: usize, index: usize, field: StreamField) -> Call {
    Call::ReadStream { context, index, part: field }
}

/// The field of a stream that is read in the given place, counted from the
/// first read of the stream.
pub open spec fn field_at(place: int) -> StreamField {
    if place == 0 {
        StreamField::CodecId
    } else if place == 1 {
        StreamField::CodecType
    } else if place == 2 {
        StreamField::TimeBaseNumerator
    } else if place == 3 {
        StreamField::TimeBaseDenominator
    } else if place == 4 {
        StreamField::FrameRateNumerator
    } else if place == 5 {
        StreamField::FrameRateDenominator
    } else {
        StreamField::Metadata
    }
}

fn field(place: usize) -> (field: StreamField)
    ensures
        field == field_at(place as int),
{
    if place == 0 {
        StreamField::CodecId
    } else if place == 1 {
        StreamField::CodecType
    } else if place == 2 {
        StreamField::TimeBaseNumerator
    } else if place == 3 {
        StreamField::TimeBaseDenominator
    } else if place == 4 {
        StreamField::FrameRateNumerator
    } else if place == 5 {
        StreamField::FrameRateDenominator
    } else {
        StreamField::Metadata
    }
}

impl Lifecycle {
    /// The place of a stage in the order of an output's life.
    pub open spec fn rank(self) -> nat {
        match self {
            Lifecycle::Allocated => 0,
            Lifecycle::HeaderWritten => 1,
            Lifecycle::TrailerWritten => 2,
        }
    }
}

impl Input {
    /// Wraps an input that the native library has just opened.
    pub fn wrap(handle: usize) -> (input: Input)
        requires
            handle != 0,
        ensures
            input == (Input { handle }),
    {
        Input { handle }
    }

    pub fn as_ptr(&self) -> (handle: usize)
        ensures
            handle == self.handle,
    {
        self.handle
    }

    pub fn as_mut_ptr(&mut self) -> (handle: usize)
        ensures
            handle == old(self).handle,
            *final(self) == *old(self),
    {
        self.handle
    }

    /// The call that destroys the input: it is closed.
    pub fn release(self) -> (calls: Vec<Call>)
        ensures
            calls@ == Kind::Input.spec_release(self.handle),
    {
        Kind::Input.release(self.handle)
    }

    /// Reading one packet: a negative status of the read is the failure, and
    /// the end of the file is `Eof`. Else the packet is asked for the index
    /// of its stream, and a packet that names none is a `Bug`.
    pub open(crate) spec fn read_spec(self, packet: usize, replies: Seq<Reply>) -> Step<
        (),
        Result<usize, Error>,
    > {
        if replies.len() == 0 {
            Step::Call(Call::ReadFrame { context: self.handle, packet }, ())
        } else if replies[0].status < 0 {
            Step::Done(Err(Error::of(replies[0].status)))
        } else if replies.len() == 1 {
            Step::Call(Call::Read { object: packet, field: Field::StreamIndex }, ())
        } else if replies[1].status < 0 {
            Step::Done(Err(Error::Bug))
        } else {
            Step::Done(Ok(replies[1].status as usize))
        }
    }

    /// Reads the next packet of the input into `packet`, and gives the index
    /// of the stream that it belongs to.
    pub fn read(&mut self, packet: &mut Packet, replies: &[Reply]) -> (step: Step<
        (),
        Result<usize, Error>,
    >)
        ensures
            step == old(self).read_spec(old(packet).handle, replies@),
            *final(self) == *old(self),
            *final(packet) == *old(packet),
    {
        if replies.len() == 0 {
            Step::Call(Call::ReadFrame { context: self.handle, packet: packet.handle }, ())
        } else if replies[0].status < 0 {
            Step::Done(Err(Error::from(replies[0].status)))
        } else if replies.len() == 1 {
            Step::Call(Call::Read { object: packet.handle, field: Field::StreamIndex }, ())
        } else if replies[1].status < 0 {
            Step::Done(Err(Error::Bug))
        } else {
            Step::Done(Ok(replies[1].status as usize))
        }
    }

    /// Counting the streams: one call, and a count that is negative is
    /// none.
    pub open(crate) spec fn streams_spec(self, replies: Seq<Reply>) -> Step<(), usize> {
        if replies.len() == 0 {
            Step::Call(Call::Read { object: self.handle, field: Field::StreamCount }, ())
        } else if replies[0].status < 0 {
            Step::Done(0)
        } else {
            Step::Done(replies[0].status as usize)
        }
    }

    /// The number of streams of the input.
    pub fn streams(&self, replies: &[Reply]) -> (step: Step<(), usize>)
        ensures
            step == self.streams_spec(replies@),
    {
        if replies.len() == 0 {
            Step::Call(Call::Read { object: self.handle, field: Field::StreamCount }, ())
        } else if replies[0].status < 0 {
            Step::Done(0)
        } else {
            Step::Done(replies[0].status as usize)
        }
    }

    /// Taking a stream by its index: the context is asked how many streams it
    /// has, and an index at or beyond that number names none. Else the
    /// stream's fields are read, one call each, in the order of `field_at`,
    /// and the stream holds what was read.
    pub open(crate) spec fn stream_spec(self, index: usize, replies: Seq<Reply>) -> Step<
        (),
        Option<Stream>,
    > {
        if replies.len() == 0 {
            Step::Call(Call::Read { object: self.handle, field: Field::StreamCount }, ())
        } else if !(index < replies[0].status) {
            Step::Done(None)
        } else if replies.len() < 8 {
            Step::Call(reading(self.handle, index, field_at(replies.len() - 1)), ())
        } else {
            Step::Done(
                Some(
                    Stream {
                        context: self.handle,
                        index,
                        id: replies[1].status,
                        medium: Type::of(replies[2].status),
                        time_base: Rational(replies[3].status, replies[4].status),
                        rate: Rational(replies[5].status, replies[6].status),
                        metadata: replies[7].handle,
                    },
                ),
            )
        }
    }

    /// The stream with the given index, if the input has that many.
    pub fn stream(&self, index: usize, replies: &[Reply]) -> (step: Step<(), Option<Stream>>)
        ensures
            step == self.stream_spec(index, replies@),
    {
        if replies.len() == 0 {
            Step::Call(Call::Read { object: self.handle, field: Field::StreamCount }, ())
        } else if !(replies[0].status > 0 && index < replies[0].status as usize) {
            Step::Done(None)
        } else if replies.len() < 8 {
            Step::Call(
                Call::ReadStream {
                    context: self.handle,
                    index,
                    part: field(replies.len() - 1),
                },
                (),
            )
        } else {
            Step::Done(
                Some(
                    Stream {
                        context: self.handle,
                        index,
                        id: replies[1].status,
                        medium: Type::from(replies[2].status),
                        time_base: Rational(replies[3].status, replies[4].status),
                        rate: Rational(replies[5].status, replies[6].status),
                        metadata: replies[7].handle,
                    },
                ),
            )
        }
    }
}

impl Output {
    /// The handle of the output.
    pub open(crate) spec fn ptr(self) -> usize {
        self.handle
    }

    /// The stage that the output stands in.
    pub open(crate) spec fn spec_stage(&self) -> Lifecycle {
        self.stage
    }

    /// The output of the given handle in the given stage.
    pub open(crate) spec fn at(handle: usize, stage: Lifecycle) -> Output {
        Output { handle, stage }
    }

    /// The stage that the output stands in.
    #[verifier::when_used_as_spec(spec_stage)]
    pub fn stage(&self) -> (stage: Lifecycle)
        ensures
            stage == self.spec_stage(),
    {
        self.stage
    }

    /// Wraps an output that the native library has just allocated and opened.
    pub fn wrap(handle: usize) -> (output: Output)
        requires
            handle != 0,
        ensures
            output == Output::at(handle, Lifecycle::Allocated),
    {
        Output { handle, stage: Lifecycle::Allocated }
    }

    pub fn as_ptr(&self) -> (handle: usize)
        ensures
            handle == self.ptr(),
    {
        self.handle
    }

    pub fn as_mut_ptr(&mut self) -> (handle: usize)
        ensures
            handle == old(self).ptr(),
            *final(self) == *old(self),
    {
        self.handle
    }

    /// The calls that destroy the output: its byte stream is closed first,
    /// then the context is freed.
    pub fn release(self) -> (calls: Vec<Call>)
        ensures
            calls@ == Kind::Output.spec_release(self.ptr()),
    {
        Kind::Output.release(self.handle)
    }

    /// The stage after an attempt to write the header: a header that was
    /// written moves a fresh output on.
    pub open(crate) spec fn header_stage(self, replies: Seq<Reply>) -> Lifecycle {
        if self.stage is Allocated && replies.len() > 0 && replies[0].status >= 0 {
            Lifecycle::HeaderWritten
        } else {
            self.stage
        }
    }

    /// Writing the header: only a fresh output takes one, and any other is
    /// refused before the call. A negative status is the failure.
    pub open(crate) spec fn header_spec(self, replies: Seq<Reply>) -> Step<(), Result<(), Error>> {
        if !(self.stage is Allocated) {
            Step::Done(Err(Error::InvalidState))
        } else if replies.len() == 0 {
            Step::Call(Call::WriteHeader { context: self.handle }, ())
        } else if replies[0].status < 0 {
            Step::Done(Err(Error::of(replies[0].status)))
        } else {
            Step::Done(Ok(()))
        }
    }

    /// Writes the container header.
    pub fn write_header(&mut self, replies: &[Reply]) -> (step: Step<(), Result<(), Error>>)
        ensures
            step == old(self).header_spec(replies@),
            final(self).ptr() == old(self).ptr(),
            final(self).stage() == old(self).header_stage(replies@),
    {
        if self.stage != Lifecycle::Allocated {
            Step::Done(Err(Error::InvalidState))
        } else if replies.len() == 0 {
            Step::Call(Call::WriteHeader { context: self.handle }, ())
        } else if replies[0].status < 0 {
            Step::Done(Err(Error::from(replies[0].status)))
        } else {
            self.stage = Lifecycle::HeaderWritten;
            Step::Done(Ok(()))
        }
    }

    /// Writing a packet: only between header and trailer, and an output in
    /// any other stage is refused before the call. A negative status is the
    /// failure.
    pub open(crate) spec fn packet_spec(self, packet: usize, replies: Seq<Reply>) -> Step<
        (),
        Result<(), Error>,
    > {
        if !(self.stage is HeaderWritten) {
            Step::Done(Err(Error::InvalidState))
        } else if replies.len() == 0 {
            Step::Call(Call::WriteFrame { context: self.handle, packet }, ())
        } else if replies[0].status < 0 {
            Step::Done(Err(Error::of(replies[0].status)))
        } else {
            Step::Done(Ok(()))
        }
    }

    /// Writes one packet.
    pub fn write_packet(&mut self, packet: &Packet, replies: &[Reply]) -> (step: Step<
        (),
        Result<(), Error>,
    >)
        ensures
            step == old(self).packet_spec(packet.handle, replies@),
            *final(self) == *old(self),
    {
        if self.stage != Lifecycle::HeaderWritten {
            Step::Done(Err(Error::InvalidState))
        } else if replies.len() == 0 {
            Step::Call(Call::WriteFrame { context: self.handle, packet: packet.handle }, ())
        } else if replies[0].status < 0 {
            Step::Done(Err(Error::from(replies[0].status)))
        } else {
            Step::Done(Ok(()))
        }
    }

    /// The stage after an attempt to write the trailer: the attempt is made
    /// once, so whatever it came to, the output is past it.
    pub open(crate) spec fn trailer_stage(self, replies: Seq<Reply>) -> Lifecycle {
        if self.stage is HeaderWritten && replies.len() > 0 {
            Lifecycle::TrailerWritten
        } else {
            self.stage
        }
    }

    /// Writing the trailer: only after the header and only once, and an
    /// output in any other stage is refused before the call. A negative
    /// status is the failure.
    pub open(crate) spec fn trailer_spec(self, replies: Seq<Reply>) -> Step<(), Result<(), Error>> {
        if !(self.stage is HeaderWritten) {
            Step::Done(Err(Error::InvalidState))
        } else if replies.len() == 0 {
            Step::Call(Call::WriteTrailer { context: self.handle }, ())
        } else if replies[0].status < 0 {
            Step::Done(Err(Error::of(replies[0].status)))
        } else {
            Step::Done(Ok(()))
        }
    }

    /// Writes the container trailer.
    pub fn write_trailer(&mut self, replies: &[Reply]) -> (step: Step<(), Result<(), Error>>)
        ensures
            step == old(self).trailer_spec(replies@),
            final(self).ptr() == old(self).ptr(),
            final(self).stage() == old(self).trailer_stage(replies@),
    {
        if self.stage != Lifecycle::HeaderWritten {
            Step::Done(Err(Error::InvalidState))
        } else if replies.len() == 0 {
            Step::Call(Call::WriteTrailer { context: self.handle }, ())
        } else {
            self.stage = Lifecycle::TrailerWritten;
            if replies[0].status < 0 {
                Step::Done(Err(Error::from(replies[0].status)))
            } else {
                Step::Done(Ok(()))
            }
        }
    }
}

} // verus!
