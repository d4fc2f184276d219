//! The boundary itself, as data.
//!
//! This crate never touches the native library. An operation is a function
//! from the replies received so far to a [`Step`]: either the next native
//! [`Call`] that is due, or what the operation has come to. Whoever embeds the
//! crate performs each call, appends its [`Reply`] and asks again.
//!
//! A handle is the address of a native object, and `0` is the null handle.

use vstd::prelude::*;
use crate::util::error::Error;

verus! {

/// A field of a native object that this layer reads or writes.
#[derive(Clone, Copy, Debug, PartialEq, Eq, Hash)]
pub enum Field {
    /// The media kind of a codec context.
    CodecType,
    /// The codec identifier of a codec context.
    CodecId,
    /// The codec that a codec context is bound to (a handle).
    Codec,
    BitRate,
    MaxBitRate,
    BitRateTolerance,
    GlobalQuality,
    CompressionLevel,
    ErrorConcealment,
    ErrorRecognition,
    SkipLoopFilter,
    SkipIdct,
    SkipFrame,
    PacketTimeBaseNumerator,
    PacketTimeBaseDenominator,
    /// The number of streams of a container context.
    StreamCount,
    /// The index of the stream that a packet belongs to.
    StreamIndex,
}

/// The native libraries that this crate stands before.
#[derive(Clone, Copy, Debug, PartialEq, Eq, Hash)]
pub enum Library {
    Util,
    Codec,
    Format,
    Device,
    Filter,
}

/// What a container context holds of one of its streams.
#[derive(Clone, Copy, Debug, PartialEq, Eq, Hash)]
pub enum StreamField {
    CodecId,
    CodecType,
    TimeBaseNumerator,
    TimeBaseDenominator,
    FrameRateNumerator,
    FrameRateDenominator,
    /// The metadata dictionary of the stream (a handle, owned by the stream).
    Metadata,
}

/// The two sides of a filter.
#[derive(Clone, Copy, Debug, PartialEq, Eq, Hash, Structural)]
pub enum Direction {
    Input,
    Output,
}

/// The kinds of native resource that a wrapper of this crate can own.
#[derive(Clone, Copy, Debug, PartialEq, Eq, Hash)]
pub enum Kind {
    Input,
    Output,
    Codec,
    Frame,
    Packet,
    Dictionary,
    Graph,
    Scaler,
    Resampler,
}

/// One interaction with the native library.
///
/// Text that a call needs (a path, the name of a format or of a filter) is
/// not part of the call: it is the text that the operation was started for.
#[derive(Clone, Copy, Debug, PartialEq, Eq, Hash)]
pub enum Call {
    /// Read `field` of `object`. A number comes back as the reply's status, a
    /// handle as its handle.
    Read { object: usize, field: Field },
    /// Read `part` of stream `index` of a container context.
    ReadStream { context: usize, index: usize, part: StreamField },
    /// Ask a filter how many pads it has on one side; the reply's status is
    /// the number.
    PadCount { filter: usize, direction: Direction },
    /// Ask a filter for the media kind of one of its pads; the reply's status
    /// is the kind's enumerator.
    PadType { filter: usize, direction: Direction, index: usize },
    /// Write `value` to `field` of `object`.
    Write { object: usize, field: Field, value: i64 },
    /// Look a decoder up by codec identifier; the reply's handle is the codec.
    FindDecoder { id: i32 },
    /// Look an encoder up by codec identifier; the reply's handle is the codec.
    FindEncoder { id: i32 },
    /// Ask whether `codec` can decode; a status other than 0 means yes.
    IsDecoder { codec: usize },
    /// Ask whether `codec` can encode; a status other than 0 means yes.
    IsEncoder { codec: usize },
    /// Open a codec context, for `codec` unless that is null, with the
    /// options dictionary `options` if there is one. The reply's `options` is
    /// the dictionary as the native library left it.
    OpenCodec { context: usize, codec: usize, options: Option<usize> },
    /// Hand a frame to an encoder; the null frame begins the drain.
    SendFrame { context: usize, frame: usize },
    /// Ask an encoder for a packet.
    ReceivePacket { context: usize, packet: usize },
    /// Hand a packet to a decoder; the null packet begins the drain.
    SendPacket { context: usize, packet: usize },
    /// Ask a decoder for a frame.
    ReceiveFrame { context: usize, frame: usize },
    /// Make another frame that refers to the buffers of `frame`; the reply's
    /// handle is the new frame.
    ShareFrame { frame: usize },
    /// Allocate an empty container context; the reply's handle is the context.
    AllocContext,
    /// Install the interrupt bridge on a container context.
    SetInterrupt { context: usize },
    /// Open the path for reading, into `context` or, if that is null, into a
    /// context of the native library's making; `format` forces a format unless
    /// it is null. The reply's handle is the context, its `options` the
    /// dictionary as the native library left it.
    OpenInput { context: usize, format: usize, options: Option<usize> },
    /// Probe the streams of an opened input.
    FindStreamInfo { context: usize },
    /// Close an opened input and free its context.
    CloseInput { context: usize },
    /// Allocate a context for writing the path, in the format `format`
    /// unless that is null, by format name if `named`. The reply's handle is
    /// the context.
    AllocOutput { format: usize, named: bool },
    /// Open the path for writing on an output context, with the options
    /// dictionary `options` if there is one.
    OpenIo { context: usize, options: Option<usize> },
    /// Close the byte stream of an output context.
    CloseIo { context: usize },
    /// Write the container header.
    WriteHeader { context: usize },
    /// Write one packet.
    WriteFrame { context: usize, packet: usize },
    /// Write the container trailer.
    WriteTrailer { context: usize },
    /// Read the next packet of an input into `packet`.
    ReadFrame { context: usize, packet: usize },
    /// Give a resource of the given kind back to the native library.
    Free { kind: Kind, handle: usize },
    /// Look a filter up by name; the reply's handle is the filter.
    FindFilter,
    /// Register one filter.
    RegisterFilter { filter: usize },
    /// Connect an output pad of one filter context to an input pad of another.
    LinkFilters { source: usize, output: u32, sink: usize, input: u32 },
    /// Check and finalize a filter graph.
    ConfigGraph { graph: usize },
    /// Ask one of the native libraries for its version; the reply's status
    /// holds the number, bit for bit.
    Version { library: Library },
    /// Register every input and output device.
    RegisterDevices,
    /// Register every muxer and demuxer.
    RegisterFormats,
    /// Register every filter.
    RegisterFilters,
    /// Register one demuxer.
    RegisterInputFormat { format: usize },
    /// Register one muxer.
    RegisterOutputFormat { format: usize },
    /// Make a scaling context; the reply's handle is the context.
    GetScaler {
        source_format: i32,
        source_width: i32,
        source_height: i32,
        target_format: i32,
        target_width: i32,
        target_height: i32,
        flags: i32,
    },
    /// Initialize a resampling context that has been made.
    InitResampler { context: usize },
    /// Make a resampling context; the reply's handle is the context.
    GetResampler {
        source_format: i32,
        source_layout: u64,
        source_rate: i32,
        target_format: i32,
        target_layout: u64,
        target_rate: i32,
    },
}

/// What the native library answered to one [`Call`].
#[derive(Clone, Copy, Debug, PartialEq, Eq, Hash)]
pub struct Reply {
    /// The status code, or the number that was read.
    pub status: i32,
    /// The handle that the call produced or read, null if none.
    pub handle: usize,
    /// The options dictionary after the call, for a call that was given one.
    pub options: usize,
}

/// How far an operation has come.
///
/// `S` is what the operation consumes: it travels with the call, so that the
/// operation can be asked again once the reply is there. An operation that
/// consumes nothing has `()` there.
#[derive(Debug, PartialEq, Eq)]
pub enum Step<S, T> {
    /// This call is due. Perform it, append its reply to the replies, and ask
    /// again with the subject that came along.
    Call(Call, S),
    /// The operation is over, and this is what it came to.
    Done(T),
}

/// Asking a library for its version: one call, and the number is the reply's
/// status read without a sign.
pub open spec fn version_spec(library: Library, replies: Seq<Reply>) -> Step<(), u32> {
    if replies.len() == 0 {
        Step::Call(Call::Version { library }, ())
    } else {
        Step::Done(replies[0].status as u32)
    }
}

/// Asks one of the native libraries for its version number.
pub fn version(library: Library, replies: &[Reply]) -> (step: Step<(), u32>)
    ensures
        step == version_spec(library, replies@),
{
    if replies.len() == 0 {
        Step::Call(Call::Version { library }, ())
    } else {
        Step::Done(#[verifier::truncate] (replies[0].status as u32))
    }
}

/// The end of an operation that fails after it has consumed a resource: the
/// resource is given back to the native library by the call at reply `at`,
/// and then the failure is reported.
pub open spec fn released<S, T>(
    kind: Kind,
    handle: usize,
    error: Error,
    subject: S,
    at: int,
    replies: Seq<Reply>,
) -> Step<S, Result<T, Error>> {
    if replies.len() <= at {
        Step::Call(kind.spec_free(handle), subject)
    } else {
        Step::Done(Err(error))
    }
}

/// Ends an operation that fails after it has consumed a resource.
pub fn release_then_fail<S, T>(
    kind: Kind,
    handle: usize,
    error: Error,
    subject: S,
    at: usize,
    replies: &[Reply],
) -> (step: Step<S, Result<T, Error>>)
    ensures
        step == released::<S, T>(kind, handle, error, subject, at as int, replies@),
{
    if replies.len() <= at {
        Step::Call(kind.free(handle), subject)
    } else {
        Step::Done(Err(error))
    }
}

impl Reply {
    /// A reply that carries a status alone.
    pub fn status(status: i32) -> (reply: Reply)
        ensures
            reply == (Reply { status, handle: 0, options: 0 }),
    {
        Reply { status, handle: 0, options: 0 }
    }

    /// A reply of status 0 that carries a handle.
    pub fn handle(handle: usize) -> (reply: Reply)
        ensures
            reply == (Reply { status: 0, handle, options: 0 }),
    {
        Reply { status: 0, handle, options: 0 }
    }
}

impl Call {
    /// Whether this call gives the resource `handle` of kind `kind` back to
    /// the native library.
    pub open spec fn frees(self, kind: Kind, handle: usize) -> bool {
        match self {
            Call::Free { kind: freed_kind, handle: freed } => freed_kind == kind && freed == handle,
            Call::CloseInput { context } => kind is Input && context == handle,
            _ => false,
        }
    }

    /// Whether this call gives some resource of kind `kind` back to the
    /// native library.
    pub open spec fn frees_some(self, kind: Kind) -> bool {
        match self {
            Call::Free { kind: freed_kind, handle } => freed_kind == kind,
            Call::CloseInput { context } => kind is Input,
            _ => false,
        }
    }
}

impl Kind {
    /// The call that gives a resource of this kind back: inputs are closed,
    /// everything else is freed.
    pub open spec fn spec_free(self, handle: usize) -> Call {
        match self {
            Kind::Input => Call::CloseInput { context: handle },
            _ => Call::Free { kind: self, handle },
        }
    }

    /// The calls that destroy a resource of this kind, in order: what the
    /// resource owns goes first, the resource itself last. An output context
    /// owns its byte stream; no other kind owns anything.
    pub open spec fn spec_release(self, handle: usize) -> Seq<Call> {
        match self {
            Kind::Output => seq![Call::CloseIo { context: handle }, self.spec_free(handle)],
            _ => seq![self.spec_free(handle)],
        }
    }

    /// The call that gives a resource of this kind back to the native library.
    pub fn free(self, handle: usize) -> (call: Call)
        ensures
            call == self.spec_free(handle),
    {
        match self {
            Kind::Input => Call::CloseInput { context: handle },
            _ => Call::Free { kind: self, handle },
        }
    }

    /// The calls that destroy a resource of this kind, children before parent.
    pub fn release(self, handle: usize) -> (calls: Vec<Call>)
        ensures
            calls@ == self.spec_release(handle),
    {
        let mut calls: Vec<Call> = Vec::new();
        match self {
            Kind::Output => {
                calls.push(Call::CloseIo { context: handle });
            },
            _ => {},
        }
        calls.push(self.free(handle));
        assert(calls@ =~= self.spec_release(handle));
        calls
    }
}

/// How many calls of `calls` are `wanted`.
pub open spec fn count(calls: Seq<Call>, wanted: spec_fn(Call) -> bool) -> nat
    decreases calls.len(),
{
    if calls.len() == 0 {
        0
    } else {
        let rest = count(calls.drop_last(), wanted);
        if wanted(calls.last()) {
            rest + 1
        } else {
            rest
        }
    }
}

/// How many calls of `calls` give the resource `handle` of kind `kind` back
/// to the native library.
pub open spec fn frees_of(calls: Seq<Call>, kind: Kind, handle: usize) -> nat {
    count(calls, |call: Call| call.frees(kind, handle))
}

/// How many calls of `calls` give a resource of kind `kind` back to the
/// native library.
pub open spec fn frees_of_kind(calls: Seq<Call>, kind: Kind) -> nat {
    count(calls, |call: Call| call.frees_some(kind))
}

/// Whether `replies` can be the replies of one run of `op`: each of them
/// answers a call, the one that `op` asked for on the replies before it.
pub open spec fn run<S, T>(op: spec_fn(Seq<Reply>) -> Step<S, T>, replies: Seq<Reply>) -> bool {
    forall|i: int| 0 <= i < replies.len() ==> #[trigger] op(replies.take(i)) is Call
}

/// The calls that `op` asked for, one before each of `replies`.
pub open spec fn calls<S, T>(op: spec_fn(Seq<Reply>) -> Step<S, T>, replies: Seq<Reply>) -> Seq<
    Call,
> {
    Seq::new(replies.len(), |i: int| op(replies.take(i))->Call_0)
}

/// What a run is made of. The calls of a run are the calls that the
/// operation asked for, one before each reply and in that order; and a run
/// is no longer than the operation goes on asking: where the operation is
/// over after `longest` replies, whatever they are, no run has more.
pub proof fn run_is_what_was_asked<S, T>(
    op: spec_fn(Seq<Reply>) -> Step<S, T>,
    replies: Seq<Reply>,
    longest: int,
)
    requires
        run(op, replies),
        0 <= longest,
        replies.len() > longest ==> !(op(replies.take(longest)) is Call),
    ensures
        replies.len() <= longest,
        calls(op, replies).len() == replies.len(),
        forall|i: int|
            0 <= i < replies.len() ==> calls(op, replies)[i] == (#[trigger] op(
                replies.take(i),
            ))->Call_0,
{
}

/// Destroying a resource gives its handle back exactly once, by the call that
/// matches its kind, and that call comes last: what the resource owns goes
/// before it.
pub proof fn release_frees_exactly_once(kind: Kind, handle: usize)
    ensures
        frees_of(kind.spec_release(handle), kind, handle) == 1,
        frees_of_kind(kind.spec_release(handle), kind) == 1,
        kind.spec_release(handle).last() == kind.spec_free(handle),
{
    reveal_with_fuel(count, 3);
    let released = kind.spec_release(handle);
    if kind is Output {
        assert(released.drop_last() =~= seq![Call::CloseIo { context: handle }]);
        assert(released.drop_last().drop_last() =~= Seq::<Call>::empty());
    } else {
        assert(released.drop_last() =~= Seq::<Call>::empty());
    }
}

} // verus!
