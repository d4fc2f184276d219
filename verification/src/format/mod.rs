//! Opening containers, for reading and for writing.
//!
//! The path that is opened is text that the embedder holds; the operations
//! here decide which native calls open it, in which order, and what is
//! cleaned up when one of them fails.

use vstd::prelude::*;
use crate::native::{Call, Kind, Library, Reply, Step};
use crate::util::dictionary::Owned;
use crate::util::error::Error;

pub mod context;
pub mod laws;

pub use self::context::Context;

verus! {

/// A container format of the native library, for reading or for writing.
/// Formats are never freed.
#[derive(Clone, Copy, Debug, PartialEq, Eq, Hash)]
pub enum Format {
    Input(usize),
    Output(usize),
}

/// The call that registers every muxer and demuxer with a native library
/// that does not do so by itself.
pub fn register_all() -> (call: Call)
    ensures
        call == Call::RegisterFormats,
{
    Call::RegisterFormats
}

/// The call that registers one format, by its direction.
pub fn register(format: &Format) -> (call: Call)
    ensures
        call == match *format {
            Format::Input(handle) => Call::RegisterInputFormat { format: handle },
            Format::Output(handle) => Call::RegisterOutputFormat { format: handle },
        },
{
    match *format {
        Format::Input(handle) => Call::RegisterInputFormat { format: handle },
        Format::Output(handle) => Call::RegisterOutputFormat { format: handle },
    }
}

/// Opening a path for reading.
///
/// With `bridged`, a context is allocated first and the interrupt bridge is
/// installed on it, so that the opening itself can be interrupted. Then the
/// path is opened: status 0 is success, any other status the failure, and on
/// failure a context that was given to the call is the native library's to
/// free. If there are options, whatever dictionary the opening leaves behind
/// is freed right after it, whether it succeeded or not; where it is never
/// called, they are freed as they were given. Then the streams are probed: a
/// status that is not negative is success; on a negative one the input is
/// closed again before the failure is reported. A native library that
/// reports success and hands out no context is a `Bug`.
pub open(crate) spec fn input_spec(
    bridged: bool,
    format: usize,
    options: Option<usize>,
    replies: Seq<Reply>,
) -> Step<(), Result<context::Input, Error>> {
    let opening: int = if bridged {
        2
    } else {
        0
    };
    let probing: int = if options is Some {
        opening + 2
    } else {
        opening + 1
    };
    if bridged && replies.len() == 0 {
        Step::Call(Call::AllocContext, ())
    } else if bridged && replies[0].handle == 0 {
        if options is Some && replies.len() == 1 {
            Step::Call(Call::Free { kind: Kind::Dictionary, handle: options->0 }, ())
        } else {
            Step::Done(Err(Error::Bug))
        }
    } else if bridged && replies.len() == 1 {
        Step::Call(Call::SetInterrupt { context: replies[0].handle }, ())
    } else if replies.len() <= opening {
        Step::Call(
            Call::OpenInput {
                context: if bridged {
                    replies[0].handle
                } else {
                    0
                },
                format,
                options,
            },
            (),
        )
    } else if options is Some && replies.len() <= opening + 1 {
        Step::Call(Call::Free { kind: Kind::Dictionary, handle: replies[opening].options }, ())
    } else if replies[opening].status != 0 {
        Step::Done(Err(Error::of(replies[opening].status)))
    } else if replies[opening].handle == 0 {
        Step::Done(Err(Error::Bug))
    } else if replies.len() <= probing {
        Step::Call(Call::FindStreamInfo { context: replies[opening].handle }, ())
    } else if replies[probing].status >= 0 {
        Step::Done(Ok(context::Input { handle: replies[opening].handle }))
    } else if replies.len() <= probing + 1 {
        Step::Call(Call::CloseInput { context: replies[opening].handle }, ())
    } else {
        Step::Done(Err(Error::of(replies[probing].status)))
    }
}

fn input_plan(bridged: bool, format: usize, options: Option<usize>, replies: &[Reply]) -> (step: Step<
    (),
    Result<context::Input, Error>,
>)
    ensures
        step == input_spec(bridged, format, options, replies@),
{
    let opening: usize = if bridged {
        2
    } else {
        0
    };
    let probing: usize = if options.is_some() {
        opening + 2
    } else {
        opening + 1
    };
    if bridged && replies.len() == 0 {
        Step::Call(Call::AllocContext, ())
    } else if bridged && replies[0].handle == 0 {
        match options {
            Some(handle) if replies.len() == 1 => Step::Call(
                Call::Free { kind: Kind::Dictionary, handle },
                (),
            ),
            _ => Step::Done(Err(Error::Bug)),
        }
    } else if bridged && replies.len() == 1 {
        Step::Call(Call::SetInterrupt { context: replies[0].handle }, ())
    } else if replies.len() <= opening {
        let context: usize = if bridged {
            replies[0].handle
        } else {
            0
        };
        Step::Call(Call::OpenInput { context, format, options }, ())
    } else if options.is_some() && replies.len() <= opening + 1 {
        Step::Call(Call::Free { kind: Kind::Dictionary, handle: replies[opening].options }, ())
    } else if replies[opening].status != 0 {
        Step::Done(Err(Error::from(replies[opening].status)))
    } else if replies[opening].handle == 0 {
        Step::Done(Err(Error::Bug))
    } else if replies.len() <= probing {
        Step::Call(Call::FindStreamInfo { context: replies[opening].handle }, ())
    } else if replies[probing].status >= 0 {
        Step::Done(Ok(context::Input { handle: replies[opening].handle }))
    } else if replies.len() <= probing + 1 {
        Step::Call(Call::CloseInput { context: replies[opening].handle }, ())
    } else {
        Step::Done(Err(Error::from(replies[probing].status)))
    }
}

/// Opening a path for writing, from reply `at` on.
///
/// A context is allocated for the path, in the given format unless that is
/// null, by format name if `named`; then the path is opened for writing on
/// it. For both calls status 0 is success and any other status the failure.
/// If there are options, they go to the second call, and whatever dictionary
/// is left is freed right after it; where the allocation fails, they are
/// freed as they were given. If the path cannot be opened, the context is
/// freed again before the failure is reported. A native library that reports
/// success and hands out no context is a `Bug`.
pub open(crate) spec fn output_spec(
    format: usize,
    named: bool,
    options: Option<usize>,
    at: int,
    replies: Seq<Reply>,
) -> Step<(), Result<context::Output, Error>> {
    let cleanup: int = if options is Some {
        at + 3
    } else {
        at + 2
    };
    if replies.len() <= at {
        Step::Call(Call::AllocOutput { format, named }, ())
    } else if replies[at].status != 0 || replies[at].handle == 0 {
        if options is Some && replies.len() <= at + 1 {
            Step::Call(Call::Free { kind: Kind::Dictionary, handle: options->0 }, ())
        } else if replies[at].status != 0 {
            Step::Done(Err(Error::of(replies[at].status)))
        } else {
            Step::Done(Err(Error::Bug))
        }
    } else if replies.len() <= at + 1 {
        Step::Call(Call::OpenIo { context: replies[at].handle, options }, ())
    } else if options is Some && replies.len() <= at + 2 {
        Step::Call(Call::Free { kind: Kind::Dictionary, handle: replies[at + 1].options }, ())
    } else if replies[at + 1].status == 0 {
        Step::Done(
            Ok(context::Output { handle: replies[at].handle, stage: context::Lifecycle::Allocated }),
        )
    } else if replies.len() <= cleanup {
        Step::Call(Call::Free { kind: Kind::Output, handle: replies[at].handle }, ())
    } else {
        Step::Done(Err(Error::of(replies[at + 1].status)))
    }
}

fn output_plan(format: usize, named: bool, options: Option<usize>, at: usize, replies: &[Reply]) -> (step:
    Step<(), Result<context::Output, Error>>)
    requires
        at <= 1,
    ensures
        step == output_spec(format, named, options, at as int, replies@),
{
    let cleanup: usize = if options.is_some() {
        at + 3
    } else {
        at + 2
    };
    if replies.len() <= at {
        Step::Call(Call::AllocOutput { format, named }, ())
    } else if replies[at].status != 0 || replies[at].handle == 0 {
        match options {
            Some(handle) if replies.len() <= at + 1 => Step::Call(
                Call::Free { kind: Kind::Dictionary, handle },
                (),
            ),
            _ => if replies[at].status != 0 {
                Step::Done(Err(Error::from(replies[at].status)))
            } else {
                Step::Done(Err(Error::Bug))
            },
        }
    } else if replies.len() <= at + 1 {
        Step::Call(Call::OpenIo { context: replies[at].handle, options }, ())
    } else if options.is_some() && replies.len() <= at + 2 {
        Step::Call(Call::Free { kind: Kind::Dictionary, handle: replies[at + 1].options }, ())
    } else if replies[at + 1].status == 0 {
        Step::Done(
            Ok(context::Output { handle: replies[at].handle, stage: context::Lifecycle::Allocated }),
        )
    } else if replies.len() <= cleanup {
        Step::Call(Call::Free { kind: Kind::Output, handle: replies[at].handle }, ())
    } else {
        Step::Done(Err(Error::from(replies[at + 1].status)))
    }
}

/// A step of an operation that consumes nothing, as a step of one that
/// consumes `subject`.
pub open spec fn with_subject<S, T>(step: Step<(), T>, subject: S) -> Step<S, T> {
    match step {
        Step::Call(call, _) => Step::Call(call, subject),
        Step::Done(done) => Step::Done(done),
    }
}

fn carrying<S, T>(step: Step<(), T>, subject: S) -> (carried: Step<S, T>)
    ensures
        carried == with_subject(step, subject),
{
    match step {
        Step::Call(call, _) => Step::Call(call, subject),
        Step::Done(done) => Step::Done(done),
    }
}

/// An opening of an input, told as the opening of a context.
pub open spec fn as_input(step: Step<(), Result<context::Input, Error>>) -> Step<
    (),
    Result<Context, Error>,
> {
    match step {
        Step::Call(call, _) => Step::Call(call, ()),
        Step::Done(Ok(input)) => Step::Done(Ok(Context::Input(input))),
        Step::Done(Err(error)) => Step::Done(Err(error)),
    }
}

/// An opening of an output, told as the opening of a context.
pub open spec fn as_output(step: Step<(), Result<context::Output, Error>>) -> Step<
    (),
    Result<Context, Error>,
> {
    match step {
        Step::Call(call, _) => Step::Call(call, ()),
        Step::Done(Ok(output)) => Step::Done(Ok(Context::Output(output))),
        Step::Done(Err(error)) => Step::Done(Err(error)),
    }
}

fn either_input(step: Step<(), Result<context::Input, Error>>) -> (told: Step<
    (),
    Result<Context, Error>,
>)
    ensures
        told == as_input(step),
{
    match step {
        Step::Call(call, _) => Step::Call(call, ()),
        Step::Done(Ok(input)) => Step::Done(Ok(Context::Input(input))),
        Step::Done(Err(error)) => Step::Done(Err(error)),
    }
}

fn either_output(step: Step<(), Result<context::Output, Error>>) -> (told: Step<
    (),
    Result<Context, Error>,
>)
    ensures
        told == as_output(step),
{
    match step {
        Step::Call(call, _) => Step::Call(call, ()),
        Step::Done(Ok(output)) => Step::Done(Ok(Context::Output(output))),
        Step::Done(Err(error)) => Step::Done(Err(error)),
    }
}

/// Opening a path in a given format.
pub open spec fn open_spec(format: Format, replies: Seq<Reply>) -> Step<
    (),
    Result<Context, Error>,
> {
    match format {
        Format::Input(handle) => as_input(input_spec(false, handle, None, replies)),
        Format::Output(handle) => as_output(output_spec(handle, false, None, 0, replies)),
    }
}

/// Opens a path in a given format: for reading if it is an input format,
/// for writing if it is an output format.
pub fn open(format: &Format, replies: &[Reply]) -> (step: Step<(), Result<Context, Error>>)
    ensures
        step == open_spec(*format, replies@),
{
    match *format {
        Format::Input(handle) => either_input(input_plan(false, handle, None, replies)),
        Format::Output(handle) => either_output(output_plan(handle, false, None, 0, replies)),
    }
}

/// Opening a path in a given format, with options. An input hands them to
/// the opening call. An output has no call that takes them: they are freed
/// first, and the path is opened as without them.
pub open spec fn open_with_spec(format: Format, options: Owned, replies: Seq<Reply>) -> Step<
    Owned,
    Result<Context, Error>,
> {
    match format {
        Format::Input(handle) => with_subject(
            as_input(input_spec(false, handle, Some(options.ptr()), replies)),
            options,
        ),
        Format::Output(handle) => if replies.len() == 0 {
            Step::Call(Call::Free { kind: Kind::Dictionary, handle: options.ptr() }, options)
        } else {
            with_subject(as_output(output_spec(handle, false, None, 1, replies)), options)
        },
    }
}

/// Opens a path in a given format, with an options dictionary, which is
/// consumed.
pub fn open_with(format: &Format, options: Owned, replies: &[Reply]) -> (step: Step<
    Owned,
    Result<Context, Error>,
>)
    ensures
        step == open_with_spec(*format, options, replies@),
{
    match *format {
        Format::Input(handle) => {
            let step = either_input(input_plan(false, handle, Some(options.as_ptr()), replies));
            carrying(step, options)
        },
        Format::Output(handle) => {
            if replies.len() == 0 {
                Step::Call(Call::Free { kind: Kind::Dictionary, handle: options.as_ptr() }, options)
            } else {
                let step = either_output(output_plan(handle, false, None, 1, replies));
                carrying(step, options)
            }
        },
    }
}

/// Opens a path for reading, in whatever format the native library finds it
/// to be.
pub fn input(replies: &[Reply]) -> (step: Step<(), Result<context::Input, Error>>)
    ensures
        step == input_spec(false, 0, None, replies@),
{
    input_plan(false, 0, None, replies)
}

/// Opens a path for reading, with an options dictionary, which is consumed.
pub fn input_with_dictionary(options: Owned, replies: &[Reply]) -> (step: Step<
    Owned,
    Result<context::Input, Error>,
>)
    ensures
        step == with_subject(input_spec(false, 0, Some(options.ptr()), replies@), options),
{
    let step = input_plan(false, 0, Some(options.as_ptr()), replies);
    carrying(step, options)
}

/// Opens a path for reading on a context that carries the interrupt bridge,
/// so that the predicate behind the bridge can stop the opening and every
/// later blocking call on the input.
pub fn input_with_interrupt(replies: &[Reply]) -> (step: Step<
    (),
    Result<context::Input, Error>,
>)
    ensures
        step == input_spec(true, 0, None, replies@),
{
    input_plan(true, 0, None, replies)
}

/// Opens a path for writing, in the format that the native library guesses
/// from the path.
pub fn output(replies: &[Reply]) -> (step: Step<(), Result<context::Output, Error>>)
    ensures
        step == output_spec(0, false, None, 0, replies@),
{
    output_plan(0, false, None, 0, replies)
}

/// Opens a path for writing, with an options dictionary, which is consumed.
pub fn output_with(options: Owned, replies: &[Reply]) -> (step: Step<
    Owned,
    Result<context::Output, Error>,
>)
    ensures
        step == with_subject(output_spec(0, false, Some(options.ptr()), 0, replies@), options),
{
    let step = output_plan(0, false, Some(options.as_ptr()), 0, replies);
    carrying(step, options)
}

/// Opens a path for writing, in the format of the given name.
pub fn output_as(replies: &[Reply]) -> (step: Step<(), Result<context::Output, Error>>)
    ensures
        step == output_spec(0, true, None, 0, replies@),
{
    output_plan(0, true, None, 0, replies)
}

/// Opens a path for writing, in the format of the given name, with an
/// options dictionary, which is consumed.
pub fn output_as_with(options: Owned, replies: &[Reply]) -> (step: Step<
    Owned,
    Result<context::Output, Error>,
>)
    ensures
        step == with_subject(output_spec(0, true, Some(options.ptr()), 0, replies@), options),
{
    let step = output_plan(0, true, Some(options.as_ptr()), 0, replies);
    carrying(step, options)
}

/// Asks the library behind this module for its version number.
pub fn version(replies: &[Reply]) -> (step: Step<(), u32>)
    ensures
        step == crate::native::version_spec(Library::Format, replies@),
{
    crate::native::version(Library::Format, replies)
}

} // verus!
