//! What holds of every opening, whatever the native library replies.

use vstd::prelude::*;
use crate::format::context::{Input, Output};
use crate::format::{input_spec, open_with_spec, output_spec, Context, Format};
use crate::util::dictionary::Owned;
use crate::native::{
    calls, count, frees_of, frees_of_kind, run, run_is_what_was_asked, Call, Kind, Reply, Step,
};
use crate::util::error::Error;

verus! {

/// The opening of an input as an operation on replies alone.
pub open spec fn input_op(bridged: bool, format: usize, options: Option<usize>) -> spec_fn(
    Seq<Reply>,
) -> Step<(), Result<Input, Error>> {
    |replies: Seq<Reply>| input_spec(bridged, format, options, replies)
}

/// The input that the native library opened in a run, if it opened one.
pub open(crate) spec fn opened_input(bridged: bool, replies: Seq<Reply>) -> Option<usize> {
    let opening: int = if bridged {
        2
    } else {
        0
    };
    if replies.len() > opening && replies[opening].status == 0 && replies[opening].handle != 0 {
        Some(replies[opening].handle)
    } else {
        None
    }
}

/// An opening for reading leaks no input and closes none twice.
///
/// In every finished run, an input that is handed out is the one that the
/// native library opened, and no call of the run closes any input. Where the
/// opening fails after the native library has opened an input, exactly one
/// call of the run closes an input, and it closes that one; where it fails
/// before, none does.
pub proof fn input_is_closed_unless_handed_out(
    bridged: bool,
    format: usize,
    options: Option<usize>,
    replies: Seq<Reply>,
)
    requires
        run(input_op(bridged, format, options), replies),
        input_spec(bridged, format, options, replies) is Done,
    ensures
        ({
            let made = calls(input_op(bridged, format, options), replies);
            match input_spec(bridged, format, options, replies)->Done_0 {
                Ok(input) => {
                    &&& opened_input(bridged, replies) == Some(input.handle)
                    &&& frees_of_kind(made, Kind::Input) == 0
                },
                Err(_) => match opened_input(bridged, replies) {
                    Some(handle) => {
                        &&& frees_of_kind(made, Kind::Input) == 1
                        &&& frees_of(made, Kind::Input, handle) == 1
                    },
                    None => frees_of_kind(made, Kind::Input) == 0,
                },
            }
        }),
{
    reveal_with_fuel(count, 8);
    let op = input_op(bridged, format, options);
    run_is_what_was_asked(op, replies, 6);
}

/// An opening for reading that is given options frees exactly one
/// dictionary, on success and on failure alike: where the path was opened
/// with them, the one that this call left behind, by the call right after it;
/// where it never came to that, the one that was given.
pub proof fn input_frees_its_options_once(
    bridged: bool,
    format: usize,
    options: usize,
    replies: Seq<Reply>,
)
    requires
        run(input_op(bridged, format, Some(options)), replies),
        input_spec(bridged, format, Some(options), replies) is Done,
    ensures
        ({
            let made = calls(input_op(bridged, format, Some(options)), replies);
            let opening: int = if bridged {
                2
            } else {
                0
            };
            &&& frees_of_kind(made, Kind::Dictionary) == 1
            &&& if bridged && replies[0].handle == 0 {
                made.last() == (Call::Free { kind: Kind::Dictionary, handle: options })
            } else {
                &&& made.len() >= opening + 2
                &&& made[opening] matches Call::OpenInput { options: given, .. }
                &&& given == Some(options)
                &&& made[opening + 1] == (Call::Free {
                    kind: Kind::Dictionary,
                    handle: replies[opening].options,
                })
            }
        }),
{
    reveal_with_fuel(count, 8);
    let op = input_op(bridged, format, Some(options));
    run_is_what_was_asked(op, replies, 6);
}

/// The opening of an output as an operation on replies alone.
pub open spec fn output_op(format: usize, named: bool, options: Option<usize>) -> spec_fn(
    Seq<Reply>,
) -> Step<(), Result<Output, Error>> {
    |replies: Seq<Reply>| output_spec(format, named, options, 0, replies)
}

/// The output context that the native library allocated in a run, if it
/// allocated one.
pub open(crate) spec fn allocated_output(replies: Seq<Reply>) -> Option<usize> {
    if replies.len() > 0 && replies[0].status == 0 && replies[0].handle != 0 {
        Some(replies[0].handle)
    } else {
        None
    }
}

/// An opening for writing leaks no output context and frees none twice.
///
/// In every finished run, an output that is handed out is the one that the
/// native library allocated, it is fresh, and no call of the run frees any
/// output. Where the opening fails after the allocation, exactly one call
/// of the run frees an output, and it frees that one; where it fails before,
/// none does.
pub proof fn output_is_freed_unless_handed_out(
    format: usize,
    named: bool,
    options: Option<usize>,
    replies: Seq<Reply>,
)
    requires
        run(output_op(format, named, options), replies),
        output_spec(format, named, options, 0, replies) is Done,
    ensures
        ({
            let made = calls(output_op(format, named, options), replies);
            match output_spec(format, named, options, 0, replies)->Done_0 {
                Ok(output) => {
                    &&& allocated_output(replies) == Some(output.ptr())
                    &&& output.stage() is Allocated
                    &&& frees_of_kind(made, Kind::Output) == 0
                },
                Err(_) => match allocated_output(replies) {
                    Some(handle) => {
                        &&& frees_of_kind(made, Kind::Output) == 1
                        &&& frees_of(made, Kind::Output, handle) == 1
                    },
                    None => frees_of_kind(made, Kind::Output) == 0,
                },
            }
        }),
{
    reveal_with_fuel(count, 8);
    let op = output_op(format, named, options);
    run_is_what_was_asked(op, replies, 4);
}

/// An opening for writing that is given options frees exactly one
/// dictionary, on success and on failure alike: where the path was opened
/// with them, the one that this call left behind, by the call right after it;
/// where the allocation failed before, the one that was given.
pub proof fn output_frees_its_options_once(
    format: usize,
    named: bool,
    options: usize,
    replies: Seq<Reply>,
)
    requires
        run(output_op(format, named, Some(options)), replies),
        output_spec(format, named, Some(options), 0, replies) is Done,
    ensures
        ({
            let made = calls(output_op(format, named, Some(options)), replies);
            &&& frees_of_kind(made, Kind::Dictionary) == 1
            &&& match allocated_output(replies) {
                Some(handle) => {
                    &&& made.len() >= 3
                    &&& made[1] == (Call::OpenIo { context: handle, options: Some(options) })
                    &&& made[2] == (Call::Free {
                        kind: Kind::Dictionary,
                        handle: replies[1].options,
                    })
                },
                None => {
                    &&& made.len() == 2
                    &&& made[1] == (Call::Free { kind: Kind::Dictionary, handle: options })
                },
            }
        }),
{
    reveal_with_fuel(count, 8);
    let op = output_op(format, named, Some(options));
    run_is_what_was_asked(op, replies, 4);
}

/// The opening in a given format with options, as an operation on replies
/// alone.
pub open spec fn open_with_op(format: Format, options: Owned) -> spec_fn(Seq<Reply>) -> Step<
    Owned,
    Result<Context, Error>,
> {
    |replies: Seq<Reply>| open_with_spec(format, options, replies)
}

/// An opening in a given format frees the options it is given exactly once,
/// for an input format and for an output format, on success and on failure.
pub proof fn open_with_frees_its_options_once(format: Format, options: Owned, replies: Seq<Reply>)
    requires
        run(open_with_op(format, options), replies),
        open_with_spec(format, options, replies) is Done,
    ensures
        frees_of_kind(calls(open_with_op(format, options), replies), Kind::Dictionary) == 1,
{
    reveal_with_fuel(count, 8);
    let op = open_with_op(format, options);
    run_is_what_was_asked(op, replies, 6);
}

/// Nothing is written before the header: a fresh output refuses packets and
/// the trailer with `InvalidState`, makes no call, and stays fresh.
pub proof fn fresh_output_takes_the_header_only(output: Output, packet: usize, replies: Seq<Reply>)
    requires
        output.stage() is Allocated,
    ensures
        output.packet_spec(packet, replies) == Step::<(), Result<(), Error>>::Done(
            Err(Error::InvalidState),
        ),
        output.trailer_spec(replies) == Step::<(), Result<(), Error>>::Done(
            Err(Error::InvalidState),
        ),
        output.trailer_stage(replies) is Allocated,
{
}

/// The header is written once: an output that has its header refuses a
/// second one with `InvalidState`, and makes no call.
pub proof fn header_is_written_once(output: Output, replies: Seq<Reply>)
    requires
        !(output.stage() is Allocated),
    ensures
        output.header_spec(replies) == Step::<(), Result<(), Error>>::Done(
            Err(Error::InvalidState),
        ),
        output.header_stage(replies) == output.stage(),
{
}

/// Nothing is written after the trailer: an output past its trailer refuses
/// header, packets and trailer with `InvalidState`, makes no call, and stays
/// where it is.
pub proof fn finished_output_refuses_everything(output: Output, packet: usize, replies: Seq<Reply>)
    requires
        output.stage() is TrailerWritten,
    ensures
        output.header_spec(replies) == Step::<(), Result<(), Error>>::Done(
            Err(Error::InvalidState),
        ),
        output.packet_spec(packet, replies) == Step::<(), Result<(), Error>>::Done(
            Err(Error::InvalidState),
        ),
        output.trailer_spec(replies) == Step::<(), Result<(), Error>>::Done(
            Err(Error::InvalidState),
        ),
        output.header_stage(replies) is TrailerWritten,
        output.trailer_stage(replies) is TrailerWritten,
{
}

/// An output moves forward only, one stage at a time: writing the header
/// takes it from fresh to header-written or leaves it, writing the trailer
/// takes it from header-written to trailer-written or leaves it.
pub proof fn output_never_goes_back(output: Output, replies: Seq<Reply>)
    ensures
        output.header_stage(replies).rank() >= output.stage().rank(),
        output.trailer_stage(replies).rank() >= output.stage().rank(),
        output.header_stage(replies).rank() <= output.stage().rank() + 1,
        output.trailer_stage(replies).rank() <= output.stage().rank() + 1,
        output.header_spec(replies) == Step::<(), Result<(), Error>>::Done(Ok(()))
            ==> output.header_stage(replies) is HeaderWritten,
        output.trailer_spec(replies) is Done && !(output.trailer_spec(replies) matches Step::Done(
            Err(Error::InvalidState),
        )) ==> output.trailer_stage(replies) is TrailerWritten,
{
    if output.trailer_spec(replies) is Done && output.stage is HeaderWritten && replies.len() > 0
        && replies[0].status < 0 {
        crate::util::error::code_survives_classification(replies[0].status);
    }
}

} // verus!
