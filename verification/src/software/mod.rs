//! Scaling and resampling in software.

use vstd::prelude::*;
use crate::native::{Reply, Step};
use crate::util::error::Error;
use crate::util::format::{ChannelLayout, Pixel, Sample};

pub mod resampling;
pub mod scaling;

verus! {

/// Makes a scaler that changes the size of a picture, from `input` to
/// `output` as width and height, and keeps its pixel format.
pub fn scaler(
    format: Pixel,
    flags: scaling::Flags,
    input: (u32, u32),
    output: (u32, u32),
    replies: &[Reply],
) -> (step: Step<(), Result<scaling::Context, Error>>)
    ensures
        step == scaling::Context::get_spec(
            scaling::Definition { format, width: input.0, height: input.1 },
            scaling::Definition { format, width: output.0, height: output.1 },
            flags,
            replies@,
        ),
{
    scaling::Context::get(format, input.0, input.1, format, output.0, output.1, flags, replies)
}

/// Makes a converter that changes the pixel format of a picture and keeps
/// its size, given as width and height, by the fast bilinear algorithm.
pub fn converter(size: (u32, u32), input: Pixel, output: Pixel, replies: &[Reply]) -> (step: Step<
    (),
    Result<scaling::Context, Error>,
>)
    ensures
        step == scaling::Context::get_spec(
            scaling::Definition { format: input, width: size.0, height: size.1 },
            scaling::Definition { format: output, width: size.0, height: size.1 },
            scaling::Flags(scaling::FAST_BILINEAR),
            replies@,
        ),
{
    scaling::Context::get(
        input,
        size.0,
        size.1,
        output,
        size.0,
        size.1,
        scaling::Flags(scaling::FAST_BILINEAR),
        replies,
    )
}

/// Makes a resampler from one sample format, channel layout and rate to
/// another.
pub fn resampler(
    input: (Sample, ChannelLayout, u32),
    output: (Sample, ChannelLayout, u32),
    replies: &[Reply],
) -> (step: Step<(), Result<resampling::Context, Error>>)
    ensures
        step == resampling::Context::get_spec(
            resampling::Definition { format: input.0, channel_layout: input.1, rate: input.2 },
            resampling::Definition { format: output.0, channel_layout: output.1, rate: output.2 },
            replies@,
        ),
{
    resampling::Context::get(input.0, input.1, input.2, output.0, output.1, output.2, replies)
}

} // verus!
