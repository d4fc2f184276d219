//! Resampling contexts: one sample format, channel layout and rate into
//! another.

use vstd::prelude::*;
use crate::native::{Call, Kind, Reply, Step};
use crate::util::error::Error;
use crate::util::format::{ChannelLayout, Sample};

verus! {

/// One side of a resampling: a sample format, a channel layout and a rate.
#[derive(Clone, Copy, Debug, PartialEq, Eq, Hash)]
pub struct Definition {
    pub format: Sample,
    pub channel_layout: ChannelLayout,
    pub rate: u32,
}

/// A resampling context that this wrapper owns, with the two sides it was
/// made for.
#[derive(Debug, PartialEq, Eq, Hash)]
pub struct Context {
    pub handle: usize,
    pub input: Definition,
    pub output: Definition,
}

impl Context {
    /// Making a resampling context: it is made, then initialized. A null
    /// handle from the making is `InvalidData`. A negative status from the
    /// initializing is the failure, and the context that was made is freed
    /// again before it is reported.
    pub open spec fn get_spec(source: Definition, target: Definition, replies: Seq<Reply>) -> Step<
        (),
        Result<Context, Error>,
    > {
        if replies.len() == 0 {
            Step::Call(
                Call::GetResampler {
                    source_format: source.format.0,
                    source_layout: source.channel_layout.0,
                    source_rate: source.rate as i32,
                    target_format: target.format.0,
                    target_layout: target.channel_layout.0,
                    target_rate: target.rate as i32,
                },
                (),
            )
        } else if replies[0].handle == 0 {
            Step::Done(Err(Error::InvalidData))
        } else if replies.len() == 1 {
            Step::Call(Call::InitResampler { context: replies[0].handle }, ())
        } else if replies[1].status >= 0 {
            Step::Done(Ok(Context { handle: replies[0].handle, input: source, output: target }))
        } else if replies.len() == 2 {
            Step::Call(Call::Free { kind: Kind::Resampler, handle: replies[0].handle }, ())
        } else {
            Step::Done(Err(Error::of(replies[1].status)))
        }
    }

    /// Makes a resampling context from one format, layout and rate to
    /// another.
    pub fn get(
        src_format: Sample,
        src_channel_layout: ChannelLayout,
        src_rate: u32,
        dst_format: Sample,
        dst_channel_layout: ChannelLayout,
        dst_rate: u32,
        replies: &[Reply],
    ) -> (step: Step<(), Result<Context, Error>>)
        ensures
            step == Self::get_spec(
                Definition {
                    format: src_format,
                    channel_layout: src_channel_layout,
                    rate: src_rate,
                },
                Definition {
                    format: dst_format,
                    channel_layout: dst_channel_layout,
                    rate: dst_rate,
                },
                replies@,
            ),
    {
        let input = Definition {
            format: src_format,
            channel_layout: src_channel_layout,
            rate: src_rate,
        };
        let output = Definition {
            format: dst_format,
            channel_layout: dst_channel_layout,
            rate: dst_rate,
        };
        if replies.len() == 0 {
            Step::Call(
                Call::GetResampler {
                    source_format: src_format.0,
                    source_layout: src_channel_layout.0,
                    source_rate: #[verifier::truncate] (src_rate as i32),
                    target_format: dst_format.0,
                    target_layout: dst_channel_layout.0,
                    target_rate: #[verifier::truncate] (dst_rate as i32),
                },
                (),
            )
        } else if replies[0].handle == 0 {
            Step::Done(Err(Error::InvalidData))
        } else if replies.len() == 1 {
            Step::Call(Call::InitResampler { context: replies[0].handle }, ())
        } else if replies[1].status >= 0 {
            Step::Done(Ok(Context { handle: replies[0].handle, input, output }))
        } else if replies.len() == 2 {
            Step::Call(Call::Free { kind: Kind::Resampler, handle: replies[0].handle }, ())
        } else {
            Step::Done(Err(Error::from(replies[1].status)))
        }
    }

    pub fn as_ptr(&self) -> (handle: usize)
        ensures
            handle == self.handle,
    {
        self.handle
    }

    /// The call that destroys the resampling context.
    pub fn release(self) -> (calls: Vec<Call>)
        ensures
            calls@ == Kind::Resampler.spec_release(self.handle),
    {
        Kind::Resampler.release(self.handle)
    }
}

} // verus!
