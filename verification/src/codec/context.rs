//! The codec context: one decoder or encoder instance, and where it stands in
//! its life.

use vstd::prelude::*;
use crate::codec::codec::{Codec, Role};
use crate::native::{release_then_fail, released, Call, Field, Kind, Reply, Step};
use crate::util::dictionary::Owned;
use crate::util::error::{averror, negated, Error, AVERROR_EOF};

verus! {

/// Where a codec context stands. It only ever moves down this list.
#[derive(Clone, Copy, Debug, PartialEq, Eq, Hash, Structural)]
pub enum Stage {
    /// Configured, not yet bound to a codec.
    Unopened,
    /// Opened: takes input and gives output.
    Ready,
    /// The end of input has been signalled: gives what is buffered, takes
    /// nothing.
    Draining,
    /// Spent: gives and takes nothing.
    Drained,
}

/// A codec context that this wrapper owns. Its stage is the wrapper's own
/// record: nothing but the operations of this crate moves it.
#[derive(Debug, PartialEq, Eq, Hash)]
pub struct Context {
    pub(crate) handle: usize,
    pub(crate) stage: Stage,
}

impl Stage {
    /// The place of a stage in the order of a context's life.
    pub open spec fn rank(self) -> nat {
        match self {
            Stage::Unopened => 0,
            Stage::Ready => 1,
            Stage::Draining => 2,
            Stage::Drained => 3,
        }
    }
}

/// The error for a codec that cannot play the role it was asked for.
pub open spec fn spec_not_found(role: Role) -> Error {
    match role {
        Role::Decode => Error::DecoderNotFound,
        Role::Encode => Error::EncoderNotFound,
    }
}

/// The call that asks whether a codec can play a role.
pub open spec fn spec_capability(role: Role, codec: usize) -> Call {
    match role {
        Role::Decode => Call::IsDecoder { codec },
        Role::Encode => Call::IsEncoder { codec },
    }
}

/// The error for a codec that cannot play the role it was asked for.
pub fn not_found(role: Role) -> (error: Error)
    ensures
        error == spec_not_found(role),
{
    match role {
        Role::Decode => Error::DecoderNotFound,
        Role::Encode => Error::EncoderNotFound,
    }
}

/// The call that asks whether a codec can play a role.
pub fn capability(role: Role, codec: usize) -> (call: Call)
    ensures
        call == spec_capability(role, codec),
{
    match role {
        Role::Decode => Call::IsDecoder { codec },
        Role::Encode => Call::IsEncoder { codec },
    }
}

impl Context {
    /// The handle of the context.
    pub open(crate) spec fn ptr(self) -> usize {
        self.handle
    }

    /// The stage that the context stands in.
    pub open(crate) spec fn spec_stage(&self) -> Stage {
        self.stage
    }

    /// The context of the given handle in the given stage.
    pub open(crate) spec fn at(handle: usize, stage: Stage) -> Context {
        Context { handle, stage }
    }

    /// The stage that the context stands in.
    #[verifier::when_used_as_spec(spec_stage)]
    pub fn stage(&self) -> (stage: Stage)
        ensures
            stage == self.spec_stage(),
    {
        self.stage
    }

    /// Wraps a context that the native library has just allocated.
    pub fn wrap(handle: usize) -> (context: Context)
        requires
            handle != 0,
        ensures
            context == Context::at(handle, Stage::Unopened),
    {
        Context { handle, stage: Stage::Unopened }
    }

    pub fn as_ptr(&self) -> (handle: usize)
        ensures
            handle == self.ptr(),
    {
        self.handle
    }

    pub fn as_mut_ptr(&mut self) -> (handle: usize)
        ensures
            handle == old(self).ptr(),
            *final(self) == *old(self),
    {
        self.handle
    }

    /// The call that destroys the context.
    pub fn release(self) -> (calls: Vec<Call>)
        ensures
            calls@ == Kind::Codec.spec_release(self.ptr()),
    {
        Kind::Codec.release(self.handle)
    }

    /// The call that reads the codec this context is bound to; the reply's
    /// handle is null if it is bound to none.
    pub fn codec(&self) -> (call: Call)
        ensures
            call == (Call::Read { object: self.ptr(), field: Field::Codec }),
    {
        Call::Read { object: self.handle, field: Field::Codec }
    }

    /// The call that reads the codec identifier of this context.
    pub fn id(&self) -> (call: Call)
        ensures
            call == (Call::Read { object: self.ptr(), field: Field::CodecId }),
    {
        Call::Read { object: self.handle, field: Field::CodecId }
    }

    /// The call that reads the media kind of this context; the reply's status
    /// is the kind's enumerator.
    pub fn medium(&self) -> (call: Call)
        ensures
            call == (Call::Read { object: self.ptr(), field: Field::CodecType }),
    {
        Call::Read { object: self.handle, field: Field::CodecType }
    }

    /// Opening, from reply `at` on: one call, which binds the context to
    /// `codec` (to the codec it already has, if `codec` is null). Status 0
    /// makes the context ready; any other status is the failure. A context
    /// that is not unopened is `InvalidState`, and no opening call is made.
    /// Opening consumes the context: where it fails, the context is freed
    /// before the failure is reported.
    pub open(crate) spec fn open_spec(self, codec: usize, at: int, replies: Seq<Reply>) -> Step<
        Context,
        Result<Context, Error>,
    > {
        if !(self.stage is Unopened) {
            released(Kind::Codec, self.handle, Error::InvalidState, self, at, replies)
        } else if replies.len() <= at {
            Step::Call(Call::OpenCodec { context: self.handle, codec, options: None }, self)
        } else if replies[at].status != 0 {
            released(
                Kind::Codec,
                self.handle,
                Error::of(replies[at].status),
                self,
                at + 1,
                replies,
            )
        } else {
            Step::Done(Ok(Context { handle: self.handle, stage: Stage::Ready }))
        }
    }

    /// Opens the context for `codec`, or for the codec it is bound to if
    /// `codec` is null, reading the replies from `at` on.
    pub(crate) fn open(self, codec: usize, at: usize, replies: &[Reply]) -> (step: Step<
        Context,
        Result<Context, Error>,
    >)
        requires
            at < usize::MAX,
        ensures
            step == self.open_spec(codec, at as int, replies@),
    {
        let handle = self.handle;
        if self.stage != Stage::Unopened {
            release_then_fail(Kind::Codec, handle, Error::InvalidState, self, at, replies)
        } else if replies.len() <= at {
            Step::Call(Call::OpenCodec { context: handle, codec, options: None }, self)
        } else if replies[at].status != 0 {
            let error = Error::from(replies[at].status);
            release_then_fail(Kind::Codec, handle, error, self, at + 1, replies)
        } else {
            Step::Done(Ok(Context { handle, stage: Stage::Ready }))
        }
    }

    /// Opening for a given codec, from reply `at` on: first the codec is asked
    /// whether it can play `role`, and a codec that cannot is "not found";
    /// then the context is opened for it. Where this fails, the context is
    /// freed before the failure is reported.
    pub open(crate) spec fn open_as_spec(self, codec: Codec, role: Role, at: int, replies: Seq<Reply>) -> Step<
        Context,
        Result<Context, Error>,
    > {
        if !(self.stage is Unopened) {
            released(Kind::Codec, self.handle, Error::InvalidState, self, at, replies)
        } else if replies.len() <= at {
            Step::Call(spec_capability(role, codec.handle), self)
        } else if replies[at].status == 0 {
            released(Kind::Codec, self.handle, spec_not_found(role), self, at + 1, replies)
        } else {
            self.open_spec(codec.handle, at + 1, replies)
        }
    }

    /// Opens the context for `codec` in the given role, reading the replies
    /// from `at` on.
    pub(crate) fn open_as(self, codec: Codec, role: Role, at: usize, replies: &[Reply]) -> (step: Step<
        Context,
        Result<Context, Error>,
    >)
        requires
            at < usize::MAX - 1,
        ensures
            step == self.open_as_spec(codec, role, at as int, replies@),
    {
        let handle = self.handle;
        if self.stage != Stage::Unopened {
            release_then_fail(Kind::Codec, handle, Error::InvalidState, self, at, replies)
        } else if replies.len() <= at {
            Step::Call(capability(role, codec.handle), self)
        } else if replies[at].status == 0 {
            release_then_fail(Kind::Codec, handle, not_found(role), self, at + 1, replies)
        } else {
            self.open(codec.handle, at + 1, replies)
        }
    }

    /// Opening for a given codec with an options dictionary. The dictionary is
    /// consumed on every path: it is handed to the native library for the
    /// opening call, and whatever handle that call leaves behind is freed
    /// right after it, whether the call succeeded or not; where no opening
    /// call is made, the dictionary is freed as it was given. Where the
    /// opening fails, the context is freed after the dictionary, before the
    /// failure is reported.
    pub open(crate) spec fn open_as_with_spec(
        self,
        codec: Codec,
        role: Role,
        options: Owned,
        replies: Seq<Reply>,
    ) -> Step<(Context, Owned), Result<Context, Error>> {
        let discard = Call::Free { kind: Kind::Dictionary, handle: options.ptr() };
        if !(self.stage is Unopened) {
            if replies.len() == 0 {
                Step::Call(discard, (self, options))
            } else {
                released(
                    Kind::Codec,
                    self.handle,
                    Error::InvalidState,
                    (self, options),
                    1,
                    replies,
                )
            }
        } else if replies.len() == 0 {
            Step::Call(spec_capability(role, codec.handle), (self, options))
        } else if replies[0].status == 0 {
            if replies.len() == 1 {
                Step::Call(discard, (self, options))
            } else {
                released(
                    Kind::Codec,
                    self.handle,
                    spec_not_found(role),
                    (self, options),
                    2,
                    replies,
                )
            }
        } else if replies.len() == 1 {
            Step::Call(
                Call::OpenCodec {
                    context: self.handle,
                    codec: codec.handle,
                    options: Some(options.ptr()),
                },
                (self, options),
            )
        } else if replies.len() == 2 {
            Step::Call(
                Call::Free { kind: Kind::Dictionary, handle: replies[1].options },
                (self, options),
            )
        } else if replies[1].status != 0 {
            released(
                Kind::Codec,
                self.handle,
                Error::of(replies[1].status),
                (self, options),
                3,
                replies,
            )
        } else {
            Step::Done(Ok(Context { handle: self.handle, stage: Stage::Ready }))
        }
    }

    /// Opens the context for `codec` in the given role, with options.
    pub(crate) fn open_as_with(self, codec: Codec, role: Role, options: Owned, replies: &[Reply]) -> (step:
        Step<(Context, Owned), Result<Context, Error>>)
        ensures
            step == self.open_as_with_spec(codec, role, options, replies@),
    {
        let handle = self.handle;
        if self.stage != Stage::Unopened {
            if replies.len() == 0 {
                let discard = Call::Free { kind: Kind::Dictionary, handle: options.as_ptr() };
                Step::Call(discard, (self, options))
            } else {
                release_then_fail(
                    Kind::Codec,
                    handle,
                    Error::InvalidState,
                    (self, options),
                    1,
                    replies,
                )
            }
        } else if replies.len() == 0 {
            Step::Call(capability(role, codec.handle), (self, options))
        } else if replies[0].status == 0 {
            if replies.len() == 1 {
                let discard = Call::Free { kind: Kind::Dictionary, handle: options.as_ptr() };
                Step::Call(discard, (self, options))
            } else {
                release_then_fail(Kind::Codec, handle, not_found(role), (self, options), 2, replies)
            }
        } else if replies.len() == 1 {
            Step::Call(
                Call::OpenCodec {
                    context: handle,
                    codec: codec.handle,
                    options: Some(options.as_ptr()),
                },
                (self, options),
            )
        } else if replies.len() == 2 {
            Step::Call(
                Call::Free { kind: Kind::Dictionary, handle: replies[1].options },
                (self, options),
            )
        } else if replies[1].status != 0 {
            let error = Error::from(replies[1].status);
            release_then_fail(Kind::Codec, handle, error, (self, options), 3, replies)
        } else {
            Step::Done(Ok(Context { handle, stage: Stage::Ready }))
        }
    }

    /// The stage after handing the native library one unit of input, or the
    /// end-of-input signal if `last`: only an accepted end-of-input signal
    /// moves the context, from ready to draining.
    pub open(crate) spec fn sent_stage(self, last: bool, replies: Seq<Reply>) -> Stage {
        if self.stage is Ready && replies.len() > 0 && replies[0].status >= 0 && last {
            Stage::Draining
        } else {
            self.stage
        }
    }

    /// Handing over input: only a ready context takes any, and any other is
    /// refused before the call. A negative status is the failure; a full
    /// native buffer shows as the host's "would block".
    pub open(crate) spec fn sent_spec(self, call: Call, replies: Seq<Reply>) -> Step<
        (),
        Result<(), Error>,
    > {
        if !(self.stage is Ready) {
            Step::Done(Err(Error::InvalidState))
        } else if replies.len() == 0 {
            Step::Call(call, ())
        } else if replies[0].status < 0 {
            Step::Done(Err(Error::of(replies[0].status)))
        } else {
            Step::Done(Ok(()))
        }
    }

    /// Hands the native library one unit of input by `call`, or the
    /// end-of-input signal if `last`.
    pub fn send(&mut self, call: Call, last: bool, replies: &[Reply]) -> (step: Step<
        (),
        Result<(), Error>,
    >)
        ensures
            step == old(self).sent_spec(call, replies@),
            final(self).ptr() == old(self).ptr(),
            final(self).stage() == old(self).sent_stage(last, replies@),
    {
        if self.stage != Stage::Ready {
            Step::Done(Err(Error::InvalidState))
        } else if replies.len() == 0 {
            Step::Call(call, ())
        } else if replies[0].status < 0 {
            Step::Done(Err(Error::from(replies[0].status)))
        } else {
            if last {
                self.stage = Stage::Draining;
            }
            Step::Done(Ok(()))
        }
    }

    /// Whether a status ends the output for good: the end-of-stream tag
    /// always does, and while draining so does the host's "would block",
    /// since the input it asks for can no longer come. A status that is not
    /// negative is output, and ends nothing.
    pub open(crate) spec fn exhausted_by(self, status: i32, again: i32) -> bool {
        status < 0 && (status == AVERROR_EOF || (self.stage is Draining && status == negated(
            again,
        )))
    }

    /// The stage after asking for one unit of output: a context that gives
    /// output is spent once the native library has none left.
    pub open(crate) spec fn received_stage(self, replies: Seq<Reply>, again: i32) -> Stage {
        if (self.stage is Ready || self.stage is Draining) && replies.len() > 0
            && self.exhausted_by(replies[0].status, again) {
            Stage::Drained
        } else {
            self.stage
        }
    }

    /// Asking for output: a ready or draining context gives some, any other
    /// is refused before the call. A status that is not negative is one unit
    /// of output; exhaustion is reported as end of stream; any other negative
    /// status is the failure, the host's "would block" among them, which
    /// therefore only a ready context reports.
    pub open(crate) spec fn received_spec(self, call: Call, replies: Seq<Reply>, again: i32) -> Step<
        (),
        Result<(), Error>,
    > {
        if !(self.stage is Ready || self.stage is Draining) {
            Step::Done(Err(Error::InvalidState))
        } else if replies.len() == 0 {
            Step::Call(call, ())
        } else if self.exhausted_by(replies[0].status, again) {
            Step::Done(Err(Error::Eof))
        } else if replies[0].status >= 0 {
            Step::Done(Ok(()))
        } else {
            Step::Done(Err(Error::of(replies[0].status)))
        }
    }

    /// Asks the native library for one unit of output by `call`, on a host
    /// whose `errno` for "would block" is `again`.
    pub fn receive(&mut self, call: Call, replies: &[Reply], again: i32) -> (step: Step<
        (),
        Result<(), Error>,
    >)
        ensures
            step == old(self).received_spec(call, replies@, again),
            final(self).ptr() == old(self).ptr(),
            final(self).stage() == old(self).received_stage(replies@, again),
    {
        if self.stage != Stage::Ready && self.stage != Stage::Draining {
            Step::Done(Err(Error::InvalidState))
        } else if replies.len() == 0 {
            Step::Call(call, ())
        } else {
            let status = replies[0].status;
            if status >= 0 {
                Step::Done(Ok(()))
            } else if status == AVERROR_EOF || (self.stage == Stage::Draining && status == averror(
                again,
            )) {
                self.stage = Stage::Drained;
                Step::Done(Err(Error::Eof))
            } else {
                Step::Done(Err(Error::from(status)))
            }
        }
    }
}

} // verus!
