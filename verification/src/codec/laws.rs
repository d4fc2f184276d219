//! What holds of every codec context, whatever the native library replies.

use vstd::prelude::*;
use crate::codec::codec::{Codec, Role};
use crate::codec::context::{spec_capability, Context, Stage};
use crate::codec::decoder::decoder::Decoder;
use crate::codec::encoder::encoder::Encoder;
use crate::native::{
    calls, count, frees_of_kind, released, run, run_is_what_was_asked, Call, Field, Kind, Reply,
    Step,
};
use crate::util::dictionary::Owned;
use crate::util::error::{negated, Error, AVERROR_EOF};
use crate::util::media::Type;

verus! {

/// The one reply of an exchange that carries a status alone.
pub open spec fn told(status: i32) -> Seq<Reply> {
    seq![Reply { status, handle: 0, options: 0 }]
}

impl Context {
    /// The context after one finished request for output that the native
    /// library answered with `status`.
    pub open(crate) spec fn received(self, status: i32, again: i32) -> Context {
        Context { handle: self.handle, stage: self.received_stage(told(status), again) }
    }

    /// What one finished request for output comes to when the native library
    /// answers it with `status`.
    pub open spec fn receiving(self, status: i32, again: i32) -> Result<(), Error> {
        self.received_spec(Call::AllocContext, told(status), again)->Done_0
    }

    /// The context after as many finished requests for output as `statuses`
    /// has answers, in order.
    pub open spec fn received_all(self, statuses: Seq<i32>, again: i32) -> Context
        decreases statuses.len(),
    {
        if statuses.len() == 0 {
            self
        } else {
            self.received_all(statuses.drop_last(), again).received(statuses.last(), again)
        }
    }
}

/// An unopened context takes no input and gives no output: both requests are
/// `InvalidState`, no call is made, and the context stays as it is.
pub proof fn unopened_refuses_streaming(
    context: Context,
    call: Call,
    last: bool,
    replies: Seq<Reply>,
    again: i32,
)
    requires
        context.stage() is Unopened,
    ensures
        context.sent_spec(call, replies) == Step::<(), Result<(), Error>>::Done(
            Err(Error::InvalidState),
        ),
        context.received_spec(call, replies, again) == Step::<(), Result<(), Error>>::Done(
            Err(Error::InvalidState),
        ),
        context.sent_stage(last, replies) == context.stage(),
        context.received_stage(replies, again) == context.stage(),
{
}

/// A context that is no longer unopened is not opened again, and an encoder
/// on it takes no more parameters: both are `InvalidState`. Opening makes no
/// opening call: the context that it consumed is freed, and that is all.
pub proof fn opened_refuses_configuration(
    context: Context,
    codec: Codec,
    role: Role,
    field: Field,
    value: i64,
    replies: Seq<Reply>,
)
    requires
        !(context.stage() is Unopened),
    ensures
        context.open_spec(codec.handle, 0, replies) == released::<Context, Context>(
            Kind::Codec,
            context.ptr(),
            Error::InvalidState,
            context,
            0,
            replies,
        ),
        context.open_as_spec(codec, role, 0, replies) == released::<Context, Context>(
            Kind::Codec,
            context.ptr(),
            Error::InvalidState,
            context,
            0,
            replies,
        ),
        Encoder(context).set_spec(field, value) == Err::<Call, Error>(Error::InvalidState),
{
}

/// A spent context refuses everything: sending and receiving are
/// `InvalidState`, no call is made, and the context stays spent.
pub proof fn spent_refuses_everything(
    context: Context,
    call: Call,
    last: bool,
    replies: Seq<Reply>,
    again: i32,
)
    requires
        context.stage() is Drained,
    ensures
        context.sent_spec(call, replies) == Step::<(), Result<(), Error>>::Done(
            Err(Error::InvalidState),
        ),
        context.received_spec(call, replies, again) == Step::<(), Result<(), Error>>::Done(
            Err(Error::InvalidState),
        ),
        context.sent_stage(last, replies) is Drained,
        context.received_stage(replies, again) is Drained,
{
}

/// Once the end of input is signalled, nothing more is sent: sending is
/// `InvalidState`, and no call is made.
pub proof fn draining_refuses_input(context: Context, call: Call, last: bool, replies: Seq<Reply>)
    requires
        context.stage() is Draining,
    ensures
        context.sent_spec(call, replies) == Step::<(), Result<(), Error>>::Done(
            Err(Error::InvalidState),
        ),
        context.sent_stage(last, replies) is Draining,
{
}

/// A context moves forward only: no request for input or output takes it to
/// an earlier stage, and opening takes an unopened context to a ready one.
pub proof fn stage_never_goes_back(
    context: Context,
    codec: usize,
    last: bool,
    replies: Seq<Reply>,
    again: i32,
)
    ensures
        context.sent_stage(last, replies).rank() >= context.stage().rank(),
        context.received_stage(replies, again).rank() >= context.stage().rank(),
        context.open_spec(codec, 0, replies) matches Step::Done(Ok(opened)) ==> context.stage()
            is Unopened && opened.stage() is Ready && opened.ptr() == context.ptr(),
{
}

/// The end of input is signalled by an accepted end-of-input signal and by
/// nothing else: a ready context starts to drain exactly when such a signal
/// was sent and the native library did not refuse it.
pub proof fn only_the_signal_starts_the_drain(
    context: Context,
    call: Call,
    last: bool,
    replies: Seq<Reply>,
)
    requires
        context.stage() is Ready,
    ensures
        context.sent_stage(last, replies) is Draining <==> last && context.sent_spec(call, replies)
            == Step::<(), Result<(), Error>>::Done(Ok(())),
        !(context.sent_stage(last, replies) is Draining) ==> context.sent_stage(last, replies)
            is Ready,
{
}

/// While draining, a request for output never comes to the host's "would
/// block": it gives output, the end of the stream, or a failure that is not
/// "would block".
pub proof fn draining_never_would_block(context: Context, call: Call, replies: Seq<Reply>, again: i32)
    requires
        context.stage() is Draining,
    ensures
        context.received_spec(call, replies, again) != Step::<(), Result<(), Error>>::Done(
            Err(Error::Other { errno: again }),
        ),
{
    if replies.len() > 0 {
        let status = replies[0].status;
        if status < 0 && !context.exhausted_by(status, again) {
            assert(Error::of(status) != (Error::Other { errno: again })) by {
                if Error::of(status) == (Error::Other { errno: again }) {
                    assert(negated(status) == again);
                    assert(negated(again) == status);
                }
            }
        }
    }
}

/// The end of the stream is reported once: the request that comes to `Eof`
/// leaves the context spent.
pub proof fn end_of_stream_spends(context: Context, call: Call, replies: Seq<Reply>, again: i32)
    requires
        context.received_spec(call, replies, again) == Step::<(), Result<(), Error>>::Done(
            Err(Error::Eof),
        ),
    ensures
        context.received_stage(replies, again) is Drained,
{
    let status = replies[0].status;
    if !context.exhausted_by(status, again) {
        assert(Error::of(status) is Eof);
        assert(status == AVERROR_EOF);
    }
}

/// A drain ends. Let a draining context be asked for output again and again,
/// and let answer `end` be the first at which the native library has nothing
/// left (it says end of stream, or that it would block). Then every request
/// before that one leaves the context draining, that request comes to `Eof`,
/// and from then on the context is spent.
pub proof fn drain_ends_in_end_of_stream(context: Context, statuses: Seq<i32>, again: i32, end: int)
    requires
        context.stage() is Draining,
        0 <= end < statuses.len(),
        context.exhausted_by(statuses[end], again),
        forall|i: int| 0 <= i < end ==> !context.exhausted_by(#[trigger] statuses[i], again),
    ensures
        forall|i: int|
            0 <= i <= end ==> (#[trigger] context.received_all(statuses.take(i), again)).stage()
                is Draining,
        context.received_all(statuses.take(end), again).receiving(statuses[end], again) == Err::<
            (),
            Error,
        >(Error::Eof),
        forall|i: int|
            end < i <= statuses.len() ==> (#[trigger] context.received_all(
                statuses.take(i),
                again,
            )).stage() is Drained,
{
    assert forall|i: int| 0 <= i <= end implies (#[trigger] context.received_all(
        statuses.take(i),
        again,
    )).stage is Draining by {
        stays_draining(context, statuses, again, i);
    }
    assert forall|i: int| end < i <= statuses.len() implies (#[trigger] context.received_all(
        statuses.take(i),
        again,
    )).stage is Drained by {
        stays_spent(context, statuses, again, end, i);
    }
}

proof fn stays_draining(context: Context, statuses: Seq<i32>, again: i32, upto: int)
    requires
        context.stage() is Draining,
        0 <= upto <= statuses.len(),
        forall|i: int| 0 <= i < upto ==> !context.exhausted_by(#[trigger] statuses[i], again),
    ensures
        context.received_all(statuses.take(upto), again).stage() is Draining,
        context.received_all(statuses.take(upto), again).handle == context.ptr(),
    decreases upto,
{
    if upto > 0 {
        stays_draining(context, statuses, again, upto - 1);
        assert(statuses.take(upto).drop_last() =~= statuses.take(upto - 1));
        assert(statuses.take(upto).last() == statuses[upto - 1]);
    }
}

proof fn stays_spent(context: Context, statuses: Seq<i32>, again: i32, end: int, upto: int)
    requires
        context.stage() is Draining,
        0 <= end < upto <= statuses.len(),
        context.exhausted_by(statuses[end], again),
        forall|i: int| 0 <= i < end ==> !context.exhausted_by(#[trigger] statuses[i], again),
    ensures
        context.received_all(statuses.take(upto), again).stage() is Drained,
    decreases upto,
{
    assert(statuses.take(upto).drop_last() =~= statuses.take(upto - 1));
    assert(statuses.take(upto).last() == statuses[upto - 1]);
    if upto == end + 1 {
        stays_draining(context, statuses, again, end);
    } else {
        stays_spent(context, statuses, again, end, upto - 1);
    }
}

/// The opening of a context for a codec with options, as an operation on
/// replies alone.
pub open spec fn open_as_with_op(context: Context, codec: Codec, role: Role, options: Owned) -> spec_fn(
    Seq<Reply>,
) -> Step<(Context, Owned), Result<Context, Error>> {
    |replies: Seq<Reply>| context.open_as_with_spec(codec, role, options, replies)
}

/// An opening with options frees exactly one dictionary, on success and on
/// failure alike. Where the opening call was made, it was given the
/// dictionary, and the call right after it frees what it left behind; where
/// it was not made, the dictionary is freed as it was given. The context is
/// freed exactly when the opening fails, once, and after the dictionary.
pub proof fn open_frees_its_options_once(
    context: Context,
    codec: Codec,
    role: Role,
    options: Owned,
    replies: Seq<Reply>,
)
    requires
        run(open_as_with_op(context, codec, role, options), replies),
        context.open_as_with_spec(codec, role, options, replies) is Done,
    ensures
        ({
            let made = calls(open_as_with_op(context, codec, role, options), replies);
            let done = context.open_as_with_spec(codec, role, options, replies)->Done_0;
            let given = Call::Free { kind: Kind::Dictionary, handle: options.ptr() };
            &&& frees_of_kind(made, Kind::Dictionary) == 1
            &&& if context.stage() is Unopened && replies[0].status != 0 {
                &&& made[1] == (Call::OpenCodec {
                    context: context.ptr(),
                    codec: codec.handle,
                    options: Some(options.ptr()),
                })
                &&& made[2] == (Call::Free { kind: Kind::Dictionary, handle: replies[1].options })
            } else if context.stage() is Unopened {
                made[1] == given
            } else {
                made[0] == given
            }
            &&& match done {
                Ok(opened) => frees_of_kind(made, Kind::Codec) == 0,
                Err(_) => {
                    &&& frees_of_kind(made, Kind::Codec) == 1
                    &&& made.last() == (Call::Free { kind: Kind::Codec, handle: context.ptr() })
                },
            }
        }),
{
    reveal_with_fuel(count, 6);
    let op = open_as_with_op(context, codec, role, options);
    run_is_what_was_asked(op, replies, 4);
}

/// The opening of a decoder for one medium, as an operation on replies
/// alone.
pub open spec fn select_op(decoder: Decoder, medium: Type) -> spec_fn(Seq<Reply>) -> Step<
    Decoder,
    Result<crate::codec::decoder::Opened, Error>,
> {
    |replies: Seq<Reply>| decoder.select_spec(medium, replies)
}

/// A decoder is opened only with a codec that can decode, and handed out
/// only for the medium that was asked for.
///
/// In every finished run that hands a decoder out: the run asked some codec
/// whether it can decode and was told yes, the very next call opened the
/// context for that codec and came back with status 0, and the call after
/// that read the context's media kind, which was the one asked for. The
/// decoder that is handed out is ready, and is the context that was given.
pub proof fn decoder_is_opened_for_a_decoding_codec(
    decoder: Decoder,
    medium: Type,
    replies: Seq<Reply>,
)
    requires
        run(select_op(decoder, medium), replies),
        decoder.select_spec(medium, replies) matches Step::Done(Ok(_)),
    ensures
        ({
            let made = calls(select_op(decoder, medium), replies);
            let opened = decoder.select_spec(medium, replies)->Done_0->Ok_0;
            let n = replies.len() as int;
            &&& n >= 3
            &&& made[n - 3] matches Call::IsDecoder { codec }
            &&& replies[n - 3].status != 0
            &&& made[n - 2] == (Call::OpenCodec {
                context: decoder.0.ptr(),
                codec,
                options: None,
            })
            &&& replies[n - 2].status == 0
            &&& made[n - 1] == (Call::Read { object: decoder.0.ptr(), field: Field::CodecType })
            &&& Type::of(replies[n - 1].status) == medium
            &&& opened.0.0.ptr() == decoder.0.ptr()
            &&& opened.0.0.stage() is Ready
            &&& decoder.0.stage() is Unopened
        }),
{
    let op = select_op(decoder, medium);
    run_is_what_was_asked(op, replies, 6);
}

/// A codec identifier that the native library has no decoder for is
/// `DecoderNotFound`: where the context is bound to no codec and the lookup
/// finds none, no codec is ever opened; the context is freed, and the
/// failure is reported.
pub proof fn unknown_codec_is_not_found(decoder: Decoder, medium: Type, replies: Seq<Reply>)
    requires
        decoder.0.stage() is Unopened,
        replies.len() >= 3,
        replies[0].handle == 0,
        replies[2].handle == 0,
    ensures
        decoder.select_spec(medium, replies) == released::<Decoder, crate::codec::decoder::Opened>(
            Kind::Codec,
            decoder.0.ptr(),
            Error::DecoderNotFound,
            decoder,
            3,
            replies,
        ),
{
}

/// The bound codec goes first: a context that is bound to a codec is opened
/// with that codec, and the codec identifier is never looked up.
pub proof fn bound_codec_goes_first(decoder: Decoder, medium: Type, replies: Seq<Reply>)
    requires
        decoder.0.stage() is Unopened,
        replies.len() >= 1,
        replies[0].handle != 0,
    ensures
        decoder.select_spec(medium, replies) == decoder.open_for_spec(
            Codec { handle: replies[0].handle },
            medium,
            1,
            replies,
        ),
        forall|i: int|
            0 <= i <= replies.len() ==> !((#[trigger] decoder.select_spec(
                medium,
                replies.take(i),
            )) matches Step::Call(Call::FindDecoder { .. }, _)),
{
    assert forall|i: int| 0 <= i <= replies.len() implies !((#[trigger] decoder.select_spec(
        medium,
        replies.take(i),
    )) matches Step::Call(Call::FindDecoder { .. }, _)) by {
        if i >= 1 {
            assert(replies.take(i)[0] == replies[0]);
        }
    }
}

/// A failed opening leaks nothing and a passed one frees nothing.
///
/// In every finished run of the opening of a decoder for one medium: where a
/// decoder is handed out, no call of the run frees a codec context; where
/// the opening fails, for whatever reason, exactly one call of the run frees
/// a codec context, it frees the one that was given, and it is the last call
/// of the run.
pub proof fn decoder_is_freed_unless_handed_out(
    decoder: Decoder,
    medium: Type,
    replies: Seq<Reply>,
)
    requires
        run(select_op(decoder, medium), replies),
        decoder.select_spec(medium, replies) is Done,
    ensures
        ({
            let made = calls(select_op(decoder, medium), replies);
            match decoder.select_spec(medium, replies)->Done_0 {
                Ok(_) => frees_of_kind(made, Kind::Codec) == 0,
                Err(_) => {
                    &&& frees_of_kind(made, Kind::Codec) == 1
                    &&& made.last() == (Call::Free { kind: Kind::Codec, handle: decoder.0.ptr() })
                },
            }
        }),
{
    reveal_with_fuel(count, 9);
    let op = select_op(decoder, medium);
    run_is_what_was_asked(op, replies, 7);
}

/// The opening of a context for a codec, as an operation on replies alone.
pub open spec fn open_as_op(context: Context, codec: Codec, role: Role) -> spec_fn(
    Seq<Reply>,
) -> Step<Context, Result<Context, Error>> {
    |replies: Seq<Reply>| context.open_as_spec(codec, role, 0, replies)
}

/// The opening of a context for the codec it is bound to, as an operation on
/// replies alone.
pub open spec fn open_op(context: Context) -> spec_fn(Seq<Reply>) -> Step<
    Context,
    Result<Context, Error>,
> {
    |replies: Seq<Reply>| context.open_spec(0, 0, replies)
}

/// Opening is a transition that consumes the context and leaks nothing.
///
/// In every finished run of an opening, with a given codec or with the bound
/// one: where it passes, the context that is handed out is the one that was
/// given, now ready, and no call of the run frees a codec context; where it
/// fails, exactly one call of the run frees a codec context, it frees the one
/// that was given, and it is the last call of the run.
pub proof fn context_is_freed_unless_opened(
    context: Context,
    codec: Option<Codec>,
    role: Role,
    replies: Seq<Reply>,
)
    requires
        match codec {
            Some(codec) => run(open_as_op(context, codec, role), replies) && context.open_as_spec(
                codec,
                role,
                0,
                replies,
            ) is Done,
            None => run(open_op(context), replies) && context.open_spec(0, 0, replies) is Done,
        },
    ensures
        ({
            let made = match codec {
                Some(codec) => calls(open_as_op(context, codec, role), replies),
                None => calls(open_op(context), replies),
            };
            let done = match codec {
                Some(codec) => context.open_as_spec(codec, role, 0, replies)->Done_0,
                None => context.open_spec(0, 0, replies)->Done_0,
            };
            match done {
                Ok(opened) => {
                    &&& opened == Context::at(context.ptr(), Stage::Ready)
                    &&& context.stage() is Unopened
                    &&& frees_of_kind(made, Kind::Codec) == 0
                },
                Err(_) => {
                    &&& frees_of_kind(made, Kind::Codec) == 1
                    &&& made.last() == (Call::Free { kind: Kind::Codec, handle: context.ptr() })
                },
            }
        }),
{
    reveal_with_fuel(count, 5);
    match codec {
        Some(codec) => {
            let op = open_as_op(context, codec, role);
            run_is_what_was_asked(op, replies, 3);
        },
        None => {
            let op = open_op(context);
            run_is_what_was_asked(op, replies, 2);
        },
    }
}

/// The taking of an encoder for one medium, as an operation on replies alone.
pub open spec fn typed_op(encoder: Encoder, medium: Type) -> spec_fn(Seq<Reply>) -> Step<
    Encoder,
    Result<Encoder, Error>,
> {
    |replies: Seq<Reply>| encoder.typed_spec(medium, replies)
}

/// The narrowing of an opened decoder to one medium, as an operation on
/// replies alone.
pub open spec fn narrow_op(opened: crate::codec::decoder::Opened, medium: Type) -> spec_fn(
    Seq<Reply>,
) -> Step<crate::codec::decoder::Opened, Result<crate::codec::decoder::Opened, Error>> {
    |replies: Seq<Reply>| opened.narrow_spec(medium, replies)
}

/// Taking a context for one medium consumes it and leaks nothing: in every
/// finished run, the encoder or decoder that is handed out is the one that
/// was given, and no call frees a codec context; where the medium is
/// another, exactly one call frees a codec context, the one that was given,
/// and it is the last call of the run.
pub proof fn context_is_freed_unless_of_the_medium(
    encoder: Encoder,
    opened: crate::codec::decoder::Opened,
    medium: Type,
    replies: Seq<Reply>,
)
    ensures
        run(typed_op(encoder, medium), replies) ==> match encoder.typed_spec(medium, replies) {
            Step::Call(_, back) => back == encoder,
            Step::Done(Ok(typed)) => typed == encoder && frees_of_kind(
                calls(typed_op(encoder, medium), replies),
                Kind::Codec,
            ) == 0,
            Step::Done(Err(error)) => {
                &&& error is InvalidData
                &&& frees_of_kind(calls(typed_op(encoder, medium), replies), Kind::Codec) == 1
                &&& calls(typed_op(encoder, medium), replies).last() == (Call::Free {
                    kind: Kind::Codec,
                    handle: encoder.0.ptr(),
                })
            },
        },
        run(narrow_op(opened, medium), replies) ==> match opened.narrow_spec(medium, replies) {
            Step::Call(_, back) => back == opened,
            Step::Done(Ok(narrowed)) => narrowed == opened && frees_of_kind(
                calls(narrow_op(opened, medium), replies),
                Kind::Codec,
            ) == 0,
            Step::Done(Err(error)) => {
                &&& error is InvalidData
                &&& frees_of_kind(calls(narrow_op(opened, medium), replies), Kind::Codec) == 1
                &&& calls(narrow_op(opened, medium), replies).last() == (Call::Free {
                    kind: Kind::Codec,
                    handle: opened.0.0.ptr(),
                })
            },
        },
{
    reveal_with_fuel(count, 4);
    if run(typed_op(encoder, medium), replies) {
        let op = typed_op(encoder, medium);
        run_is_what_was_asked(op, replies, 2);
    }
    if run(narrow_op(opened, medium), replies) {
        let op = narrow_op(opened, medium);
        run_is_what_was_asked(op, replies, 2);
    }
}

} // verus!
