//! A loopback codec: the simplest processor that keeps the send/receive
//! protocol of the native library.
//!
//! It gives one unit of output for each unit of input, in order, and holds
//! at most `capacity` units in between. It stands where the native library
//! stands, so a codec context can be driven against it from start to end;
//! what goes through it depends on the protocol alone, since the units carry
//! no content here.

use vstd::prelude::*;
use crate::codec::codec::Role;
use crate::codec::context::{Context, Stage};
use crate::native::{Call, Reply, Step};
use crate::util::error::{averror, negated, tagged, Error, AVERROR_EOF};

verus! {

/// The state of a loopback codec.
#[derive(Debug, PartialEq, Eq, Hash)]
pub struct Loopback {
    /// How many units the buffer holds at most.
    pub capacity: usize,
    /// How many units the buffer holds.
    pub buffered: usize,
    /// Whether the end of input has been signalled.
    pub flushed: bool,
    /// The host's `errno` for "would block".
    pub again: i32,
}

/// The call that hands a unit to a context in the given role.
pub open spec fn spec_giving(role: Role, context: usize, unit: usize) -> Call {
    match role {
        Role::Encode => Call::SendFrame { context, frame: unit },
        Role::Decode => Call::SendPacket { context, packet: unit },
    }
}

/// The call that asks a context in the given role for a unit.
pub open spec fn spec_taking(role: Role, context: usize, unit: usize) -> Call {
    match role {
        Role::Encode => Call::ReceivePacket { context, packet: unit },
        Role::Decode => Call::ReceiveFrame { context, frame: unit },
    }
}

/// The call that hands a unit to a context in the given role.
pub fn giving(role: Role, context: usize, unit: usize) -> (call: Call)
    ensures
        call == spec_giving(role, context, unit),
{
    match role {
        Role::Encode => Call::SendFrame { context, frame: unit },
        Role::Decode => Call::SendPacket { context, packet: unit },
    }
}

/// The call that asks a context in the given role for a unit.
pub fn taking(role: Role, context: usize, unit: usize) -> (call: Call)
    ensures
        call == spec_taking(role, context, unit),
{
    match role {
        Role::Encode => Call::ReceivePacket { context, packet: unit },
        Role::Decode => Call::ReceiveFrame { context, frame: unit },
    }
}

impl Loopback {
    /// A loopback codec is sound if its buffer has room for a unit and holds
    /// no more than it has room for, and if the status that it gives for
    /// "would block" is a failure that stands for nothing else.
    pub open spec fn wf(self) -> bool {
        &&& self.capacity >= 1
        &&& self.buffered <= self.capacity
        &&& self.again > 0
        &&& tagged(-(self.again as int)) is None
    }

    /// A loopback codec is fresh if it is sound and nothing has gone through
    /// it yet.
    pub open spec fn fresh(self) -> bool {
        self.wf() && self.buffered == 0 && !self.flushed
    }

    /// Whether the loopback codec is fresh.
    pub fn is_fresh(&self) -> (fresh: bool)
        ensures
            fresh == self.fresh(),
    {
        self.capacity >= 1 && self.buffered == 0 && !self.flushed && self.again > 0 && (match Error::from(
            averror(self.again),
        ) {
            Error::Other { .. } => true,
            _ => false,
        })
    }

    /// A fresh loopback codec, if `capacity` and `again` make a sound one.
    pub fn new(capacity: usize, again: i32) -> (made: Option<Loopback>)
        ensures
            match made {
                Some(native) => native.fresh() && native.capacity == capacity && native.again
                    == again,
                None => !(Loopback { capacity, buffered: 0, flushed: false, again }).fresh(),
            },
    {
        let native = Loopback { capacity, buffered: 0, flushed: false, again };
        if native.is_fresh() {
            Some(native)
        } else {
            None
        }
    }

    /// The status that the loopback codec answers a call with.
    ///
    /// Input after the end of input is `Eof`; input to a full buffer would
    /// block; other input, and the end-of-input signal, is taken. A request
    /// for output is met from the buffer; from an empty buffer it is `Eof`
    /// once the end of input has been signalled, and would block before.
    /// Every other call succeeds.
    pub open spec fn spec_status(self, call: Call) -> i32 {
        match call {
            Call::SendFrame { context, frame: unit } | Call::SendPacket { context, packet: unit } => {
                if self.flushed {
                    AVERROR_EOF
                } else if unit == 0 {
                    0
                } else if self.buffered >= self.capacity {
                    negated(self.again)
                } else {
                    0
                }
            },
            Call::ReceivePacket { .. } | Call::ReceiveFrame { .. } => {
                if self.buffered > 0 {
                    0
                } else if self.flushed {
                    AVERROR_EOF
                } else {
                    negated(self.again)
                }
            },
            _ => 0,
        }
    }

    /// The loopback codec after it has answered a call.
    pub open spec fn spec_after(self, call: Call) -> Loopback {
        match call {
            Call::SendFrame { context, frame: unit } | Call::SendPacket { context, packet: unit } => {
                if self.flushed {
                    self
                } else if unit == 0 {
                    Loopback { flushed: true, ..self }
                } else if self.buffered >= self.capacity {
                    self
                } else {
                    Loopback { buffered: (self.buffered + 1) as usize, ..self }
                }
            },
            Call::ReceivePacket { .. } | Call::ReceiveFrame { .. } => {
                if self.buffered > 0 {
                    Loopback { buffered: (self.buffered - 1) as usize, ..self }
                } else {
                    self
                }
            },
            _ => self,
        }
    }

    fn give(&mut self, unit: usize) -> (status: i32)
        ensures
            status == old(self).spec_status(Call::SendFrame { context: 0, frame: unit }),
            *final(self) == old(self).spec_after(Call::SendFrame { context: 0, frame: unit }),
    {
        if self.flushed {
            AVERROR_EOF
        } else if unit == 0 {
            self.flushed = true;
            0
        } else if self.buffered >= self.capacity {
            averror(self.again)
        } else {
            self.buffered = self.buffered + 1;
            0
        }
    }

    fn take(&mut self) -> (status: i32)
        ensures
            status == old(self).spec_status(Call::ReceiveFrame { context: 0, frame: 0 }),
            *final(self) == old(self).spec_after(Call::ReceiveFrame { context: 0, frame: 0 }),
    {
        if self.buffered > 0 {
            self.buffered = self.buffered - 1;
            0
        } else if self.flushed {
            AVERROR_EOF
        } else {
            averror(self.again)
        }
    }

    /// Answers one call in place of the native library.
    pub fn perform(&mut self, call: Call) -> (reply: Reply)
        ensures
            reply == (Reply { status: old(self).spec_status(call), handle: 0, options: 0 }),
            *final(self) == old(self).spec_after(call),
            old(self).wf() ==> final(self).wf(),
    {
        let status = match call {
            Call::SendFrame { context, frame } => self.give(frame),
            Call::SendPacket { context, packet } => self.give(packet),
            Call::ReceivePacket { .. } => self.take(),
            Call::ReceiveFrame { .. } => self.take(),
            _ => 0,
        };
        Reply { status, handle: 0, options: 0 }
    }

    /// One exchange of input between a context and this loopback codec, in
    /// place of the native library: the context is asked what is due; what it
    /// refuses before the call never reaches the codec; else the codec
    /// answers the call, and the context is asked again with the answer.
    /// This gives the codec and the context after the exchange, and what the
    /// exchange came to.
    pub open(crate) spec fn spec_send(self, context: Context, call: Call, last: bool) -> (
        Loopback,
        Context,
        Result<(), Error>,
    ) {
        if context.sent_spec(call, Seq::empty()) is Done {
            (self, context, context.sent_spec(call, Seq::empty())->Done_0)
        } else {
            let replies = seq![Reply { status: self.spec_status(call), handle: 0, options: 0 }];
            (
                self.spec_after(call),
                Context { handle: context.handle, stage: context.sent_stage(last, replies) },
                context.sent_spec(call, replies)->Done_0,
            )
        }
    }

    /// One exchange of output between a context and this loopback codec, in
    /// the same way.
    pub open(crate) spec fn spec_receive(self, context: Context, call: Call) -> (
        Loopback,
        Context,
        Result<(), Error>,
    ) {
        if context.received_spec(call, Seq::empty(), self.again) is Done {
            (self, context, context.received_spec(call, Seq::empty(), self.again)->Done_0)
        } else {
            let replies = seq![Reply { status: self.spec_status(call), handle: 0, options: 0 }];
            (
                self.spec_after(call),
                Context {
                    handle: context.handle,
                    stage: context.received_stage(replies, self.again),
                },
                context.received_spec(call, replies, self.again)->Done_0,
            )
        }
    }

    /// Feeding: `left` units are sent through `context`, one exchange each.
    /// Where an exchange of input fails, one exchange of output is made
    /// before the unit is sent again; where that fails too, the feeding ends
    /// with its failure. `got` counts the exchanges of output that came to
    /// `Ok`, and is what the feeding gives when every unit is sent. This is
    /// defined for a sound codec, where an exchange of output that comes to
    /// `Ok` takes a unit out of the buffer.
    pub open(crate) spec fn spec_feed(self, context: Context, role: Role, unit: usize, left: nat, got: nat) -> (
        Loopback,
        Context,
        Result<nat, Error>,
    )
        decreases left, self.buffered,
        when self.wf()
    {
        if left == 0 {
            (self, context, Ok(got))
        } else {
            let sent = self.spec_send(context, spec_giving(role, context.handle, unit), false);
            if sent.2 is Ok {
                sent.0.spec_feed(sent.1, role, unit, (left - 1) as nat, got)
            } else {
                let received = sent.0.spec_receive(
                    sent.1,
                    spec_taking(role, context.handle, unit),
                );
                match received.2 {
                    Ok(()) => received.0.spec_feed(received.1, role, unit, left, got + 1),
                    Err(error) => (received.0, received.1, Err(error)),
                }
            }
        }
    }

    /// Draining: output is exchanged until an exchange fails. `got` counts
    /// the exchanges that came to `Ok`. This is defined for a sound codec.
    pub open(crate) spec fn spec_drain(self, context: Context, role: Role, unit: usize, got: nat) -> (
        Loopback,
        Context,
        nat,
    )
        decreases self.buffered,
        when self.wf()
    {
        let received = self.spec_receive(context, spec_taking(role, context.handle, unit));
        match received.2 {
            Ok(()) => received.0.spec_drain(received.1, role, unit, got + 1),
            Err(_) => (received.0, received.1, got),
        }
    }

    /// The whole schedule of `pump`: `units` units are fed, the end of input
    /// is signalled, and the context is drained. This gives the codec and the
    /// context as the schedule leaves them, and the number of exchanges of
    /// output that came to `Ok`, or the failure that ended the schedule
    /// before the drain.
    pub open(crate) spec fn spec_pump(self, context: Context, role: Role, unit: usize, units: nat) -> (
        Loopback,
        Context,
        Result<nat, Error>,
    ) {
        let fed = self.spec_feed(context, role, unit, units, 0);
        match fed.2 {
            Err(error) => fed,
            Ok(got) => {
                let ended = fed.0.spec_send(fed.1, spec_giving(role, context.handle, 0), true);
                match ended.2 {
                    Err(error) => (ended.0, ended.1, Err(error)),
                    Ok(()) => {
                        let drained = ended.0.spec_drain(ended.1, role, unit, got);
                        (drained.0, drained.1, Ok(drained.2))
                    },
                }
            },
        }
    }

    /// Hands `call` to `context` and answers it from this loopback codec:
    /// asks the context what is due, performs that, and asks again.
    fn send(&mut self, context: &mut Context, call: Call, last: bool) -> (result: Result<
        (),
        Error,
    >)
        ensures
            (*final(self), *final(context), result) == old(self).spec_send(
                *old(context),
                call,
                last,
            ),
    {
        let none: Vec<Reply> = Vec::new();
        match context.send(call, last, none.as_slice()) {
            Step::Done(result) => result,
            Step::Call(due, _) => {
                let mut replies: Vec<Reply> = Vec::new();
                replies.push(self.perform(due));
                assert(replies@ =~= seq![
                    Reply { status: old(self).spec_status(call), handle: 0, options: 0 },
                ]);
                match context.send(call, last, replies.as_slice()) {
                    Step::Done(result) => result,
                    Step::Call(_, _) => Err(Error::Bug),
                }
            },
        }
    }

    /// Asks `context` for output by `call` and answers from this loopback
    /// codec.
    fn receive(&mut self, context: &mut Context, call: Call) -> (result: Result<(), Error>)
        ensures
            (*final(self), *final(context), result) == old(self).spec_receive(*old(context), call),
    {
        let again = self.again;
        let none: Vec<Reply> = Vec::new();
        match context.receive(call, none.as_slice(), again) {
            Step::Done(result) => result,
            Step::Call(due, _) => {
                let mut replies: Vec<Reply> = Vec::new();
                replies.push(self.perform(due));
                assert(replies@ =~= seq![
                    Reply { status: old(self).spec_status(call), handle: 0, options: 0 },
                ]);
                match context.receive(call, replies.as_slice(), again) {
                    Step::Done(result) => result,
                    Step::Call(_, _) => Err(Error::Bug),
                }
            },
        }
    }

    /// Puts `units` units through `context`, with this loopback codec in
    /// place of the native library, and counts what comes out.
    ///
    /// Each unit is sent; where the codec would block, one unit of output is
    /// received first. Then the end of input is signalled, and output is
    /// received until the end of the stream. What is counted is the requests
    /// for output that the context answered with `Ok`, exchange by exchange
    /// as `spec_pump` replays them. Only a ready context on a fresh loopback
    /// codec is driven, with units that are not null; anything else is
    /// `InvalidState`, and nothing is touched.
    pub fn pump(&mut self, context: &mut Context, role: Role, unit: usize, units: usize) -> (count:
        Result<usize, Error>)
        ensures
            old(context).stage() is Ready && old(self).fresh() && unit != 0 ==> {
                let run = old(self).spec_pump(*old(context), role, unit, units as nat);
                &&& *final(self) == run.0
                &&& *final(context) == run.1
                &&& match count {
                    Ok(out) => run.2 == Ok::<nat, Error>(out as nat),
                    Err(error) => run.2 == Err::<nat, Error>(error),
                }
            },
            !(old(context).stage() is Ready && old(self).fresh() && unit != 0) ==> {
                &&& count == Err::<usize, Error>(Error::InvalidState)
                &&& *final(context) == *old(context)
                &&& *final(self) == *old(self)
            },
    {
        if context.stage != Stage::Ready || !self.is_fresh() || unit == 0 {
            return Err(Error::InvalidState);
        }
        let ghost fed = self.spec_feed(*context, role, unit, units as nat, 0);
        let handle = context.handle;
        let give = giving(role, handle, unit);
        let take = taking(role, handle, unit);
        let mut sent: usize = 0;
        let mut received: usize = 0;
        while sent < units
            invariant
                context.stage is Ready,
                context.handle == handle,
                self.wf(),
                !self.flushed,
                unit != 0,
                give == spec_giving(role, handle, unit),
                take == spec_taking(role, handle, unit),
                sent <= units,
                received + self.buffered == sent,
                fed == self.spec_feed(
                    *context,
                    role,
                    unit,
                    (units - sent) as nat,
                    received as nat,
                ),
            decreases units - sent, self.buffered,
        {
            match self.send(context, give, false) {
                Ok(()) => {
                    sent = sent + 1;
                },
                Err(_) => {
                    match self.receive(context, take) {
                        Ok(()) => {
                            received = received + 1;
                        },
                        Err(error) => {
                            return Err(error);
                        },
                    }
                },
            }
        }
        let end = giving(role, handle, 0);
        match self.send(context, end, true) {
            Ok(()) => {},
            Err(error) => {
                return Err(error);
            },
        }
        let ghost drained = self.spec_drain(*context, role, unit, received as nat);
        loop
            invariant_except_break
                context.stage is Draining,
                drained == self.spec_drain(*context, role, unit, received as nat),
            invariant
                context.handle == handle,
                self.wf(),
                self.flushed,
                take == spec_taking(role, handle, unit),
                sent == units,
                received + self.buffered == sent,
            ensures
                drained == (*self, *context, received as nat),
            decreases self.buffered,
        {
            match self.receive(context, take) {
                Ok(()) => {
                    received = received + 1;
                },
                Err(_) => {
                    break ;
                },
            }
        }
        Ok(received)
    }
}

/// Feeding a sound loopback codec through a ready context sends every unit:
/// the context stays ready, the codec stays sound and open for input, and
/// every unit that was sent is either counted or still in the buffer.
pub proof fn feeding_sends_every_unit(
    native: Loopback,
    context: Context,
    role: Role,
    unit: usize,
    left: nat,
    got: nat,
)
    requires
        native.wf(),
        !native.flushed,
        context.stage() is Ready,
        unit != 0,
    ensures
        ({
            let fed = native.spec_feed(context, role, unit, left, got);
            &&& fed.1 == context
            &&& fed.0.wf()
            &&& !fed.0.flushed
            &&& fed.0.capacity == native.capacity
            &&& fed.0.again == native.again
            &&& fed.2 matches Ok(counted)
            &&& counted + fed.0.buffered == got + native.buffered + left
        }),
    decreases left, native.buffered,
{
    if left > 0 {
        let sent = native.spec_send(context, spec_giving(role, context.handle, unit), false);
        if sent.2 is Ok {
            feeding_sends_every_unit(sent.0, sent.1, role, unit, (left - 1) as nat, got);
        } else {
            let received = sent.0.spec_receive(sent.1, spec_taking(role, context.handle, unit));
            feeding_sends_every_unit(received.0, received.1, role, unit, left, got + 1);
        }
    }
}

/// Draining a sound loopback codec that has been told the end of input
/// gives everything in its buffer, one unit per request, and ends: the
/// buffer is empty and the context is spent.
pub proof fn draining_empties_the_buffer(
    native: Loopback,
    context: Context,
    role: Role,
    unit: usize,
    got: nat,
)
    requires
        native.wf(),
        native.flushed,
        context.stage() is Draining,
    ensures
        native.spec_drain(context, role, unit, got) == (
            Loopback { buffered: 0, ..native },
            Context::at(context.ptr(), Stage::Drained),
            (got + native.buffered) as nat,
        ),
    decreases native.buffered,
{
    let received = native.spec_receive(context, spec_taking(role, context.handle, unit));
    if received.2 is Ok {
        draining_empties_the_buffer(received.0, received.1, role, unit, got + 1);
    }
}

/// What goes in comes out: a ready context that is pumped on a fresh
/// loopback codec gives exactly as many units as it was given, whatever the
/// codec's capacity. The schedule ends with the context spent and the codec
/// empty and told the end of input.
pub proof fn pump_gives_back_what_it_was_given(
    native: Loopback,
    context: Context,
    role: Role,
    unit: usize,
    units: nat,
)
    requires
        native.fresh(),
        context.stage() is Ready,
        unit != 0,
    ensures
        native.spec_pump(context, role, unit, units) == (
            Loopback { buffered: 0, flushed: true, ..native },
            Context::at(context.ptr(), Stage::Drained),
            Ok::<nat, Error>(units),
        ),
{
    feeding_sends_every_unit(native, context, role, unit, units, 0);
    let fed = native.spec_feed(context, role, unit, units, 0);
    let ended = fed.0.spec_send(fed.1, spec_giving(role, context.handle, 0), true);
    draining_empties_the_buffer(ended.0, ended.1, role, unit, fed.2->Ok_0);
}

/// The schedule of `round_trip`: the frames are pumped through the encoder,
/// and as many packets as came out are pumped through the decoder. This
/// gives both codecs and both contexts as the schedule leaves them, and the
/// number of frames that came out of the decoder; where the encoding fails,
/// the decoding side is left as it was.
pub open spec fn spec_round_trip(
    encoder: Context,
    coder: Loopback,
    decoder: Context,
    decoding: Loopback,
    frame: usize,
    packet: usize,
    frames: nat,
) -> (Loopback, Context, Loopback, Context, Result<nat, Error>) {
    let encoded = coder.spec_pump(encoder, Role::Encode, frame, frames);
    match encoded.2 {
        Err(error) => (encoded.0, encoded.1, decoding, decoder, Err(error)),
        Ok(packets) => {
            let decoded = decoding.spec_pump(decoder, Role::Decode, packet, packets);
            (encoded.0, encoded.1, decoded.0, decoded.1, decoded.2)
        },
    }
}

/// The count of frames survives the round trip: as many frames come out of
/// the decoder as went into the encoder, whatever the capacities of the two
/// loopback codecs. Both contexts end spent, both codecs empty.
pub proof fn round_trip_keeps_the_count(
    encoder: Context,
    coder: Loopback,
    decoder: Context,
    decoding: Loopback,
    frame: usize,
    packet: usize,
    frames: nat,
)
    requires
        encoder.stage() is Ready,
        coder.fresh(),
        decoder.stage() is Ready,
        decoding.fresh(),
        frame != 0,
        packet != 0,
    ensures
        spec_round_trip(encoder, coder, decoder, decoding, frame, packet, frames) == (
            Loopback { buffered: 0, flushed: true, ..coder },
            Context::at(encoder.ptr(), Stage::Drained),
            Loopback { buffered: 0, flushed: true, ..decoding },
            Context::at(decoder.ptr(), Stage::Drained),
            Ok::<nat, Error>(frames),
        ),
{
    pump_gives_back_what_it_was_given(coder, encoder, Role::Encode, frame, frames);
    pump_gives_back_what_it_was_given(decoding, decoder, Role::Decode, packet, frames);
}

/// Encodes `frames` frames and decodes the packets that come out, each side
/// on its own loopback codec, and counts the frames that come back.
///
/// The count is that of the requests for a frame that the decoder answered
/// with `Ok`, after the schedule of `spec_round_trip`. This takes a ready
/// encoder, a ready decoder, two fresh loopback codecs and units that are
/// not null; anything else is `InvalidState`, and nothing is touched.
pub fn round_trip(
    encoder: &mut Context,
    coder: &mut Loopback,
    decoder: &mut Context,
    decoding: &mut Loopback,
    frame: usize,
    packet: usize,
    frames: usize,
) -> (count: Result<usize, Error>)
    ensures
        old(encoder).stage() is Ready && old(coder).fresh() && old(decoder).stage() is Ready && old(
            decoding,
        ).fresh() && frame != 0 && packet != 0 ==> {
            let run = spec_round_trip(
                *old(encoder),
                *old(coder),
                *old(decoder),
                *old(decoding),
                frame,
                packet,
                frames as nat,
            );
            &&& (*final(coder), *final(encoder), *final(decoding), *final(decoder)) == (
                run.0,
                run.1,
                run.2,
                run.3,
            )
            &&& match count {
                Ok(out) => run.4 == Ok::<nat, Error>(out as nat),
                Err(error) => run.4 == Err::<nat, Error>(error),
            }
        },
        !(old(encoder).stage() is Ready && old(coder).fresh() && old(decoder).stage() is Ready && old(
            decoding,
        ).fresh() && frame != 0 && packet != 0) ==> {
            &&& count == Err::<usize, Error>(Error::InvalidState)
            &&& (*final(coder), *final(encoder), *final(decoding), *final(decoder)) == (
                *old(coder),
                *old(encoder),
                *old(decoding),
                *old(decoder),
            )
        },
{
    if decoder.stage != Stage::Ready || !decoding.is_fresh() || frame == 0 || packet == 0 {
        return Err(Error::InvalidState);
    }
    match coder.pump(encoder, Role::Encode, frame, frames) {
        Ok(packets) => decoding.pump(decoder, Role::Decode, packet, packets),
        Err(error) => Err(error),
    }
}

} // verus!
