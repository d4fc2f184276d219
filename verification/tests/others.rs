use playa_ffmpeg::codec::codec::{Codec, Role};
use playa_ffmpeg::codec::context::{Context, Stage};
use playa_ffmpeg::codec::decoder::Decoder;
use playa_ffmpeg::codec::encoder::{audio, subtitle, video, Encoder};
use playa_ffmpeg::codec::loopback::{giving, round_trip, taking, Loopback};
use playa_ffmpeg::codec::packet::Packet;
use playa_ffmpeg::device;
use playa_ffmpeg::filter::{self, Configuration, Filter, Graph, Pad};
use playa_ffmpeg::native::{self, Call, Direction, Field, Kind, Library, Reply, Step};
use playa_ffmpeg::util::media::Type;
use playa_ffmpeg::software::{self, resampling, scaling};
use playa_ffmpeg::util::dictionary::Owned;
use playa_ffmpeg::util::error::{Error, AVERROR_EOF, AVERROR_INVALIDDATA};
use playa_ffmpeg::util::format::{ChannelLayout, Pixel, Sample};
use playa_ffmpeg::util::frame::Frame;

const EAGAIN: i32 = 11;

fn status(status: i32) -> Reply {
    Reply::status(status)
}

fn fresh(handle: usize) -> Encoder {
    Encoder(Context::wrap(handle))
}

/// An encoder that has been opened: the native library answered the opening
/// with status 0.
fn ready(handle: usize) -> Encoder {
    match fresh(handle).open(None, &[status(0)]) {
        Step::Done(Ok(opened)) => opened,
        other => panic!("the opening came to {:?}", other),
    }
}

/// An encoder that has been told the end of input.
fn draining(handle: usize) -> Encoder {
    let mut encoder = ready(handle);
    assert_eq!(encoder.send_eof(&[status(0)]), Step::Done(Ok(())));
    encoder
}

fn run<S, T>(
    mut subject: S,
    op: impl Fn(S, &[Reply]) -> Step<S, T>,
    answers: &[Reply],
) -> (T, Vec<Call>) {
    let mut made = Vec::new();
    let mut replies = Vec::new();
    loop {
        match op(subject, &replies) {
            Step::Call(call, back) => {
                subject = back;
                made.push(call);
                assert!(replies.len() < answers.len(), "the operation asked for more than {:?}", made);
                replies.push(answers[replies.len()]);
            }
            Step::Done(done) => {
                assert_eq!(replies.len(), answers.len(), "the operation stopped after {:?}", made);
                return (done, made);
            }
        }
    }
}

#[test]
fn replies_are_made_of_a_status_or_a_handle() {
    assert_eq!(Reply::status(-3), Reply { status: -3, handle: 0, options: 0 });
    assert_eq!(Reply::handle(9), Reply { status: 0, handle: 9, options: 0 });
}

#[test]
fn every_kind_is_released_by_its_own_call() {
    for kind in [
        Kind::Codec,
        Kind::Frame,
        Kind::Packet,
        Kind::Dictionary,
        Kind::Graph,
        Kind::Scaler,
        Kind::Resampler,
    ] {
        assert_eq!(kind.free(0x10), Call::Free { kind, handle: 0x10 });
        assert_eq!(kind.release(0x10), vec![Call::Free { kind, handle: 0x10 }]);
    }
    assert_eq!(Kind::Input.free(0x10), Call::CloseInput { context: 0x10 });
    assert_eq!(Kind::Input.release(0x10), vec![Call::CloseInput { context: 0x10 }]);
    assert_eq!(Kind::Output.free(0x10), Call::Free { kind: Kind::Output, handle: 0x10 });
}

#[test]
fn an_output_closes_its_byte_stream_before_it_is_freed() {
    assert_eq!(
        Kind::Output.release(0x10),
        vec![Call::CloseIo { context: 0x10 }, Call::Free { kind: Kind::Output, handle: 0x10 }]
    );
}

#[test]
fn dictionary_is_disowned_and_owned_again() {
    let dictionary = Owned::own(0xD1);
    assert_eq!(dictionary.as_ptr(), 0xD1);
    let raw = dictionary.disown();
    assert_eq!(raw, 0xD1);
    let back = Owned::own(raw);
    assert_eq!(back, Owned::own(0xD1));
    assert_eq!(back.release(), vec![Call::Free { kind: Kind::Dictionary, handle: 0xD1 }]);
    assert_eq!(Owned::new().as_ptr(), 0);
}

#[test]
fn versions_are_read_without_a_sign() {
    let asked = native::version(Library::Codec, &[]);
    assert_eq!(asked, Step::Call(Call::Version { library: Library::Codec }, ()));
    assert_eq!(native::version(Library::Codec, &[status(0x3e_03_64)]), Step::Done(0x3e_03_64));
    assert_eq!(native::version(Library::Util, &[status(-1)]), Step::Done(u32::MAX));
    assert_eq!(
        playa_ffmpeg::util::version(&[]),
        Step::Call(Call::Version { library: Library::Util }, ())
    );
    assert_eq!(
        playa_ffmpeg::codec::version(&[]),
        Step::Call(Call::Version { library: Library::Codec }, ())
    );
    assert_eq!(
        playa_ffmpeg::format::version(&[]),
        Step::Call(Call::Version { library: Library::Format }, ())
    );
    assert_eq!(device::version(&[]), Step::Call(Call::Version { library: Library::Device }, ()));
    assert_eq!(filter::version(&[]), Step::Call(Call::Version { library: Library::Filter }, ()));
    assert_eq!(filter::version(&[status(7)]), Step::Done(7));
}

#[test]
fn init_registers_the_devices_and_cannot_fail() {
    let (done, made) = run((), |(), r| playa_ffmpeg::init(r), &[status(0)]);
    assert_eq!(done, Ok(()));
    assert_eq!(made, vec![Call::RegisterDevices]);
    let (done, _) = run((), |(), r| playa_ffmpeg::init(r), &[status(-1)]);
    assert_eq!(done, Ok(()));
}

#[test]
fn device_info_is_a_view() {
    let mut info = device::Info::wrap(0x60);
    assert_eq!(info.as_ptr(), 0x60);
    assert_eq!(info.as_mut_ptr(), 0x60);
    assert_eq!(device::register_all(), Call::RegisterDevices);
}

#[test]
fn encoder_of_unknown_kind_becomes_the_kind_asked_for() {
    let (done, made) = run(fresh(0x10), |e, r| e.video(r), &[status(-1), status(0)]);
    assert_eq!(done, Ok(video::Video(fresh(0x10))));
    assert_eq!(
        made,
        vec![
            Call::Read { object: 0x10, field: Field::CodecType },
            Call::Write { object: 0x10, field: Field::CodecType, value: 0 },
        ]
    );
    let (done, made) = run(fresh(0x10), |e, r| e.audio(r), &[status(-1), status(0)]);
    assert_eq!(done, Ok(audio::Audio(fresh(0x10))));
    assert_eq!(made[1], Call::Write { object: 0x10, field: Field::CodecType, value: 1 });
    let (done, made) = run(fresh(0x10), |e, r| e.subtitle(r), &[status(-1), status(0)]);
    assert_eq!(done, Ok(subtitle::Subtitle(fresh(0x10))));
    assert_eq!(made[1], Call::Write { object: 0x10, field: Field::CodecType, value: 3 });
}

#[test]
fn encoder_of_the_right_kind_is_taken_as_it_is() {
    let (done, made) = run(fresh(0x10), |e, r| e.video(r), &[status(0)]);
    assert_eq!(done, Ok(video::Video(fresh(0x10))));
    assert_eq!(made.len(), 1);
    let (done, _) = run(fresh(0x10), |e, r| e.audio(r), &[status(1)]);
    assert_eq!(done, Ok(audio::Audio(fresh(0x10))));
    let (done, _) = run(fresh(0x10), |e, r| e.subtitle(r), &[status(3)]);
    assert_eq!(done, Ok(subtitle::Subtitle(fresh(0x10))));
}

#[test]
fn encoder_of_another_kind_is_invalid_data() {
    let (done, made) = run(fresh(0x10), |e, r| e.video(r), &[status(1), status(0)]);
    assert_eq!(done, Err(Error::InvalidData));
    assert_eq!(
        made,
        vec![
            Call::Read { object: 0x10, field: Field::CodecType },
            Call::Free { kind: Kind::Codec, handle: 0x10 },
        ]
    );
    let (done, _) = run(fresh(0x10), |e, r| e.audio(r), &[status(0), status(0)]);
    assert_eq!(done, Err(Error::InvalidData));
    let (done, _) = run(fresh(0x10), |e, r| e.subtitle(r), &[status(2), status(0)]);
    assert_eq!(done, Err(Error::InvalidData));
}

#[test]
fn typed_encoders_open() {
    let (done, made) = run(video::Video(fresh(0x10)), |v, r| v.open(r), &[status(0)]);
    assert_eq!(done, Ok(video::Encoder(video::Video(ready(0x10)))));
    assert_eq!(made, vec![Call::OpenCodec { context: 0x10, codec: 0, options: None }]);
    let codec = Codec::wrap(0x77);
    let (done, made) =
        run(audio::Audio(fresh(0x10)), |a, r| a.open_as(codec, r), &[status(1), status(0)]);
    assert_eq!(done, Ok(audio::Encoder(audio::Audio(ready(0x10)))));
    assert_eq!(made[0], Call::IsEncoder { codec: 0x77 });
    assert_eq!(made[1], Call::OpenCodec { context: 0x10, codec: 0x77, options: None });
    let freed = Call::Free { kind: Kind::Codec, handle: 0x10 };
    let (done, made) =
        run(subtitle::Subtitle(fresh(0x10)), |s, r| s.open_as(codec, r), &[status(0), status(0)]);
    assert_eq!(done, Err(Error::EncoderNotFound));
    assert_eq!(made, vec![Call::IsEncoder { codec: 0x77 }, freed]);
    let (done, made) =
        run(subtitle::Subtitle(fresh(0x10)), |s, r| s.open(r), &[status(-22), status(0)]);
    assert_eq!(done, Err(Error::Other { errno: 22 }));
    assert_eq!(made.last(), Some(&freed));
    let (done, made) = run(video::Video(ready(0x10)), |v, r| v.open(r), &[status(0)]);
    assert_eq!(done, Err(Error::InvalidState));
    assert_eq!(made, vec![freed]);
}

#[test]
fn encoder_parameters_are_written_before_opening() {
    let mut encoder = fresh(0x10);
    assert_eq!(
        encoder.set_bit_rate(4_000_000),
        Ok(Call::Write { object: 0x10, field: Field::BitRate, value: 4_000_000 })
    );
    assert_eq!(
        encoder.set_max_bit_rate(8_000_000),
        Ok(Call::Write { object: 0x10, field: Field::MaxBitRate, value: 8_000_000 })
    );
    assert_eq!(
        encoder.set_tolerance(1000),
        Ok(Call::Write { object: 0x10, field: Field::BitRateTolerance, value: 1000 })
    );
    assert_eq!(
        encoder.set_quality(23),
        Ok(Call::Write { object: 0x10, field: Field::GlobalQuality, value: 23 })
    );
    assert_eq!(
        encoder.set_compression(Some(9)),
        Ok(Call::Write { object: 0x10, field: Field::CompressionLevel, value: 9 })
    );
    assert_eq!(
        encoder.set_compression(None),
        Ok(Call::Write { object: 0x10, field: Field::CompressionLevel, value: -1 })
    );
    assert_eq!(encoder, fresh(0x10));
}

#[test]
fn narrow_parameters_keep_their_low_bits() {
    let mut encoder = fresh(0x10);
    let wide = (1usize << 31) + 5;
    assert_eq!(
        encoder.set_tolerance(wide),
        Ok(Call::Write {
            object: 0x10,
            field: Field::BitRateTolerance,
            value: i32::MIN as i64 + 5,
        })
    );
    assert_eq!(
        encoder.set_quality(u32::MAX as usize),
        Ok(Call::Write { object: 0x10, field: Field::GlobalQuality, value: -1 })
    );
    assert_eq!(
        encoder.set_compression(Some(u32::MAX as usize - 1)),
        Ok(Call::Write { object: 0x10, field: Field::CompressionLevel, value: -2 })
    );
    assert_eq!(
        encoder.set_bit_rate(usize::MAX),
        Ok(Call::Write { object: 0x10, field: Field::BitRate, value: usize::MAX as i64 })
    );
}

#[test]
fn opened_encoder_takes_no_parameters() {
    let mut encoder = ready(0x10);
    assert_eq!(encoder.set_bit_rate(1), Err(Error::InvalidState));
    assert_eq!(encoder.set_max_bit_rate(1), Err(Error::InvalidState));
    assert_eq!(encoder.set_tolerance(1), Err(Error::InvalidState));
    assert_eq!(encoder.set_quality(1), Err(Error::InvalidState));
    assert_eq!(encoder.set_compression(None), Err(Error::InvalidState));
}

#[test]
fn unopened_encoder_neither_takes_frames_nor_gives_packets() {
    let mut encoder = fresh(0x10);
    let frame = Frame::wrap(0x30);
    let mut packet = Packet::wrap(0x20);
    assert_eq!(encoder.send_frame(&frame, &[]), Step::Done(Err(Error::InvalidState)));
    assert_eq!(encoder.send_frame(&frame, &[status(0)]), Step::Done(Err(Error::InvalidState)));
    assert_eq!(encoder.send_eof(&[]), Step::Done(Err(Error::InvalidState)));
    assert_eq!(
        encoder.receive_packet(&mut packet, &[], EAGAIN),
        Step::Done(Err(Error::InvalidState))
    );
    assert_eq!(encoder.0.stage(), Stage::Unopened);
}

#[test]
fn encoder_reports_a_full_buffer_as_would_block() {
    let mut encoder = ready(0x10);
    let frame = Frame::wrap(0x30);
    assert_eq!(
        encoder.send_frame(&frame, &[]),
        Step::Call(Call::SendFrame { context: 0x10, frame: 0x30 }, ())
    );
    let told = encoder.send_frame(&frame, &[status(-EAGAIN)]);
    assert_eq!(told, Step::Done(Err(Error::Other { errno: EAGAIN })));
    assert!(Error::Other { errno: EAGAIN }.would_block(EAGAIN));
    assert_eq!(encoder.0.stage(), Stage::Ready);
    assert_eq!(
        encoder.send_frame(&frame, &[status(AVERROR_INVALIDDATA)]),
        Step::Done(Err(Error::InvalidData))
    );
    assert_eq!(encoder.send_frame(&frame, &[status(0)]), Step::Done(Ok(())));
    assert_eq!(encoder.0.stage(), Stage::Ready);
}

#[test]
fn drain_ends_in_end_of_stream_and_then_invalid_state() {
    let mut encoder = ready(0x10);
    let frame = Frame::wrap(0x30);
    let mut packet = Packet::wrap(0x20);
    assert_eq!(
        encoder.send_eof(&[]),
        Step::Call(Call::SendFrame { context: 0x10, frame: 0 }, ())
    );
    assert_eq!(encoder.send_eof(&[status(0)]), Step::Done(Ok(())));
    assert_eq!(encoder.0.stage(), Stage::Draining);
    assert_eq!(
        encoder.receive_packet(&mut packet, &[], EAGAIN),
        Step::Call(Call::ReceivePacket { context: 0x10, packet: 0x20 }, ())
    );
    for _ in 0..3 {
        assert_eq!(encoder.receive_packet(&mut packet, &[status(0)], EAGAIN), Step::Done(Ok(())));
        assert_eq!(encoder.0.stage(), Stage::Draining);
    }
    assert_eq!(
        encoder.receive_packet(&mut packet, &[status(AVERROR_EOF)], EAGAIN),
        Step::Done(Err(Error::Eof))
    );
    assert_eq!(encoder.0.stage(), Stage::Drained);
    assert_eq!(
        encoder.receive_packet(&mut packet, &[], EAGAIN),
        Step::Done(Err(Error::InvalidState))
    );
    assert_eq!(encoder.send_frame(&frame, &[]), Step::Done(Err(Error::InvalidState)));
    assert_eq!(encoder.send_eof(&[]), Step::Done(Err(Error::InvalidState)));
}

#[test]
fn a_refused_end_of_input_leaves_the_encoder_ready() {
    let mut encoder = ready(0x10);
    assert_eq!(
        encoder.send_eof(&[status(-EAGAIN)]),
        Step::Done(Err(Error::Other { errno: EAGAIN }))
    );
    assert_eq!(encoder.0.stage(), Stage::Ready);
}

#[test]
fn would_block_while_draining_is_end_of_stream() {
    let mut encoder = draining(0x10);
    let mut packet = Packet::wrap(0x20);
    assert_eq!(
        encoder.receive_packet(&mut packet, &[status(-EAGAIN)], EAGAIN),
        Step::Done(Err(Error::Eof))
    );
    assert_eq!(encoder.0.stage(), Stage::Drained);
    let mut encoder = draining(0x10);
    assert_eq!(
        encoder.receive_packet(&mut packet, &[status(-35)], EAGAIN),
        Step::Done(Err(Error::Other { errno: 35 }))
    );
    assert_eq!(encoder.0.stage(), Stage::Draining);
    let mut encoder = ready(0x10);
    assert_eq!(
        encoder.receive_packet(&mut packet, &[status(-EAGAIN)], EAGAIN),
        Step::Done(Err(Error::Other { errno: EAGAIN }))
    );
    assert_eq!(encoder.0.stage(), Stage::Ready);
}

#[test]
fn end_of_stream_spends_a_ready_encoder_too() {
    let mut encoder = ready(0x10);
    let mut packet = Packet::wrap(0x20);
    assert_eq!(
        encoder.receive_packet(&mut packet, &[status(AVERROR_EOF)], EAGAIN),
        Step::Done(Err(Error::Eof))
    );
    assert_eq!(encoder.0.stage(), Stage::Drained);
}

#[test]
fn loopback_keeps_the_protocol() {
    let mut native = Loopback::new(2, EAGAIN).unwrap();
    assert!(native.is_fresh());
    let give = giving(Role::Encode, 0x10, 0x30);
    let take = taking(Role::Encode, 0x10, 0x20);
    assert_eq!(give, Call::SendFrame { context: 0x10, frame: 0x30 });
    assert_eq!(take, Call::ReceivePacket { context: 0x10, packet: 0x20 });
    assert_eq!(giving(Role::Decode, 0x10, 0x20), Call::SendPacket { context: 0x10, packet: 0x20 });
    assert_eq!(taking(Role::Decode, 0x10, 0x30), Call::ReceiveFrame { context: 0x10, frame: 0x30 });
    assert_eq!(native.perform(take), status(-EAGAIN));
    assert_eq!(native.perform(give), status(0));
    assert_eq!(native.perform(give), status(0));
    assert_eq!(native.perform(give), status(-EAGAIN));
    assert_eq!(native.buffered, 2);
    assert_eq!(native.perform(take), status(0));
    assert_eq!(native.perform(giving(Role::Encode, 0x10, 0)), status(0));
    assert!(native.flushed);
    assert_eq!(native.perform(give), status(AVERROR_EOF));
    assert_eq!(native.perform(take), status(0));
    assert_eq!(native.perform(take), status(AVERROR_EOF));
    assert_eq!(native.perform(Call::RegisterDevices), status(0));
}

#[test]
fn loopback_refuses_what_is_not_sound() {
    assert_eq!(Loopback::new(0, EAGAIN), None);
    assert_eq!(Loopback::new(1, 0), None);
    assert_eq!(Loopback::new(1, -EAGAIN), None);
    assert_eq!(Loopback::new(1, 541478725), None);
    assert_eq!(
        Loopback::new(1, 35),
        Some(Loopback { capacity: 1, buffered: 0, flushed: false, again: 35 })
    );
}

#[test]
fn pump_gives_back_as_many_units_as_it_was_given() {
    for capacity in [1usize, 2, 7] {
        for units in [0usize, 1, 2, 3, 10, 100] {
            let mut native = Loopback::new(capacity, EAGAIN).unwrap();
            let mut context = ready(0x10).0;
            assert_eq!(native.pump(&mut context, Role::Encode, 0x30, units), Ok(units));
            assert_eq!(context.stage(), Stage::Drained);
            assert_eq!(native.buffered, 0);
        }
    }
}

#[test]
fn pump_drives_nothing_but_a_ready_context() {
    let mut native = Loopback::new(2, EAGAIN).unwrap();
    let mut context = Context::wrap(0x10);
    assert_eq!(native.pump(&mut context, Role::Encode, 0x30, 3), Err(Error::InvalidState));
    assert_eq!(context.stage(), Stage::Unopened);
    let mut context = ready(0x10).0;
    assert_eq!(native.pump(&mut context, Role::Encode, 0, 3), Err(Error::InvalidState));
    assert_eq!(native.pump(&mut context, Role::Encode, 0x30, 3), Ok(3));
    let mut context = ready(0x10).0;
    assert_eq!(native.pump(&mut context, Role::Encode, 0x30, 3), Err(Error::InvalidState));
}

#[test]
fn frame_count_survives_the_round_trip() {
    for frames in [0usize, 1, 5, 64, 1000] {
        let mut encoder = ready(0x10).0;
        let mut decoder = ready(0x11).0;
        let mut coder = Loopback::new(3, EAGAIN).unwrap();
        let mut decoding = Loopback::new(1, EAGAIN).unwrap();
        let count =
            round_trip(&mut encoder, &mut coder, &mut decoder, &mut decoding, 0x30, 0x20, frames);
        assert_eq!(count, Ok(frames));
        assert_eq!(encoder.stage(), Stage::Drained);
        assert_eq!(decoder.stage(), Stage::Drained);
    }
}

#[test]
fn round_trip_needs_two_ready_contexts() {
    let mut encoder = ready(0x10).0;
    let mut decoder = Context::wrap(0x11);
    let mut coder = Loopback::new(3, EAGAIN).unwrap();
    let mut decoding = Loopback::new(1, EAGAIN).unwrap();
    let count = round_trip(&mut encoder, &mut coder, &mut decoder, &mut decoding, 0x30, 0x20, 4);
    assert_eq!(count, Err(Error::InvalidState));
    let mut encoder = Context::wrap(0x10);
    let mut decoder = ready(0x11).0;
    let count = round_trip(&mut encoder, &mut coder, &mut decoder, &mut decoding, 0x30, 0x20, 4);
    assert_eq!(count, Err(Error::InvalidState));
}

#[test]
fn filters_are_found_by_name_or_not_at_all() {
    let (found, made) = run((), |(), r| filter::find(r), &[Reply::handle(0x70)]);
    assert_eq!(found, Some(Filter { handle: 0x70 }));
    assert_eq!(made, vec![Call::FindFilter]);
    let (found, _) = run((), |(), r| filter::find(r), &[Reply::handle(0)]);
    assert_eq!(found, None);
    assert_eq!(Filter::wrap(0x70).as_ptr(), 0x70);
}

#[test]
fn a_filter_that_does_not_register_reports_its_status() {
    let filter = Filter::wrap(0x70);
    let (done, made) = run((), |(), r| filter::register(&filter, r), &[status(0)]);
    assert_eq!(done, Ok(()));
    assert_eq!(made, vec![Call::RegisterFilter { filter: 0x70 }]);
    let (done, _) = run((), |(), r| filter::register(&filter, r), &[status(-12)]);
    assert_eq!(done, Err(Error::Other { errno: 12 }));
    let (done, _) = run((), |(), r| filter::register(&filter, r), &[status(AVERROR_INVALIDDATA)]);
    assert_eq!(done, Err(Error::InvalidData));
    let (done, _) = run((), |(), r| filter::register(&filter, r), &[status(1)]);
    assert_eq!(done, Err(Error::Other { errno: -1 }));
    assert_eq!(filter::register_all(), Call::RegisterFilters);
}

#[test]
fn a_graph_is_linked_then_configured_once() {
    let mut graph = Graph::wrap(0x80);
    let source = filter::Context::wrap(0x81);
    let sink = filter::Context::wrap(0x82);
    assert_eq!(graph.as_ptr(), 0x80);
    assert_eq!(graph.as_mut_ptr(), 0x80);
    assert_eq!(source.as_ptr(), 0x81);
    assert_eq!(
        graph.link(&source, 0, &sink, 1, &[]),
        Step::Call(Call::LinkFilters { source: 0x81, output: 0, sink: 0x82, input: 1 }, ())
    );
    assert_eq!(graph.link(&source, 0, &sink, 1, &[status(0)]), Step::Done(Ok(())));
    assert_eq!(
        graph.link(&source, 0, &sink, 1, &[status(-22)]),
        Step::Done(Err(Error::Other { errno: 22 }))
    );
    assert_eq!(graph.validate(&[]), Step::Call(Call::ConfigGraph { graph: 0x80 }, ()));
    assert_eq!(graph.validate(&[status(-22)]), Step::Done(Err(Error::Other { errno: 22 })));
    assert_eq!(graph.stage(), Configuration::Unconfigured);
    assert_eq!(graph.validate(&[status(0)]), Step::Done(Ok(())));
    assert_eq!(graph.stage(), Configuration::Configured);
    assert_eq!(graph.link(&source, 0, &sink, 1, &[]), Step::Done(Err(Error::InvalidState)));
    assert_eq!(graph.validate(&[]), Step::Done(Err(Error::InvalidState)));
    assert_eq!(graph.release(), vec![Call::Free { kind: Kind::Graph, handle: 0x80 }]);
}

#[test]
fn scaler_keeps_the_format_and_changes_the_size() {
    let flags = scaling::Flags(4);
    assert_eq!(flags.bits(), 4);
    let (done, made) = run(
        (),
        |(), r| software::scaler(Pixel(0), flags, (1920, 1080), (1280, 720), r),
        &[Reply::handle(0x90)],
    );
    assert_eq!(
        made,
        vec![Call::GetScaler {
            source_format: 0,
            source_width: 1920,
            source_height: 1080,
            target_format: 0,
            target_width: 1280,
            target_height: 720,
            flags: 4,
        }]
    );
    let context = done.unwrap();
    assert_eq!(context.as_ptr(), 0x90);
    assert_eq!(context.input, scaling::Definition { format: Pixel(0), width: 1920, height: 1080 });
    assert_eq!(context.output, scaling::Definition { format: Pixel(0), width: 1280, height: 720 });
    assert_eq!(context.release(), vec![Call::Free { kind: Kind::Scaler, handle: 0x90 }]);
}

#[test]
fn converter_keeps_the_size_and_is_fast_bilinear() {
    let (done, made) = run(
        (),
        |(), r| software::converter((640, 480), Pixel(0), Pixel(2), r),
        &[Reply::handle(0x90)],
    );
    assert_eq!(
        made,
        vec![Call::GetScaler {
            source_format: 0,
            source_width: 640,
            source_height: 480,
            target_format: 2,
            target_width: 640,
            target_height: 480,
            flags: 1,
        }]
    );
    assert_eq!(scaling::FAST_BILINEAR, 1);
    assert_eq!(
        done,
        Ok(scaling::Context {
            handle: 0x90,
            input: scaling::Definition { format: Pixel(0), width: 640, height: 480 },
            output: scaling::Definition { format: Pixel(2), width: 640, height: 480 },
        })
    );
}

#[test]
fn a_scaling_that_the_native_library_declines_is_invalid_data() {
    let (done, _) = run(
        (),
        |(), r| software::converter((640, 480), Pixel(0), Pixel(-1), r),
        &[Reply::handle(0)],
    );
    assert_eq!(done, Err(Error::InvalidData));
    let (_, made) = run(
        (),
        |(), r| scaling::Context::get(Pixel(0), u32::MAX, 1, Pixel(0), 1, 1, scaling::Flags(0), r),
        &[Reply::handle(0)],
    );
    assert!(matches!(made[0], Call::GetScaler { source_width: -1, .. }));
}

#[test]
fn resampler_is_made_then_initialized() {
    let stereo = ChannelLayout(3);
    let (done, made) = run(
        (),
        |(), r| software::resampler((Sample(1), stereo, 48000), (Sample(8), stereo, 44100), r),
        &[Reply::handle(0xA0), status(0)],
    );
    assert_eq!(
        made,
        vec![
            Call::GetResampler {
                source_format: 1,
                source_layout: 3,
                source_rate: 48000,
                target_format: 8,
                target_layout: 3,
                target_rate: 44100,
            },
            Call::InitResampler { context: 0xA0 },
        ]
    );
    let context = done.unwrap();
    assert_eq!(context.as_ptr(), 0xA0);
    assert_eq!(
        context.input,
        resampling::Definition { format: Sample(1), channel_layout: stereo, rate: 48000 }
    );
    assert_eq!(
        context.output,
        resampling::Definition { format: Sample(8), channel_layout: stereo, rate: 44100 }
    );
    assert_eq!(context.release(), vec![Call::Free { kind: Kind::Resampler, handle: 0xA0 }]);
}

#[test]
fn a_resampler_that_does_not_initialize_is_freed() {
    let stereo = ChannelLayout(3);
    let (done, made) = run(
        (),
        |(), r| software::resampler((Sample(1), stereo, 48000), (Sample(8), stereo, 44100), r),
        &[Reply::handle(0xA0), status(-22), status(0)],
    );
    assert_eq!(done, Err(Error::Other { errno: 22 }));
    assert_eq!(made[2], Call::Free { kind: Kind::Resampler, handle: 0xA0 });
    let (done, made) = run(
        (),
        |(), r| software::resampler((Sample(1), stereo, 48000), (Sample(8), stereo, 44100), r),
        &[Reply::handle(0)],
    );
    assert_eq!(done, Err(Error::InvalidData));
    assert_eq!(made.len(), 1);
}

#[test]
fn pads_are_counted_and_taken_by_place() {
    let overlay = Filter::wrap(0x70);
    let (count, made) = run((), |(), r| overlay.pads(Direction::Input, r), &[status(2)]);
    assert_eq!(count, 2);
    assert_eq!(made, vec![Call::PadCount { filter: 0x70, direction: Direction::Input }]);
    let (count, _) = run((), |(), r| overlay.pads(Direction::Output, r), &[status(-1)]);
    assert_eq!(count, 0);
    let (pad, made) = run((), |(), r| overlay.pad(Direction::Input, 1, r), &[status(2), status(0)]);
    assert_eq!(
        pad,
        Some(Pad { filter: 0x70, direction: Direction::Input, index: 1, medium: Type::Video })
    );
    assert_eq!(
        made,
        vec![
            Call::PadCount { filter: 0x70, direction: Direction::Input },
            Call::PadType { filter: 0x70, direction: Direction::Input, index: 1 },
        ]
    );
    let (pad, _) = run((), |(), r| overlay.pad(Direction::Input, 2, r), &[status(2)]);
    assert_eq!(pad, None);
    let (pad, _) = run((), |(), r| overlay.pad(Direction::Output, 0, r), &[status(1), status(1)]);
    assert_eq!(
        pad,
        Some(Pad { filter: 0x70, direction: Direction::Output, index: 0, medium: Type::Audio })
    );
}

#[test]
fn a_shared_frame_is_a_frame_of_its_own() {
    let frame = Frame::wrap(0x30);
    let (shared, made) = run((), |(), r| frame.share(r), &[Reply::handle(0x31)]);
    assert_eq!(made, vec![Call::ShareFrame { frame: 0x30 }]);
    let shared = shared.unwrap();
    assert_eq!(shared.as_ptr(), 0x31);
    assert_eq!(shared.release(), vec![Call::Free { kind: Kind::Frame, handle: 0x31 }]);
    assert_eq!(frame.release(), vec![Call::Free { kind: Kind::Frame, handle: 0x30 }]);
    let frame = Frame::wrap(0x30);
    let (shared, _) = run((), |(), r| frame.share(r), &[Reply::handle(0)]);
    assert_eq!(shared, Err(Error::Bug));
}

#[test]
fn a_context_is_taken_as_decoder_or_encoder() {
    assert_eq!(Context::wrap(0x10).decoder(), Decoder(Context::wrap(0x10)));
    assert_eq!(Context::wrap(0x10).encoder(), fresh(0x10));
}

#[test]
fn test_paditer() {
    // The native layer of this run knows one filter, "overlay", and the
    // names of its two input pads.
    let names = ["main", "overlay"];
    let native = |call: Call| match call {
        Call::FindFilter => Reply::handle(0x70),
        Call::PadCount { filter: 0x70, direction: Direction::Input } => status(2),
        Call::PadCount { .. } => status(1),
        _ => status(0),
    };
    let drive = |op: &dyn Fn(&[Reply]) -> Option<Call>| {
        let mut replies = Vec::new();
        while let Some(call) = op(&replies) {
            replies.push(native(call));
        }
        replies
    };
    let call_of = |step: Step<(), Option<Filter>>| match step {
        Step::Call(call, ()) => Some(call),
        Step::Done(_) => None,
    };
    let replies = drive(&|r| call_of(filter::find(r)));
    let overlay = match filter::find(&replies) {
        Step::Done(found) => found.unwrap(),
        Step::Call(..) => unreachable!(),
    };
    let replies = drive(&|r| match overlay.pads(Direction::Input, r) {
        Step::Call(call, ()) => Some(call),
        Step::Done(_) => None,
    });
    let count = match overlay.pads(Direction::Input, &replies) {
        Step::Done(count) => count,
        Step::Call(..) => unreachable!(),
    };
    let inputs = (0..count)
        .map(|place| {
            let replies = drive(&|r| match overlay.pad(Direction::Input, place, r) {
                Step::Call(call, ()) => Some(call),
                Step::Done(_) => None,
            });
            match overlay.pad(Direction::Input, place, &replies) {
                Step::Done(pad) => names[pad.unwrap().index].to_string(),
                Step::Call(..) => unreachable!(),
            }
        })
        .collect::<Vec<_>>();
    assert_eq!(inputs, vec!("main", "overlay"));
}
