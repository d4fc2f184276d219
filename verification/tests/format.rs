use playa_ffmpeg::codec::packet::Packet;
use playa_ffmpeg::format::context::{Context, Input, Lifecycle, Output, Stream};
use playa_ffmpeg::format::Format;
use playa_ffmpeg::native::{Call, Field, Kind, Reply, Step, StreamField};
use playa_ffmpeg::util::media::Type;
use playa_ffmpeg::util::rational::Rational;
use playa_ffmpeg::util::dictionary::Owned;
use playa_ffmpeg::util::error::{Error, AVERROR_EOF, AVERROR_EXIT, AVERROR_INVALIDDATA};

const ENOENT: i32 = 2;
const EACCES: i32 = 13;

/// A native layer that keeps books: which handles it has given out and not
/// got back, and how often it allocated and freed.
struct Books {
    next: usize,
    live: Vec<(Kind, usize)>,
    allocated: usize,
    freed: usize,
    /// The status for each call that can fail, in the order of the calls.
    statuses: Vec<i32>,
    made: Vec<Call>,
}

impl Books {
    fn new(statuses: &[i32]) -> Books {
        Books {
            next: 0x1000,
            live: Vec::new(),
            allocated: 0,
            freed: 0,
            statuses: statuses.to_vec(),
            made: Vec::new(),
        }
    }

    fn with(mut self, kind: Kind, handle: usize) -> Books {
        if handle != 0 {
            self.live.push((kind, handle));
            self.allocated += 1;
        }
        self
    }

    fn allocate(&mut self, kind: Kind) -> usize {
        self.next += 0x10;
        self.live.push((kind, self.next));
        self.allocated += 1;
        self.next
    }

    fn free(&mut self, kind: Kind, handle: usize) {
        if handle == 0 {
            return;
        }
        let at = self.live.iter().position(|held| *held == (kind, handle));
        assert!(at.is_some(), "{:?} {:#x} is freed but not live", kind, handle);
        self.live.remove(at.unwrap());
        self.freed += 1;
    }

    fn status(&mut self) -> i32 {
        if self.statuses.is_empty() {
            0
        } else {
            self.statuses.remove(0)
        }
    }

    fn perform(&mut self, call: Call) -> Reply {
        self.made.push(call);
        match call {
            Call::AllocContext => Reply::handle(self.allocate(Kind::Input)),
            Call::OpenInput { context, options, .. } => {
                let status = self.status();
                // The options come back as another dictionary: the old one is
                // gone, and what was not used is in the new one.
                let left = match options {
                    Some(given) => {
                        self.free(Kind::Dictionary, given);
                        self.allocate(Kind::Dictionary)
                    }
                    None => 0,
                };
                if status == 0 {
                    let handle = if context != 0 { context } else { self.allocate(Kind::Input) };
                    Reply { status, handle, options: left }
                } else {
                    self.free(Kind::Input, context);
                    Reply { status, handle: 0, options: left }
                }
            }
            Call::CloseInput { context } => {
                self.free(Kind::Input, context);
                Reply::status(0)
            }
            Call::AllocOutput { .. } => {
                let status = self.status();
                if status == 0 {
                    Reply { status, handle: self.allocate(Kind::Output), options: 0 }
                } else {
                    Reply::status(status)
                }
            }
            Call::OpenIo { options, .. } => {
                Reply { status: self.status(), handle: 0, options: options.unwrap_or(0) }
            }
            Call::Free { kind, handle } => {
                self.free(kind, handle);
                Reply::status(0)
            }
            Call::FindStreamInfo { .. } => Reply::status(self.status()),
            _ => Reply::status(0),
        }
    }

    fn run<S, T>(&mut self, mut subject: S, op: impl Fn(S, &[Reply]) -> Step<S, T>) -> T {
        let mut replies = Vec::new();
        loop {
            match op(subject, &replies) {
                Step::Call(call, back) => {
                    subject = back;
                    replies.push(self.perform(call));
                    assert!(replies.len() < 32);
                }
                Step::Done(done) => return done,
            }
        }
    }
}

#[test]
fn input_opens_and_probes() {
    let mut books = Books::new(&[0, 0]);
    let input = books.run((), |(), r| playa_ffmpeg::format::input(r)).unwrap();
    assert_eq!(books.live, vec![(Kind::Input, input.handle)]);
    assert_eq!(
        books.made,
        vec![
            Call::OpenInput { context: 0, format: 0, options: None },
            Call::FindStreamInfo { context: input.handle },
        ]
    );
    assert_eq!(input.release(), vec![Call::CloseInput { context: 0x1010 }]);
}

#[test]
fn missing_file_is_an_error_and_nothing_is_held() {
    let mut books = Books::new(&[-ENOENT]);
    let done = books.run((), |(), r| playa_ffmpeg::format::input(r));
    assert_eq!(done, Err(Error::Other { errno: ENOENT }));
    assert_eq!(books.made, vec![Call::OpenInput { context: 0, format: 0, options: None }]);
    assert!(books.live.is_empty());
    assert_eq!(books.allocated, books.freed);
}

#[test]
fn input_is_closed_when_the_probe_fails() {
    let mut books = Books::new(&[0, AVERROR_INVALIDDATA]);
    let done = books.run((), |(), r| playa_ffmpeg::format::input(r));
    assert_eq!(done, Err(Error::InvalidData));
    assert_eq!(books.made.last(), Some(&Call::CloseInput { context: 0x1010 }));
    assert!(books.live.is_empty());
    assert_eq!((books.allocated, books.freed), (1, 1));
}

#[test]
fn probe_succeeds_on_any_status_that_is_not_negative() {
    let mut books = Books::new(&[0, 7]);
    assert!(books.run((), |(), r| playa_ffmpeg::format::input(r)).is_ok());
    let mut books = Books::new(&[1]);
    assert_eq!(books.run((), |(), r| playa_ffmpeg::format::input(r)), Err(Error::Other { errno: -1 }));
}

#[test]
fn input_without_a_context_is_a_bug() {
    let answers = [Reply { status: 0, handle: 0, options: 0 }];
    assert_eq!(playa_ffmpeg::format::input(&answers), Step::Done(Err(Error::Bug)));
}

#[test]
fn input_options_have_one_owner_on_success() {
    let mut books = Books::new(&[0, 0]).with(Kind::Dictionary, 0xD1);
    let input = books.run(Owned::own(0xD1), |o, r| playa_ffmpeg::format::input_with_dictionary(o, r)).unwrap();
    assert_eq!(books.live, vec![(Kind::Input, input.handle)]);
    assert_eq!(books.made[0], Call::OpenInput { context: 0, format: 0, options: Some(0xD1) });
    assert!(matches!(books.made[1], Call::Free { kind: Kind::Dictionary, handle } if handle != 0xD1));
    assert_eq!(books.made.len(), 3);
}

#[test]
fn input_options_have_one_owner_on_failure() {
    let mut books = Books::new(&[-EACCES]).with(Kind::Dictionary, 0xD1);
    let done = books.run(Owned::own(0xD1), |o, r| playa_ffmpeg::format::input_with_dictionary(o, r));
    assert_eq!(done, Err(Error::Other { errno: EACCES }));
    assert!(books.live.is_empty());
    assert_eq!(books.allocated, books.freed);
    assert_eq!(books.made.len(), 2);
    let mut books = Books::new(&[0, AVERROR_INVALIDDATA]).with(Kind::Dictionary, 0xD1);
    let done = books.run(Owned::own(0xD1), |o, r| playa_ffmpeg::format::input_with_dictionary(o, r));
    assert_eq!(done, Err(Error::InvalidData));
    assert!(books.live.is_empty());
    assert_eq!(books.allocated, books.freed);
}

#[test]
fn empty_options_are_passed_and_freed_as_well() {
    let mut books = Books::new(&[0, 0]);
    let done = books.run(Owned::new(), |o, r| playa_ffmpeg::format::input_with_dictionary(o, r));
    assert!(done.is_ok());
    assert_eq!(books.made[0], Call::OpenInput { context: 0, format: 0, options: Some(0) });
    assert_eq!(books.live.len(), 1);
}

#[test]
fn interruptible_input_installs_the_bridge_first() {
    let mut books = Books::new(&[0, 0]);
    let input = books.run((), |(), r| playa_ffmpeg::format::input_with_interrupt(r)).unwrap();
    assert_eq!(
        books.made,
        vec![
            Call::AllocContext,
            Call::SetInterrupt { context: input.handle },
            Call::OpenInput { context: input.handle, format: 0, options: None },
            Call::FindStreamInfo { context: input.handle },
        ]
    );
    assert_eq!(books.live, vec![(Kind::Input, input.handle)]);
}

#[test]
fn interrupted_opening_is_reported_and_nothing_is_held() {
    let mut books = Books::new(&[AVERROR_EXIT]);
    let done = books.run((), |(), r| playa_ffmpeg::format::input_with_interrupt(r));
    assert_eq!(done, Err(Error::Exit));
    assert!(books.live.is_empty());
    assert_eq!((books.allocated, books.freed), (1, 1));
}

#[test]
fn interruptible_input_without_a_context_is_a_bug() {
    assert_eq!(playa_ffmpeg::format::input_with_interrupt(&[Reply::handle(0)]), Step::Done(Err(Error::Bug)));
}

#[test]
fn output_allocates_and_opens() {
    let mut books = Books::new(&[0, 0]);
    let output = books.run((), |(), r| playa_ffmpeg::format::output(r)).unwrap();
    assert_eq!(output.stage(), Lifecycle::Allocated);
    assert_eq!(
        books.made,
        vec![
            Call::AllocOutput { format: 0, named: false },
            Call::OpenIo { context: output.as_ptr(), options: None },
        ]
    );
    assert_eq!(books.live, vec![(Kind::Output, output.as_ptr())]);
    assert_eq!(
        output.release(),
        vec![Call::CloseIo { context: 0x1010 }, Call::Free { kind: Kind::Output, handle: 0x1010 }]
    );
}

#[test]
fn output_is_freed_when_the_path_cannot_be_opened() {
    let mut books = Books::new(&[0, -EACCES]);
    let done = books.run((), |(), r| playa_ffmpeg::format::output(r));
    assert_eq!(done, Err(Error::Other { errno: EACCES }));
    assert_eq!(books.made.last(), Some(&Call::Free { kind: Kind::Output, handle: 0x1010 }));
    assert!(books.live.is_empty());
    assert_eq!((books.allocated, books.freed), (1, 1));
}

#[test]
fn output_that_cannot_be_allocated_holds_nothing() {
    let mut books = Books::new(&[AVERROR_INVALIDDATA]);
    let done = books.run((), |(), r| playa_ffmpeg::format::output(r));
    assert_eq!(done, Err(Error::InvalidData));
    assert_eq!(books.made.len(), 1);
    assert!(books.live.is_empty());
}

#[test]
fn output_by_name_asks_for_the_named_format() {
    let mut books = Books::new(&[0, 0]);
    assert!(books.run((), |(), r| playa_ffmpeg::format::output_as(r)).is_ok());
    assert_eq!(books.made[0], Call::AllocOutput { format: 0, named: true });
}

#[test]
fn output_options_have_one_owner_on_every_path() {
    for statuses in [[0, 0], [0, -EACCES], [-EACCES, 0]] {
        let mut books = Books::new(&statuses).with(Kind::Dictionary, 0xD1);
        let done = books.run(Owned::own(0xD1), |o, r| playa_ffmpeg::format::output_with(o, r));
        assert_eq!(done.is_ok(), statuses == [0, 0]);
        let dictionaries = books.live.iter().filter(|held| held.0 == Kind::Dictionary).count();
        assert_eq!(dictionaries, 0, "after {:?}", books.made);
        let frees = books
            .made
            .iter()
            .filter(|call| matches!(call, Call::Free { kind: Kind::Dictionary, .. }))
            .count();
        assert_eq!(frees, 1, "after {:?}", books.made);
        assert_eq!(books.live.len(), if done.is_ok() { 1 } else { 0 });
    }
    let mut books = Books::new(&[0, 0]).with(Kind::Dictionary, 0xD1);
    assert!(books.run(Owned::own(0xD1), |o, r| playa_ffmpeg::format::output_as_with(o, r)).is_ok());
    assert_eq!(books.made[0], Call::AllocOutput { format: 0, named: true });
    assert_eq!(books.made[1], Call::OpenIo { context: 0x1010, options: Some(0xD1) });
    assert_eq!(books.made[2], Call::Free { kind: Kind::Dictionary, handle: 0xD1 });
}

#[test]
fn open_goes_by_the_direction_of_the_format() {
    let mut books = Books::new(&[0, 0]);
    let done = books.run((), |(), r| playa_ffmpeg::format::open(&Format::Input(0xF1), r));
    assert_eq!(done, Ok(Context::Input(Input { handle: 0x1010 })));
    assert_eq!(books.made[0], Call::OpenInput { context: 0, format: 0xF1, options: None });
    let mut books = Books::new(&[0, 0]);
    let done = books.run((), |(), r| playa_ffmpeg::format::open(&Format::Output(0xF2), r));
    assert_eq!(done, Ok(Context::Output(Output::wrap(0x1010))));
    assert_eq!(books.made[0], Call::AllocOutput { format: 0xF2, named: false });
}

#[test]
fn open_closes_the_input_when_the_probe_fails() {
    let mut books = Books::new(&[0, AVERROR_INVALIDDATA]);
    let done = books.run((), |(), r| playa_ffmpeg::format::open(&Format::Input(0xF1), r));
    assert_eq!(done, Err(Error::InvalidData));
    assert!(books.live.is_empty());
}

#[test]
fn open_with_frees_the_options_for_either_direction() {
    let mut books = Books::new(&[0, 0]).with(Kind::Dictionary, 0xD1);
    let done = books.run(Owned::own(0xD1), |o, r| playa_ffmpeg::format::open_with(&Format::Input(0xF1), o, r));
    assert!(matches!(done, Ok(Context::Input(_))));
    assert_eq!(books.made[0], Call::OpenInput { context: 0, format: 0xF1, options: Some(0xD1) });
    assert_eq!(books.live.len(), 1);
    let mut books = Books::new(&[0, 0]).with(Kind::Dictionary, 0xD1);
    let done = books.run(Owned::own(0xD1), |o, r| playa_ffmpeg::format::open_with(&Format::Output(0xF2), o, r));
    assert!(matches!(done, Ok(Context::Output(_))));
    assert_eq!(
        books.made,
        vec![
            Call::Free { kind: Kind::Dictionary, handle: 0xD1 },
            Call::AllocOutput { format: 0xF2, named: false },
            Call::OpenIo { context: 0x1010, options: None },
        ]
    );
    assert_eq!(books.live, vec![(Kind::Output, 0x1010)]);
}

#[test]
fn formats_register_by_their_direction() {
    assert_eq!(playa_ffmpeg::format::register_all(), Call::RegisterFormats);
    assert_eq!(
        playa_ffmpeg::format::register(&Format::Input(0xF1)),
        Call::RegisterInputFormat { format: 0xF1 }
    );
    assert_eq!(
        playa_ffmpeg::format::register(&Format::Output(0xF2)),
        Call::RegisterOutputFormat { format: 0xF2 }
    );
}

#[test]
fn trailer_before_header_is_invalid_state() {
    let mut output = Output::wrap(0x40);
    assert_eq!(output.write_trailer(&[]), Step::Done(Err(Error::InvalidState)));
    assert_eq!(output.stage(), Lifecycle::Allocated);
}

#[test]
fn packets_are_written_between_header_and_trailer() {
    let mut output = Output::wrap(0x40);
    let packet = Packet::wrap(0x20);
    assert_eq!(output.as_ptr(), 0x40);
    assert_eq!(output.as_mut_ptr(), 0x40);
    assert_eq!(output.write_packet(&packet, &[]), Step::Done(Err(Error::InvalidState)));
    assert_eq!(output.write_header(&[]), Step::Call(Call::WriteHeader { context: 0x40 }, ()));
    assert_eq!(output.stage(), Lifecycle::Allocated);
    assert_eq!(output.write_header(&[Reply::status(0)]), Step::Done(Ok(())));
    assert_eq!(output.stage(), Lifecycle::HeaderWritten);
    assert_eq!(output.write_header(&[]), Step::Done(Err(Error::InvalidState)));
    assert_eq!(
        output.write_packet(&packet, &[]),
        Step::Call(Call::WriteFrame { context: 0x40, packet: 0x20 }, ())
    );
    assert_eq!(output.write_packet(&packet, &[Reply::status(0)]), Step::Done(Ok(())));
    assert_eq!(
        output.write_packet(&packet, &[Reply::status(-5)]),
        Step::Done(Err(Error::Other { errno: 5 }))
    );
    assert_eq!(output.stage(), Lifecycle::HeaderWritten);
    assert_eq!(output.write_trailer(&[]), Step::Call(Call::WriteTrailer { context: 0x40 }, ()));
    assert_eq!(output.write_trailer(&[Reply::status(0)]), Step::Done(Ok(())));
    assert_eq!(output.stage(), Lifecycle::TrailerWritten);
    assert_eq!(output.write_packet(&packet, &[]), Step::Done(Err(Error::InvalidState)));
    assert_eq!(output.write_trailer(&[]), Step::Done(Err(Error::InvalidState)));
    assert_eq!(output.write_header(&[]), Step::Done(Err(Error::InvalidState)));
}

#[test]
fn a_failed_header_leaves_the_output_fresh() {
    let mut output = Output::wrap(0x40);
    assert_eq!(
        output.write_header(&[Reply::status(AVERROR_INVALIDDATA)]),
        Step::Done(Err(Error::InvalidData))
    );
    assert_eq!(output.stage(), Lifecycle::Allocated);
    assert_eq!(output.write_header(&[Reply::status(1)]), Step::Done(Ok(())));
    assert_eq!(output.stage(), Lifecycle::HeaderWritten);
}

#[test]
fn a_failed_trailer_is_not_tried_again() {
    let mut output = Output::wrap(0x40);
    assert_eq!(output.write_header(&[Reply::status(0)]), Step::Done(Ok(())));
    assert_eq!(
        output.write_trailer(&[Reply::status(-5)]),
        Step::Done(Err(Error::Other { errno: 5 }))
    );
    assert_eq!(output.stage(), Lifecycle::TrailerWritten);
    assert_eq!(output.write_trailer(&[]), Step::Done(Err(Error::InvalidState)));
}

#[test]
fn read_gives_the_index_of_the_packets_stream() {
    let mut input = Input::wrap(0x50);
    let mut packet = Packet::wrap(0x20);
    assert_eq!(input.as_ptr(), 0x50);
    assert_eq!(input.as_mut_ptr(), 0x50);
    assert_eq!(
        input.read(&mut packet, &[]),
        Step::Call(Call::ReadFrame { context: 0x50, packet: 0x20 }, ())
    );
    assert_eq!(
        input.read(&mut packet, &[Reply::status(0)]),
        Step::Call(Call::Read { object: 0x20, field: Field::StreamIndex }, ())
    );
    assert_eq!(input.read(&mut packet, &[Reply::status(0), Reply::status(3)]), Step::Done(Ok(3)));
    assert_eq!(
        input.read(&mut packet, &[Reply::status(0), Reply::status(-1)]),
        Step::Done(Err(Error::Bug))
    );
}

#[test]
fn end_of_file_is_end_of_stream() {
    let mut input = Input::wrap(0x50);
    let mut packet = Packet::wrap(0x20);
    assert_eq!(
        input.read(&mut packet, &[Reply::status(AVERROR_EOF)]),
        Step::Done(Err(Error::Eof))
    );
    assert_eq!(
        input.read(&mut packet, &[Reply::status(-5)]),
        Step::Done(Err(Error::Other { errno: 5 }))
    );
}

#[test]
fn streams_are_counted() {
    let input = Input::wrap(0x50);
    assert_eq!(
        input.streams(&[]),
        Step::Call(Call::Read { object: 0x50, field: Field::StreamCount }, ())
    );
    assert_eq!(input.streams(&[Reply::status(3)]), Step::Done(3));
    assert_eq!(input.streams(&[Reply::status(0)]), Step::Done(0));
    assert_eq!(input.streams(&[Reply::status(-1)]), Step::Done(0));
}

#[test]
fn streams_are_taken_by_index() {
    let input = Input::wrap(0x50);
    assert_eq!(
        input.stream(1, &[]),
        Step::Call(Call::Read { object: 0x50, field: Field::StreamCount }, ())
    );
    assert_eq!(input.stream(2, &[Reply::status(2)]), Step::Done(None));
    assert_eq!(input.stream(0, &[Reply::status(0)]), Step::Done(None));
    assert_eq!(input.stream(0, &[Reply::status(-1)]), Step::Done(None));
    let mut replies = vec![Reply::status(2)];
    let fields = [
        StreamField::CodecId,
        StreamField::CodecType,
        StreamField::TimeBaseNumerator,
        StreamField::TimeBaseDenominator,
        StreamField::FrameRateNumerator,
        StreamField::FrameRateDenominator,
        StreamField::Metadata,
    ];
    let answers = [
        Reply::status(27),
        Reply::status(0),
        Reply::status(1),
        Reply::status(90000),
        Reply::status(30000),
        Reply::status(1001),
        Reply::handle(0xD5),
    ];
    for (field, answer) in fields.iter().zip(answers) {
        assert_eq!(
            input.stream(1, &replies),
            Step::Call(Call::ReadStream { context: 0x50, index: 1, part: *field }, ())
        );
        replies.push(answer);
    }
    assert_eq!(
        input.stream(1, &replies),
        Step::Done(Some(Stream {
            context: 0x50,
            index: 1,
            id: 27,
            medium: Type::Video,
            time_base: Rational(1, 90000),
            rate: Rational(30000, 1001),
            metadata: 0xD5,
        }))
    );
}
