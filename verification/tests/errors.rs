use playa_ffmpeg::util::error::{
    averror, Error, AVERROR_BSF_NOT_FOUND, AVERROR_BUFFER_TOO_SMALL, AVERROR_BUG, AVERROR_BUG2,
    AVERROR_DECODER_NOT_FOUND, AVERROR_DEMUXER_NOT_FOUND, AVERROR_ENCODER_NOT_FOUND, AVERROR_EOF,
    AVERROR_EXIT, AVERROR_EXPERIMENTAL, AVERROR_EXTERNAL, AVERROR_FILTER_NOT_FOUND,
    AVERROR_HTTP_BAD_REQUEST, AVERROR_HTTP_FORBIDDEN, AVERROR_HTTP_NOT_FOUND,
    AVERROR_HTTP_OTHER_4XX, AVERROR_HTTP_SERVER_ERROR, AVERROR_HTTP_TOO_MANY_REQUESTS,
    AVERROR_HTTP_UNAUTHORIZED, AVERROR_INPUT_CHANGED, AVERROR_INVALIDDATA,
    AVERROR_MUXER_NOT_FOUND, AVERROR_OPTION_NOT_FOUND, AVERROR_OUTPUT_CHANGED,
    AVERROR_PATCHWELCOME, AVERROR_PROTOCOL_NOT_FOUND, AVERROR_STREAM_NOT_FOUND, AVERROR_UNKNOWN,
};
use playa_ffmpeg::util::interrupt;
use playa_ffmpeg::util::media::Type;

fn tag(a: u8, b: u8, c: u8, d: u8) -> i32 {
    let word = (a as i64) | ((b as i64) << 8) | ((c as i64) << 16) | ((d as i64) << 24);
    (-word) as i32
}

fn table() -> Vec<(i32, Error)> {
    vec![
        (AVERROR_BSF_NOT_FOUND, Error::BsfNotFound),
        (AVERROR_BUG, Error::Bug),
        (AVERROR_BUFFER_TOO_SMALL, Error::BufferTooSmall),
        (AVERROR_DECODER_NOT_FOUND, Error::DecoderNotFound),
        (AVERROR_DEMUXER_NOT_FOUND, Error::DemuxerNotFound),
        (AVERROR_ENCODER_NOT_FOUND, Error::EncoderNotFound),
        (AVERROR_EOF, Error::Eof),
        (AVERROR_EXIT, Error::Exit),
        (AVERROR_EXTERNAL, Error::External),
        (AVERROR_FILTER_NOT_FOUND, Error::FilterNotFound),
        (AVERROR_INVALIDDATA, Error::InvalidData),
        (AVERROR_MUXER_NOT_FOUND, Error::MuxerNotFound),
        (AVERROR_OPTION_NOT_FOUND, Error::OptionNotFound),
        (AVERROR_PATCHWELCOME, Error::PatchWelcome),
        (AVERROR_PROTOCOL_NOT_FOUND, Error::ProtocolNotFound),
        (AVERROR_STREAM_NOT_FOUND, Error::StreamNotFound),
        (AVERROR_BUG2, Error::Bug2),
        (AVERROR_UNKNOWN, Error::Unknown),
        (AVERROR_EXPERIMENTAL, Error::Experimental),
        (AVERROR_INPUT_CHANGED, Error::InputChanged),
        (AVERROR_OUTPUT_CHANGED, Error::OutputChanged),
        (AVERROR_HTTP_BAD_REQUEST, Error::HttpBadRequest),
        (AVERROR_HTTP_UNAUTHORIZED, Error::HttpUnauthorized),
        (AVERROR_HTTP_FORBIDDEN, Error::HttpForbidden),
        (AVERROR_HTTP_NOT_FOUND, Error::HttpNotFound),
        (AVERROR_HTTP_TOO_MANY_REQUESTS, Error::HttpTooManyRequests),
        (AVERROR_HTTP_OTHER_4XX, Error::HttpOther4xx),
        (AVERROR_HTTP_SERVER_ERROR, Error::HttpServerError),
    ]
}

#[test]
fn every_tag_is_classified_as_its_variant() {
    for (code, error) in table() {
        assert_eq!(Error::from(code), error);
    }
}

#[test]
fn every_tagged_variant_gives_its_code_back() {
    for (code, error) in table() {
        assert_eq!(error.code(), Some(code));
    }
}

#[test]
fn tag_codes_are_the_packed_letters_negated() {
    assert_eq!(AVERROR_EOF, tag(b'E', b'O', b'F', b' '));
    assert_eq!(AVERROR_EOF, -541478725);
    assert_eq!(AVERROR_BUG, tag(b'B', b'U', b'G', b'!'));
    assert_eq!(AVERROR_INVALIDDATA, tag(b'I', b'N', b'D', b'A'));
    assert_eq!(AVERROR_DECODER_NOT_FOUND, tag(0xF8, b'D', b'E', b'C'));
    assert_eq!(AVERROR_STREAM_NOT_FOUND, tag(0xF8, b'S', b'T', b'R'));
    assert_eq!(AVERROR_HTTP_SERVER_ERROR, tag(0xF8, b'5', b'X', b'X'));
    assert_eq!(AVERROR_EXPERIMENTAL, -0x2bb2afa8);
    assert_eq!(AVERROR_INPUT_CHANGED, -0x636e6701);
    assert_eq!(AVERROR_OUTPUT_CHANGED, -0x636e6702);
}

#[test]
fn untagged_codes_keep_their_errno() {
    assert_eq!(Error::from(-11), Error::Other { errno: 11 });
    assert_eq!(Error::from(-2), Error::Other { errno: 2 });
    assert_eq!(Error::from(-5), Error::Other { errno: 5 });
    assert_eq!(Error::from(7), Error::Other { errno: -7 });
    assert_eq!(Error::from(0), Error::Other { errno: 0 });
}

#[test]
fn the_lowest_code_is_its_own_errno() {
    assert_eq!(averror(i32::MIN), i32::MIN);
    assert_eq!(Error::from(i32::MIN), Error::Other { errno: i32::MIN });
    assert_eq!(Error::Other { errno: i32::MIN }.code(), Some(i32::MIN));
}

#[test]
fn averror_turns_the_sign() {
    assert_eq!(averror(11), -11);
    assert_eq!(averror(-11), 11);
    assert_eq!(averror(0), 0);
    assert_eq!(averror(i32::MAX), -i32::MAX);
}

#[test]
fn codes_survive_classification() {
    for code in [-1, -2, -11, -35, 1, 12345, AVERROR_EOF, AVERROR_EXIT, i32::MIN, i32::MAX] {
        assert_eq!(Error::from(code).code(), Some(code));
    }
}

#[test]
fn invalid_state_has_no_native_code() {
    assert_eq!(Error::InvalidState.code(), None);
}

#[test]
fn would_block_is_the_hosts_errno() {
    assert!(Error::from(-11).would_block(11));
    assert!(!Error::from(-11).would_block(35));
    assert!(Error::from(-35).would_block(35));
    assert!(!Error::Eof.would_block(11));
    assert!(!Error::InvalidState.would_block(11));
}

#[test]
fn end_of_stream_and_invalid_state_are_terminal() {
    assert!(Error::Eof.terminal());
    assert!(Error::InvalidState.terminal());
    assert!(!Error::from(-11).terminal());
    assert!(!Error::InvalidData.terminal());
    assert!(!Error::Exit.terminal());
}

#[test]
fn media_kinds_have_their_native_numbers() {
    assert_eq!(Type::Unknown.code(), -1);
    assert_eq!(Type::Video.code(), 0);
    assert_eq!(Type::Audio.code(), 1);
    assert_eq!(Type::Data.code(), 2);
    assert_eq!(Type::Subtitle.code(), 3);
    assert_eq!(Type::Attachment.code(), 4);
}

#[test]
fn media_kinds_are_read_from_their_numbers() {
    assert_eq!(Type::from(-1), Type::Unknown);
    assert_eq!(Type::from(0), Type::Video);
    assert_eq!(Type::from(1), Type::Audio);
    assert_eq!(Type::from(2), Type::Data);
    assert_eq!(Type::from(3), Type::Subtitle);
    assert_eq!(Type::from(4), Type::Attachment);
    assert_eq!(Type::from(5), Type::Unknown);
    assert_eq!(Type::from(i32::MIN), Type::Unknown);
}

#[test]
fn media_kinds_survive_their_numbers() {
    for kind in [
        Type::Unknown,
        Type::Video,
        Type::Audio,
        Type::Data,
        Type::Subtitle,
        Type::Attachment,
    ] {
        assert_eq!(Type::from(kind.code()), kind);
    }
}

#[test]
fn interrupt_bridge_answers_one_to_abort() {
    assert_eq!(interrupt::answer(true), 1);
    assert_eq!(interrupt::answer(false), 0);
    assert!(interrupt::stops(interrupt::answer(true)));
    assert!(!interrupt::stops(interrupt::answer(false)));
    assert!(interrupt::stops(-1));
}
