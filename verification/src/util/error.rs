//! The closed set of failures that every operation of this crate reports, and
//! the one conversion from a native status code into it.

use vstd::prelude::*;
use vstd::std_specs::convert::FromSpecImpl;

verus! {

/// A failure reported by the native library or by this layer.
///
/// Every variant but [`Error::InvalidState`] and [`Error::Other`] stands for
/// one four-letter tag of the native library. `Other` carries the host's
/// `errno` number of a failure that has no tag; `InvalidState` is raised by
/// this layer alone, when an operation is used in the wrong stage of a
/// resource's life.
#[derive(Clone, Copy, Debug, PartialEq, Eq, Hash)]
pub enum Error {
    Bug,
    Bug2,
    Unknown,
    Experimental,
    BufferTooSmall,
    Eof,
    Exit,
    External,
    InvalidData,
    PatchWelcome,
    InputChanged,
    OutputChanged,
    BsfNotFound,
    DecoderNotFound,
    DemuxerNotFound,
    EncoderNotFound,
    OptionNotFound,
    MuxerNotFound,
    FilterNotFound,
    ProtocolNotFound,
    StreamNotFound,
    HttpBadRequest,
    HttpUnauthorized,
    HttpForbidden,
    HttpNotFound,
    HttpTooManyRequests,
    HttpOther4xx,
    HttpServerError,
    InvalidState,
    Other { errno: i32 },
}

pub const AVERROR_BSF_NOT_FOUND: i32 = -1179861752;

pub const AVERROR_BUG: i32 = -558323010;

pub const AVERROR_BUFFER_TOO_SMALL: i32 = -1397118274;

pub const AVERROR_DECODER_NOT_FOUND: i32 = -1128613112;

pub const AVERROR_DEMUXER_NOT_FOUND: i32 = -1296385272;

pub const AVERROR_ENCODER_NOT_FOUND: i32 = -1129203192;

pub const AVERROR_EOF: i32 = -541478725;

pub const AVERROR_EXIT: i32 = -1414092869;

pub const AVERROR_EXTERNAL: i32 = -542398533;

pub const AVERROR_FILTER_NOT_FOUND: i32 = -1279870712;

pub const AVERROR_INVALIDDATA: i32 = -1094995529;

pub const AVERROR_MUXER_NOT_FOUND: i32 = -1481985528;

pub const AVERROR_OPTION_NOT_FOUND: i32 = -1414549496;

pub const AVERROR_PATCHWELCOME: i32 = -1163346256;

pub const AVERROR_PROTOCOL_NOT_FOUND: i32 = -1330794744;

pub const AVERROR_STREAM_NOT_FOUND: i32 = -1381258232;

pub const AVERROR_BUG2: i32 = -541545794;

pub const AVERROR_UNKNOWN: i32 = -1313558101;

pub const AVERROR_EXPERIMENTAL: i32 = -733130664;

pub const AVERROR_INPUT_CHANGED: i32 = -1668179713;

pub const AVERROR_OUTPUT_CHANGED: i32 = -1668179714;

pub const AVERROR_HTTP_BAD_REQUEST: i32 = -808465656;

pub const AVERROR_HTTP_UNAUTHORIZED: i32 = -825242872;

pub const AVERROR_HTTP_FORBIDDEN: i32 = -858797304;

pub const AVERROR_HTTP_NOT_FOUND: i32 = -875574520;

pub const AVERROR_HTTP_TOO_MANY_REQUESTS: i32 = -959591672;

pub const AVERROR_HTTP_OTHER_4XX: i32 = -1482175736;

pub const AVERROR_HTTP_SERVER_ERROR: i32 = -1482175992;

/// The status code that a four-letter tag stands for: the letters packed
/// little-endian into one word, negated.
pub open spec fn tag(a: int, b: int, c: int, d: int) -> int {
    -(a + b * 0x100 + c * 0x1_0000 + d * 0x100_0000)
}

/// The error that a tagged status code stands for, if `code` is one.
pub open spec fn tagged(code: int) -> Option<Error> {
    if code == tag(0xF8, 'B' as int, 'S' as int, 'F' as int) {
        Some(Error::BsfNotFound)
    } else if code == tag('B' as int, 'U' as int, 'G' as int, '!' as int) {
        Some(Error::Bug)
    } else if code == tag('B' as int, 'U' as int, 'F' as int, 'S' as int) {
        Some(Error::BufferTooSmall)
    } else if code == tag(0xF8, 'D' as int, 'E' as int, 'C' as int) {
        Some(Error::DecoderNotFound)
    } else if code == tag(0xF8, 'D' as int, 'E' as int, 'M' as int) {
        Some(Error::DemuxerNotFound)
    } else if code == tag(0xF8, 'E' as int, 'N' as int, 'C' as int) {
        Some(Error::EncoderNotFound)
    } else if code == tag('E' as int, 'O' as int, 'F' as int, ' ' as int) {
        Some(Error::Eof)
    } else if code == tag('E' as int, 'X' as int, 'I' as int, 'T' as int) {
        Some(Error::Exit)
    } else if code == tag('E' as int, 'X' as int, 'T' as int, ' ' as int) {
        Some(Error::External)
    } else if code == tag(0xF8, 'F' as int, 'I' as int, 'L' as int) {
        Some(Error::FilterNotFound)
    } else if code == tag('I' as int, 'N' as int, 'D' as int, 'A' as int) {
        Some(Error::InvalidData)
    } else if code == tag(0xF8, 'M' as int, 'U' as int, 'X' as int) {
        Some(Error::MuxerNotFound)
    } else if code == tag(0xF8, 'O' as int, 'P' as int, 'T' as int) {
        Some(Error::OptionNotFound)
    } else if code == tag('P' as int, 'A' as int, 'W' as int, 'E' as int) {
        Some(Error::PatchWelcome)
    } else if code == tag(0xF8, 'P' as int, 'R' as int, 'O' as int) {
        Some(Error::ProtocolNotFound)
    } else if code == tag(0xF8, 'S' as int, 'T' as int, 'R' as int) {
        Some(Error::StreamNotFound)
    } else if code == tag('B' as int, 'U' as int, 'G' as int, ' ' as int) {
        Some(Error::Bug2)
    } else if code == tag('U' as int, 'N' as int, 'K' as int, 'N' as int) {
        Some(Error::Unknown)
    } else if code == -0x2bb2afa8 {
        Some(Error::Experimental)
    } else if code == -0x636e6701 {
        Some(Error::InputChanged)
    } else if code == -0x636e6702 {
        Some(Error::OutputChanged)
    } else if code == tag(0xF8, '4' as int, '0' as int, '0' as int) {
        Some(Error::HttpBadRequest)
    } else if code == tag(0xF8, '4' as int, '0' as int, '1' as int) {
        Some(Error::HttpUnauthorized)
    } else if code == tag(0xF8, '4' as int, '0' as int, '3' as int) {
        Some(Error::HttpForbidden)
    } else if code == tag(0xF8, '4' as int, '0' as int, '4' as int) {
        Some(Error::HttpNotFound)
    } else if code == tag(0xF8, '4' as int, '2' as int, '9' as int) {
        Some(Error::HttpTooManyRequests)
    } else if code == tag(0xF8, '4' as int, 'X' as int, 'X' as int) {
        Some(Error::HttpOther4xx)
    } else if code == tag(0xF8, '5' as int, 'X' as int, 'X' as int) {
        Some(Error::HttpServerError)
    } else {
        None
    }
}

/// The sign of a 32-bit number turned, as the machine turns it: the lowest
/// number, which has no positive twin, stays as it is.
pub open spec fn negated(value: i32) -> i32 {
    if value == i32::MIN {
        i32::MIN
    } else {
        (-value) as i32
    }
}

/// The native status code for a host `errno`, and back.
pub fn averror(errno: i32) -> (code: i32)
    ensures
        code == negated(errno),
{
    if errno == i32::MIN {
        i32::MIN
    } else {
        -errno
    }
}

impl Error {
    /// The error that a native status code stands for: the tagged error where
    /// `code` is a tag, else `Other` with the `errno` that `code` negates.
    pub open spec fn of(code: i32) -> Error {
        match tagged(code as int) {
            Some(error) => error,
            None => Error::Other { errno: negated(code) },
        }
    }

    /// The native status code of this error; `InvalidState` has none.
    pub open spec fn spec_code(self) -> Option<i32> {
        match self {
            Error::Bug => Some(AVERROR_BUG),
            Error::Bug2 => Some(AVERROR_BUG2),
            Error::Unknown => Some(AVERROR_UNKNOWN),
            Error::Experimental => Some(AVERROR_EXPERIMENTAL),
            Error::BufferTooSmall => Some(AVERROR_BUFFER_TOO_SMALL),
            Error::Eof => Some(AVERROR_EOF),
            Error::Exit => Some(AVERROR_EXIT),
            Error::External => Some(AVERROR_EXTERNAL),
            Error::InvalidData => Some(AVERROR_INVALIDDATA),
            Error::PatchWelcome => Some(AVERROR_PATCHWELCOME),
            Error::InputChanged => Some(AVERROR_INPUT_CHANGED),
            Error::OutputChanged => Some(AVERROR_OUTPUT_CHANGED),
            Error::BsfNotFound => Some(AVERROR_BSF_NOT_FOUND),
            Error::DecoderNotFound => Some(AVERROR_DECODER_NOT_FOUND),
            Error::DemuxerNotFound => Some(AVERROR_DEMUXER_NOT_FOUND),
            Error::EncoderNotFound => Some(AVERROR_ENCODER_NOT_FOUND),
            Error::OptionNotFound => Some(AVERROR_OPTION_NOT_FOUND),
            Error::MuxerNotFound => Some(AVERROR_MUXER_NOT_FOUND),
            Error::FilterNotFound => Some(AVERROR_FILTER_NOT_FOUND),
            Error::ProtocolNotFound => Some(AVERROR_PROTOCOL_NOT_FOUND),
            Error::StreamNotFound => Some(AVERROR_STREAM_NOT_FOUND),
            Error::HttpBadRequest => Some(AVERROR_HTTP_BAD_REQUEST),
            Error::HttpUnauthorized => Some(AVERROR_HTTP_UNAUTHORIZED),
            Error::HttpForbidden => Some(AVERROR_HTTP_FORBIDDEN),
            Error::HttpNotFound => Some(AVERROR_HTTP_NOT_FOUND),
            Error::HttpTooManyRequests => Some(AVERROR_HTTP_TOO_MANY_REQUESTS),
            Error::HttpOther4xx => Some(AVERROR_HTTP_OTHER_4XX),
            Error::HttpServerError => Some(AVERROR_HTTP_SERVER_ERROR),
            Error::InvalidState => None,
            Error::Other { errno } => Some(negated(errno)),
        }
    }

    /// An error is in canonical form unless it is an `Other` whose `errno`
    /// negates to a tag: that failure is written as the tagged variant.
    pub open spec fn canonical(self) -> bool {
        self matches Error::Other { errno } ==> tagged(negated(errno) as int) is None
    }

    /// The native status code of this error, `None` for `InvalidState`.
    pub fn code(&self) -> (code: Option<i32>)
        ensures
            code == self.spec_code(),
    {
        match self {
            Error::Bug => Some(AVERROR_BUG),
            Error::Bug2 => Some(AVERROR_BUG2),
            Error::Unknown => Some(AVERROR_UNKNOWN),
            Error::Experimental => Some(AVERROR_EXPERIMENTAL),
            Error::BufferTooSmall => Some(AVERROR_BUFFER_TOO_SMALL),
            Error::Eof => Some(AVERROR_EOF),
            Error::Exit => Some(AVERROR_EXIT),
            Error::External => Some(AVERROR_EXTERNAL),
            Error::InvalidData => Some(AVERROR_INVALIDDATA),
            Error::PatchWelcome => Some(AVERROR_PATCHWELCOME),
            Error::InputChanged => Some(AVERROR_INPUT_CHANGED),
            Error::OutputChanged => Some(AVERROR_OUTPUT_CHANGED),
            Error::BsfNotFound => Some(AVERROR_BSF_NOT_FOUND),
            Error::DecoderNotFound => Some(AVERROR_DECODER_NOT_FOUND),
            Error::DemuxerNotFound => Some(AVERROR_DEMUXER_NOT_FOUND),
            Error::EncoderNotFound => Some(AVERROR_ENCODER_NOT_FOUND),
            Error::OptionNotFound => Some(AVERROR_OPTION_NOT_FOUND),
            Error::MuxerNotFound => Some(AVERROR_MUXER_NOT_FOUND),
            Error::FilterNotFound => Some(AVERROR_FILTER_NOT_FOUND),
            Error::ProtocolNotFound => Some(AVERROR_PROTOCOL_NOT_FOUND),
            Error::StreamNotFound => Some(AVERROR_STREAM_NOT_FOUND),
            Error::HttpBadRequest => Some(AVERROR_HTTP_BAD_REQUEST),
            Error::HttpUnauthorized => Some(AVERROR_HTTP_UNAUTHORIZED),
            Error::HttpForbidden => Some(AVERROR_HTTP_FORBIDDEN),
            Error::HttpNotFound => Some(AVERROR_HTTP_NOT_FOUND),
            Error::HttpTooManyRequests => Some(AVERROR_HTTP_TOO_MANY_REQUESTS),
            Error::HttpOther4xx => Some(AVERROR_HTTP_OTHER_4XX),
            Error::HttpServerError => Some(AVERROR_HTTP_SERVER_ERROR),
            Error::InvalidState => None,
            Error::Other { errno } => Some(averror(*errno)),
        }
    }

    /// Whether this error is the host's "try again": `Other` with the `errno`
    /// that the host gives to a call that would block.
    pub open spec fn spec_would_block(self, again: i32) -> bool {
        self == (Error::Other { errno: again })
    }

    /// Whether this error is the retryable "would block" of a host whose
    /// `errno` for it is `again`.
    pub fn would_block(&self, again: i32) -> (yes: bool)
        ensures
            yes == self.spec_would_block(again),
    {
        match self {
            Error::Other { errno } => *errno == again,
            _ => false,
        }
    }

    /// Whether this error ends the life of the resource that reported it:
    /// nothing is gained by calling again.
    pub open spec fn spec_terminal(self) -> bool {
        self is Eof || self is InvalidState
    }

    /// Whether this error is terminal for the resource that reported it.
    pub fn terminal(&self) -> (yes: bool)
        ensures
            yes == self.spec_terminal(),
    {
        match self {
            Error::Eof => true,
            Error::InvalidState => true,
            _ => false,
        }
    }
}

impl From<i32> for Error {
    /// Classifies a native status code.
    fn from(code: i32) -> (error: Error) {
        if code == AVERROR_BSF_NOT_FOUND {
            Error::BsfNotFound
        } else if code == AVERROR_BUG {
            Error::Bug
        } else if code == AVERROR_BUFFER_TOO_SMALL {
            Error::BufferTooSmall
        } else if code == AVERROR_DECODER_NOT_FOUND {
            Error::DecoderNotFound
        } else if code == AVERROR_DEMUXER_NOT_FOUND {
            Error::DemuxerNotFound
        } else if code == AVERROR_ENCODER_NOT_FOUND {
            Error::EncoderNotFound
        } else if code == AVERROR_EOF {
            Error::Eof
        } else if code == AVERROR_EXIT {
            Error::Exit
        } else if code == AVERROR_EXTERNAL {
            Error::External
        } else if code == AVERROR_FILTER_NOT_FOUND {
            Error::FilterNotFound
        } else if code == AVERROR_INVALIDDATA {
            Error::InvalidData
        } else if code == AVERROR_MUXER_NOT_FOUND {
            Error::MuxerNotFound
        } else if code == AVERROR_OPTION_NOT_FOUND {
            Error::OptionNotFound
        } else if code == AVERROR_PATCHWELCOME {
            Error::PatchWelcome
        } else if code == AVERROR_PROTOCOL_NOT_FOUND {
            Error::ProtocolNotFound
        } else if code == AVERROR_STREAM_NOT_FOUND {
            Error::StreamNotFound
        } else if code == AVERROR_BUG2 {
            Error::Bug2
        } else if code == AVERROR_UNKNOWN {
            Error::Unknown
        } else if code == AVERROR_EXPERIMENTAL {
            Error::Experimental
        } else if code == AVERROR_INPUT_CHANGED {
            Error::InputChanged
        } else if code == AVERROR_OUTPUT_CHANGED {
            Error::OutputChanged
        } else if code == AVERROR_HTTP_BAD_REQUEST {
            Error::HttpBadRequest
        } else if code == AVERROR_HTTP_UNAUTHORIZED {
            Error::HttpUnauthorized
        } else if code == AVERROR_HTTP_FORBIDDEN {
            Error::HttpForbidden
        } else if code == AVERROR_HTTP_NOT_FOUND {
            Error::HttpNotFound
        } else if code == AVERROR_HTTP_TOO_MANY_REQUESTS {
            Error::HttpTooManyRequests
        } else if code == AVERROR_HTTP_OTHER_4XX {
            Error::HttpOther4xx
        } else if code == AVERROR_HTTP_SERVER_ERROR {
            Error::HttpServerError
        } else {
            Error::Other { errno: averror(code) }
        }
    }
}

impl FromSpecImpl<i32> for Error {
    open spec fn obeys_from_spec() -> bool {
        true
    }

    open spec fn from_spec(code: i32) -> Error {
        Error::of(code)
    }
}

/// Classifying a status code loses nothing: the error's own code is the code
/// it was made from, and the error is in canonical form.
pub proof fn code_survives_classification(code: i32)
    ensures
        Error::of(code).spec_code() == Some(code),
        Error::of(code).canonical(),
        !(Error::of(code) is InvalidState),
{
}

/// An error in canonical form that has a native code is the one that its code
/// is classified as.
pub proof fn canonical_error_survives_its_code(error: Error)
    requires
        error.canonical(),
        !(error is InvalidState),
    ensures
        error.spec_code() matches Some(code) && Error::of(code) == error,
{
}

/// Two codes are classified alike only if they are the same code.
pub proof fn classification_is_injective(a: i32, b: i32)
    requires
        Error::of(a) == Error::of(b),
    ensures
        a == b,
{
    code_survives_classification(a);
    code_survives_classification(b);
}

} // verus!
