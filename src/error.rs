use vstd::prelude::*;

verus! {

/// The kinds of failure that end an inspection.
#[derive(Clone, Copy, Debug, PartialEq, Eq, Structural)]
pub enum ErrorKind {
    /// The bytes do not parse as any known container.
    UnrecognizedFormat,
    /// The source could not be opened or read.
    IoFailure,
    /// Any other failure of the container library.
    Internal,
}

/// A failed inspection: its kind and the container library's diagnostic,
/// kept verbatim.
#[derive(Clone, Debug, PartialEq, Eq)]
pub struct InspectionError {
    pub kind: ErrorKind,
    pub message: String,
}

/// What the container library reported when it could not open a source:
/// its numeric error code and its diagnostic.
#[derive(Clone, Debug, PartialEq, Eq)]
pub struct OpenFailure {
    pub code: i32,
    pub message: String,
}

/// Error code: the data is invalid for every known format.
pub const ERR_INVALID_DATA: i32 = -0x41444e49;
/// Error code: no demuxer handles the source.
pub const ERR_DEMUXER_NOT_FOUND: i32 = -0x4d4544f8;
/// Error code: the source ended before a container header.
pub const ERR_END_OF_FILE: i32 = -0x20464f45;
/// Error code: no protocol handles the source locator.
pub const ERR_PROTOCOL_NOT_FOUND: i32 = -0x4f5250f8;
/// The largest system error number, which the library reports negated.
pub const MAX_ERRNO: i32 = 4095;

/// The kind of an open failure with library error `code`: a parse failure
/// is an unrecognised format, a system error or an unknown protocol is an
/// I/O failure, anything else is internal.
pub open spec fn open_error_kind(code: i32) -> ErrorKind {
    if code == ERR_INVALID_DATA || code == ERR_DEMUXER_NOT_FOUND || code == ERR_END_OF_FILE {
        ErrorKind::UnrecognizedFormat
    } else if code == ERR_PROTOCOL_NOT_FOUND || (-MAX_ERRNO <= code && code < 0) {
        ErrorKind::IoFailure
    } else {
        ErrorKind::Internal
    }
}

/// Classifies a failure to open a source, keeping its diagnostic.
pub fn classify_open_error(failure: OpenFailure) -> (r: InspectionError)
    ensures
        r.kind == open_error_kind(failure.code),
        r.message@ == failure.message@,
{
    let code = failure.code;
    let kind = if code == ERR_INVALID_DATA || code == ERR_DEMUXER_NOT_FOUND || code
        == ERR_END_OF_FILE {
        ErrorKind::UnrecognizedFormat
    } else if code == ERR_PROTOCOL_NOT_FOUND || (-MAX_ERRNO <= code && code < 0) {
        ErrorKind::IoFailure
    } else {
        ErrorKind::Internal
    };
    InspectionError { kind, message: failure.message }
}

} // verus!
