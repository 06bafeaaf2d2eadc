use vstd::prelude::*;

verus! {

/// What kind of image an error is about.
#[derive(Clone, Copy, PartialEq, Eq, Structural, Debug)]
pub enum Source {
    BootRomImage,
    RomImage,
    RamImage,
}

/// The sizes of a file that had an unexpected size.
#[derive(Clone, Copy, PartialEq, Eq, Structural, Debug)]
pub struct InvalidFileSizeError {
    /// The actual size of the data.
    pub actual: usize,
    /// The expected size.
    pub expected: usize,
}

/// What went wrong.
#[derive(Clone, Copy, PartialEq, Eq, Structural, Debug)]
pub enum ErrorCode {
    /// An unknown error occurred on loading data.
    UnknownError,
    /// The data had an unexpected size.
    InvalidFileSize(InvalidFileSizeError),
    /// The feature is not supported here.
    NotSupported,
}

/// An error on loading an image, with the kind of image it concerns.
#[derive(Clone, Copy, PartialEq, Eq, Structural, Debug)]
pub struct Error {
    pub error_code: ErrorCode,
    pub source: Source,
}

impl Error {
    /// The error for `actual` bytes where `expected` were needed.
    pub fn invalid_size(source: Source, actual: usize, expected: usize) -> (r: Error)
        ensures
            r == (Error { error_code: ErrorCode::InvalidFileSize(InvalidFileSizeError { actual, expected }), source }),
    {
        Error { error_code: ErrorCode::InvalidFileSize(InvalidFileSizeError { actual, expected }), source }
    }
}

} // verus!
