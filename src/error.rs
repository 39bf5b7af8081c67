use vstd::prelude::*;

verus! {

/// The ways an extraction can fail.
#[derive(Debug, Clone, Copy, PartialEq, Eq, Structural)]
pub enum IconError {
    /// The path does not exist or does not name an `.exe` file.
    InvalidInput,
    /// The executable holds no icon at the requested index.
    NotFound,
    /// An operating-system call reported failure.
    OsFailure,
    /// The pixel buffer does not match the bitmap geometry.
    InvalidBuffer,
    /// The raster could not be encoded or written.
    EncodeFailure,
}

impl IconError {
    /// A short human-readable description of the error.
    pub fn message(&self) -> (r: &'static str) {
        match self {
            IconError::InvalidInput => "the provided file is not a valid executable",
            IconError::NotFound => "the executable holds no icon at the requested index",
            IconError::OsFailure => "an operating-system call failed",
            IconError::InvalidBuffer => "the pixel buffer does not match the bitmap geometry",
            IconError::EncodeFailure => "the image could not be encoded or written",
        }
    }
}

} // verus!
