//! The ways in which an operation on images can fail.

use vstd::prelude::*;

verus! {

/// What went wrong. The library only classifies a failure; how it is shown to
/// the user is the caller's business.
#[derive(Clone, Copy, Debug, PartialEq, Eq, Structural)]
pub enum SpriteError {
    /// The source is unreadable or is not in the supported raster format.
    Decode,
    /// The path has no final segment that could serve as a display name.
    InvalidName,
    /// A pixel buffer does not hold `width * height * 4` bytes.
    SizeMismatch,
    /// A composition was asked for of no images at all.
    EmptyInput,
    /// The pixels could not be put into the raster format.
    Encode,
    /// The encoded image could not be written to its destination.
    Write,
}

impl SpriteError {
    /// The text of [`SpriteError::message`] for each kind of failure.
    pub open spec fn message_text(self) -> Seq<char> {
        match self {
            SpriteError::Decode => "could not decode image"@,
            SpriteError::InvalidName => "path has no usable file name"@,
            SpriteError::SizeMismatch => "pixel buffer does not match the image dimensions"@,
            SpriteError::EmptyInput => "no images to compose"@,
            SpriteError::Encode => "could not encode image"@,
            SpriteError::Write => "could not write image file"@,
        }
    }

    /// A short description of the failure, fit to be shown to a user.
    pub fn message(&self) -> (text: &'static str)
        ensures
            text@ == self.message_text(),
    {
        match self {
            SpriteError::Decode => "could not decode image",
            SpriteError::InvalidName => "path has no usable file name",
            SpriteError::SizeMismatch => "pixel buffer does not match the image dimensions",
            SpriteError::EmptyInput => "no images to compose",
            SpriteError::Encode => "could not encode image",
            SpriteError::Write => "could not write image file",
        }
    }
}

} // verus!
