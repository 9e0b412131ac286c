//! What can go wrong when a buffer is made or a pixel is addressed.

use vstd::prelude::*;
use vstd::string::*;
use crate::misc::decimal::{append_numeral, append_signed_numeral, numeral, signed_numeral};

verus! {

/// The failures of the image buffers.
#[derive(Clone, Copy, Debug, PartialEq, Eq, Structural)]
pub enum BufferError {
    /// A buffer was asked for with a width or a height of zero or less.
    NonPositiveResolution { x: i32, y: i32 },
    /// A buffer was asked for with more pixels than can be addressed.
    ResolutionTooLarge { x: i32, y: i32 },
    /// The three bytes of a pixel inside the resolution reach beyond the end
    /// of a borrowed backing store.
    PixelOutsideStore { x: i32, y: i32 },
    /// A borrowed backing store is shorter than resolution and channel count
    /// ask for.
    BackingStoreTooSmall { required: u128, available: usize },
    /// A coordinate with a negative component.
    NegativeCoordinate { x: i32, y: i32 },
    /// A coordinate at or beyond the resolution on some axis.
    BeyondResolution { x: i32, y: i32, width: i32, height: i32 },
}

impl BufferError {
    /// The text of the error.
    pub open spec fn text(self) -> Seq<char> {
        match self {
            BufferError::NonPositiveResolution { x, y } => "Negative resolution: x: "@
                + signed_numeral(x as int) + ", y: "@ + signed_numeral(y as int),
            BufferError::ResolutionTooLarge { x, y } => "Resolution too large: x: "@
                + signed_numeral(x as int) + ", y: "@ + signed_numeral(y as int),
            BufferError::PixelOutsideStore { x, y } => "Pixel does not fit the buffer: x: "@
                + signed_numeral(x as int) + ", y: "@ + signed_numeral(y as int),
            BufferError::BackingStoreTooSmall { required, available } =>
                "Total possible pixel count is greater than buffer len: "@ + numeral(required as nat)
                + " > "@ + numeral(available as nat),
            BufferError::NegativeCoordinate { x, y } => "Out of bounds: x: "@ + signed_numeral(
                x as int,
            ) + " < 0, y: "@ + signed_numeral(y as int) + " < 0"@,
            BufferError::BeyondResolution { x, y, width, height } => "Out of bounds: x: "@
                + signed_numeral(x as int) + " >= "@ + signed_numeral(width as int) + ", y: "@
                + signed_numeral(y as int) + " >= "@ + signed_numeral(height as int),
        }
    }

    /// The error as text for a reader.
    pub fn message(&self) -> (message: String)
        ensures
            message@ == self.text(),
    {
        let mut message = String::new();
        match *self {
            BufferError::NonPositiveResolution { x, y } => {
                message.append("Negative resolution: x: ");
                append_signed_numeral(&mut message, x as i64);
                message.append(", y: ");
                append_signed_numeral(&mut message, y as i64);
            },
            BufferError::ResolutionTooLarge { x, y } => {
                message.append("Resolution too large: x: ");
                append_signed_numeral(&mut message, x as i64);
                message.append(", y: ");
                append_signed_numeral(&mut message, y as i64);
            },
            BufferError::PixelOutsideStore { x, y } => {
                message.append("Pixel does not fit the buffer: x: ");
                append_signed_numeral(&mut message, x as i64);
                message.append(", y: ");
                append_signed_numeral(&mut message, y as i64);
            },
            BufferError::BackingStoreTooSmall { required, available } => {
                message.append("Total possible pixel count is greater than buffer len: ");
                append_numeral(&mut message, required);
                message.append(" > ");
                append_numeral(&mut message, available as u128);
            },
            BufferError::NegativeCoordinate { x, y } => {
                message.append("Out of bounds: x: ");
                append_signed_numeral(&mut message, x as i64);
                message.append(" < 0, y: ");
                append_signed_numeral(&mut message, y as i64);
                message.append(" < 0");
            },
            BufferError::BeyondResolution { x, y, width, height } => {
                message.append("Out of bounds: x: ");
                append_signed_numeral(&mut message, x as i64);
                message.append(" >= ");
                append_signed_numeral(&mut message, width as i64);
                message.append(", y: ");
                append_signed_numeral(&mut message, y as i64);
                message.append(" >= ");
                append_signed_numeral(&mut message, height as i64);
            },
        }
        assert(message@ =~= self.text());
        message
    }
}

} // verus!
