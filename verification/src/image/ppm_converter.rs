//! Export of a buffer as a plain-text PPM image.
//!
//! The text starts with the line `P3`, a line with width and height, and the
//! line `255`.  Then comes one line per pixel, row by row, with the pixel's
//! red, green and blue as decimal integers.  Every line ends in a line feed.

use vstd::prelude::*;
use vstd::string::*;
use crate::image::default_image_buffer::DefaultImageBuffer;
use crate::image::image_buffer::ImageBuffer;
use crate::misc::decimal::{append_signed_numeral, signed_numeral};
use crate::misc::vector::{IVec2, IVec3, Vec3};

verus! {

/// The three header lines for an image of the given resolution.
pub open spec fn header(resolution: IVec2) -> Seq<char> {
    seq!['P', '3', '\n'] + signed_numeral(resolution.x as int) + seq![' '] + signed_numeral(
        resolution.y as int,
    ) + seq!['\n', '2', '5', '5', '\n']
}

/// The line of one pixel.
pub open spec fn pixel_line(color: IVec3) -> Seq<char> {
    signed_numeral(color.x as int) + seq![' '] + signed_numeral(color.y as int) + seq![' ']
        + signed_numeral(color.z as int) + seq!['\n']
}

/// The lines of the pixels, in order.
pub open spec fn pixel_lines(colors: Seq<IVec3>) -> Seq<char>
    decreases colors.len(),
{
    if colors.len() == 0 {
        Seq::empty()
    } else {
        pixel_lines(colors.drop_last()) + pixel_line(colors.last())
    }
}

/// The whole text of an image.
pub open spec fn ppm_text(resolution: IVec2, colors: Seq<IVec3>) -> Seq<char> {
    header(resolution) + pixel_lines(colors)
}

/// Why a converter could not be made.
#[derive(Clone, Copy, Debug, PartialEq, Eq, Structural)]
pub enum PpmError {
    /// The path of the output file is empty.
    EmptyPath,
}

impl PpmError {
    /// The text of the error.  The path that it speaks of is the empty one.
    pub open spec fn text(self) -> Seq<char> {
        " is not a correct path"@
    }

    /// The error as text for a reader.
    pub fn message(&self) -> (message: String)
        ensures
            message@ == self.text(),
    {
        " is not a correct path".to_owned()
    }
}

/// Writes images in the plain-text PPM format to a file of its choosing.
pub struct PpmConverter {
    path: String,
}

impl PpmConverter {
    /// The path of the output file.
    pub closed spec fn path(&self) -> Seq<char> {
        self.path@
    }

    /// A converter that writes to `path`, which must not be empty.
    pub fn new(path: &str) -> (r: Result<Self, PpmError>)
        ensures
            path@.len() == 0 ==> r is Err,
            path@.len() > 0 ==> r is Ok && r->Ok_0.path() == path@,
    {
        if path.is_empty() {
            return Err(PpmError::EmptyPath);
        }
        Ok(PpmConverter { path: path.to_owned() })
    }

    /// Chooses another output file.
    pub fn set_output_file(&mut self, path: &str)
        ensures
            final(self).path() == path@,
    {
        self.path = path.to_owned();
    }

    pub fn get_output_file(&self) -> (path: &str)
        ensures
            path@ == self.path(),
    {
        self.path.as_str()
    }

    /// The text of an image with the given resolution and colours.  The
    /// colours are written as they are given, in their order; the resolution
    /// goes into the header only.
    pub fn convert(&self, resolution: IVec2, colors: &Vec<IVec3>) -> (text: String)
        ensures
            text@ == ppm_text(resolution, colors@),
    {
        let mut text = String::new();
        proof {
            reveal_strlit("P3\n");
            reveal_strlit(" ");
            reveal_strlit("\n255\n");
            reveal_strlit("\n");
        }
        text.append("P3\n");
        append_signed_numeral(&mut text, resolution.x as i64);
        text.append(" ");
        append_signed_numeral(&mut text, resolution.y as i64);
        text.append("\n255\n");
        assert(text@ =~= header(resolution));
        let mut i: usize = 0;
        while i < colors.len()
            invariant
                0 <= i <= colors@.len(),
                text@ == header(resolution) + pixel_lines(colors@.take(i as int)),
            decreases colors@.len() - i,
        {
            let color = colors[i];
            let ghost before = text@;
            append_signed_numeral(&mut text, color.x as i64);
            text.append(" ");
            append_signed_numeral(&mut text, color.y as i64);
            text.append(" ");
            append_signed_numeral(&mut text, color.z as i64);
            text.append("\n");
            proof {
                reveal_strlit(" ");
                reveal_strlit("\n");
                assert(text@ =~= before + pixel_line(color));
                let next = colors@.take(i + 1);
                assert(next.drop_last() =~= colors@.take(i as int));
                assert(next.last() == color);
                assert(text@ =~= header(resolution) + pixel_lines(next));
            }
            i = i + 1;
        }
        assert(colors@.take(i as int) =~= colors@);
        text
    }

    /// The text of a buffer's image, each colour turned into integers by
    /// `quantize`.
    pub fn convert_with<F>(&self, buffer: &DefaultImageBuffer, quantize: F) -> (text: String) where
        F: Fn(&Vec3) -> IVec3,

        requires
            forall|i: int| 0 <= i < buffer@.len() ==> call_requires(quantize, (&#[trigger] buffer@[i],)),
        ensures
            exists|colors: Seq<IVec3>|
                {
                    &&& colors.len() == buffer@.len()
                    &&& forall|i: int|
                        0 <= i < colors.len() ==> call_ensures(
                            quantize,
                            (&buffer@[i],),
                            #[trigger] colors[i],
                        )
                    &&& text@ == ppm_text(buffer.image().resolution, colors)
                },
    {
        let pixels = buffer.get_buffer();
        let mut colors: Vec<IVec3> = Vec::new();
        let mut i: usize = 0;
        while i < pixels.len()
            invariant
                0 <= i <= pixels@.len(),
                pixels@ == buffer@,
                colors@.len() == i,
                forall|k: int|
                    0 <= k < buffer@.len() ==> call_requires(quantize, (&#[trigger] buffer@[k],)),
                forall|k: int|
                    0 <= k < i ==> call_ensures(quantize, (&buffer@[k],), #[trigger] colors@[k]),
            decreases pixels@.len() - i,
        {
            let color = quantize(&pixels[i]);
            colors.push(color);
            i = i + 1;
        }
        self.convert(buffer.get_resolution(), &colors)
    }
}

} // verus!
