//! A display buffer: three bytes per pixel inside a borrowed byte array.

use vstd::prelude::*;
use crate::image::buffer_error::BufferError;
use crate::image::image_buffer::{
    bounds_error, calc_index, check_if_out_of_bounds, in_bounds, lemma_index_in_range,
    row_major_index, Image, ImageBuffer,
};
use crate::misc::vector::{IVec2, U8Vec3};

verus! {

/// A view of a borrowed byte array as an image.  Each pixel starts `channels`
/// bytes after the one before it; its first three bytes are red, green and
/// blue, and any further byte of a pixel is never touched.  With fewer than
/// three channels the pixels overlap, and the last of them may reach beyond
/// the array.
pub struct U8ImageBuffer<'a> {
    resolution: IVec2,
    buffer: &'a mut [u8],
    channels: usize,
}

/// The colour whose three bytes start at `offset`.
pub open spec fn color_at(bytes: Seq<u8>, offset: int) -> U8Vec3 {
    U8Vec3 { x: bytes[offset], y: bytes[offset + 1], z: bytes[offset + 2] }
}

/// The bytes after a colour is written at `offset`.
pub open spec fn with_color_at(bytes: Seq<u8>, offset: int, color: U8Vec3) -> Seq<u8> {
    bytes.update(offset, color.x).update(offset + 1, color.y).update(offset + 2, color.z)
}

/// The channel-wise sum of two colours, each channel stopping at 255.
pub open spec fn saturating_sum(a: U8Vec3, b: U8Vec3) -> U8Vec3 {
    U8Vec3 {
        x: if a.x + b.x > 255 {
            255u8
        } else {
            (a.x + b.x) as u8
        },
        y: if a.y + b.y > 255 {
            255u8
        } else {
            (a.y + b.y) as u8
        },
        z: if a.z + b.z > 255 {
            255u8
        } else {
            (a.z + b.z) as u8
        },
    }
}

/// The image that bytes hold for a resolution and a channel count.
pub open spec fn image_of(bytes: Seq<u8>, resolution: IVec2, channels: int) -> Image<U8Vec3> {
    Image {
        resolution,
        pixels: Seq::new(
            (resolution.x * resolution.y) as nat,
            |i: int| color_at(bytes, i * channels),
        ),
    }
}

impl<'a> U8ImageBuffer<'a> {
    #[verifier::type_invariant]
    spec fn well_formed(&self) -> bool {
        &&& self.resolution.x > 0
        &&& self.resolution.y > 0
        &&& self.resolution.x * self.resolution.y * self.channels <= self.buffer@.len()
    }

    /// The borrowed bytes as they now are.
    pub closed spec fn bytes(&self) -> Seq<u8> {
        self.buffer@
    }

    /// The number of bytes from one pixel to the next.
    pub closed spec fn channels(&self) -> int {
        self.channels as int
    }

    /// Where the red byte of a pixel lies.
    pub open spec fn offset_of(&self, x: int, y: int) -> int {
        row_major_index(self.image().resolution, x, y) * self.channels()
    }

    /// Whether the three bytes of a pixel lie inside the byte array.
    pub open spec fn holds(&self, coord: IVec2) -> bool {
        self.offset_of(coord.x as int, coord.y as int) + 3 <= self.bytes().len()
    }

    /// What an access to a pixel is answered with: the bounds error outside
    /// the resolution, an error of its own where the pixel's bytes reach
    /// beyond the array, and else nothing.
    pub open spec fn refusal(&self, coord: IVec2) -> Option<BufferError> {
        if !in_bounds(coord, self.image().resolution) {
            Some(bounds_error(coord, self.image().resolution))
        } else if !self.holds(coord) {
            Some(BufferError::PixelOutsideStore { x: coord.x, y: coord.y })
        } else {
            None
        }
    }

    /// The bytes after a colour is put at a coordinate: the pixel's three
    /// bytes are written where the access is not refused, and nothing is
    /// written where it is.
    pub open spec fn bytes_after_put(&self, coord: IVec2, color: U8Vec3) -> Seq<u8> {
        if self.refusal(coord) is None {
            with_color_at(self.bytes(), self.offset_of(coord.x as int, coord.y as int), color)
        } else {
            self.bytes()
        }
    }

    /// The colour that the bytes of a pixel hold.
    pub open spec fn held(&self, coord: IVec2) -> U8Vec3 {
        color_at(self.bytes(), self.offset_of(coord.x as int, coord.y as int))
    }

    /// Wraps a byte array.  The resolution must be positive, and the array
    /// must be as long as width times height times channels.
    pub fn new(buffer: &'a mut [u8], resolution: IVec2, channels: u32) -> (r: Result<
        Self,
        BufferError,
    >)
        ensures
            resolution.x <= 0 || resolution.y <= 0 ==> r == Err::<Self, BufferError>(
                BufferError::NonPositiveResolution { x: resolution.x, y: resolution.y },
            ),
            resolution.x > 0 && resolution.y > 0 && resolution.x * resolution.y * channels > old(
                buffer,
            )@.len() ==> r == Err::<Self, BufferError>(
                BufferError::BackingStoreTooSmall {
                    required: (resolution.x * resolution.y * channels) as u128,
                    available: old(buffer)@.len() as usize,
                },
            ),
            resolution.x > 0 && resolution.y > 0 && resolution.x * resolution.y * channels <= old(
                buffer,
            )@.len() ==> {
                &&& r is Ok
                &&& r->Ok_0.image().resolution == resolution
                &&& r->Ok_0.image().wf()
                &&& r->Ok_0.channels() == channels
                &&& r->Ok_0.bytes() == old(buffer)@
            },
    {
        if resolution.x <= 0 || resolution.y <= 0 {
            return Err(BufferError::NonPositiveResolution { x: resolution.x, y: resolution.y });
        }
        let width: u128 = resolution.x as u128;
        let height: u128 = resolution.y as u128;
        let depth: u128 = channels as u128;
        assert(width * height * depth <= 0x7fff_ffff * 0x7fff_ffff * 0xffff_ffff) by (nonlinear_arith)
            requires
                0 < width <= 0x7fff_ffff,
                0 < height <= 0x7fff_ffff,
                0 <= depth <= 0xffff_ffff,
        ;
        assert(width * height <= 0x7fff_ffff * 0x7fff_ffff) by (nonlinear_arith)
            requires
                0 < width <= 0x7fff_ffff,
                0 < height <= 0x7fff_ffff,
        ;
        let required: u128 = width * height * depth;
        let available: usize = buffer.len();
        if required > available as u128 {
            return Err(BufferError::BackingStoreTooSmall { required, available });
        }
        Ok(U8ImageBuffer { resolution, buffer, channels: channels as usize })
    }

    /// Gives the byte array back, with everything that was written to it.
    pub fn into_buffer(self) -> (buffer: &'a mut [u8])
        ensures
            buffer@ == self.bytes(),
    {
        let U8ImageBuffer { resolution: _, buffer, channels: _ } = self;
        buffer
    }

    /// Every pixel inside the resolution starts inside the byte array, and
    /// with three channels or more it lies wholly inside.
    proof fn lemma_pixel_in_store(&self, x: int, y: int)
        requires
            self.well_formed(),
            0 <= x < self.resolution.x,
            0 <= y < self.resolution.y,
        ensures
            0 <= self.offset_of(x, y),
            self.offset_of(x, y) + self.channels() <= self.bytes().len(),
            self.channels() >= 1 ==> self.resolution.x * self.resolution.y <= self.bytes().len(),
    {
        lemma_index_in_range(self.resolution, x, y);
        let i = row_major_index(self.resolution, x, y);
        let pixels: int = self.resolution.x * self.resolution.y;
        let c = self.channels as int;
        assert(i * c + c <= pixels * c && 0 <= i * c) by (nonlinear_arith)
            requires
                0 <= i < pixels,
                c >= 0,
        ;
        if c >= 1 {
            assert(pixels <= pixels * c) by (nonlinear_arith)
                requires
                    pixels >= 0,
                    c >= 1,
            ;
        }
    }

    /// Finds the place of a pixel's red byte, or the reason why the pixel
    /// cannot be reached.
    fn calc_index(&self, coord: &IVec2) -> (r: Result<usize, BufferError>)
        ensures
            match self.refusal(*coord) {
                Some(error) => r == Err::<usize, BufferError>(error),
                None => r == Ok::<usize, BufferError>(
                    self.offset_of(coord.x as int, coord.y as int) as usize,
                ),
            },
            r is Ok ==> r->Ok_0 + 3 <= self.bytes().len(),
    {
        if let Err(e) = check_if_out_of_bounds(coord, &self.resolution) {
            return Err(e);
        }
        proof {
            use_type_invariant(self);
            self.lemma_pixel_in_store(coord.x as int, coord.y as int);
        }
        let len: usize = self.buffer.len();
        let offset: usize = if self.channels == 0 {
            assert(self.offset_of(coord.x as int, coord.y as int) == 0) by (nonlinear_arith)
                requires
                    self.offset_of(coord.x as int, coord.y as int) == row_major_index(
                        self.resolution,
                        coord.x as int,
                        coord.y as int,
                    ) * 0,
            ;
            0
        } else {
            calc_index(coord, &self.resolution) * self.channels
        };
        if len < 3 || offset > len - 3 {
            return Err(BufferError::PixelOutsideStore { x: coord.x, y: coord.y });
        }
        Ok(offset)
    }

    /// Adds a colour to the one that a pixel holds, channel by channel, each
    /// sum stopping at 255.  Where the access is refused nothing is changed
    /// and the error is returned.
    pub fn add(&mut self, coord: IVec2, color: U8Vec3) -> (r: Result<(), BufferError>)
        ensures
            final(self).channels() == old(self).channels(),
            final(self).image().resolution == old(self).image().resolution,
            match old(self).refusal(coord) {
                Some(error) => r == Err::<(), BufferError>(error),
                None => r == Ok::<(), BufferError>(()),
            },
            final(self).bytes() == old(self).bytes_after_put(
                coord,
                saturating_sum(old(self).held(coord), color),
            ),
            old(self).regular() ==> final(self).image() == old(self).image().after_add(
                coord,
                color,
                |a: U8Vec3, b: U8Vec3| saturating_sum(a, b),
            ),
    {
        match self.get(coord) {
            Err(e) => Err(e),
            Ok(held) => {
                let sum = U8Vec3 {
                    x: held.x.saturating_add(color.x),
                    y: held.y.saturating_add(color.y),
                    z: held.z.saturating_add(color.z),
                };
                self.put(coord, sum)
            },
        }
    }
}

/// Writing the three bytes of one pixel changes that pixel of the image and
/// no other, where a pixel has three channels or more.
proof fn lemma_write_is_put(
    bytes: Seq<u8>,
    resolution: IVec2,
    channels: int,
    coord: IVec2,
    color: U8Vec3,
)
    requires
        resolution.x > 0,
        resolution.y > 0,
        channels >= 3,
        resolution.x * resolution.y * channels <= bytes.len(),
        in_bounds(coord, resolution),
    ensures
        image_of(
            with_color_at(
                bytes,
                row_major_index(resolution, coord.x as int, coord.y as int) * channels,
                color,
            ),
            resolution,
            channels,
        ) == image_of(bytes, resolution, channels).after_put(coord, color),
{
    let at = row_major_index(resolution, coord.x as int, coord.y as int);
    let count = resolution.x * resolution.y;
    lemma_index_in_range(resolution, coord.x as int, coord.y as int);
    let written = with_color_at(bytes, at * channels, color);
    let left = image_of(written, resolution, channels).pixels;
    let right = image_of(bytes, resolution, channels).after_put(coord, color).pixels;
    assert forall|i: int| 0 <= i < count implies left[i] == right[i] by {
        assert(i * channels + channels <= count * channels && 0 <= i * channels)
            by (nonlinear_arith)
            requires
                0 <= i < count,
                channels >= 0,
        ;
        assert(at * channels + channels <= count * channels && 0 <= at * channels)
            by (nonlinear_arith)
            requires
                0 <= at < count,
                channels >= 0,
        ;
        if i < at {
            assert(i * channels + channels <= at * channels) by (nonlinear_arith)
                requires
                    i + 1 <= at,
                    channels >= 0,
            ;
        } else if at < i {
            assert(at * channels + channels <= i * channels) by (nonlinear_arith)
                requires
                    at + 1 <= i,
                    channels >= 0,
            ;
        }
    }
    assert(left =~= right);
}

impl<'a> ImageBuffer for U8ImageBuffer<'a> {
    type Pixel = U8Vec3;

    closed spec fn image(&self) -> Image<U8Vec3> {
        image_of(self.buffer@, self.resolution, self.channels as int)
    }

    /// The pixels have storage of their own where there are three channels
    /// or more.
    open spec fn regular(&self) -> bool {
        self.channels() >= 3
    }

    fn put(&mut self, coord: IVec2, color: U8Vec3) -> (r: Result<(), BufferError>)
        ensures
            final(self).channels() == old(self).channels(),
            match old(self).refusal(coord) {
                Some(error) => r == Err::<(), BufferError>(error),
                None => r == Ok::<(), BufferError>(()),
            },
            final(self).bytes() == old(self).bytes_after_put(coord, color),
    {
        proof {
            use_type_invariant(&*self);
            if in_bounds(coord, self.resolution) {
                self.lemma_pixel_in_store(coord.x as int, coord.y as int);
            }
        }
        let index = match self.calc_index(&coord) {
            Ok(index) => index,
            Err(e) => {
                return Err(e);
            },
        };
        proof {
            if self.channels >= 3 {
                lemma_write_is_put(self.buffer@, self.resolution, self.channels as int, coord, color);
            }
        }
        self.buffer[index] = color.x;
        self.buffer[index + 1] = color.y;
        self.buffer[index + 2] = color.z;
        Ok(())
    }

    fn get(&self, coord: IVec2) -> (r: Result<U8Vec3, BufferError>)
        ensures
            match self.refusal(coord) {
                Some(error) => r == Err::<U8Vec3, BufferError>(error),
                None => r == Ok::<U8Vec3, BufferError>(self.held(coord)),
            },
    {
        proof {
            use_type_invariant(self);
            if in_bounds(coord, self.resolution) {
                self.lemma_pixel_in_store(coord.x as int, coord.y as int);
                lemma_index_in_range(self.resolution, coord.x as int, coord.y as int);
            }
        }
        let index = match self.calc_index(&coord) {
            Ok(index) => index,
            Err(e) => {
                return Err(e);
            },
        };
        Ok(U8Vec3 { x: self.buffer[index], y: self.buffer[index + 1], z: self.buffer[index + 2] })
    }

    fn get_resolution(&self) -> (r: IVec2) {
        proof {
            use_type_invariant(self);
        }
        self.resolution
    }
}

} // verus!
