//! The accumulation buffer: one colour of three numbers per pixel, owned.

use vstd::prelude::*;
use crate::image::buffer_error::BufferError;
use crate::image::image_buffer::{calc_index, check_if_out_of_bounds, in_bounds, Image, ImageBuffer};
use crate::misc::vector::{IVec2, Vec3};

verus! {

/// A dense row-major array of colours.  The colours are running sums and are
/// not confined to any range.
pub struct DefaultImageBuffer {
    buffer: Vec<Vec3>,
    resolution: IVec2,
}

impl View for DefaultImageBuffer {
    type V = Seq<Vec3>;

    /// The colours in row-major order.
    open spec fn view(&self) -> Seq<Vec3> {
        self.image().pixels
    }
}

impl DefaultImageBuffer {
    #[verifier::type_invariant]
    spec fn well_formed(&self) -> bool {
        &&& self.resolution.x > 0
        &&& self.resolution.y > 0
        &&& self.buffer@.len() == self.resolution.x * self.resolution.y
    }

    /// Whether every colour is black.
    pub open spec fn is_black(&self) -> bool {
        forall|i: int|
            0 <= i < self.image().pixels.len() ==> #[trigger] self.image().pixels[i] == Vec3::origin()
    }

    /// A buffer of the given resolution with every colour zero.
    pub fn new(resolution: IVec2) -> (r: Result<Self, BufferError>)
        ensures
            resolution.x <= 0 || resolution.y <= 0 ==> r == Err::<Self, BufferError>(
                BufferError::NonPositiveResolution { x: resolution.x, y: resolution.y },
            ),
            resolution.x > 0 && resolution.y > 0 && resolution.x * resolution.y > usize::MAX ==> r
                == Err::<Self, BufferError>(
                BufferError::ResolutionTooLarge { x: resolution.x, y: resolution.y },
            ),
            resolution.x > 0 && resolution.y > 0 && resolution.x * resolution.y <= usize::MAX ==> {
                &&& r is Ok
                &&& r->Ok_0.image().resolution == resolution
                &&& r->Ok_0.image().wf()
                &&& r->Ok_0.is_black()
            },
    {
        if resolution.x <= 0 || resolution.y <= 0 {
            return Err(BufferError::NonPositiveResolution { x: resolution.x, y: resolution.y });
        }
        let width: u64 = resolution.x as u64;
        let height: u64 = resolution.y as u64;
        assert(width * height <= 0x7fff_ffff * 0x7fff_ffff) by (nonlinear_arith)
            requires
                0 < width <= 0x7fff_ffff,
                0 < height <= 0x7fff_ffff,
        ;
        let count: u64 = width * height;
        if count > usize::MAX as u64 {
            return Err(BufferError::ResolutionTooLarge { x: resolution.x, y: resolution.y });
        }
        let buffer: Vec<Vec3> = vec![Vec3::zeros(); count as usize];
        Ok(DefaultImageBuffer { buffer, resolution })
    }

    fn calc_index(&self, coord: &IVec2) -> (index: usize)
        requires
            in_bounds(*coord, self.image().resolution),
        ensures
            index == crate::image::image_buffer::row_major_index(
                self.image().resolution,
                coord.x as int,
                coord.y as int,
            ),
            index < self@.len(),
    {
        proof {
            use_type_invariant(self);
        }
        let len: usize = self.buffer.len();
        calc_index(coord, &self.resolution)
    }

    /// All colours in row-major order.
    pub fn get_buffer(&self) -> (colors: &[Vec3])
        ensures
            colors@ == self@,
    {
        self.buffer.as_slice()
    }
}

impl ImageBuffer for DefaultImageBuffer {
    type Pixel = Vec3;

    closed spec fn image(&self) -> Image<Vec3> {
        Image { resolution: self.resolution, pixels: self.buffer@ }
    }

    fn put(&mut self, coord: IVec2, color: Vec3) -> (r: Result<(), BufferError>)
        ensures
            !in_bounds(coord, old(self).image().resolution) ==> *final(self) == *old(self),
    {
        if let Err(e) = check_if_out_of_bounds(&coord, &self.resolution) {
            return Err(e);
        }
        let index = self.calc_index(&coord);
        proof {
            use_type_invariant(&*self);
        }
        self.buffer[index] = color;
        Ok(())
    }

    fn get(&self, coord: IVec2) -> (r: Result<Vec3, BufferError>) {
        if let Err(e) = check_if_out_of_bounds(&coord, &self.resolution) {
            return Err(e);
        }
        let index = self.calc_index(&coord);
        Ok(self.buffer[index])
    }

    fn get_resolution(&self) -> (r: IVec2)
        ensures
            r.x * r.y <= usize::MAX,
    {
        proof {
            use_type_invariant(self);
        }
        let len: usize = self.buffer.len();
        self.resolution
    }
}

} // verus!
