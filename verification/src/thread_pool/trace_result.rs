//! A worker's partial result.

use vstd::prelude::*;
use crate::image::buffer_error::BufferError;
use crate::image::default_image_buffer::DefaultImageBuffer;
use crate::image::image_buffer::{
    bounds_error, copy_to_with, covers, first_missing, transformed, ImageBuffer,
};
use crate::misc::vector::{IVec2, Vec3};

verus! {

/// A snapshot of an accumulation buffer together with the number of passes
/// that were summed into it.
pub struct TraceResult {
    image: DefaultImageBuffer,
    samples: u64,
}

impl TraceResult {
    /// The accumulated colours.
    pub closed spec fn buffer(&self) -> DefaultImageBuffer {
        self.image
    }

    /// The number of passes behind the colours.
    pub closed spec fn samples(&self) -> u64 {
        self.samples
    }

    pub fn new(image: DefaultImageBuffer, samples: u64) -> (r: Self)
        ensures
            r.buffer() == image,
            r.samples() == samples,
    {
        TraceResult { image, samples }
    }

    pub fn get_image(&self) -> (image: &DefaultImageBuffer)
        ensures
            *image == self.buffer(),
    {
        &self.image
    }

    pub fn get_samples(&self) -> (samples: u64)
        ensures
            samples == self.samples(),
    {
        self.samples
    }

    /// Merges the result into a running estimate: every colour is combined
    /// by `sum` with the colour that the estimate holds at the same
    /// coordinate, and the passes are added to the estimate's count.
    ///
    /// The walk covers this result's resolution.  If the estimate's buffer is
    /// narrower or lower, the merge stops with the bounds error of the first
    /// coordinate that it lacks, and the count is left as it was.  The count
    /// never goes down.
    pub fn merge_into<F>(&self, image: &mut DefaultImageBuffer, samples: &mut u64, sum: F) -> (r:
        Result<(), BufferError>) where F: Fn(&Vec3, &Vec3, &IVec2) -> Vec3
        requires
            *old(samples) + self.samples() <= u64::MAX,
            forall|color: Vec3, held: Vec3, coord: IVec2| call_requires(sum, (&color, &held, &coord)),
        ensures
            covers(old(image).image().resolution, self.buffer().image().resolution) ==> r == Ok::<
                (),
                BufferError,
            >(()) && *final(samples) == *old(samples) + self.samples(),
            !covers(old(image).image().resolution, self.buffer().image().resolution) ==> r == Err::<
                (),
                BufferError,
            >(
                bounds_error(
                    first_missing(self.buffer().image().resolution, old(image).image().resolution),
                    old(image).image().resolution,
                ),
            ) && *final(samples) == *old(samples),
            transformed(self.buffer().image(), old(image).image(), final(image).image(), sum),
            *final(samples) >= *old(samples),
    {
        match copy_to_with(&self.image, image, sum) {
            Ok(()) => {
                *samples = *samples + self.samples;
                Ok(())
            },
            Err(e) => Err(e),
        }
    }
}

} // verus!
