//! The integrator's bookkeeping: how long one light path may run, and how a
//! pass over all pixels is accumulated and counted.

use vstd::prelude::*;
use crate::image::buffer_error::BufferError;
use crate::image::default_image_buffer::DefaultImageBuffer;
use crate::image::image_buffer::{in_bounds, lemma_put_changes_one_pixel, Image, ImageBuffer};
use crate::misc::vector::{IVec2, Vec3};
use crate::thread_pool::trace_result::TraceResult;

verus! {

/// The largest number of rays that one path may cast.
pub const DEPTH: u32 = 20;

/// The pattern of `0.0001`: the smallest distance at which a hit counts, so
/// that a scattered ray does not hit the surface it leaves.
pub const T_MIN_BITS: u32 = 0x38d1_b717;

/// The pattern of positive infinity: the largest distance at which a hit
/// counts.
pub const T_MAX_BITS: u32 = 0x7f80_0000;

/// What became of one ray that was cast into the scene.
#[derive(Clone, Copy, Debug, PartialEq, Eq, Structural)]
pub enum Bounce {
    /// The ray left the scene without hitting anything.
    Missed,
    /// The ray hit a surface that carries no material.
    HitBareSurface,
    /// The ray hit a surface whose material gave no outgoing ray.
    Absorbed,
    /// The ray hit a surface whose material sent it on.
    Scattered,
}

/// The colour by which a path's running product is to be multiplied.
#[derive(Clone, Copy, Debug, PartialEq, Eq, Structural)]
pub enum Tint {
    /// The attenuation that the material reported.
    Attenuation,
    /// The background colour.
    Background,
    /// Black: the path is cut off and contributes nothing.
    Nothing,
}

/// The progress of one light path.
#[derive(Clone, Copy, Debug, PartialEq, Eq, Structural)]
pub struct Path {
    /// The rays cast so far.
    pub cast: u32,
    /// Whether the path has ended at a light, an absorber or the background.
    pub absorbed: bool,
}

impl Path {
    /// Whether the path may cast another ray: it has not ended and has not
    /// used up its depth.
    pub open spec fn open(self) -> bool {
        !self.absorbed && self.cast < DEPTH
    }

    /// The state after a ray with the given outcome.
    pub open spec fn after(self, bounce: Bounce) -> Path {
        Path { cast: (self.cast + 1) as u32, absorbed: bounce != Bounce::Scattered }
    }

    /// The colour that a ray with the given outcome multiplies into the path.
    pub open spec fn tint_of(bounce: Bounce) -> Tint {
        match bounce {
            Bounce::Missed | Bounce::HitBareSurface => Tint::Background,
            Bounce::Absorbed | Bounce::Scattered => Tint::Attenuation,
        }
    }

    /// A path that has cast no ray yet.
    pub fn new() -> (path: Path)
        ensures
            path == (Path { cast: 0, absorbed: false }),
            path.open(),
    {
        Path { cast: 0, absorbed: false }
    }

    /// Whether another ray is to be cast.
    pub fn is_open(&self) -> (r: bool)
        ensures
            r == self.open(),
    {
        !self.absorbed && self.cast < DEPTH
    }

    /// Takes note of what became of the ray just cast and says which colour
    /// it multiplies into the path.  The path goes on only after a scattering.
    pub fn record(&mut self, bounce: Bounce) -> (tint: Tint)
        requires
            old(self).open(),
        ensures
            *final(self) == old(self).after(bounce),
            tint == Path::tint_of(bounce),
            final(self).cast <= DEPTH,
    {
        self.cast = self.cast + 1;
        match bounce {
            Bounce::Missed | Bounce::HitBareSurface => {
                self.absorbed = true;
                Tint::Background
            },
            Bounce::Absorbed => {
                self.absorbed = true;
                Tint::Attenuation
            },
            Bounce::Scattered => Tint::Attenuation,
        }
    }

    /// Once no further ray is to be cast: the last factor of the path.  A path
    /// that used up its depth without ending is multiplied by black.
    pub fn close(&self) -> (tint: Option<Tint>)
        requires
            !self.open(),
        ensures
            tint == if self.absorbed {
                None::<Tint>
            } else {
                Some(Tint::Nothing)
            },
    {
        if self.absorbed {
            None
        } else {
            Some(Tint::Nothing)
        }
    }
}

/// What became of one ray: the outcome, the attenuation that the material
/// reported, and the ray that goes on.  The attenuation counts after a hit on
/// a material only, the ray after a scattering only.
pub struct Cast<R, C> {
    pub bounce: Bounce,
    pub attenuation: C,
    pub scattered: Option<R>,
}

impl<R, C> Cast<R, C> {
    /// The ray that the path follows after this one.
    pub open spec fn onward(self, ray: R) -> R {
        match self.scattered {
            Some(next) => next,
            None => ray,
        }
    }

    /// The colour that is multiplied into the path.
    pub open spec fn factor(self, background: C) -> C {
        match Path::tint_of(self.bounce) {
            Tint::Background => background,
            _ => self.attenuation,
        }
    }
}

/// Whether `result` is a colour that a path can end in, when it stands at
/// `path` with the ray `ray` and the running product `color`.
///
/// A path that may cast another ray casts it, multiplies the product by the
/// attenuation of what it hit, or by the background where it hit nothing or a
/// surface without material, and goes on after a scattering only.  A path that
/// has ended keeps its product.  A path that has used up its depth without
/// ending has its product multiplied by `nothing`.
pub open spec fn path_ends_in<R, C, B: Fn(&R) -> Cast<R, C>, M: Fn(&C, &C) -> C>(
    cast_ray: B,
    multiply: M,
    background: C,
    nothing: C,
    ray: R,
    color: C,
    path: Path,
    result: C,
) -> bool
    decreases DEPTH - path.cast,
{
    if path.absorbed {
        result == color
    } else if path.cast >= DEPTH {
        call_ensures(multiply, (&color, &nothing), result)
    } else {
        exists|cast: Cast<R, C>, tinted: C|
            {
                &&& #[trigger] call_ensures(cast_ray, (&ray,), cast)
                &&& #[trigger] call_ensures(multiply, (&color, &cast.factor(background)), tinted)
                &&& path_ends_in(
                    cast_ray,
                    multiply,
                    background,
                    nothing,
                    cast.onward(ray),
                    tinted,
                    path.after(cast.bounce),
                    result,
                )
            }
    }
}

/// Follows one light path from its first ray to its colour.
///
/// `cast_ray` casts a ray into the scene and says what became of it;
/// `multiply` multiplies two colours.  The path starts with the product
/// `start`, casts at most [`DEPTH`] rays, and ends as [`path_ends_in`] says.
pub fn trace_path<R, C, B, M>(
    ray: R,
    start: C,
    background: &C,
    nothing: &C,
    cast_ray: B,
    multiply: M,
) -> (result: C) where B: Fn(&R) -> Cast<R, C>, M: Fn(&C, &C) -> C
    requires
        forall|ray: R| call_requires(cast_ray, (&ray,)),
        forall|a: C, b: C| call_requires(multiply, (&a, &b)),
    ensures
        path_ends_in(
            cast_ray,
            multiply,
            *background,
            *nothing,
            ray,
            start,
            Path { cast: 0, absorbed: false },
            result,
        ),
{
    let ghost first_ray = ray;
    let ghost first_color = start;
    let mut path = Path::new();
    let mut ray = ray;
    let mut color = start;
    while path.is_open()
        invariant
            path.cast <= DEPTH,
            forall|ray: R| call_requires(cast_ray, (&ray,)),
            forall|a: C, b: C| call_requires(multiply, (&a, &b)),
            forall|result: C| #[trigger]
                path_ends_in(cast_ray, multiply, *background, *nothing, ray, color, path, result)
                    ==> path_ends_in(
                    cast_ray,
                    multiply,
                    *background,
                    *nothing,
                    first_ray,
                    first_color,
                    Path { cast: 0, absorbed: false },
                    result,
                ),
        decreases DEPTH - path.cast,
    {
        let ghost ray_before = ray;
        let ghost color_before = color;
        let ghost path_before = path;
        let cast = cast_ray(&ray);
        let ghost cast_seen = cast;
        let Cast { bounce, attenuation, scattered } = cast;
        let tinted = match path.record(bounce) {
            Tint::Background => multiply(&color, background),
            _ => multiply(&color, &attenuation),
        };
        if let Some(next) = scattered {
            ray = next;
        }
        color = tinted;
        proof {
            assert(ray == cast_seen.onward(ray_before));
            assert forall|result: C| #[trigger]
                path_ends_in(
                    cast_ray,
                    multiply,
                    *background,
                    *nothing,
                    ray,
                    color,
                    path,
                    result,
                ) implies path_ends_in(
                cast_ray,
                multiply,
                *background,
                *nothing,
                ray_before,
                color_before,
                path_before,
                result,
            ) by {
                assert(call_ensures(cast_ray, (&ray_before,), cast_seen));
                assert(call_ensures(
                    multiply,
                    (&color_before, &cast_seen.factor(*background)),
                    tinted,
                ));
            }
        }
    }
    let ghost last_color = color;
    let result = match path.close() {
        Some(_) => multiply(&color, nothing),
        None => color,
    };
    assert(path_ends_in(
        cast_ray,
        multiply,
        *background,
        *nothing,
        ray,
        last_color,
        path,
        result,
    ));
    result
}

/// Whether `after` is what a pixel at `coord` that held `held` holds after a
/// pass: `radiance` gave the colour of a path through the pixel, and `after`
/// is the `sum` of `held` and that colour.
pub open spec fn accumulated<S, F: Fn(&S, &IVec2) -> Vec3, G: Fn(&Vec3, &Vec3) -> Vec3>(
    radiance: F,
    sum: G,
    scene: S,
    coord: IVec2,
    held: Vec3,
    after: Vec3,
) -> bool {
    exists|path: Vec3|
        {
            &&& #[trigger] call_ensures(radiance, (&scene, &coord), path)
            &&& call_ensures(sum, (&held, &path), after)
        }
}

/// An accumulation buffer, the number of passes summed into it, and the scene
/// that the passes look at.
pub struct Tracer<S> {
    buffer: DefaultImageBuffer,
    total_samples: u64,
    scene: S,
}

impl<S> Tracer<S> {
    /// The accumulated colours.
    pub closed spec fn buffer(&self) -> DefaultImageBuffer {
        self.buffer
    }

    /// The image that has been accumulated.
    pub open spec fn image(&self) -> Image<Vec3> {
        self.buffer().image()
    }

    /// The number of passes so far.
    pub closed spec fn total_samples(&self) -> u64 {
        self.total_samples
    }

    /// The scene.
    pub closed spec fn scene(&self) -> S {
        self.scene
    }

    /// A tracer with a black buffer of the given resolution and no pass yet.
    /// It fails as the buffer's constructor does.
    pub fn new(resolution: IVec2, scene: S) -> (r: Result<Self, BufferError>)
        ensures
            resolution.x <= 0 || resolution.y <= 0 ==> r == Err::<Self, BufferError>(
                BufferError::NonPositiveResolution { x: resolution.x, y: resolution.y },
            ),
            resolution.x > 0 && resolution.y > 0 && resolution.x * resolution.y > usize::MAX ==> r
                == Err::<Self, BufferError>(
                BufferError::ResolutionTooLarge { x: resolution.x, y: resolution.y },
            ),
            resolution.x > 0 && resolution.y > 0 && resolution.x * resolution.y <= usize::MAX ==> {
                &&& r is Ok
                &&& r->Ok_0.scene() == scene
                &&& r->Ok_0.total_samples() == 0
                &&& r->Ok_0.image().resolution == resolution
                &&& r->Ok_0.buffer().is_black()
            },
    {
        match DefaultImageBuffer::new(resolution) {
            Ok(buffer) => Ok(Tracer { buffer, total_samples: 0, scene }),
            Err(e) => Err(e),
        }
    }

    pub fn get_buffer(&self) -> (buffer: &DefaultImageBuffer)
        ensures
            *buffer == self.buffer(),
    {
        &self.buffer
    }

    pub fn get_total_samples(&self) -> (samples: u64)
        ensures
            samples == self.total_samples(),
    {
        self.total_samples
    }

    pub fn get_scene(&self) -> (scene: &S)
        ensures
            *scene == self.scene(),
    {
        &self.scene
    }

    /// One pass: for every pixel, row by row, `radiance` gives the colour of
    /// one light path through the pixel, and `sum` of the colour accumulated
    /// there so far and that colour is put in its place; then the pass is
    /// counted.
    pub fn trace<F, G>(&mut self, radiance: F, sum: G) where
        F: Fn(&S, &IVec2) -> Vec3,
        G: Fn(&Vec3, &Vec3) -> Vec3,

        requires
            old(self).total_samples() < u64::MAX,
            forall|coord: IVec2|
                in_bounds(coord, old(self).image().resolution) ==> call_requires(
                    radiance,
                    (&old(self).scene(), &coord),
                ),
            forall|held: Vec3, added: Vec3| call_requires(sum, (&held, &added)),
        ensures
            final(self).scene() == old(self).scene(),
            final(self).total_samples() == old(self).total_samples() + 1,
            final(self).image().resolution == old(self).image().resolution,
            final(self).image().wf(),
            forall|x: int, y: int|
                0 <= x < old(self).image().resolution.x && 0 <= y < old(self).image().resolution.y
                    ==> accumulated(
                    radiance,
                    sum,
                    old(self).scene(),
                    IVec2 { x: x as i32, y: y as i32 },
                    old(self).image().pixel(x, y),
                    #[trigger] final(self).image().pixel(x, y),
                ),
    {
        let resolution = self.buffer.get_resolution();
        let mut y: i32 = 0;
        while y < resolution.y
            invariant
                0 <= y <= resolution.y,
                resolution.x > 0,
                resolution == old(self).image().resolution,
                self.buffer.image().resolution == resolution,
                self.buffer.image().wf(),
                self.scene == old(self).scene,
                self.total_samples == old(self).total_samples,
                forall|coord: IVec2|
                    in_bounds(coord, old(self).image().resolution) ==> call_requires(
                        radiance,
                        (&old(self).scene(), &coord),
                    ),
                forall|held: Vec3, added: Vec3| call_requires(sum, (&held, &added)),
                forall|i: int, j: int|
                    0 <= i < resolution.x && 0 <= j < resolution.y ==> if j < y {
                        accumulated(
                            radiance,
                            sum,
                            old(self).scene(),
                            IVec2 { x: i as i32, y: j as i32 },
                            old(self).image().pixel(i, j),
                            #[trigger] self.buffer.image().pixel(i, j),
                        )
                    } else {
                        self.buffer.image().pixel(i, j) == old(self).image().pixel(i, j)
                    },
            decreases resolution.y - y,
        {
            let mut x: i32 = 0;
            while x < resolution.x
                invariant
                    0 <= x <= resolution.x,
                    0 <= y < resolution.y,
                    resolution == old(self).image().resolution,
                    self.buffer.image().resolution == resolution,
                    self.buffer.image().wf(),
                    self.scene == old(self).scene,
                    self.total_samples == old(self).total_samples,
                    forall|coord: IVec2|
                        in_bounds(coord, old(self).image().resolution) ==> call_requires(
                            radiance,
                            (&old(self).scene(), &coord),
                        ),
                    forall|held: Vec3, added: Vec3| call_requires(sum, (&held, &added)),
                    forall|i: int, j: int|
                        0 <= i < resolution.x && 0 <= j < resolution.y ==> if j < y || (j == y && i
                            < x) {
                            accumulated(
                                radiance,
                                sum,
                                old(self).scene(),
                                IVec2 { x: i as i32, y: j as i32 },
                                old(self).image().pixel(i, j),
                                #[trigger] self.buffer.image().pixel(i, j),
                            )
                        } else {
                            self.buffer.image().pixel(i, j) == old(self).image().pixel(i, j)
                        },
                decreases resolution.x - x,
            {
                let coord = IVec2::new(x, y);
                assert(in_bounds(coord, old(self).image().resolution));
                match self.buffer.get(coord) {
                    Ok(held) => {
                        let path = radiance(&self.scene, &coord);
                        let color = sum(&held, &path);
                        proof {
                            lemma_put_changes_one_pixel(self.buffer.image(), coord, color);
                            assert(call_ensures(radiance, (&old(self).scene(), &coord), path));
                            assert(accumulated(
                                radiance,
                                sum,
                                old(self).scene(),
                                coord,
                                held,
                                color,
                            ));
                        }
                        let _ = self.buffer.put(coord, color);
                    },
                    Err(_) => {},
                }
                x = x + 1;
            }
            y = y + 1;
        }
        self.total_samples = self.total_samples + 1;
    }

    /// Hands out what has been accumulated and starts afresh: the buffer is
    /// exchanged for a black one of the same resolution and the pass count
    /// goes back to zero.
    pub fn construct_trace_result(&mut self) -> (result: TraceResult)
        ensures
            result.buffer() == old(self).buffer(),
            result.samples() == old(self).total_samples(),
            final(self).scene() == old(self).scene(),
            final(self).total_samples() == 0,
            final(self).image().resolution == old(self).image().resolution,
            final(self).buffer().is_black(),
    {
        let resolution = self.buffer.get_resolution();
        let samples = self.total_samples;
        match DefaultImageBuffer::new(resolution) {
            Ok(fresh) => {
                let mut image = fresh;
                core::mem::swap(&mut self.buffer, &mut image);
                self.total_samples = 0;
                TraceResult::new(image, samples)
            },
            Err(_) => vstd::pervasive::unreached(),
        }
    }
}

} // verus!
