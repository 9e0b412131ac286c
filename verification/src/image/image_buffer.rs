//! The interface that every image buffer offers, and the bulk copies that are
//! written against it.

use vstd::prelude::*;
use crate::image::buffer_error::BufferError;
use crate::misc::vector::IVec2;

verus! {

/// Whether a coordinate addresses a pixel of a buffer with the given
/// resolution.
pub open spec fn in_bounds(coord: IVec2, resolution: IVec2) -> bool {
    0 <= coord.x < resolution.x && 0 <= coord.y < resolution.y
}

/// The error that an access outside the resolution is answered with.  A
/// negative component is reported before one that is too large.
pub open spec fn bounds_error(coord: IVec2, resolution: IVec2) -> BufferError {
    if coord.x < 0 || coord.y < 0 {
        BufferError::NegativeCoordinate { x: coord.x, y: coord.y }
    } else {
        BufferError::BeyondResolution {
            x: coord.x,
            y: coord.y,
            width: resolution.x,
            height: resolution.y,
        }
    }
}

/// Tests a coordinate against a resolution.
pub fn check_if_out_of_bounds(coord: &IVec2, resolution: &IVec2) -> (r: Result<(), BufferError>)
    ensures
        in_bounds(*coord, *resolution) ==> r == Ok::<(), BufferError>(()),
        !in_bounds(*coord, *resolution) ==> r == Err::<(), BufferError>(
            bounds_error(*coord, *resolution),
        ),
{
    if coord.x < 0 || coord.y < 0 {
        return Err(BufferError::NegativeCoordinate { x: coord.x, y: coord.y });
    }
    if coord.x >= resolution.x || coord.y >= resolution.y {
        return Err(
            BufferError::BeyondResolution {
                x: coord.x,
                y: coord.y,
                width: resolution.x,
                height: resolution.y,
            },
        );
    }
    Ok(())
}

/// The place of a coordinate in a row-major array of the given resolution.
pub open spec fn row_major_index(resolution: IVec2, x: int, y: int) -> int {
    y * resolution.x + x
}

/// Inside the resolution the row-major index stays below the pixel count.
pub proof fn lemma_index_in_range(resolution: IVec2, x: int, y: int)
    requires
        0 <= x < resolution.x,
        0 <= y < resolution.y,
    ensures
        0 <= row_major_index(resolution, x, y) < resolution.x * resolution.y,
{
    assert(y * resolution.x + x < resolution.x * resolution.y) by (nonlinear_arith)
        requires
            0 <= x < resolution.x,
            0 <= y < resolution.y,
    ;
    assert(0 <= y * resolution.x) by (nonlinear_arith)
        requires
            0 <= y,
            0 < resolution.x,
    ;
}

/// Two different coordinates inside the width have different row-major
/// indices.
pub proof fn lemma_index_injective(resolution: IVec2, x1: int, y1: int, x2: int, y2: int)
    requires
        0 <= x1 < resolution.x,
        0 <= x2 < resolution.x,
        0 <= y1,
        0 <= y2,
        x1 != x2 || y1 != y2,
    ensures
        row_major_index(resolution, x1, y1) != row_major_index(resolution, x2, y2),
{
    let w = resolution.x as int;
    if y1 < y2 {
        assert(y1 * w + w <= y2 * w) by (nonlinear_arith)
            requires
                y1 + 1 <= y2,
                w > 0,
        ;
    } else if y2 < y1 {
        assert(y2 * w + w <= y1 * w) by (nonlinear_arith)
            requires
                y2 + 1 <= y1,
                w > 0,
        ;
    }
}

/// Computes the row-major index of a coordinate inside the resolution.
pub(crate) fn calc_index(coord: &IVec2, resolution: &IVec2) -> (index: usize)
    requires
        in_bounds(*coord, *resolution),
        resolution.x * resolution.y <= usize::MAX,
    ensures
        index == row_major_index(*resolution, coord.x as int, coord.y as int),
        index < resolution.x * resolution.y,
{
    proof {
        lemma_index_in_range(*resolution, coord.x as int, coord.y as int);
    }
    let row: usize = coord.y as usize;
    let width: usize = resolution.x as usize;
    assert(row * width <= row_major_index(*resolution, coord.x as int, coord.y as int)) by {
        assert(row * width == coord.y * resolution.x) by (nonlinear_arith)
            requires
                row == coord.y,
                width == resolution.x,
        ;
    }
    row * width + coord.x as usize
}

/// An image: a resolution and, row by row, the colour of every pixel.
pub struct Image<P> {
    pub resolution: IVec2,
    pub pixels: Seq<P>,
}

impl<P> Image<P> {
    /// Whether width and height are positive and there is one colour for
    /// every coordinate.
    pub open spec fn wf(self) -> bool {
        &&& self.resolution.x > 0
        &&& self.resolution.y > 0
        &&& self.pixels.len() == self.resolution.x * self.resolution.y
    }

    /// The colour at a coordinate inside the resolution.
    pub open spec fn pixel(self, x: int, y: int) -> P {
        self.pixels[row_major_index(self.resolution, x, y)]
    }

    /// The image after a colour is put at a coordinate: inside the resolution
    /// that pixel is replaced, outside the image stays as it is.
    pub open spec fn after_put(self, coord: IVec2, color: P) -> Image<P> {
        if in_bounds(coord, self.resolution) {
            Image {
                resolution: self.resolution,
                pixels: self.pixels.update(
                    row_major_index(self.resolution, coord.x as int, coord.y as int),
                    color,
                ),
            }
        } else {
            self
        }
    }

    /// What putting a colour at a coordinate returns.
    pub open spec fn put_result(self, coord: IVec2) -> Result<(), BufferError> {
        if in_bounds(coord, self.resolution) {
            Ok(())
        } else {
            Err(bounds_error(coord, self.resolution))
        }
    }

    /// What getting the colour at a coordinate returns.
    pub open spec fn get_result(self, coord: IVec2) -> Result<P, BufferError> {
        if in_bounds(coord, self.resolution) {
            Ok(self.pixel(coord.x as int, coord.y as int))
        } else {
            Err(bounds_error(coord, self.resolution))
        }
    }
}

impl<P> Image<P> {
    /// The image after a colour is added to the one at a coordinate, where
    /// `sum` says what the sum of two colours is.  Outside the resolution the
    /// image stays as it is.
    pub open spec fn after_add(self, coord: IVec2, color: P, sum: spec_fn(P, P) -> P) -> Image<P> {
        self.after_put(coord, sum(self.pixel(coord.x as int, coord.y as int), color))
    }
}

/// A rectangle of pixels with a fixed resolution.
pub trait ImageBuffer: Sized {
    /// What one pixel holds.
    type Pixel: Copy;

    /// The image that the buffer holds.
    spec fn image(&self) -> Image<Self::Pixel>;

    /// Whether every pixel has storage of its own, so that a pixel holds what
    /// was last put there whatever was put elsewhere.  That is so unless a
    /// buffer says otherwise.
    open spec fn regular(&self) -> bool {
        true
    }

    /// Stores a colour.  Outside the resolution nothing is stored and the
    /// bounds error is returned.  In a regular buffer a coordinate inside the
    /// resolution always takes the colour, and no other pixel changes.
    fn put(&mut self, coord: IVec2, color: Self::Pixel) -> (r: Result<(), BufferError>)
        ensures
            final(self).image().resolution == old(self).image().resolution,
            final(self).image().wf() == old(self).image().wf(),
            final(self).regular() == old(self).regular(),
            !in_bounds(coord, old(self).image().resolution) ==> {
                &&& r == Err::<(), BufferError>(bounds_error(coord, old(self).image().resolution))
                &&& final(self).image() == old(self).image()
            },
            old(self).regular() ==> {
                &&& final(self).image() == old(self).image().after_put(coord, color)
                &&& r == old(self).image().put_result(coord)
            },
    ;

    /// Reads a colour.  Outside the resolution the bounds error is returned.
    /// In a regular buffer a coordinate inside the resolution always gives its
    /// colour.
    fn get(&self, coord: IVec2) -> (r: Result<Self::Pixel, BufferError>)
        ensures
            !in_bounds(coord, self.image().resolution) ==> r == Err::<Self::Pixel, BufferError>(
                bounds_error(coord, self.image().resolution),
            ),
            self.regular() ==> r == self.image().get_result(coord),
    ;

    fn get_resolution(&self) -> (r: IVec2)
        ensures
            r == self.image().resolution,
            self.image().wf(),
    ;
}

/// A colour that was put is the colour that is got.  After a `put` inside the
/// resolution, a `get` at the same coordinate returns exactly the colour that
/// was put, and a `get` at any other coordinate returns what it returned
/// before.
pub proof fn lemma_get_returns_what_was_put<P>(
    image: Image<P>,
    coord: IVec2,
    color: P,
    elsewhere: IVec2,
)
    requires
        image.wf(),
        in_bounds(coord, image.resolution),
        elsewhere != coord,
    ensures
        image.put_result(coord) == Ok::<(), BufferError>(()),
        image.after_put(coord, color).wf(),
        image.after_put(coord, color).get_result(coord) == Ok::<P, BufferError>(color),
        image.after_put(coord, color).get_result(elsewhere) == image.get_result(elsewhere),
{
    lemma_index_in_range(image.resolution, coord.x as int, coord.y as int);
    if in_bounds(elsewhere, image.resolution) {
        lemma_index_in_range(image.resolution, elsewhere.x as int, elsewhere.y as int);
        lemma_index_injective(
            image.resolution,
            coord.x as int,
            coord.y as int,
            elsewhere.x as int,
            elsewhere.y as int,
        );
    }
}

/// Colours that are added pile up.  After a first colour and then a second
/// are added at a coordinate inside the resolution, a `get` there returns the
/// sum of what the pixel held and the first colour, plus the second.
pub proof fn lemma_sums_accumulate<P>(
    image: Image<P>,
    coord: IVec2,
    first: P,
    second: P,
    sum: spec_fn(P, P) -> P,
)
    requires
        image.wf(),
        in_bounds(coord, image.resolution),
    ensures
        image.after_add(coord, first, sum).after_add(coord, second, sum).get_result(coord) == Ok::<
            P,
            BufferError,
        >(sum(sum(image.pixel(coord.x as int, coord.y as int), first), second)),
{
    lemma_index_in_range(image.resolution, coord.x as int, coord.y as int);
}

/// Access outside the resolution is an error and changes nothing.  At a
/// coordinate with a negative component, or with a component at or beyond the
/// resolution, `put` and `get` return the bounds error, and the image after
/// the `put` is the image before it.
pub proof fn lemma_out_of_bounds_is_reported<P>(image: Image<P>, coord: IVec2, color: P)
    requires
        coord.x < 0 || coord.y < 0 || coord.x >= image.resolution.x || coord.y
            >= image.resolution.y,
    ensures
        image.put_result(coord) == Err::<(), BufferError>(bounds_error(coord, image.resolution)),
        image.get_result(coord) == Err::<P, BufferError>(bounds_error(coord, image.resolution)),
        image.after_put(coord, color) == image,
        forall|sum: spec_fn(P, P) -> P| #[trigger] image.after_add(coord, color, sum) == image,
{
}

/// Putting a colour changes the one pixel and no other.
pub proof fn lemma_put_changes_one_pixel<P>(image: Image<P>, coord: IVec2, color: P)
    requires
        image.wf(),
    ensures
        image.after_put(coord, color).wf(),
        forall|x: int, y: int|
            0 <= x < image.resolution.x && 0 <= y < image.resolution.y ==> #[trigger] image.after_put(
                coord,
                color,
            ).pixel(x, y) == if x == coord.x && y == coord.y {
                color
            } else {
                image.pixel(x, y)
            },
{
    if in_bounds(coord, image.resolution) {
        lemma_index_in_range(image.resolution, coord.x as int, coord.y as int);
        assert forall|x: int, y: int|
            0 <= x < image.resolution.x && 0 <= y < image.resolution.y implies #[trigger] image.after_put(
            coord,
            color,
        ).pixel(x, y) == if x == coord.x && y == coord.y {
            color
        } else {
            image.pixel(x, y)
        } by {
            lemma_index_in_range(image.resolution, x, y);
            if !(x == coord.x && y == coord.y) {
                lemma_index_injective(image.resolution, x, y, coord.x as int, coord.y as int);
            }
        }
    }
}

/// Whether a buffer of resolution `outer` has every coordinate of one of
/// resolution `inner`.
pub open spec fn covers(outer: IVec2, inner: IVec2) -> bool {
    outer.x >= inner.x && outer.y >= inner.y
}

/// The first coordinate, row by row over `source`, that `target` lacks.
pub open spec fn first_missing(source: IVec2, target: IVec2) -> IVec2 {
    if target.x < source.x {
        IVec2 { x: target.x, y: 0 }
    } else {
        IVec2 { x: 0, y: target.y }
    }
}

/// Whether a row-by-row walk over `source` reaches the coordinate before it
/// meets one that `target` lacks.
pub open spec fn visited(source: IVec2, target: IVec2, x: int, y: int) -> bool {
    if target.x < source.x {
        y == 0 && 0 <= x < target.x
    } else {
        0 <= x < source.x && 0 <= y < source.y && y < target.y
    }
}

/// Adds a colour to the one that a pixel holds, where `sum` adds two
/// colours: the pixel is read, the sum of what it held and `color` is put in
/// its place.  Outside the resolution nothing is changed and the bounds error
/// is returned.  Inside it, a regular buffer always takes the sum.
pub fn add_with<B, F>(buffer: &mut B, coord: IVec2, color: B::Pixel, sum: F) -> (r: Result<
    (),
    BufferError,
>) where B: ImageBuffer, F: Fn(&B::Pixel, &B::Pixel) -> B::Pixel
    requires
        forall|held: B::Pixel| call_requires(sum, (&held, &color)),
    ensures
        final(buffer).image().resolution == old(buffer).image().resolution,
        final(buffer).regular() == old(buffer).regular(),
        !in_bounds(coord, old(buffer).image().resolution) ==> {
            &&& r == Err::<(), BufferError>(bounds_error(coord, old(buffer).image().resolution))
            &&& final(buffer).image() == old(buffer).image()
        },
        old(buffer).regular() && in_bounds(coord, old(buffer).image().resolution) ==> {
            &&& r == Ok::<(), BufferError>(())
            &&& exists|added: B::Pixel|
                {
                    &&& #[trigger] call_ensures(
                        sum,
                        (&old(buffer).image().pixel(coord.x as int, coord.y as int), &color),
                        added,
                    )
                    &&& final(buffer).image() == old(buffer).image().after_put(coord, added)
                }
        },
{
    match buffer.get(coord) {
        Err(e) => Err(e),
        Ok(held) => {
            let added = sum(&held, &color);
            buffer.put(coord, added)
        },
    }
}

/// What a walk over `source` makes of a target: the image `after` has the
/// resolution of `before`; every pixel that the walk visited is what `fun`
/// makes of the colour in `source`, the colour in `before` and the coordinate;
/// every other pixel is as in `before`.
pub open spec fn transformed<A, B, F: Fn(&A, &B, &IVec2) -> B>(
    source: Image<A>,
    before: Image<B>,
    after: Image<B>,
    fun: F,
) -> bool {
    &&& after.resolution == before.resolution
    &&& after.wf()
    &&& forall|x: int, y: int|
        0 <= x < before.resolution.x && 0 <= y < before.resolution.y ==> if visited(
            source.resolution,
            before.resolution,
            x,
            y,
        ) {
            call_ensures(
                fun,
                (&source.pixel(x, y), &before.pixel(x, y), &IVec2 { x: x as i32, y: y as i32 }),
                #[trigger] after.pixel(x, y),
            )
        } else {
            after.pixel(x, y) == before.pixel(x, y)
        }
}

/// A transform that is a function of the source colour and the coordinate
/// gives the same colours every time.  If `fun` returns one value for one
/// source colour and coordinate, whatever the target held, then two walks over
/// the same source, into targets of one resolution, leave the same colour at
/// every pixel that they visit.
pub proof fn lemma_same_source_same_result<A, B, F: Fn(&A, &B, &IVec2) -> B>(
    source: Image<A>,
    first_before: Image<B>,
    first_after: Image<B>,
    second_before: Image<B>,
    second_after: Image<B>,
    fun: F,
)
    requires
        forall|color: A, held: B, held_too: B, coord: IVec2, one: B, other: B|
            call_ensures(fun, (&color, &held, &coord), one) && call_ensures(
                fun,
                (&color, &held_too, &coord),
                other,
            ) ==> one == other,
        first_before.resolution == second_before.resolution,
        transformed(source, first_before, first_after, fun),
        transformed(source, second_before, second_after, fun),
    ensures
        forall|x: int, y: int|
            visited(source.resolution, first_before.resolution, x, y) && 0 <= y
                < first_before.resolution.y ==> #[trigger] first_after.pixel(x, y)
                == second_after.pixel(x, y),
{
    assert forall|x: int, y: int|
        visited(source.resolution, first_before.resolution, x, y) && 0 <= y
            < first_before.resolution.y implies #[trigger] first_after.pixel(x, y)
        == second_after.pixel(x, y) by {
        let coord = IVec2 { x: x as i32, y: y as i32 };
        assert(call_ensures(
            fun,
            (&source.pixel(x, y), &first_before.pixel(x, y), &coord),
            first_after.pixel(x, y),
        ));
        assert(call_ensures(
            fun,
            (&source.pixel(x, y), &second_before.pixel(x, y), &coord),
            second_after.pixel(x, y),
        ));
    }
}

/// Walks over the pixels of `source` row by row and replaces the pixel of
/// `other` at the same coordinate by what `fun` makes of the colour in
/// `source`, the colour that `other` held, and the coordinate.
///
/// The walk covers the resolution of `source`.  If `other` is narrower or
/// lower it stops with the bounds error of the first coordinate that
/// `other` lacks; the pixels before that one stay replaced.
///
/// All this is stated of regular buffers.  Where pixels overlap, only the
/// resolution is sure to stay as it was.
pub fn copy_to_with<S, O, F>(source: &S, other: &mut O, fun: F) -> (r: Result<(), BufferError>) where
    S: ImageBuffer,
    O: ImageBuffer,
    F: Fn(&S::Pixel, &O::Pixel, &IVec2) -> O::Pixel,

    requires
        forall|color: S::Pixel, held: O::Pixel, coord: IVec2|
            call_requires(fun, (&color, &held, &coord)),
    ensures
        final(other).image().resolution == old(other).image().resolution,
        final(other).image().wf(),
        final(other).regular() == old(other).regular(),
        source.regular() && old(other).regular() ==> {
            &&& covers(old(other).image().resolution, source.image().resolution) ==> r == Ok::<
                (),
                BufferError,
            >(())
            &&& !covers(old(other).image().resolution, source.image().resolution) ==> r == Err::<
                (),
                BufferError,
            >(
                bounds_error(
                    first_missing(source.image().resolution, old(other).image().resolution),
                    old(other).image().resolution,
                ),
            )
            &&& transformed(source.image(), old(other).image(), final(other).image(), fun)
        },
{
    let res = source.get_resolution();
    let other_res = other.get_resolution();
    let mut y: i32 = 0;
    while y < res.y
        invariant
            0 <= y <= res.y,
            res == source.image().resolution,
            res.x > 0,
            other_res == old(other).image().resolution,
            other.image().resolution == old(other).image().resolution,
            other.image().wf(),
            other_res.x > 0 && other_res.y > 0,
            y <= other_res.y,
            y > 0 ==> other_res.x >= res.x,
            other.regular() == old(other).regular(),
            forall|color: S::Pixel, held: O::Pixel, coord: IVec2|
                call_requires(fun, (&color, &held, &coord)),
            source.regular() && old(other).regular() ==> forall|i: int, j: int|
                0 <= i < other_res.x && 0 <= j < other_res.y ==> if i < res.x && j < y {
                    call_ensures(
                        fun,
                        (
                            &source.image().pixel(i, j),
                            &old(other).image().pixel(i, j),
                            &IVec2 { x: i as i32, y: j as i32 },
                        ),
                        #[trigger] other.image().pixel(i, j),
                    )
                } else {
                    other.image().pixel(i, j) == old(other).image().pixel(i, j)
                },
        decreases res.y - y,
    {
        let mut x: i32 = 0;
        while x < res.x
            invariant
                0 <= x <= res.x,
                0 <= y < res.y,
                res == source.image().resolution,
                other_res == old(other).image().resolution,
                other.image().resolution == old(other).image().resolution,
                other.image().wf(),
                other_res.x > 0 && other_res.y > 0,
                y <= other_res.y,
                x <= other_res.x,
                x > 0 ==> y < other_res.y,
                y > 0 ==> other_res.x >= res.x,
                other.regular() == old(other).regular(),
                forall|color: S::Pixel, held: O::Pixel, coord: IVec2|
                    call_requires(fun, (&color, &held, &coord)),
                source.regular() && old(other).regular() ==> forall|i: int, j: int|
                    0 <= i < other_res.x && 0 <= j < other_res.y ==> if i < res.x && (j < y || (j
                        == y && i < x)) {
                        call_ensures(
                            fun,
                            (
                                &source.image().pixel(i, j),
                                &old(other).image().pixel(i, j),
                                &IVec2 { x: i as i32, y: j as i32 },
                            ),
                            #[trigger] other.image().pixel(i, j),
                        )
                    } else {
                        other.image().pixel(i, j) == old(other).image().pixel(i, j)
                    },
            decreases res.x - x,
        {
            let coord = IVec2::new(x, y);
            let color = match source.get(coord) {
                Ok(color) => color,
                Err(e) => {
                    return Err(e);
                },
            };
            let other_color = match other.get(coord) {
                Ok(color) => color,
                Err(e) => {
                    return Err(e);
                },
            };
            let new_color = fun(&color, &other_color, &coord);
            proof {
                lemma_put_changes_one_pixel(other.image(), coord, new_color);
            }
            match other.put(coord, new_color) {
                Ok(()) => {},
                Err(e) => {
                    return Err(e);
                },
            }
            x = x + 1;
        }
        y = y + 1;
    }
    Ok(())
}

/// Copies the pixels of `source` to the same coordinates of `other`, row by
/// row.
///
/// The walk covers the resolution of `source`.  If `other` is narrower or
/// lower it stops with the bounds error of the first coordinate that `other`
/// lacks; the pixels before that one stay copied.
///
/// All this is stated of regular buffers.  Where pixels overlap, only the
/// resolution is sure to stay as it was.
pub fn copy_to<S, O>(source: &S, other: &mut O) -> (r: Result<(), BufferError>) where
    S: ImageBuffer,
    O: ImageBuffer<Pixel = S::Pixel>,

    ensures
        final(other).image().resolution == old(other).image().resolution,
        final(other).image().wf(),
        final(other).regular() == old(other).regular(),
        source.regular() && old(other).regular() ==> {
            &&& covers(old(other).image().resolution, source.image().resolution) ==> r == Ok::<
                (),
                BufferError,
            >(())
            &&& !covers(old(other).image().resolution, source.image().resolution) ==> r == Err::<
                (),
                BufferError,
            >(
                bounds_error(
                    first_missing(source.image().resolution, old(other).image().resolution),
                    old(other).image().resolution,
                ),
            )
            &&& forall|x: int, y: int|
                0 <= x < old(other).image().resolution.x && 0 <= y < old(other).image().resolution.y
                    ==> #[trigger] final(other).image().pixel(x, y) == if visited(
                    source.image().resolution,
                    old(other).image().resolution,
                    x,
                    y,
                ) {
                    source.image().pixel(x, y)
                } else {
                    old(other).image().pixel(x, y)
                }
        },
{
    let keep = |color: &S::Pixel, held: &S::Pixel, coord: &IVec2| -> (kept: S::Pixel)
        ensures
            kept == *color,
        { *color };
    copy_to_with(source, other, keep)
}

/// Fills every pixel of `other`, row by row, from a pixel of `source` that
/// `locate` picks for it: the pixel becomes what `fun` makes of the colour
/// picked, the colour that the pixel held, and its coordinate.
///
/// If `locate` picks a coordinate outside `source`, the walk stops with the
/// bounds error of that coordinate; the pixels before it stay filled.
///
/// All this is stated of regular buffers.  Where pixels overlap, only the
/// resolution is sure to stay as it was.
pub fn scale_copy_to_with<S, O, G, F>(source: &S, other: &mut O, locate: G, fun: F) -> (r: Result<
    (),
    BufferError,
>) where
    S: ImageBuffer,
    O: ImageBuffer,
    G: Fn(&IVec2) -> IVec2,
    F: Fn(&S::Pixel, &O::Pixel, &IVec2) -> O::Pixel,

    requires
        forall|target: IVec2| call_requires(locate, (&target,)),
        forall|color: S::Pixel, held: O::Pixel, coord: IVec2|
            call_requires(fun, (&color, &held, &coord)),
    ensures
        final(other).image().resolution == old(other).image().resolution,
        final(other).image().wf(),
        final(other).regular() == old(other).regular(),
        source.regular() && old(other).regular() ==> {
            &&& (forall|target: IVec2, from: IVec2|
                in_bounds(target, old(other).image().resolution) && call_ensures(
                    locate,
                    (&target,),
                    from,
                ) ==> in_bounds(from, source.image().resolution)) ==> r is Ok
            &&& r is Ok ==> forall|x: int, y: int|
                0 <= x < old(other).image().resolution.x && 0 <= y < old(other).image().resolution.y
                    ==> resampled(
                    source,
                    locate,
                    fun,
                    IVec2 { x: x as i32, y: y as i32 },
                    old(other).image().pixel(x, y),
                    #[trigger] final(other).image().pixel(x, y),
                )
            &&& r is Err ==> exists|target: IVec2, from: IVec2|
                {
                    &&& in_bounds(target, old(other).image().resolution)
                    &&& #[trigger] call_ensures(locate, (&target,), from)
                    &&& !in_bounds(from, source.image().resolution)
                    &&& r == Err::<(), BufferError>(bounds_error(from, source.image().resolution))
                    &&& forall|x: int, y: int|
                        0 <= x < old(other).image().resolution.x && 0 <= y < old(
                            other,
                        ).image().resolution.y ==> if y < target.y || (y == target.y && x
                            < target.x) {
                            resampled(
                                source,
                                locate,
                                fun,
                                IVec2 { x: x as i32, y: y as i32 },
                                old(other).image().pixel(x, y),
                                #[trigger] final(other).image().pixel(x, y),
                            )
                        } else {
                            final(other).image().pixel(x, y) == old(other).image().pixel(x, y)
                        }
                }
        },
{
    let other_res = other.get_resolution();
    let mut y: i32 = 0;
    while y < other_res.y
        invariant
            0 <= y <= other_res.y,
            other_res.x > 0,
            other_res == old(other).image().resolution,
            other.image().resolution == old(other).image().resolution,
            other.image().wf(),
            other.regular() == old(other).regular(),
            forall|target: IVec2| call_requires(locate, (&target,)),
            forall|color: S::Pixel, held: O::Pixel, coord: IVec2|
                call_requires(fun, (&color, &held, &coord)),
            source.regular() && old(other).regular() ==> forall|i: int, j: int|
                0 <= i < other_res.x && 0 <= j < other_res.y ==> if j < y {
                    resampled(
                        source,
                        locate,
                        fun,
                        IVec2 { x: i as i32, y: j as i32 },
                        old(other).image().pixel(i, j),
                        #[trigger] other.image().pixel(i, j),
                    )
                } else {
                    other.image().pixel(i, j) == old(other).image().pixel(i, j)
                },
        decreases other_res.y - y,
    {
        let mut x: i32 = 0;
        while x < other_res.x
            invariant
                0 <= x <= other_res.x,
                0 <= y < other_res.y,
                other_res == old(other).image().resolution,
                other.image().resolution == old(other).image().resolution,
                other.image().wf(),
                other.regular() == old(other).regular(),
                forall|target: IVec2| call_requires(locate, (&target,)),
                forall|color: S::Pixel, held: O::Pixel, coord: IVec2|
                    call_requires(fun, (&color, &held, &coord)),
                source.regular() && old(other).regular() ==> forall|i: int, j: int|
                    0 <= i < other_res.x && 0 <= j < other_res.y ==> if j < y || (j == y && i < x) {
                        resampled(
                            source,
                            locate,
                            fun,
                            IVec2 { x: i as i32, y: j as i32 },
                            old(other).image().pixel(i, j),
                            #[trigger] other.image().pixel(i, j),
                        )
                    } else {
                        other.image().pixel(i, j) == old(other).image().pixel(i, j)
                    },
            decreases other_res.x - x,
        {
            let other_coord = IVec2::new(x, y);
            assert(in_bounds(other_coord, old(other).image().resolution));
            let self_coord = locate(&other_coord);
            let color = match source.get(self_coord) {
                Ok(color) => color,
                Err(e) => {
                    assert(call_ensures(locate, (&other_coord,), self_coord));
                    return Err(e);
                },
            };
            let other_color = match other.get(other_coord) {
                Ok(color) => color,
                Err(e) => {
                    return Err(e);
                },
            };
            let new_color = fun(&color, &other_color, &other_coord);
            proof {
                lemma_put_changes_one_pixel(other.image(), other_coord, new_color);
            }
            match other.put(other_coord, new_color) {
                Ok(()) => {},
                Err(e) => {
                    return Err(e);
                },
            }
            proof {
                if source.regular() && old(other).regular() {
                    assert(resampled(source, locate, fun, other_coord, other_color, new_color)) by {
                        assert(in_bounds(self_coord, source.image().resolution));
                        assert(call_ensures(locate, (&other_coord,), self_coord));
                    }
                }
            }
            x = x + 1;
        }
        y = y + 1;
    }
    Ok(())
}

/// Whether `filled` is what a pixel of the target at `target`, holding
/// `held`, is filled with: `locate` picks a coordinate inside the source, and
/// `fun` is applied to the colour there.
pub open spec fn resampled<S, P, G, F>(
    source: &S,
    locate: G,
    fun: F,
    target: IVec2,
    held: P,
    filled: P,
) -> bool where S: ImageBuffer, G: Fn(&IVec2) -> IVec2, F: Fn(&S::Pixel, &P, &IVec2) -> P {
    exists|from: IVec2|
        {
            &&& #[trigger] call_ensures(locate, (&target,), from)
            &&& in_bounds(from, source.image().resolution)
            &&& call_ensures(
                fun,
                (&source.image().pixel(from.x as int, from.y as int), &held, &target),
                filled,
            )
        }
}

} // verus!
