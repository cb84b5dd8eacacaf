//! The renderer: every pixel of a picture, row by row, the rows in parallel.

use crate::camera::Camera;
use crate::color::Color;
use crate::component::{two, Component};
use crate::image::Image;
use crate::scene::SceneElement;
use crate::tracing::{Raytracer, TracingOptions};
use crate::vectors::{Vec2, Vector};
use rayon::iter::{IndexedParallelIterator, ParallelIterator};
use rayon::slice::ParallelSliceMut;
use vstd::prelude::*;

verus! {

/// Half the diagonal of a picture of `width` by `height` pixels, in pixels.
pub open spec fn half_diagonal<S: Component>(width: usize, height: usize) -> S {
    S::count_value(width).product(S::count_value(width)).sum(
        S::count_value(height).product(S::count_value(height)),
    ).root().quotient(two())
}

/// The middle of a picture of `width` by `height` pixels, in pixels.
pub open spec fn center<S: Component>(width: usize, height: usize) -> Vec2<S> {
    (Vec2 { x: S::count_value(width), y: S::count_value(height) }).shrunk(two())
}

/// The place on the screen of the pixel in column `x` of row `y`, rows
/// counted from the top.
///
/// The screen's origin is the middle of the picture and its unit is half the
/// picture's diagonal, so that the field of view does not depend on the
/// picture's proportions. The screen's second axis points up: the top row
/// has the greatest second coordinate.
pub open spec fn pixel_offset<S: Component>(x: usize, y: usize, width: usize, height: usize) -> Vec2<
    S,
> {
    (Vec2 { x: S::count_value(x), y: S::count_value((height - y - 1) as usize) }).difference(
        center(width, height),
    ).shrunk(half_diagonal(width, height))
}

/// The sum of the colours `traces`, added up from the first to the last.
pub open spec fn total<S: Component>(traces: Seq<Color<S>>) -> Color<S>
    decreases traces.len(),
{
    if traces.len() <= 1 {
        traces[0]
    } else {
        total(traces.drop_last()).sum(traces.last())
    }
}

/// The colour of a pixel whose samples are `traces`: their sum divided by
/// their number, every channel held at or below one.
pub open spec fn averaged<S: Component>(traces: Seq<Color<S>>) -> Color<S> {
    total(traces).quotient(S::count_value(traces.len() as usize)).capped()
}

impl<C: Camera, E: SceneElement<C::V>> Raytracer<C, E> {
    /// Whether `traces` holds, one after the other, colours that may be seen
    /// through the point `offset` of the screen.
    pub open spec fn may_sample(
        &self,
        offset: Vec2<<C::V as Vector>::Scalar>,
        options: TracingOptions<<C::V as Vector>::Scalar>,
        traces: Seq<Color<<C::V as Vector>::Scalar>>,
    ) -> bool {
        forall|i: int|
            0 <= i < traces.len() ==> self.may_trace(
                self.camera.ray_through(offset),
                options,
                options.max_bounces as nat,
                #[trigger] traces[i],
            )
    }

    /// Whether `color` may be the pixel at the point `offset` of the screen
    /// when `samples` paths are traced through it: the average of `samples`
    /// colours seen through that point.
    pub open spec fn may_render(
        &self,
        offset: Vec2<<C::V as Vector>::Scalar>,
        samples: usize,
        options: TracingOptions<<C::V as Vector>::Scalar>,
        color: Color<<C::V as Vector>::Scalar>,
    ) -> bool {
        exists|traces: Seq<Color<<C::V as Vector>::Scalar>>|
            traces.len() == samples && #[trigger] self.may_sample(offset, options, traces) && color
                == averaged(traces)
    }

    /// Whether row `y` of `pixels`, a picture of `width` by `height` pixels
    /// held row by row, may have been rendered.
    pub open spec fn row_rendered(
        &self,
        pixels: Seq<Color<<C::V as Vector>::Scalar>>,
        y: usize,
        width: usize,
        height: usize,
        samples: usize,
        options: TracingOptions<<C::V as Vector>::Scalar>,
    ) -> bool {
        forall|x: usize|
            x < width ==> self.may_render(
                #[trigger] pixel_offset(x, y, width, height),
                samples,
                options,
                pixels[x + y * width],
            )
    }
}

/// The colour of the pixel at the point `offset` of the screen: `samples`
/// paths are traced through it, and their colours are added up, divided by
/// their number and clamped.
pub fn render_pixel<C: Camera, E: SceneElement<C::V>>(
    raytracer: &Raytracer<C, E>,
    offset: Vec2<<C::V as Vector>::Scalar>,
    samples: usize,
    options: &TracingOptions<<C::V as Vector>::Scalar>,
) -> (r: Color<<C::V as Vector>::Scalar>)
    requires
        samples > 0,
        options.valid(),
    ensures
        raytracer.may_render(offset, samples, *options, r),
{
    let mut sum = raytracer.trace(offset, options);
    let ghost mut traces = seq![sum];
    let mut i: usize = 1;
    while i < samples
        invariant
            options.valid(),
            1 <= i <= samples,
            traces.len() == i,
            raytracer.may_sample(offset, *options, traces),
            sum == total(traces),
        decreases samples - i,
    {
        let trace = raytracer.trace(offset, options);
        proof {
            assert(traces.push(trace).drop_last() == traces);
            traces = traces.push(trace);
        }
        sum = sum.add(trace);
        i = i + 1;
    }
    sum.div(<C::V as Vector>::Scalar::from_count(samples)).clamped()
}

/// Renders row `y`, counted from the top, of a picture of `width` by
/// `height` pixels into `pixels`.
pub fn render_row<C: Camera, E: SceneElement<C::V>>(
    raytracer: &Raytracer<C, E>,
    pixels: &mut [Color<<C::V as Vector>::Scalar>],
    y: usize,
    width: usize,
    height: usize,
    samples: usize,
    options: &TracingOptions<<C::V as Vector>::Scalar>,
)
    requires
        old(pixels)@.len() == width,
        y < height,
        samples > 0,
        options.valid(),
    ensures
        final(pixels)@.len() == width,
        forall|x: usize|
            x < width ==> raytracer.may_render(
                #[trigger] pixel_offset(x, y, width, height),
                samples,
                *options,
                final(pixels)@[x as int],
            ),
{
    let width_f = <C::V as Vector>::Scalar::from_count(width);
    let height_f = <C::V as Vector>::Scalar::from_count(height);
    let two = <C::V as Vector>::Scalar::from_count(2);
    let diagonal = width_f.mul(width_f).add(height_f.mul(height_f)).sqrt().div(two);
    let center = Vec2::new(width_f, height_f).div(two);
    let mut x: usize = 0;
    while x < width
        invariant
            x <= width,
            y < height,
            samples > 0,
            options.valid(),
            pixels@.len() == width,
            diagonal == half_diagonal::<<C::V as Vector>::Scalar>(width, height),
            center == self::center::<<C::V as Vector>::Scalar>(width, height),
            forall|k: usize|
                k < x ==> raytracer.may_render(
                    #[trigger] pixel_offset(k, y, width, height),
                    samples,
                    *options,
                    pixels@[k as int],
                ),
        decreases width - x,
    {
        let offset = Vec2::new(
            <C::V as Vector>::Scalar::from_count(x),
            <C::V as Vector>::Scalar::from_count(height - y - 1),
        ).sub(center).div(diagonal);
        pixels[x] = render_pixel(raytracer, offset, samples, options);
        x = x + 1;
    }
}

/// Renders every row of `pixels`, a picture of `width` by `height` pixels
/// held row by row, the rows handed out to the threads of the pool.
///
/// Calls rayon's `par_chunks_mut` on the pixels with the picture's width as
/// the chunk size, then `enumerate` and `for_each` with a closure that calls
/// [`render_row`]. Rayon cuts the slice into consecutive chunks of that size
/// which do not overlap, numbers them from zero in the order of the slice,
/// and runs the closure once on each before `for_each` returns, whichever
/// thread takes which chunk. So the contract claims for every row what
/// [`render_row`] ensures for the chunk it is given. A chunk size of zero
/// would panic, so the picture has at least one column.
#[verifier::external_body]
fn render_rows<C: Camera, E: SceneElement<C::V>>(
    raytracer: &Raytracer<C, E>,
    pixels: &mut [Color<<C::V as Vector>::Scalar>],
    width: usize,
    height: usize,
    samples: usize,
    options: &TracingOptions<<C::V as Vector>::Scalar>,
)
    requires
        old(pixels)@.len() == width * height,
        width > 0,
        samples > 0,
        options.valid(),
    ensures
        final(pixels)@.len() == width * height,
        forall|y: usize|
            y < height ==> #[trigger] raytracer.row_rendered(
                final(pixels)@,
                y,
                width,
                height,
                samples,
                *options,
            ),
{
    pixels.par_chunks_mut(width).enumerate().for_each(
        |(y, row)| render_row(raytracer, row, y, width, height, samples, options),
    );
}

/// Renders the picture of `width` by `height` pixels that `raytracer` sees,
/// with `samples` paths through every pixel.
///
/// The rows are rendered in parallel. Which thread renders which row has no
/// part in the result: every pixel is the clamped average of its own samples
/// and stands at its own place, column `x` of row `y` at `x + y * width`, the
/// top row first.
pub fn render_image<C: Camera, E: SceneElement<C::V>>(
    raytracer: &Raytracer<C, E>,
    width: usize,
    height: usize,
    samples: usize,
    options: &TracingOptions<<C::V as Vector>::Scalar>,
) -> (r: Image<<C::V as Vector>::Scalar>)
    requires
        width > 0,
        height > 0,
        samples > 0,
        width * height <= usize::MAX,
        options.valid(),
    ensures
        r.well_formed(),
        r.columns() == width,
        r.rows() == height,
        forall|y: usize|
            y < height ==> #[trigger] raytracer.row_rendered(
                r@,
                y,
                width,
                height,
                samples,
                *options,
            ),
{
    let mut image = Image::new(width, height);
    render_rows(raytracer, image.pixels_mut(), width, height, samples, options);
    image
}

/// Whether `pixels`, a picture of `width` by `height` pixels held row by
/// row, holds at every place the average of the samples that `traces` gives
/// for that column and row.
pub open spec fn assembled<S: Component>(
    pixels: Seq<Color<S>>,
    width: usize,
    height: usize,
    traces: spec_fn(usize, usize) -> Seq<Color<S>>,
) -> bool {
    &&& pixels.len() == width * height
    &&& forall|x: usize, y: usize|
        x < width && y < height ==> pixels[x + y * width] == averaged(#[trigger] traces(x, y))
}

/// Whether the rows from `first` up to, not including, `end` of `pixels` may
/// have been rendered.
pub open spec fn rows_rendered<C: Camera, E: SceneElement<C::V>>(
    raytracer: Raytracer<C, E>,
    pixels: Seq<Color<<C::V as Vector>::Scalar>>,
    first: usize,
    end: usize,
    width: usize,
    height: usize,
    samples: usize,
    options: TracingOptions<<C::V as Vector>::Scalar>,
) -> bool {
    forall|y: usize|
        first <= y < end ==> #[trigger] raytracer.row_rendered(
            pixels,
            y,
            width,
            height,
            samples,
            options,
        )
}

/// It makes no difference how the rows are shared out: a range of rows is
/// rendered exactly when both parts are into which it is cut, wherever the
/// cut is made.
pub proof fn lemma_rows_join<C: Camera, E: SceneElement<C::V>>(
    raytracer: Raytracer<C, E>,
    pixels: Seq<Color<<C::V as Vector>::Scalar>>,
    first: usize,
    cut: usize,
    end: usize,
    width: usize,
    height: usize,
    samples: usize,
    options: TracingOptions<<C::V as Vector>::Scalar>,
)
    requires
        first <= cut <= end,
    ensures
        rows_rendered(raytracer, pixels, first, end, width, height, samples, options) <==> (
        rows_rendered(raytracer, pixels, first, cut, width, height, samples, options)
            && rows_rendered(raytracer, pixels, cut, end, width, height, samples, options)),
{
}

/// A picture is settled by the samples of its pixels: two pictures of one
/// size that were put together from the same samples are the same picture,
/// pixel for pixel, whoever rendered which row and in which order.
pub proof fn lemma_picture_is_settled<S: Component>(
    first: Seq<Color<S>>,
    second: Seq<Color<S>>,
    width: usize,
    height: usize,
    traces: spec_fn(usize, usize) -> Seq<Color<S>>,
)
    requires
        assembled(first, width, height, traces),
        assembled(second, width, height, traces),
    ensures
        first == second,
{
    assert forall|i: int| 0 <= i < first.len() implies first[i] == second[i] by {
        let w = width as int;
        let h = height as int;
        assert(w > 0 && 0 <= i % w < w && 0 <= i / w < h && i == i % w + (i / w) * w)
            by (nonlinear_arith)
            requires
                0 <= i < w * h,
                0 <= w,
                0 <= h,
        ;
        let x = (i % w) as usize;
        let y = (i / w) as usize;
        assert(first[x + y * width] == averaged(traces(x, y)));
        assert(second[x + y * width] == averaged(traces(x, y)));
    }
    assert(first =~= second);
}

/// A rendered picture is put together from samples that the tracer may see:
/// for every pixel there are `samples` colours, each of them seen through the
/// pixel's place on the screen, whose average the pixel is.
pub proof fn lemma_rendered_is_assembled<C: Camera, E: SceneElement<C::V>>(
    raytracer: Raytracer<C, E>,
    pixels: Seq<Color<<C::V as Vector>::Scalar>>,
    width: usize,
    height: usize,
    samples: usize,
    options: TracingOptions<<C::V as Vector>::Scalar>,
)
    requires
        pixels.len() == width * height,
        rows_rendered(raytracer, pixels, 0, height, width, height, samples, options),
    ensures
        exists|traces: spec_fn(usize, usize) -> Seq<Color<<C::V as Vector>::Scalar>>|
            #[trigger] assembled(pixels, width, height, traces) && forall|x: usize, y: usize|
                x < width && y < height ==> (#[trigger] traces(x, y)).len() == samples
                    && raytracer.may_sample(pixel_offset(x, y, width, height), options, traces(x, y)),
{
    let traces = |x: usize, y: usize|
        choose|traces: Seq<Color<<C::V as Vector>::Scalar>>|
            traces.len() == samples && #[trigger] raytracer.may_sample(
                pixel_offset(x, y, width, height),
                options,
                traces,
            ) && pixels[x + y * width] == averaged(traces);
    assert forall|x: usize, y: usize| x < width && y < height implies pixels[x + y * width]
        == averaged(#[trigger] traces(x, y)) && traces(x, y).len() == samples
        && raytracer.may_sample(pixel_offset(x, y, width, height), options, traces(x, y)) by {
        assert(raytracer.row_rendered(pixels, y, width, height, samples, options));
        assert(raytracer.may_render(
            pixel_offset(x, y, width, height),
            samples,
            options,
            pixels[x + y * width],
        ));
    }
    assert(assembled(pixels, width, height, traces));
}

} // verus!
