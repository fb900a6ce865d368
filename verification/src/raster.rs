//! The map from raster space to the image plane.
//!
//! Raster space is the pixel grid of the output image: origin at the top
//! left, y growing downward, extent `[0, width] x [0, height]`. The image
//! plane lies at depth -1 in camera space, where y grows upward. The map
//! scales the extent to `[0, 2] x [0, 2]`, shifts it to `[-1, 1] x [-1, 1]`,
//! then multiplies y by `-1 / aspect` with `aspect = width / height`:
//!
//! ```text
//! x' = 2 x / width - 1
//! y' = -(2 y / height - 1) * height / width
//! ```
//!
//! Points are rational. A raster point counts its coordinates in steps of
//! `1 / steps` of a pixel; its image has numerators over the common
//! denominator `width * steps`.

use vstd::prelude::*;

verus! {

/// Denominator of the image of a raster point given in `steps` per pixel.
pub open spec fn plane_den(width: int, steps: int) -> int {
    width * steps
}

/// Numerator, over `plane_den`, of the image's x coordinate.
pub open spec fn plane_x(width: int, steps: int, x: int) -> int {
    2 * x - width * steps
}

/// Numerator, over `plane_den`, of the image's y coordinate.
pub open spec fn plane_y(height: int, steps: int, y: int) -> int {
    height * steps - 2 * y
}

/// A point of raster space: `(x / steps, y / steps)`.
#[derive(Clone, Copy, Debug, PartialEq, Eq)]
pub struct RasterPoint {
    pub x: i64,
    pub y: i64,
    pub steps: u32,
}

impl RasterPoint {
    /// The denominator is positive.
    pub open spec fn wf(&self) -> bool {
        self.steps > 0
    }
}

/// A point of the image plane: `(x / den, y / den, -1)` in camera space.
#[derive(Clone, Copy, Debug, PartialEq, Eq)]
pub struct PlanePoint {
    pub x: i128,
    pub y: i128,
    pub den: i128,
}

impl PlanePoint {
    /// The denominator is positive.
    pub open spec fn wf(&self) -> bool {
        self.den > 0
    }
}

/// The pixel dimensions of the output image.
#[derive(Clone, Copy, Debug, PartialEq, Eq)]
pub struct Raster {
    width: usize,
    height: usize,
}

impl Raster {
    /// Width in pixels.
    pub closed spec fn spec_width(&self) -> int {
        self.width as int
    }

    /// Height in pixels.
    pub closed spec fn spec_height(&self) -> int {
        self.height as int
    }

    /// Both dimensions are positive, so the aspect ratio is defined.
    pub open spec fn wf(&self) -> bool {
        &&& self.spec_width() > 0
        &&& self.spec_height() > 0
    }

    /// The image of a raster point on the plane at depth -1.
    pub open spec fn spec_to_camera(&self, p: RasterPoint) -> PlanePoint {
        PlanePoint {
            x: plane_x(self.spec_width(), p.steps as int, p.x as int) as i128,
            y: plane_y(self.spec_height(), p.steps as int, p.y as int) as i128,
            den: plane_den(self.spec_width(), p.steps as int) as i128,
        }
    }

    /// A raster of `width` by `height` pixels.
    pub fn new(width: usize, height: usize) -> (r: Raster)
        requires
            width > 0,
            height > 0,
        ensures
            r.wf(),
            r.spec_width() == width,
            r.spec_height() == height,
    {
        Raster { width, height }
    }

    /// Width in pixels.
    pub fn width(&self) -> (w: usize)
        ensures
            w == self.spec_width(),
    {
        self.width
    }

    /// Height in pixels.
    pub fn height(&self) -> (h: usize)
        ensures
            h == self.spec_height(),
    {
        self.height
    }

    /// Maps a raster point to the image plane. The result is exact: no
    /// numerator is reduced or rounded.
    pub fn to_camera(&self, p: RasterPoint) -> (q: PlanePoint)
        requires
            self.wf(),
            p.wf(),
        ensures
            q == self.spec_to_camera(p),
            q.x == plane_x(self.spec_width(), p.steps as int, p.x as int),
            q.y == plane_y(self.spec_height(), p.steps as int, p.y as int),
            q.den == plane_den(self.spec_width(), p.steps as int),
            q.wf(),
    {
        let steps: i128 = p.steps as i128;
        let w: i128 = self.width as i128;
        let h: i128 = self.height as i128;
        proof {
            lemma_product_bounds(w as int, steps as int);
            lemma_product_bounds(h as int, steps as int);
        }
        let den: i128 = w * steps;
        let x: i128 = 2 * (p.x as i128) - den;
        let y: i128 = h * steps - 2 * (p.y as i128);
        PlanePoint { x, y, den }
    }
}

/// A pixel count times a step count is positive and far below the range
/// of the numerators.
proof fn lemma_product_bounds(n: int, steps: int)
    requires
        0 < n <= u64::MAX,
        0 < steps <= u32::MAX,
    ensures
        0 < n * steps <= 0x1_0000_0000_0000_0000_0000_0000,
{
    assert(0 < n * steps <= 0x1_0000_0000_0000_0000 * 0x1_0000_0000) by (nonlinear_arith)
        requires
            0 < n <= 0x1_0000_0000_0000_0000,
            0 < steps <= 0x1_0000_0000,
    ;
}

/// The corners of the raster go to the corners of the image: `(0, 0)` to
/// `(-1, 1 / aspect)` and `(width, height)` to `(1, -1 / aspect)`, where
/// `1 / aspect` is `height / width`.
pub proof fn lemma_corners(raster: Raster, steps: int)
    requires
        raster.wf(),
        steps > 0,
    ensures
        ({
            let w: int = raster.spec_width();
            let h: int = raster.spec_height();
            let den: int = plane_den(w, steps);
            &&& den > 0
            &&& plane_x(w, steps, 0) == -den
            &&& plane_y(h, steps, 0) * w == h * den
            &&& plane_x(w, steps, w * steps) == den
            &&& plane_y(h, steps, h * steps) * w == -h * den
        }),
{
    let w: int = raster.spec_width();
    let h: int = raster.spec_height();
    assert(w * steps > 0) by (nonlinear_arith)
        requires
            w > 0,
            steps > 0,
    ;
    assert((h * steps) * w == h * (w * steps)) by (nonlinear_arith);
    assert((h * steps - 2 * (h * steps)) * w == -h * (w * steps)) by (nonlinear_arith);
}

/// The map is the three steps in turn: scale by `(2 / width, 2 / height)`,
/// shift by `(-1, -1)`, multiply y by `-height / width`. Both equations are
/// cleared of denominators.
pub proof fn lemma_composition(raster: Raster, steps: int, x: int, y: int)
    requires
        raster.wf(),
        steps > 0,
    ensures
        ({
            let w: int = raster.spec_width();
            let h: int = raster.spec_height();
            let den: int = plane_den(w, steps);
            &&& plane_x(w, steps, x) * (w * steps) == (2 * x - w * steps) * den
            &&& plane_y(h, steps, y) * (h * steps) * w == -h * (2 * y - h * steps) * den
        }),
{
    let w: int = raster.spec_width();
    let h: int = raster.spec_height();
    assert((h * steps - 2 * y) * (h * steps) * w == -h * (2 * y - h * steps) * (w * steps))
        by (nonlinear_arith);
}

/// Inside the raster's extent x runs from -1 to 1 and y from `1 / aspect`
/// down to `-1 / aspect`; x grows with the raster's x, y falls as the
/// raster's y grows.
pub proof fn lemma_extent(raster: Raster, steps: int, x: int, y: int)
    requires
        raster.wf(),
        steps > 0,
        0 <= x <= raster.spec_width() * steps,
        0 <= y <= raster.spec_height() * steps,
    ensures
        ({
            let w: int = raster.spec_width();
            let h: int = raster.spec_height();
            let den: int = plane_den(w, steps);
            &&& -den <= plane_x(w, steps, x) <= den
            &&& -h * den <= plane_y(h, steps, y) * w <= h * den
        }),
{
    let w: int = raster.spec_width();
    let h: int = raster.spec_height();
    let py: int = plane_y(h, steps, y);
    let hs: int = h * steps;
    assert(-hs <= py <= hs);
    assert(-hs * w <= py * w <= hs * w) by (nonlinear_arith)
        requires
            -hs <= py <= hs,
            w > 0,
    ;
    assert(hs * w == h * (w * steps)) by (nonlinear_arith)
        requires
            hs == h * steps,
    ;
    assert(-hs * w == -h * (w * steps)) by (nonlinear_arith)
        requires
            hs == h * steps,
    ;
}

/// The map keeps the order of x and turns the order of y around.
pub proof fn lemma_monotone(raster: Raster, steps: int, a: int, b: int)
    requires
        a < b,
    ensures
        plane_x(raster.spec_width(), steps, a) < plane_x(raster.spec_width(), steps, b),
        plane_y(raster.spec_height(), steps, a) > plane_y(raster.spec_height(), steps, b),
{
}

/// Two raster points that mirror each other in the image's centre,
/// `(x, y)` and `(width - x, height - y)`, go to plane points that mirror
/// each other in the optical axis: x and y change sign, the depth and the
/// denominator stay.
pub proof fn lemma_mirror(raster: Raster, steps: int, x: int, y: int)
    ensures
        ({
            let w: int = raster.spec_width();
            let h: int = raster.spec_height();
            &&& plane_x(w, steps, w * steps - x) == -plane_x(w, steps, x)
            &&& plane_y(h, steps, h * steps - y) == -plane_y(h, steps, y)
        }),
{
}

/// The centre of the raster, `(width / 2, height / 2)`, goes to the
/// optical axis: the plane point `(0, 0, -1)`.
pub proof fn lemma_centre(raster: Raster, steps: int, x: int, y: int)
    requires
        2 * x == raster.spec_width() * steps,
        2 * y == raster.spec_height() * steps,
    ensures
        plane_x(raster.spec_width(), steps, x) == 0,
        plane_y(raster.spec_height(), steps, y) == 0,
{
}

} // verus!
