use vstd::prelude::*;

use crate::screen::{ScaleFactor, ScreenDescriptor};

verus! {

/// Logical coordinates are fixed-point numbers: this many units make one
/// logical point.
pub const UNITS_PER_POINT: u32 = 65536;

/// An axis-aligned clip rectangle in logical coordinates, each coordinate in
/// units of `1 / UNITS_PER_POINT` of a point. The corners may be in any order
/// and anywhere; the transform clamps them.
#[derive(Clone, Copy, Debug, PartialEq, Eq, Structural)]
pub struct ClipRect {
    pub min_x: i64,
    pub min_y: i64,
    pub max_x: i64,
    pub max_y: i64,
}

/// A scissor rectangle in physical pixels, top-left origin.
#[derive(Clone, Copy, Debug, PartialEq, Eq, Structural)]
pub struct Scissor {
    pub x: u32,
    pub y: u32,
    pub width: u32,
    pub height: u32,
}

/// The viewport over the whole surface, its y axis flipped: it starts at
/// `y == physical_height` and has a negative height.
#[derive(Clone, Copy, Debug, PartialEq, Eq, Structural)]
pub struct Viewport {
    pub x: i64,
    pub y: i64,
    pub width: i64,
    pub height: i64,
}

/// A logical coordinate scaled to physical pixels, clamped into
/// `[0, extent]` and rounded to the nearest pixel (halves round up).
pub open spec fn pixel_of(coord: int, extent: int, scale: ScaleFactor) -> int {
    let n = coord * scale.num();
    let d = UNITS_PER_POINT * scale.den();
    if n <= 0 {
        0
    } else if n >= extent * d {
        extent
    } else {
        (2 * n + d) / (2 * d)
    }
}

pub open spec fn spec_max(a: int, b: int) -> int {
    if a >= b {
        a
    } else {
        b
    }
}

pub open spec fn spec_min(a: int, b: int) -> int {
    if a <= b {
        a
    } else {
        b
    }
}

/// One axis of the scissor: its start and its length. The far edge is clamped
/// to no less than the near edge, the length is at least one pixel and then
/// cut to the surface.
pub open spec fn axis_span(lo: int, hi: int, extent: int, scale: ScaleFactor) -> (int, int) {
    let start = pixel_of(lo, extent, scale);
    let end = spec_max(pixel_of(hi, extent, scale), start);
    (start, spec_min(spec_max(1, end - start), extent - start))
}

/// The scissor for a clip rectangle, or `None` where it covers no pixel of the
/// surface and the mesh is not drawn.
pub open spec fn scissor_of(rect: ClipRect, screen: ScreenDescriptor) -> Option<Scissor> {
    let (x, w) = axis_span(rect.min_x as int, rect.max_x as int, screen.physical_width as int, screen.scale_factor);
    let (y, h) = axis_span(rect.min_y as int, rect.max_y as int, screen.physical_height as int, screen.scale_factor);
    if w == 0 || h == 0 {
        None
    } else {
        Some(Scissor { x: x as u32, y: y as u32, width: w as u32, height: h as u32 })
    }
}

pub open spec fn viewport_of(screen: ScreenDescriptor) -> Viewport {
    Viewport {
        x: 0,
        y: screen.physical_height as i64,
        width: screen.physical_width as i64,
        height: (-(screen.physical_height as int)) as i64,
    }
}

proof fn lemma_pixel_in_surface(coord: int, extent: int, scale: ScaleFactor)
    requires
        scale.valid(),
        extent >= 0,
    ensures
        0 <= pixel_of(coord, extent, scale) <= extent,
{
    let n = coord * scale.num();
    let d = UNITS_PER_POINT * scale.den();
    assert(d > 0) by (nonlinear_arith)
        requires
            d == UNITS_PER_POINT * scale.den(),
            scale.den() > 0,
    ;
    if n > 0 && n < extent * d {
        let q = (2 * n + d) / (2 * d);
        assert(0 <= q <= extent) by (nonlinear_arith)
            requires
                q == (2 * n + d) / (2 * d),
                0 < n < extent * d,
                d > 0,
        ;
    }
}

/// A clip rectangle that starts at or beyond the right or the bottom edge of
/// the surface gets no scissor, and so its mesh gets no draw call.
pub proof fn lemma_rect_past_surface_not_drawn(rect: ClipRect, screen: ScreenDescriptor)
    requires
        screen.scale_factor.valid(),
        rect.min_x * screen.scale_factor.num() >= screen.physical_width * UNITS_PER_POINT
            * screen.scale_factor.den() || rect.min_y * screen.scale_factor.num()
            >= screen.physical_height * UNITS_PER_POINT * screen.scale_factor.den(),
    ensures
        scissor_of(rect, screen) is None,
{
    let s = screen.scale_factor;
    let (w, h) = (screen.physical_width as int, screen.physical_height as int);
    lemma_pixel_in_surface(rect.min_x as int, w, s);
    lemma_pixel_in_surface(rect.max_x as int, w, s);
    lemma_pixel_in_surface(rect.min_y as int, h, s);
    lemma_pixel_in_surface(rect.max_y as int, h, s);
    assert(w * UNITS_PER_POINT * s.den() == w * (UNITS_PER_POINT * s.den())) by (nonlinear_arith);
    assert(h * UNITS_PER_POINT * s.den() == h * (UNITS_PER_POINT * s.den())) by (nonlinear_arith);
    assert(w * (UNITS_PER_POINT * s.den()) >= 0) by (nonlinear_arith)
        requires
            w >= 0,
            s.den() > 0,
    ;
    assert(h * (UNITS_PER_POINT * s.den()) >= 0) by (nonlinear_arith)
        requires
            h >= 0,
            s.den() > 0,
    ;
    let d = UNITS_PER_POINT * s.den();
    assert(d > 0);
    if rect.min_x * s.num() >= w * d {
        assert(w * d <= 0 ==> w == 0) by (nonlinear_arith)
            requires
                d > 0,
                w >= 0,
        ;
        assert(pixel_of(rect.min_x as int, w, s) == w);
        assert(axis_span(rect.min_x as int, rect.max_x as int, w, s).1 == 0);
    } else {
        assert(h * d <= 0 ==> h == 0) by (nonlinear_arith)
            requires
                d > 0,
                h >= 0,
        ;
        assert(pixel_of(rect.min_y as int, h, s) == h);
        assert(axis_span(rect.min_y as int, rect.max_y as int, h, s).1 == 0);
    }
}

fn to_pixel(coord: i64, extent: u32, scale: &ScaleFactor) -> (r: u32)
    ensures
        r == pixel_of(coord as int, extent as int, *scale),
        r <= extent,
{
    let num = scale.numerator();
    let den = scale.denominator();
    assert(coord as int * num as int <= i64::MAX as int * u32::MAX as int) by (nonlinear_arith)
        requires
            coord <= i64::MAX,
            0 < num <= u32::MAX,
    ;
    assert(coord as int * num as int >= i64::MIN as int * u32::MAX as int) by (nonlinear_arith)
        requires
            coord >= i64::MIN,
            0 < num <= u32::MAX,
    ;
    let n: i128 = coord as i128 * num as i128;
    assert(UNITS_PER_POINT as int * den as int <= UNITS_PER_POINT as int * u32::MAX as int) by (nonlinear_arith)
        requires
            den <= u32::MAX,
    ;
    let d: i128 = UNITS_PER_POINT as i128 * den as i128;
    assert(extent as int * d <= u32::MAX as int * (UNITS_PER_POINT as int * u32::MAX as int)) by (nonlinear_arith)
        requires
            extent <= u32::MAX,
            d == UNITS_PER_POINT as int * den as int,
            0 < den <= u32::MAX,
    ;
    let limit: i128 = extent as i128 * d;
    if n <= 0 {
        0
    } else if n >= limit {
        extent
    } else {
        let q: i128 = (2 * n + d) / (2 * d);
        assert(q <= extent) by (nonlinear_arith)
            requires
                q == (2 * n + d) / (2 * d),
                n < extent * d,
                d > 0,
        ;
        assert(q >= 0) by (nonlinear_arith)
            requires
                q == (2 * n + d) / (2 * d),
                n > 0,
                d > 0,
        ;
        q as u32
    }
}

/// One axis of the scissor, as `axis_span` gives it.
fn span(lo: i64, hi: i64, extent: u32, scale: &ScaleFactor) -> (r: (u32, u32))
    ensures
        (r.0 as int, r.1 as int) == axis_span(lo as int, hi as int, extent as int, *scale),
        r.0 + r.1 <= extent,
{
    let start = to_pixel(lo, extent, scale);
    let far = to_pixel(hi, extent, scale);
    let end = if far >= start {
        far
    } else {
        start
    };
    let len = if end - start >= 1 {
        end - start
    } else {
        1
    };
    let room = extent - start;
    let cut = if len <= room {
        len
    } else {
        room
    };
    (start, cut)
}

/// The scissor of a mesh's clip rectangle: the rectangle is scaled to physical
/// pixels, clamped to the surface, rounded, given at least one pixel each way
/// and cut to the surface again. `None`: nothing of it is on the surface, and
/// the mesh gets no draw call.
pub fn scissor_for(rect: &ClipRect, screen: &ScreenDescriptor) -> (r: Option<Scissor>)
    ensures
        r == scissor_of(*rect, *screen),
        r matches Some(s) ==> {
            &&& s.width >= 1
            &&& s.height >= 1
            &&& s.x + s.width <= screen.physical_width
            &&& s.y + s.height <= screen.physical_height
        },
{
    let (x, w) = span(rect.min_x, rect.max_x, screen.physical_width, &screen.scale_factor);
    let (y, h) = span(rect.min_y, rect.max_y, screen.physical_height, &screen.scale_factor);
    if w == 0 || h == 0 {
        None
    } else {
        Some(Scissor { x, y, width: w, height: h })
    }
}

/// The viewport over the whole surface, with its y axis flipped.
pub fn viewport_for(screen: &ScreenDescriptor) -> (r: Viewport)
    ensures
        r == viewport_of(*screen),
{
    Viewport {
        x: 0,
        y: screen.physical_height as i64,
        width: screen.physical_width as i64,
        height: -(screen.physical_height as i64),
    }
}

} // verus!
