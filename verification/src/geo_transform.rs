//! The affine map between pixel space and projection space, and its inverse.
//!
//! Projection coordinates are fixed-point integers: a coordinate `c` stands
//! for `c / COORD_SCALE` projection units. Pixel indices are plain integers.
//! The six coefficients of a transform are in the same fixed-point unit, so
//! the scale cancels in every quotient and all arithmetic here is exact.

use vstd::prelude::*;
use crate::errors::ErrorKind;

verus! {

/// How many fixed-point steps make one projection unit.
pub const COORD_SCALE: i64 = 1_000_000_000;

/// The largest magnitude of a coordinate or coefficient.
pub const COORD_LIMIT: i64 = 4_000_000_000_000_000_000;

/// Whether `c` is a coordinate that the arithmetic here is exact on.
pub open spec fn coord_in_range(c: int) -> bool {
    -COORD_LIMIT <= c <= COORD_LIMIT
}

/// Tests whether `c` is within the coordinate range.
pub fn is_coord_in_range(c: i64) -> (r: bool)
    ensures
        r == coord_in_range(c as int),
{
    -COORD_LIMIT <= c && c <= COORD_LIMIT
}

/// Six coefficients that take a pixel `(col, row)` to the projection point
/// `(origin_x + col * px_width + row * row_rot,
///   origin_y + col * col_rot + row * px_height)`.
#[derive(Debug, Clone, Copy, PartialEq, Eq, Structural)]
pub struct GeoTransform {
    pub origin_x: i64,
    pub px_width: i64,
    pub row_rot: i64,
    pub origin_y: i64,
    pub col_rot: i64,
    pub px_height: i64,
}

impl GeoTransform {
    /// All six coefficients are within the coordinate range.
    pub open spec fn well_formed(&self) -> bool {
        &&& coord_in_range(self.origin_x as int)
        &&& coord_in_range(self.px_width as int)
        &&& coord_in_range(self.row_rot as int)
        &&& coord_in_range(self.origin_y as int)
        &&& coord_in_range(self.col_rot as int)
        &&& coord_in_range(self.px_height as int)
    }

    /// Tests whether all six coefficients are within the coordinate range.
    pub fn is_well_formed(&self) -> (r: bool)
        ensures
            r == self.well_formed(),
    {
        is_coord_in_range(self.origin_x) && is_coord_in_range(self.px_width) && is_coord_in_range(
            self.row_rot,
        ) && is_coord_in_range(self.origin_y) && is_coord_in_range(self.col_rot)
            && is_coord_in_range(self.px_height)
    }

    /// The determinant of the linear part.
    pub open spec fn determinant(&self) -> int {
        self.px_width * self.px_height - self.row_rot * self.col_rot
    }

    /// The transform can be inverted.
    pub open spec fn invertible(&self) -> bool {
        self.determinant() != 0
    }

    /// Numerator of the exact column of `coordinate`, over `determinant()`.
    pub open spec fn column_numerator(&self, coordinate: (i64, i64)) -> int {
        (coordinate.0 - self.origin_x) * self.px_height - (coordinate.1 - self.origin_y)
            * self.row_rot
    }

    /// Numerator of the exact row of `coordinate`, over `determinant()`.
    pub open spec fn row_numerator(&self, coordinate: (i64, i64)) -> int {
        (coordinate.1 - self.origin_y) * self.px_width - (coordinate.0 - self.origin_x)
            * self.col_rot
    }

    /// The projection point of the corner of pixel `(col, row)`.
    pub open spec fn project(&self, col: int, row: int) -> (int, int) {
        (
            self.origin_x + col * self.px_width + row * self.row_rot,
            self.origin_y + col * self.col_rot + row * self.px_height,
        )
    }
}

/// The quotient `n / d` rounded towards negative infinity, for `d != 0`.
pub open spec fn floor_div(n: int, d: int) -> int {
    if d > 0 {
        n / d
    } else {
        (-n) / (-d)
    }
}

/// `v` held to the range of a pixel index: below zero gives zero, above the
/// largest index gives the largest index.
pub open spec fn saturate_index(v: int) -> int {
    if v < 0 {
        0
    } else if v > usize::MAX {
        usize::MAX as int
    } else {
        v
    }
}

/// The index of the pixel column or row that holds the exact position
/// `n / d`.
pub open spec fn pixel_index(n: int, d: int) -> int {
    saturate_index(floor_div(n, d))
}

proof fn lemma_product_bound(x: int, y: int, a: int, b: int)
    by (nonlinear_arith)
    requires
        -a <= x <= a,
        -b <= y <= b,
    ensures
        -(a * b) <= x * y <= a * b,
{
}

proof fn lemma_quotient_sign(n: int, d: int)
    by (nonlinear_arith)
    requires
        d > 0,
    ensures
        n < 0 ==> n / d < 0,
        n >= 0 ==> n / d >= 0,
{
}

fn magnitude(v: i128) -> (m: u128)
    requires
        v > i128::MIN,
    ensures
        m == if v < 0 { -v } else { v as int },
{
    if v < 0 {
        (-v) as u128
    } else {
        v as u128
    }
}

/// Divides and saturates: the pixel index of the exact position `n / d`.
fn index_of_quotient(n: i128, d: i128) -> (r: usize)
    requires
        d != 0,
        n > i128::MIN,
        d > i128::MIN,
    ensures
        r == pixel_index(n as int, d as int),
{
    if n == 0 {
        return 0;
    }
    if (n < 0) != (d < 0) {
        proof {
            if d > 0 {
                lemma_quotient_sign(n as int, d as int);
            } else {
                lemma_quotient_sign(-(n as int), -(d as int));
            }
        }
        return 0;
    }
    let q: u128 = magnitude(n) / magnitude(d);
    proof {
        if d > 0 {
            lemma_quotient_sign(n as int, d as int);
        } else {
            lemma_quotient_sign(-(n as int), -(d as int));
        }
    }
    if q > usize::MAX as u128 {
        usize::MAX
    } else {
        q as usize
    }
}

/// Inverts the affine map: the pixel that holds `coordinate`.
///
/// The exact position is `column_numerator / determinant` and
/// `row_numerator / determinant` (Cramer's rule). Each is rounded down to a
/// whole index and saturated to the index range, so a point left of or above
/// the raster gives index zero. A singular transform is rejected.
pub fn projection_to_raster_space(coordinate: (i64, i64), geo_transform: &GeoTransform) -> (r:
    Result<(usize, usize), ErrorKind>)
    requires
        geo_transform.well_formed(),
        coord_in_range(coordinate.0 as int),
        coord_in_range(coordinate.1 as int),
    ensures
        !geo_transform.invertible() <==> r == Err::<(usize, usize), ErrorKind>(
            ErrorKind::DegenerateTransform,
        ),
        geo_transform.invertible() ==> r == Ok::<(usize, usize), ErrorKind>(
            (
                pixel_index(
                    geo_transform.column_numerator(coordinate),
                    geo_transform.determinant(),
                ) as usize,
                pixel_index(
                    geo_transform.row_numerator(coordinate),
                    geo_transform.determinant(),
                ) as usize,
            ),
        ),
{
    let a: i128 = geo_transform.px_width as i128;
    let b: i128 = geo_transform.row_rot as i128;
    let e: i128 = geo_transform.col_rot as i128;
    let f: i128 = geo_transform.px_height as i128;
    let dx: i128 = coordinate.0 as i128 - geo_transform.origin_x as i128;
    let dy: i128 = coordinate.1 as i128 - geo_transform.origin_y as i128;
    proof {
        let l = 4_000_000_000_000_000_000int;
        lemma_product_bound(a as int, f as int, l, l);
        lemma_product_bound(b as int, e as int, l, l);
        lemma_product_bound(dx as int, f as int, 2 * l, l);
        lemma_product_bound(dy as int, b as int, 2 * l, l);
        lemma_product_bound(dy as int, a as int, 2 * l, l);
        lemma_product_bound(dx as int, e as int, 2 * l, l);
    }
    let det: i128 = a * f - b * e;
    if det == 0 {
        return Err(ErrorKind::DegenerateTransform);
    }
    let column: usize = index_of_quotient(dx * f - dy * b, det);
    let row: usize = index_of_quotient(dy * a - dx * e, det);
    Ok((column, row))
}

/// Evaluates the affine map at the corner of `pixel`. Always defined.
pub fn raster_to_projection_space(pixel: (usize, usize), geo_transform: &GeoTransform) -> (r: (
    i128,
    i128,
))
    requires
        geo_transform.well_formed(),
    ensures
        (r.0 as int, r.1 as int) == geo_transform.project(pixel.0 as int, pixel.1 as int),
{
    let col: i128 = pixel.0 as i128;
    let row: i128 = pixel.1 as i128;
    proof {
        let l = 4_000_000_000_000_000_000int;
        let m = 0x1_0000_0000_0000_0000int;
        lemma_product_bound(col as int, geo_transform.px_width as int, m, l);
        lemma_product_bound(row as int, geo_transform.row_rot as int, m, l);
        lemma_product_bound(col as int, geo_transform.col_rot as int, m, l);
        lemma_product_bound(row as int, geo_transform.px_height as int, m, l);
    }
    let x: i128 = geo_transform.origin_x as i128 + col * (geo_transform.px_width as i128) + row * (
    geo_transform.row_rot as i128);
    let y: i128 = geo_transform.origin_y as i128 + col * (geo_transform.col_rot as i128) + row * (
    geo_transform.px_height as i128);
    (x, y)
}

proof fn lemma_multiple_divides(k: int, d: int)
    by (nonlinear_arith)
    requires
        d != 0,
    ensures
        floor_div(k * d, d) == k,
{
}

proof fn lemma_floor_div_remainder(n: int, d: int)
    by (nonlinear_arith)
    requires
        d != 0,
    ensures
        d > 0 ==> 0 <= n - floor_div(n, d) * d < d,
        d < 0 ==> d < n - floor_div(n, d) * d <= 0,
{
}

/// Cramer's rule solves the system: the affine map, evaluated at the exact
/// position `(column_numerator / determinant, row_numerator / determinant)`,
/// gives back `coordinate` with no error at all. Both sides are multiplied
/// by the determinant, so the statement is about integers.
pub proof fn law_exact_round_trip(geo_transform: GeoTransform, coordinate: (i64, i64))
    ensures
        geo_transform.origin_x * geo_transform.determinant() + geo_transform.column_numerator(
            coordinate,
        ) * geo_transform.px_width + geo_transform.row_numerator(coordinate)
            * geo_transform.row_rot == coordinate.0 * geo_transform.determinant(),
        geo_transform.origin_y * geo_transform.determinant() + geo_transform.column_numerator(
            coordinate,
        ) * geo_transform.col_rot + geo_transform.row_numerator(coordinate)
            * geo_transform.px_height == coordinate.1 * geo_transform.determinant(),
{
    let a = geo_transform.px_width as int;
    let b = geo_transform.row_rot as int;
    let e = geo_transform.col_rot as int;
    let f = geo_transform.px_height as int;
    let dx = coordinate.0 - geo_transform.origin_x;
    let dy = coordinate.1 - geo_transform.origin_y;
    assert((dx * f - dy * b) * a + (dy * a - dx * e) * b == dx * (a * f - b * e))
        by (nonlinear_arith);
    assert((dx * f - dy * b) * e + (dy * a - dx * e) * f == dy * (a * f - b * e))
        by (nonlinear_arith);
    assert(geo_transform.origin_x * (a * f - b * e) + dx * (a * f - b * e) == coordinate.0 * (a * f
        - b * e)) by (nonlinear_arith)
        requires
            dx == coordinate.0 - geo_transform.origin_x,
    ;
    assert(geo_transform.origin_y * (a * f - b * e) + dy * (a * f - b * e) == coordinate.1 * (a * f
        - b * e)) by (nonlinear_arith)
        requires
            dy == coordinate.1 - geo_transform.origin_y,
    ;
}

/// Pixel to projection and back is the identity: where the corner of pixel
/// `(col, row)` is the coordinate `corner`, an invertible transform takes
/// `corner` back to exactly `(col, row)`.
pub proof fn law_pixel_round_trip(geo_transform: GeoTransform, pixel: (usize, usize), corner: (
    i64,
    i64,
))
    requires
        geo_transform.invertible(),
        (corner.0 as int, corner.1 as int) == geo_transform.project(
            pixel.0 as int,
            pixel.1 as int,
        ),
    ensures
        pixel_index(geo_transform.column_numerator(corner), geo_transform.determinant())
            == pixel.0,
        pixel_index(geo_transform.row_numerator(corner), geo_transform.determinant()) == pixel.1,
{
    let a = geo_transform.px_width as int;
    let b = geo_transform.row_rot as int;
    let e = geo_transform.col_rot as int;
    let f = geo_transform.px_height as int;
    let col = pixel.0 as int;
    let row = pixel.1 as int;
    let det = geo_transform.determinant();
    assert((col * a + row * b) * f - (col * e + row * f) * b == col * (a * f - b * e))
        by (nonlinear_arith);
    assert((col * e + row * f) * a - (col * a + row * b) * e == row * (a * f - b * e))
        by (nonlinear_arith);
    lemma_multiple_divides(col, det);
    lemma_multiple_divides(row, det);
}

/// The pixel found for a coordinate holds it: where neither index was
/// saturated, the corner of the pixel differs from `coordinate` by less than
/// one step along each pixel axis, so by less than `|px_width| + |row_rot|`
/// in x and less than `|col_rot| + |px_height|` in y. The bounds are stated
/// multiplied by the magnitude of the determinant.
pub proof fn law_pixel_holds_coordinate(geo_transform: GeoTransform, coordinate: (i64, i64))
    requires
        geo_transform.invertible(),
    ensures
        ({
            let det = geo_transform.determinant();
            let col = floor_div(geo_transform.column_numerator(coordinate), det);
            let row = floor_div(geo_transform.row_numerator(coordinate), det);
            let corner = geo_transform.project(col, row);
            let m = if det < 0 { -det } else { det };
            let wx = (if geo_transform.px_width < 0 { -geo_transform.px_width } else {
                geo_transform.px_width as int }) + (if geo_transform.row_rot < 0 {
                -geo_transform.row_rot } else { geo_transform.row_rot as int });
            let wy = (if geo_transform.col_rot < 0 { -geo_transform.col_rot } else {
                geo_transform.col_rot as int }) + (if geo_transform.px_height < 0 {
                -geo_transform.px_height } else { geo_transform.px_height as int });
            &&& -(wx * m) <= (coordinate.0 - corner.0) * m <= wx * m
            &&& -(wy * m) <= (coordinate.1 - corner.1) * m <= wy * m
        }),
{
    let a = geo_transform.px_width as int;
    let b = geo_transform.row_rot as int;
    let e = geo_transform.col_rot as int;
    let f = geo_transform.px_height as int;
    let det = geo_transform.determinant();
    let nc = geo_transform.column_numerator(coordinate);
    let nr = geo_transform.row_numerator(coordinate);
    let col = floor_div(nc, det);
    let row = floor_div(nr, det);
    let rc = nc - col * det;
    let rr = nr - row * det;
    let m = if det < 0 { -det } else { det };
    let dx = coordinate.0 - geo_transform.origin_x;
    let dy = coordinate.1 - geo_transform.origin_y;
    lemma_floor_div_remainder(nc, det);
    lemma_floor_div_remainder(nr, det);
    law_exact_round_trip(geo_transform, coordinate);
    assert(dx * det == coordinate.0 * det - geo_transform.origin_x * det) by (nonlinear_arith)
        requires
            dx == coordinate.0 - geo_transform.origin_x,
    ;
    assert(dy * det == coordinate.1 * det - geo_transform.origin_y * det) by (nonlinear_arith)
        requires
            dy == coordinate.1 - geo_transform.origin_y,
    ;
    assert((dx - col * a - row * b) * det == rc * a + rr * b) by (nonlinear_arith)
        requires
            nc * a + nr * b == dx * det,
            rc == nc - col * det,
            rr == nr - row * det,
    ;
    assert((dy - col * e - row * f) * det == rc * e + rr * f) by (nonlinear_arith)
        requires
            nc * e + nr * f == dy * det,
            rc == nc - col * det,
            rr == nr - row * det,
    ;
    lemma_rest_bound(rc, rr, a, b, det, dx - col * a - row * b);
    lemma_rest_bound(rc, rr, e, f, det, dy - col * e - row * f);
}

proof fn lemma_rest_bound(rc: int, rr: int, a: int, b: int, det: int, t: int)
    by (nonlinear_arith)
    requires
        det != 0,
        det > 0 ==> 0 <= rc < det && 0 <= rr < det,
        det < 0 ==> det < rc <= 0 && det < rr <= 0,
        t * det == rc * a + rr * b,
    ensures
        ({
            let m = if det < 0 { -det } else { det };
            let w = (if a < 0 { -a } else { a }) + (if b < 0 { -b } else { b });
            -(w * m) <= t * m <= w * m
        }),
{
}

} // verus!
