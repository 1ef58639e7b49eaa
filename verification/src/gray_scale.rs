//! Colorizers that turn numeric samples into single-channel 8-bit pixels.

use vstd::prelude::*;

verus! {

/// The pixel that an array of equal samples is given by [`MinMaxScale`].
pub const MID_GRAY: u8 = 128;

/// The capability to map samples to 8-bit pixels for an image of a given
/// size.
pub trait Colorizer<I> {
    /// The pixel buffer for `input`: one pixel per sample, in the same order.
    spec fn pixels(&self, input: Seq<I>) -> Seq<u8>;

    /// Colorizes `input` for an image of `size.0` columns and `size.1` rows.
    /// The buffer must hold exactly one sample per pixel of that image.
    fn colorize(&self, input: &[I], size: (u32, u32)) -> (r: Vec<u8>)
        requires
            input@.len() == size.0 as int * size.1 as int,
        ensures
            r@ == self.pixels(input@),
            r@.len() == size.0 as int * size.1 as int,
    ;
}

/// `v` held to the range of a pixel.
pub open spec fn clamp_to_pixel(v: int) -> u8 {
    if v < 0 {
        0u8
    } else if v > 255 {
        255u8
    } else {
        v as u8
    }
}

/// The pixel of `sample` under a fixed offset and scale:
/// `(sample - offset) * scale`, held to `[0, 255]`.
pub open spec fn simple_scale_pixel(sample: i64, offset: i64, scale: i64) -> u8 {
    clamp_to_pixel((sample - offset) * scale)
}

/// A colorizer with a fixed offset and scale.
pub struct SimpleScale<T: PartialOrd> {
    offset: T,
    scale: T,
}

impl<T: PartialOrd> SimpleScale<T> {
    /// The offset taken from every sample.
    pub closed spec fn offset(&self) -> T {
        self.offset
    }

    /// The factor applied after the offset.
    pub closed spec fn scale(&self) -> T {
        self.scale
    }

    pub fn new(offset: T, scale: T) -> (r: Self)
        ensures
            r.offset() == offset,
            r.scale() == scale,
    {
        SimpleScale { offset: offset, scale: scale }
    }
}

proof fn lemma_scaled_fits(d: int, s: int)
    by (nonlinear_arith)
    requires
        -0xffff_ffff_ffff_ffff <= d <= 0xffff_ffff_ffff_ffff,
        -0x8000_0000_0000_0000 <= s <= 0x7fff_ffff_ffff_ffff,
    ensures
        -0x7fff_ffff_ffff_ffff_8000_0000_0000_0000 <= d * s
            <= 0x7fff_ffff_ffff_ffff_8000_0000_0000_0000,
{
}

impl Colorizer<i64> for SimpleScale<i64> {
    open spec fn pixels(&self, input: Seq<i64>) -> Seq<u8> {
        Seq::new(input.len(), |i: int| simple_scale_pixel(input[i], self.offset(), self.scale()))
    }

    fn colorize(&self, input: &[i64], size: (u32, u32)) -> (r: Vec<u8>) {
        let mut out: Vec<u8> = Vec::new();
        let mut i: usize = 0;
        while i < input.len()
            invariant
                i <= input@.len(),
                out@.len() == i,
                forall|k: int|
                    0 <= k < i ==> out@[k] == simple_scale_pixel(
                        input@[k],
                        self.offset(),
                        self.scale(),
                    ),
            decreases input@.len() - i,
        {
            let d: i128 = input[i] as i128 - self.offset as i128;
            proof {
                lemma_scaled_fits(d as int, self.scale as int);
            }
            let v: i128 = d * (self.scale as i128);
            let p: u8 = if v < 0 {
                0
            } else if v > 255 {
                255
            } else {
                v as u8
            };
            out.push(p);
            i = i + 1;
        }
        out
    }
}

/// The least sample of `input`; the largest representable value where
/// `input` is empty.
pub open spec fn minimum(input: Seq<i64>) -> i64
    decreases input.len(),
{
    if input.len() == 0 {
        i64::MAX
    } else if input.last() < minimum(input.drop_last()) {
        input.last()
    } else {
        minimum(input.drop_last())
    }
}

/// The greatest sample of `input`; the least representable value where
/// `input` is empty.
pub open spec fn maximum(input: Seq<i64>) -> i64
    decreases input.len(),
{
    if input.len() == 0 {
        i64::MIN
    } else if input.last() > maximum(input.drop_last()) {
        input.last()
    } else {
        maximum(input.drop_last())
    }
}

/// The pixel of `sample` where the samples span `[lo, hi]`: the position of
/// `sample` in that span, scaled to `[0, 255]` and rounded to the nearest
/// whole pixel (a half rounds up). Where the span is a single value, every
/// sample is mid-gray.
pub open spec fn min_max_pixel(sample: i64, lo: i64, hi: i64) -> u8 {
    if hi == lo {
        MID_GRAY
    } else {
        clamp_to_pixel((2 * 255 * (sample - lo) + (hi - lo)) / (2 * (hi - lo)))
    }
}

/// A colorizer that spreads the span of the samples it is given over the
/// whole pixel range.
pub struct MinMaxScale;

impl MinMaxScale {
    pub fn new() -> (r: Self) {
        MinMaxScale {  }
    }

    /// Scans `input` once for its least and greatest sample.
    pub fn span(input: &[i64]) -> (r: (i64, i64))
        ensures
            r.0 == minimum(input@),
            r.1 == maximum(input@),
    {
        let mut lo: i64 = i64::MAX;
        let mut hi: i64 = i64::MIN;
        let mut i: usize = 0;
        while i < input.len()
            invariant
                i <= input@.len(),
                lo == minimum(input@.take(i as int)),
                hi == maximum(input@.take(i as int)),
            decreases input@.len() - i,
        {
            proof {
                assert(input@.take(i + 1).drop_last() =~= input@.take(i as int));
            }
            let x: i64 = input[i];
            if x < lo {
                lo = x;
            }
            if x > hi {
                hi = x;
            }
            i = i + 1;
        }
        assert(input@.take(i as int) =~= input@);
        (lo, hi)
    }
}

impl Colorizer<i64> for MinMaxScale {
    open spec fn pixels(&self, input: Seq<i64>) -> Seq<u8> {
        Seq::new(
            input.len(),
            |i: int| min_max_pixel(input[i], minimum(input), maximum(input)),
        )
    }

    fn colorize(&self, input: &[i64], size: (u32, u32)) -> (r: Vec<u8>) {
        let (lo, hi) = MinMaxScale::span(input);
        let mut out: Vec<u8> = Vec::new();
        let mut i: usize = 0;
        while i < input.len()
            invariant
                i <= input@.len(),
                out@.len() == i,
                lo == minimum(input@),
                hi == maximum(input@),
                forall|k: int| 0 <= k < i ==> out@[k] == min_max_pixel(input@[k], lo, hi),
            decreases input@.len() - i,
        {
            let p: u8 = if hi == lo {
                MID_GRAY
            } else {
                proof {
                    law_span_bounds(input@, i as int);
                }
                let width: u128 = (hi as i128 - lo as i128) as u128;
                let above: u128 = (input[i] as i128 - lo as i128) as u128;
                let q: u128 = (510 * above + width) / (2 * width);
                proof {
                    lemma_rounded_share(above as int, width as int);
                }
                q as u8
            };
            out.push(p);
            i = i + 1;
        }
        out
    }
}

proof fn lemma_rounded_share(above: int, width: int)
    by (nonlinear_arith)
    requires
        0 <= above <= width,
        0 < width,
    ensures
        0 <= (2 * 255 * above + width) / (2 * width) <= 255,
        above == 0 ==> (2 * 255 * above + width) / (2 * width) == 0,
        above == width ==> (2 * 255 * above + width) / (2 * width) == 255,
{
}

/// The span holds every sample: `minimum` is at most, and `maximum` at
/// least, each sample of `input`.
pub proof fn law_span_bounds(input: Seq<i64>, i: int)
    requires
        0 <= i < input.len(),
    ensures
        minimum(input) <= input[i] <= maximum(input),
    decreases input.len(),
{
    if i < input.len() - 1 {
        law_span_bounds(input.drop_last(), i);
    }
}

/// The span is tight: where `input` is not empty, `minimum` and `maximum`
/// are each one of its samples.
pub proof fn law_span_attained(input: Seq<i64>)
    requires
        input.len() > 0,
    ensures
        exists|j: int| 0 <= j < input.len() && input[j] == minimum(input),
        exists|j: int| 0 <= j < input.len() && input[j] == maximum(input),
    decreases input.len(),
{
    let last = input.len() - 1;
    if input.len() == 1 {
        reveal_with_fuel(minimum, 2);
        reveal_with_fuel(maximum, 2);
        assert(input[last] == minimum(input));
        assert(input[last] == maximum(input));
    } else {
        let rest = input.drop_last();
        law_span_attained(rest);
        if input.last() < minimum(rest) {
            assert(input[last] == minimum(input));
        } else {
            let j = choose|j: int| 0 <= j < rest.len() && rest[j] == minimum(rest);
            assert(input[j] == minimum(input));
        }
        if input.last() > maximum(rest) {
            assert(input[last] == maximum(input));
        } else {
            let j = choose|j: int| 0 <= j < rest.len() && rest[j] == maximum(rest);
            assert(input[j] == maximum(input));
        }
    }
}

/// Min/max scaling uses the whole pixel range: where the samples are not
/// all equal, a sample equal to the least one becomes pixel 0, a sample
/// equal to the greatest one becomes pixel 255, and every pixel is the
/// rounded share of its sample in the span.
pub proof fn law_min_max_bounds(colorizer: MinMaxScale, input: Seq<i64>, i: int)
    requires
        0 <= i < input.len(),
        minimum(input) != maximum(input),
    ensures
        0 <= colorizer.pixels(input)[i] <= 255,
        input[i] == minimum(input) ==> colorizer.pixels(input)[i] == 0,
        input[i] == maximum(input) ==> colorizer.pixels(input)[i] == 255,
        colorizer.pixels(input)[i] == (2 * 255 * (input[i] - minimum(input)) + (maximum(input)
            - minimum(input))) / (2 * (maximum(input) - minimum(input))),
{
    law_span_bounds(input, i);
    lemma_rounded_share(input[i] - minimum(input), maximum(input) - minimum(input));
}

/// Min/max scaling of equal samples is constant: every pixel is mid-gray.
pub proof fn law_min_max_degenerate(colorizer: MinMaxScale, input: Seq<i64>, i: int)
    requires
        0 <= i < input.len(),
        forall|j: int, k: int| 0 <= j < input.len() && 0 <= k < input.len() ==> input[j] == input[k],
    ensures
        colorizer.pixels(input)[i] == MID_GRAY,
{
    law_span_attained(input);
}

} // verus!
