use vstd::prelude::*;

verus! {

/// a / b rounded to the nearest integer, halves rounded up.
pub open spec fn rounded_quotient(a: int, b: int) -> int {
    a / b + if 2 * (a % b) >= b {
        1int
    } else {
        0int
    }
}

/// The shorter side after the longer one went from `long` to `new_long`:
/// short × new_long / long, rounded, and never below one pixel.
pub open spec fn scaled_side(short: int, long: int, new_long: int) -> int {
    let q = rounded_quotient(short * new_long, long);
    if q < 1 {
        1
    } else {
        q
    }
}

pub open spec fn min_int(a: int, b: int) -> int {
    if a <= b {
        a
    } else {
        b
    }
}

/// Bounded mode: the size that keeps the aspect ratio of `width × height`
/// and brings its longer side down to `bound` where it is longer, never
/// enlarging the image.
pub open spec fn bounded_size(width: int, height: int, bound: int) -> (int, int) {
    if width == 0 || height == 0 {
        (min_int(width, bound), min_int(height, bound))
    } else if width >= height {
        let w = min_int(width, bound);
        (w, scaled_side(height, width, w))
    } else {
        let h = min_int(height, bound);
        (scaled_side(width, height, h), h)
    }
}

fn scale_side(short: u32, long: u32, new_long: u32) -> (r: u32)
    requires
        0 < short <= long,
        new_long <= long,
    ensures
        r as int == scaled_side(short as int, long as int, new_long as int),
{
    proof {
        assert(short as int * new_long as int <= short as int * long as int) by (nonlinear_arith)
            requires
                new_long <= long,
                0 < short,
        ;
        assert(short as int * long as int <= 0xffff_ffff * 0xffff_ffff) by (nonlinear_arith)
            requires
                short <= 0xffff_ffff,
                long <= 0xffff_ffff,
        ;
    }
    let product: u64 = (short as u64) * (new_long as u64);
    let q = product / (long as u64);
    let rem = product % (long as u64);
    proof {
        vstd::arithmetic::div_mod::lemma_fundamental_div_mod(product as int, long as int);
        assert(q <= short) by (nonlinear_arith)
            requires
                long * q + rem == product,
                0 <= rem,
                product <= short * long,
                long > 0,
        ;
        assert(q == short ==> rem == 0) by (nonlinear_arith)
            requires
                long * q + rem == product,
                product <= short * long,
        ;
    }
    let rounded = if 2 * rem >= long as u64 {
        q + 1
    } else {
        q
    };
    if rounded < 1 {
        1
    } else {
        rounded as u32
    }
}

/// The size of a thumbnail of a `width × height` image that must fit in a
/// `bound × bound` box: aspect ratio kept, never larger than the source.
pub fn bounded_dimensions(width: u32, height: u32, bound: u32) -> (r: (u32, u32))
    requires
        bound > 0,
    ensures
        (r.0 as int, r.1 as int) == bounded_size(width as int, height as int, bound as int),
{
    if width == 0 || height == 0 {
        (if width <= bound {
            width
        } else {
            bound
        }, if height <= bound {
            height
        } else {
            bound
        })
    } else if width >= height {
        let w = if width <= bound {
            width
        } else {
            bound
        };
        (w, scale_side(height, width, w))
    } else {
        let h = if height <= bound {
            height
        } else {
            bound
        };
        (scale_side(width, height, h), h)
    }
}

proof fn lemma_scaled_side(short: int, long: int, new_long: int)
    requires
        0 < short <= long,
        0 < new_long <= long,
    ensures
        1 <= scaled_side(short, long, new_long) <= short,
        scaled_side(short, long, new_long) <= new_long,
        -long <= scaled_side(short, long, new_long) * long - short * new_long <= long,
{
    let a = short * new_long;
    let q = a / long;
    let rem = a % long;
    vstd::arithmetic::div_mod::lemma_fundamental_div_mod(a, long);
    assert(0 <= rem < long);
    assert(0 <= a <= short * long && a <= long * new_long) by (nonlinear_arith)
        requires
            a == short * new_long,
            0 < short <= long,
            0 < new_long <= long,
    ;
    assert(0 <= q <= short && q <= new_long) by (nonlinear_arith)
        requires
            long * q + rem == a,
            0 <= rem < long,
            0 <= a <= short * long,
            a <= long * new_long,
    ;
    assert(q == short ==> rem == 0) by (nonlinear_arith)
        requires
            long * q + rem == a,
            0 <= rem,
            a <= short * long,
    ;
    assert(q == new_long ==> rem == 0) by (nonlinear_arith)
        requires
            long * q + rem == a,
            0 <= rem,
            a <= long * new_long,
    ;
    let sv = scaled_side(short, long, new_long);
    assert(sv * long - a == -rem || sv * long - a == long - rem) by (nonlinear_arith)
        requires
            long * q + rem == a,
            sv == q || sv == q + 1 || (sv == 1 && q == 0),
    ;
}

proof fn lemma_scaled_side_whole(short: int, long: int)
    requires
        0 < short <= long,
    ensures
        scaled_side(short, long, long) == short,
{
    vstd::arithmetic::div_mod::lemma_div_multiples_vanish(short, long);
    vstd::arithmetic::div_mod::lemma_mod_multiples_basic(short, long);
    assert(short * long == long * short) by (nonlinear_arith);
}

/// Bounded mode fits the box: both sides of the result are positive, no
/// larger than the source's and no larger than the bound; and it keeps the
/// aspect ratio up to the rounding of one side, |w'·h − h'·w| ≤ max(w, h),
/// that is w'/h' differs from w/h by at most max(w, h) / (h·h').
pub proof fn lemma_bounded_size_fits(width: int, height: int, bound: int)
    requires
        0 < width,
        0 < height,
        0 < bound,
    ensures
        ({
            let (w, h) = bounded_size(width, height, bound);
            let longer = if width >= height {
                width
            } else {
                height
            };
            &&& 0 < w <= width
            &&& 0 < h <= height
            &&& w <= bound
            &&& h <= bound
            &&& -longer <= w * height - h * width <= longer
            &&& longer > bound ==> (w == bound || h == bound)
            &&& longer <= bound ==> w == width && h == height
        }),
{
    if width >= height {
        let w = min_int(width, bound);
        lemma_scaled_side(height, width, w);
        let h = scaled_side(height, width, w);
        assert(w * height - h * width == -(h * width - height * w)) by (nonlinear_arith);
        if width <= bound {
            lemma_scaled_side_whole(height, width);
        }
    } else {
        let h = min_int(height, bound);
        lemma_scaled_side(width, height, h);
        let w = scaled_side(width, height, h);
        assert(w * height - h * width == w * height - width * h) by (nonlinear_arith);
        if height <= bound {
            lemma_scaled_side_whole(width, height);
        }
    }
}

} // verus!
