//! Geometry arithmetic for resizing an image into a bounding box.
//!
//! Fitting an image into a box keeps the aspect ratio: the tighter of the
//! two scale factors wins, the matching side takes the bound exactly, and
//! the other side is scaled by the same factor, rounded down.

use crate::result::MagickError;
use vstd::arithmetic::div_mod::{lemma_multiply_divide_le, lemma_multiply_divide_lt};
use vstd::prelude::*;

verus! {

/// The dimensions an image of `width` by `height` is resized to so that it
/// fits within `bound_w` by `bound_h` while keeping its aspect ratio: the
/// side whose scale factor is the tighter one takes its bound exactly, and
/// the other side is scaled by the same factor, rounded down.
pub open spec fn fit_spec(width: int, height: int, bound_w: int, bound_h: int) -> (int, int) {
    if bound_w * height < bound_h * width {
        (bound_w, (height * bound_w) / width)
    } else {
        ((width * bound_h) / height, bound_h)
    }
}

/// Computes the dimensions described by [`fit_spec`].
pub fn fit_dimensions(width: usize, height: usize, bound_w: usize, bound_h: usize) -> (r: (
    usize,
    usize,
))
    requires
        width > 0,
        height > 0,
    ensures
        (r.0 as int, r.1 as int) == fit_spec(width as int, height as int, bound_w as int, bound_h as int),
        r.0 <= bound_w,
        r.1 <= bound_h,
{
    proof {
        lemma_fit_within_bounds(width as int, height as int, bound_w as int, bound_h as int);
        lemma_usize_product_fits_u128(bound_w as int, height as int);
        lemma_usize_product_fits_u128(bound_h as int, width as int);
        lemma_usize_product_fits_u128(height as int, bound_w as int);
        lemma_usize_product_fits_u128(width as int, bound_h as int);
    }
    let wp: u128 = (bound_w as u128) * (height as u128);
    let hp: u128 = (bound_h as u128) * (width as u128);
    if wp < hp {
        let scaled: u128 = ((height as u128) * (bound_w as u128)) / (width as u128);
        (bound_w, scaled as usize)
    } else {
        let scaled: u128 = ((width as u128) * (bound_h as u128)) / (height as u128);
        (scaled as usize, bound_h)
    }
}

/// The product of two machine-word values fits in a double machine word.
pub(crate) proof fn lemma_usize_product_fits_u128(a: int, b: int)
    requires
        0 <= a <= u64::MAX,
        0 <= b <= u64::MAX,
    ensures
        a * b <= u128::MAX,
{
    assert(a * b <= u64::MAX * u64::MAX) by (nonlinear_arith)
        requires
            0 <= a <= u64::MAX,
            0 <= b <= u64::MAX,
    ;
}

/// Law: the fitted dimensions lie within the bounding box.
pub proof fn lemma_fit_within_bounds(width: int, height: int, bound_w: int, bound_h: int)
    requires
        width > 0,
        height > 0,
        bound_w >= 0,
        bound_h >= 0,
    ensures
        fit_spec(width, height, bound_w, bound_h).0 <= bound_w,
        fit_spec(width, height, bound_w, bound_h).1 <= bound_h,
        fit_spec(width, height, bound_w, bound_h).0 >= 0,
        fit_spec(width, height, bound_w, bound_h).1 >= 0,
{
    if bound_w * height < bound_h * width {
        assert((height * bound_w) / width < bound_h) by {
            assert(height * bound_w < width * bound_h) by (nonlinear_arith)
                requires
                    bound_w * height < bound_h * width,
            ;
            lemma_multiply_divide_lt(height * bound_w, width, bound_h);
        }
        assert((height * bound_w) / width >= 0) by {
            assert(height * bound_w >= 0) by (nonlinear_arith)
                requires
                    height > 0,
                    bound_w >= 0,
            ;
            lemma_multiply_divide_le(0, width, (height * bound_w) / width);
        }
    } else {
        assert((width * bound_h) / height <= bound_w) by {
            assert(width * bound_h <= height * bound_w) by (nonlinear_arith)
                requires
                    bound_w * height >= bound_h * width,
            ;
            lemma_multiply_divide_le(width * bound_h, height, bound_w);
        }
        assert((width * bound_h) / height >= 0) by {
            assert(width * bound_h >= 0) by (nonlinear_arith)
                requires
                    width > 0,
                    bound_h >= 0,
            ;
        }
    }
}

/// Splits a flat list of polynomial coefficient-and-degree pairs plus one
/// trailing constant into the number of pairs the native call expects.  An
/// even count cannot end in a constant, so it is rejected.
pub fn polynomial_term_count(terms_len: usize) -> (r: Result<usize, MagickError>)
    ensures
        terms_len % 2 == 1 ==> r == Ok::<usize, MagickError>((terms_len / 2) as usize),
        terms_len % 2 == 0 ==> (r matches Err(e) && e.msg() == "no constant coefficient given"@),
{
    if terms_len % 2 != 1 {
        Err(MagickError::from_str("no constant coefficient given"))
    } else {
        Ok(terms_len / 2)
    }
}

} // verus!
