//! Sample values and linear interpolation between them.

use vstd::prelude::*;

verus! {

/// The value reached when moving `numerator / denominator` of the way from
/// `first` to `second`; the travelled distance is rounded towards `first`.
pub open spec fn blend_int(first: int, second: int, numerator: int, denominator: int) -> int {
    if second >= first {
        first + ((second - first) * numerator) / denominator
    } else {
        first - ((first - second) * numerator) / denominator
    }
}

/// A blend with a weight between zero and one stays between its two ends.
pub proof fn lemma_blend_between(first: int, second: int, numerator: int, denominator: int)
    requires
        0 <= numerator <= denominator,
        0 < denominator,
    ensures
        first <= second ==> first <= blend_int(first, second, numerator, denominator) <= second,
        second <= first ==> second <= blend_int(first, second, numerator, denominator) <= first,
        blend_int(first, second, 0, denominator) == first,
        blend_int(first, second, denominator, denominator) == second,
{
    let span: int = if second >= first { second - first } else { first - second };
    assert(0 <= (span * numerator) / denominator <= span) by (nonlinear_arith)
        requires
            0 <= span,
            0 <= numerator <= denominator,
            0 < denominator,
    ;
    assert((span * 0) / denominator == 0) by (nonlinear_arith)
        requires
            0 < denominator,
    ;
    assert((span * denominator) / denominator == span) by (nonlinear_arith)
        requires
            0 < denominator,
    ;
}

/// A value of one channel at one instant.
pub trait Sample: Copy + Sized {
    /// The sample that stands for the absence of sound.
    spec fn silence() -> Self;

    /// The sample `numerator / denominator` of the way from `first` to `second`.
    spec fn blend(first: Self, second: Self, numerator: u32, denominator: u32) -> Self;

    /// A blend of weight zero is its first end, one of weight one its second.
    proof fn lemma_blend_ends(first: Self, second: Self, denominator: u32)
        requires
            0 < denominator,
        ensures
            Self::blend(first, second, 0, denominator) == first,
            Self::blend(first, second, denominator, denominator) == second,
    ;

    /// Returns the value corresponding to the absence of sound.
    fn zero_value() -> (r: Self)
        ensures
            r == Self::silence(),
    ;

    /// Linear interpolation between two samples.
    fn lerp(first: Self, second: Self, numerator: u32, denominator: u32) -> (r: Self)
        requires
            0 < denominator,
            numerator <= denominator,
        ensures
            r == Self::blend(first, second, numerator, denominator),
    ;
}

impl Sample for i16 {
    open spec fn silence() -> i16 {
        0i16
    }

    open spec fn blend(first: i16, second: i16, numerator: u32, denominator: u32) -> i16 {
        blend_int(first as int, second as int, numerator as int, denominator as int) as i16
    }

    proof fn lemma_blend_ends(first: i16, second: i16, denominator: u32) {
        lemma_blend_between(first as int, second as int, 0, denominator as int);
        lemma_blend_between(first as int, second as int, denominator as int, denominator as int);
    }

    fn zero_value() -> (r: i16) {
        0
    }

    fn lerp(first: i16, second: i16, numerator: u32, denominator: u32) -> (r: i16) {
        proof {
            lemma_blend_between(first as int, second as int, numerator as int, denominator as int);
        }
        if second >= first {
            let span: u64 = (second as i64 - first as i64) as u64;
            assert(span * numerator <= 0xffff * 0xffff_ffff) by (nonlinear_arith)
                requires
                    span <= 0xffff,
                    numerator <= 0xffff_ffff,
            ;
            let travelled: u64 = span * (numerator as u64) / (denominator as u64);
            (first as i64 + travelled as i64) as i16
        } else {
            let span: u64 = (first as i64 - second as i64) as u64;
            assert(span * numerator <= 0xffff * 0xffff_ffff) by (nonlinear_arith)
                requires
                    span <= 0xffff,
                    numerator <= 0xffff_ffff,
            ;
            let travelled: u64 = span * (numerator as u64) / (denominator as u64);
            (first as i64 - travelled as i64) as i16
        }
    }
}

impl Sample for u16 {
    open spec fn silence() -> u16 {
        32768u16
    }

    open spec fn blend(first: u16, second: u16, numerator: u32, denominator: u32) -> u16 {
        blend_int(first as int, second as int, numerator as int, denominator as int) as u16
    }

    proof fn lemma_blend_ends(first: u16, second: u16, denominator: u32) {
        lemma_blend_between(first as int, second as int, 0, denominator as int);
        lemma_blend_between(first as int, second as int, denominator as int, denominator as int);
    }

    fn zero_value() -> (r: u16) {
        32768
    }

    fn lerp(first: u16, second: u16, numerator: u32, denominator: u32) -> (r: u16) {
        proof {
            lemma_blend_between(first as int, second as int, numerator as int, denominator as int);
        }
        if second >= first {
            let span: u64 = (second - first) as u64;
            assert(span * numerator <= 0xffff * 0xffff_ffff) by (nonlinear_arith)
                requires
                    span <= 0xffff,
                    numerator <= 0xffff_ffff,
            ;
            let travelled: u64 = span * (numerator as u64) / (denominator as u64);
            (first as u64 + travelled) as u16
        } else {
            let span: u64 = (first - second) as u64;
            assert(span * numerator <= 0xffff * 0xffff_ffff) by (nonlinear_arith)
                requires
                    span <= 0xffff,
                    numerator <= 0xffff_ffff,
            ;
            let travelled: u64 = span * (numerator as u64) / (denominator as u64);
            (first as u64 - travelled) as u16
        }
    }
}

} // verus!
