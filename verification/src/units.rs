//! Exact units for screen geometry.
//!
//! Nothing here is rounded. A physical position is a whole number of
//! sub-pixel steps, [`SUBPIXEL`] of them to a pixel. A scale factor is a
//! fraction of two positive integers, physical pixels over logical points. A
//! logical value at a scale factor is a whole number of steps, of which
//! [`steps_per_point`] make one logical point, so that a physical value
//! divided by the scale factor, and half of it, are whole numbers of steps.
//! Whoever needs a logical value as one number divides its steps by the steps
//! in a point.

use vstd::prelude::*;

verus! {

/// Steps in one physical pixel: 2^32.
pub const SUBPIXEL: i64 = 4_294_967_296;

/// Neither the numerator nor the denominator of a scale factor is greater
/// than this: 2^60.
pub const SCALE_LIMIT: u64 = 1_152_921_504_606_846_976;

/// No physical position, converted at any scale factor, is farther from zero
/// than this many steps, and no physical extent is longer than twice as many:
/// 2^124.
pub const LOGICAL_LIMIT: i128 = 21_267_647_932_558_653_966_460_912_964_485_513_216;

/// Steps in one logical point at a scale factor with this numerator.
pub open spec fn steps_per_point(numerator: int) -> int {
    2 * SUBPIXEL * numerator
}

/// A physical value of `subpixels` sub-pixel steps, divided by a scale factor
/// with this denominator, in steps of which [`steps_per_point`] of the scale
/// factor's numerator make a logical point.
pub open spec fn logical_steps(subpixels: int, denominator: int) -> int {
    2 * denominator * subpixels
}

/// A display scale factor: physical pixels per logical point, as a fraction
/// of two integers, each at least 1 and at most [`SCALE_LIMIT`]. Two fractions
/// of one value and different terms are different scale factors.
#[derive(Clone, Copy, Debug, PartialEq, Eq, Structural)]
pub struct Scale {
    // One less than the numerator and one less than the denominator: no value
    // of this type has a zero for either.
    numerator_less_one: u64,
    denominator_less_one: u64,
}

impl Scale {
    /// The numerator: physical pixels.
    pub closed spec fn numerator(self) -> int {
        self.numerator_less_one + 1
    }

    /// The denominator: logical points.
    pub closed spec fn denominator(self) -> int {
        self.denominator_less_one + 1
    }

    #[verifier::type_invariant]
    spec fn within_limit(self) -> bool {
        self.numerator_less_one < SCALE_LIMIT && self.denominator_less_one < SCALE_LIMIT
    }

    /// Every scale factor is positive.
    pub proof fn lemma_positive(self)
        ensures
            self.numerator() > 0,
            self.denominator() > 0,
    {
    }

    /// The scale factor `numerator / denominator`; none where either is zero
    /// or greater than [`SCALE_LIMIT`].
    pub fn new(numerator: u64, denominator: u64) -> (scale: Option<Scale>)
        ensures
            scale is Some <==> 1 <= numerator <= SCALE_LIMIT && 1 <= denominator <= SCALE_LIMIT,
            scale matches Some(s) ==> s.numerator() == numerator && s.denominator() == denominator,
    {
        if 1 <= numerator && numerator <= SCALE_LIMIT && 1 <= denominator && denominator
            <= SCALE_LIMIT {
            Some(
                Scale {
                    numerator_less_one: numerator - 1,
                    denominator_less_one: denominator - 1,
                },
            )
        } else {
            None
        }
    }

    /// The scale factor 1.0: one pixel per point.
    pub fn identity() -> (scale: Scale)
        ensures
            scale.numerator() == 1,
            scale.denominator() == 1,
    {
        Scale { numerator_less_one: 0, denominator_less_one: 0 }
    }

    /// The numerator and the denominator.
    pub fn terms(&self) -> (terms: (u64, u64))
        ensures
            terms.0 == self.numerator(),
            terms.1 == self.denominator(),
            1 <= terms.0 <= SCALE_LIMIT,
            1 <= terms.1 <= SCALE_LIMIT,
    {
        proof {
            use_type_invariant(self);
        }
        (self.numerator_less_one + 1, self.denominator_less_one + 1)
    }

    /// Steps in one logical point at this scale factor.
    pub fn steps_per_point(&self) -> (steps: i128)
        ensures
            steps == steps_per_point(self.numerator()),
            0 < steps <= 0x2_0000_0000 * SCALE_LIMIT,
    {
        let (numerator, _) = self.terms();
        0x2_0000_0000 * (numerator as i128)
    }

    /// Whole logical points, in steps at this scale factor: an even number, at
    /// most twice [`LOGICAL_LIMIT`].
    pub fn points_to_logical(&self, points: u32) -> (steps: i128)
        ensures
            steps == points * steps_per_point(self.numerator()),
            0 <= steps <= 2 * LOGICAL_LIMIT,
            steps % 2 == 0,
    {
        let (numerator, _) = self.terms();
        let half: i128 = 0x1_0000_0000 * (numerator as i128);
        assert(0 <= points * half <= LOGICAL_LIMIT && points * (2 * half) == 2 * (points * half))
            by (nonlinear_arith)
            requires
                0 <= points <= 0xffff_ffff,
                0 < half <= 0x1_0000_0000 * 0x1000_0000_0000_0000,
                LOGICAL_LIMIT == 0x1000_0000_0000_0000_0000_0000_0000_0000,
        ;
        2 * ((points as i128) * half)
    }

    /// A physical position of `subpixels` sub-pixel steps, divided by this
    /// scale factor, in steps. No result is farther from zero than
    /// [`LOGICAL_LIMIT`].
    pub fn to_logical(&self, subpixels: i64) -> (steps: i128)
        ensures
            steps == logical_steps(subpixels as int, self.denominator()),
            -LOGICAL_LIMIT <= steps <= LOGICAL_LIMIT,
    {
        let (_, denominator) = self.terms();
        let doubled: i128 = 2 * (denominator as i128);
        assert(-LOGICAL_LIMIT <= doubled * subpixels <= LOGICAL_LIMIT) by (nonlinear_arith)
            requires
                0 < doubled <= 0x2000_0000_0000_0000,
                -0x8000_0000_0000_0000 <= subpixels <= 0x8000_0000_0000_0000,
                LOGICAL_LIMIT == 0x1000_0000_0000_0000_0000_0000_0000_0000,
        ;
        doubled * (subpixels as i128)
    }

    /// A physical extent of `pixels` whole pixels, divided by this scale
    /// factor, in steps: an even number, at most twice [`LOGICAL_LIMIT`].
    pub fn extent_to_logical(&self, pixels: u32) -> (steps: i128)
        ensures
            steps == logical_steps(pixels * SUBPIXEL, self.denominator()),
            0 <= steps <= 2 * LOGICAL_LIMIT,
            steps % 2 == 0,
    {
        let (_, denominator) = self.terms();
        let subpixels: i128 = (pixels as i128) * (SUBPIXEL as i128);
        assert(0 <= denominator * subpixels <= LOGICAL_LIMIT) by (nonlinear_arith)
            requires
                0 < denominator <= 0x1000_0000_0000_0000,
                0 <= subpixels <= 0x1_0000_0000_0000_0000,
                LOGICAL_LIMIT == 0x1000_0000_0000_0000_0000_0000_0000_0000,
        ;
        let half: i128 = (denominator as i128) * subpixels;
        assert(2 * half == 2 * denominator * subpixels) by (nonlinear_arith)
            requires
                half == denominator * subpixels,
        ;
        2 * half
    }
}

/// Logical is physical over the scale factor, exactly: the logical value
/// `logical_steps / steps_per_point`, times the scale factor
/// `numerator / denominator`, is the physical value `subpixels / SUBPIXEL`.
/// Both sides are multiplied out here.
pub proof fn lemma_logical_is_quotient(subpixels: int, numerator: int, denominator: int)
    ensures
        logical_steps(subpixels, denominator) * numerator * SUBPIXEL == steps_per_point(numerator)
            * denominator * subpixels,
{
    assert(2 * denominator * subpixels * numerator * SUBPIXEL == 2 * SUBPIXEL * numerator
        * denominator * subpixels) by (nonlinear_arith);
}

/// Two physical values that convert to one logical value at one scale factor
/// are one value: nothing is lost on the way to logical and back.
pub proof fn lemma_logical_is_one_to_one(first: int, second: int, denominator: int)
    requires
        denominator > 0,
        logical_steps(first, denominator) == logical_steps(second, denominator),
    ensures
        first == second,
{
    assert(first == second) by (nonlinear_arith)
        requires
            denominator > 0,
            2 * denominator * first == 2 * denominator * second,
    ;
}

} // verus!
