//! Slider state: a value held inside an inclusive `[min, max]` range.
//!
//! The state keeps integer values and never leaves its range: every setter
//! clamps.  The value's position inside the range is exposed as an exact
//! rational ([`Ratio`]), not as an approximation, so the renderer can
//! compute fill counts without rounding twice.
//!
//! Callers that need fractional values pick a unit: a slider over tenths
//! stores ten times the displayed quantity.

use vstd::arithmetic::div_mod::{
    lemma_div_is_ordered, lemma_fundamental_div_mod, lemma_fundamental_div_mod_converse,
};
use vstd::arithmetic::mul::lemma_mul_inequality;
use vstd::math::abs;
use vstd::prelude::*;

use crate::text::{push_char, spec_digits, spec_int_string, u64_string};

verus! {

/// `v` forced into the inclusive interval `[lo, hi]`.
pub open spec fn spec_clamp(v: int, lo: int, hi: int) -> int {
    if v < lo {
        lo
    } else if v > hi {
        hi
    } else {
        v
    }
}

/// `a / d` rounded to the nearest integer, halves up (`d >= 1`).
pub open spec fn round_div(a: int, d: int) -> int {
    (2 * a + d) / (2 * d)
}

/// An exact fraction `num / den` with `num <= den` and `den >= 1`: the
/// position of a value inside its range.
#[derive(Debug, Clone, Copy, PartialEq, Eq, Structural)]
pub struct Ratio {
    /// Numerator: how far the value sits above the minimum.
    pub num: u64,
    /// Denominator: the width of the range.
    pub den: u64,
}

impl Ratio {
    /// A well-formed ratio lies in `[0, 1]`.
    pub open spec fn wf(self) -> bool {
        1 <= self.den && self.num <= self.den
    }
}

/// State of a slider: a clamped value, its inclusive bounds, and a step
/// size for keyboard-style adjustment.
#[derive(Debug, Clone, Copy)]
pub struct SliderState {
    value: i64,
    min: i64,
    max: i64,
    step: i64,
}

impl SliderState {
    /// The state's invariant: strict bounds, a clamped value, and a
    /// positive step.
    pub closed spec fn wf(self) -> bool {
        &&& self.min < self.max
        &&& self.min <= self.value <= self.max
        &&& self.step >= 1
    }

    /// The width of the range.
    pub open spec fn spec_range(self) -> int {
        self.spec_max() - self.spec_min()
    }

    pub closed spec fn spec_value(self) -> int {
        self.value as int
    }

    pub closed spec fn spec_min(self) -> int {
        self.min as int
    }

    pub closed spec fn spec_max(self) -> int {
        self.max as int
    }

    pub closed spec fn spec_step(self) -> int {
        self.step as int
    }

    /// What well-formedness guarantees, stated over the public
    /// accessors: strict bounds, a clamped value, and a positive step.
    pub proof fn lemma_wf_bounds(self)
        requires
            self.wf(),
        ensures
            self.spec_min() < self.spec_max(),
            self.spec_min() <= self.spec_value() <= self.spec_max(),
            self.spec_step() >= 1,
            self.spec_range() == self.spec_max() - self.spec_min(),
    {
    }

    /// Creates a state with the given value and bounds and a step of 1.
    /// The value is clamped into `[min, max]`.
    pub fn new(value: i64, min: i64, max: i64) -> (r: SliderState)
        requires
            min < max,
        ensures
            r.wf(),
            r.spec_min() == min,
            r.spec_max() == max,
            r.spec_step() == 1,
            r.spec_value() == spec_clamp(value as int, min as int, max as int),
            min <= r.spec_value() <= max,
    {
        SliderState { value: clamp_i64(value, min, max), min, max, step: 1 }
    }

    /// Creates a state with the given value, bounds, and step.  The value
    /// is clamped into `[min, max]`.
    pub fn with_step(value: i64, min: i64, max: i64, step: i64) -> (r: SliderState)
        requires
            min < max,
            step >= 1,
        ensures
            r.wf(),
            r.spec_min() == min,
            r.spec_max() == max,
            r.spec_step() == step,
            r.spec_value() == spec_clamp(value as int, min as int, max as int),
    {
        SliderState { value: clamp_i64(value, min, max), min, max, step }
    }

    /// The current value.
    pub fn value(&self) -> (r: i64)
        ensures
            r == self.spec_value(),
    {
        self.value
    }

    /// The minimum bound.
    pub fn min(&self) -> (r: i64)
        ensures
            r == self.spec_min(),
    {
        self.min
    }

    /// The maximum bound.
    pub fn max(&self) -> (r: i64)
        ensures
            r == self.spec_max(),
    {
        self.max
    }

    /// The step size.
    pub fn step(&self) -> (r: i64)
        ensures
            r == self.spec_step(),
    {
        self.step
    }

    /// Sets the value, clamped into `[min, max]`.
    pub fn set_value(&mut self, value: i64)
        requires
            old(self).wf(),
        ensures
            final(self).wf(),
            final(self).spec_min() == old(self).spec_min(),
            final(self).spec_max() == old(self).spec_max(),
            final(self).spec_step() == old(self).spec_step(),
            final(self).spec_value() == spec_clamp(
                value as int,
                old(self).spec_min(),
                old(self).spec_max(),
            ),
    {
        self.value = clamp_i64(value, self.min, self.max);
    }

    /// Sets the minimum bound and re-clamps the value.  The new minimum
    /// must stay below the maximum.
    pub fn set_min(&mut self, min: i64)
        requires
            old(self).wf(),
            min < old(self).spec_max(),
        ensures
            final(self).wf(),
            final(self).spec_min() == min,
            final(self).spec_max() == old(self).spec_max(),
            final(self).spec_step() == old(self).spec_step(),
            final(self).spec_value() == spec_clamp(
                old(self).spec_value(),
                min as int,
                old(self).spec_max(),
            ),
    {
        self.min = min;
        self.value = clamp_i64(self.value, self.min, self.max);
    }

    /// Sets the maximum bound and re-clamps the value.  The new maximum
    /// must stay above the minimum.
    pub fn set_max(&mut self, max: i64)
        requires
            old(self).wf(),
            max > old(self).spec_min(),
        ensures
            final(self).wf(),
            final(self).spec_min() == old(self).spec_min(),
            final(self).spec_max() == max,
            final(self).spec_step() == old(self).spec_step(),
            final(self).spec_value() == spec_clamp(
                old(self).spec_value(),
                old(self).spec_min(),
                max as int,
            ),
    {
        self.max = max;
        self.value = clamp_i64(self.value, self.min, self.max);
    }

    /// Sets the step size, which must be positive.
    pub fn set_step(&mut self, step: i64)
        requires
            old(self).wf(),
            step >= 1,
        ensures
            final(self).wf(),
            final(self).spec_min() == old(self).spec_min(),
            final(self).spec_max() == old(self).spec_max(),
            final(self).spec_value() == old(self).spec_value(),
            final(self).spec_step() == step,
    {
        self.step = step;
    }

    /// The value's position inside the range, as the exact fraction
    /// `(value - min) / (max - min)`.
    pub fn percentage(&self) -> (r: Ratio)
        requires
            self.wf(),
        ensures
            r.wf(),
            r.num == self.spec_value() - self.spec_min(),
            r.den == self.spec_range(),
    {
        let num_w: i128 = self.value as i128 - self.min as i128;
        let den_w: i128 = self.max as i128 - self.min as i128;
        Ratio { num: num_w as u64, den: den_w as u64 }
    }

    /// Sets the value from a fraction `num / den` (`den >= 1`), clamped to
    /// `[0, 1]` first; the new value is `min + p * (max - min)` rounded to
    /// the nearest integer.
    pub fn set_percentage(&mut self, num: u32, den: u32)
        requires
            old(self).wf(),
            den >= 1,
        ensures
            final(self).wf(),
            final(self).spec_min() == old(self).spec_min(),
            final(self).spec_max() == old(self).spec_max(),
            final(self).spec_step() == old(self).spec_step(),
            final(self).spec_value() == old(self).spec_min() + round_div(
                spec_clamp(num as int, 0, den as int) * old(self).spec_range(),
                den as int,
            ),
    {
        let n: u32 = if num > den {
            den
        } else {
            num
        };
        let range_w: i128 = self.max as i128 - self.min as i128;
        proof {
            assert((n as int) * (range_w as int) <= 0xFFFF_FFFF * 0xFFFF_FFFF_FFFF_FFFF)
                by (nonlinear_arith)
                requires
                    0 <= n <= 0xFFFF_FFFF,
                    0 <= range_w <= 0xFFFF_FFFF_FFFF_FFFF,
            ;
        }
        let a: u128 = (n as u128) * (range_w as u128);
        let q: u128 = (2 * a + den as u128) / (2 * den as u128);
        proof {
            assert((n as int) * (range_w as int) <= (den as int) * (range_w as int))
                by (nonlinear_arith)
                requires
                    0 <= n <= den,
                    range_w >= 0,
            ;
            lemma_round_div_le(a as int, den as int, range_w as int);
        }
        let v: i128 = self.min as i128 + q as i128;
        self.value = v as i64;
    }

    /// Adds `step` (which may be negative) to the value and clamps.
    pub fn increase(&mut self, step: i64)
        requires
            old(self).wf(),
        ensures
            final(self).wf(),
            final(self).spec_min() == old(self).spec_min(),
            final(self).spec_max() == old(self).spec_max(),
            final(self).spec_step() == old(self).spec_step(),
            final(self).spec_value() == spec_clamp(
                old(self).spec_value() + step,
                old(self).spec_min(),
                old(self).spec_max(),
            ),
    {
        let sum: i128 = self.value as i128 + step as i128;
        let mn: i128 = self.min as i128;
        let mx: i128 = self.max as i128;
        let c: i128 = if sum < mn {
            mn
        } else if sum > mx {
            mx
        } else {
            sum
        };
        self.value = c as i64;
    }

    /// Subtracts `step` from the value and clamps.
    pub fn decrease(&mut self, step: i64)
        requires
            old(self).wf(),
        ensures
            final(self).wf(),
            final(self).spec_min() == old(self).spec_min(),
            final(self).spec_max() == old(self).spec_max(),
            final(self).spec_step() == old(self).spec_step(),
            final(self).spec_value() == spec_clamp(
                old(self).spec_value() - step,
                old(self).spec_min(),
                old(self).spec_max(),
            ),
    {
        let sum: i128 = self.value as i128 - step as i128;
        let mn: i128 = self.min as i128;
        let mx: i128 = self.max as i128;
        let c: i128 = if sum < mn {
            mn
        } else if sum > mx {
            mx
        } else {
            sum
        };
        self.value = c as i64;
    }

    /// Adds the stored step to the value and clamps.
    pub fn step_up(&mut self)
        requires
            old(self).wf(),
        ensures
            final(self).wf(),
            final(self).spec_min() == old(self).spec_min(),
            final(self).spec_max() == old(self).spec_max(),
            final(self).spec_step() == old(self).spec_step(),
            final(self).spec_value() == spec_clamp(
                old(self).spec_value() + old(self).spec_step(),
                old(self).spec_min(),
                old(self).spec_max(),
            ),
    {
        let s = self.step;
        self.increase(s);
    }

    /// Subtracts the stored step from the value and clamps.
    pub fn step_down(&mut self)
        requires
            old(self).wf(),
        ensures
            final(self).wf(),
            final(self).spec_min() == old(self).spec_min(),
            final(self).spec_max() == old(self).spec_max(),
            final(self).spec_step() == old(self).spec_step(),
            final(self).spec_value() == spec_clamp(
                old(self).spec_value() - old(self).spec_step(),
                old(self).spec_min(),
                old(self).spec_max(),
            ),
    {
        let s = self.step;
        self.decrease(s);
    }

    /// Sets the value from a discrete position within `length` slots: the
    /// fraction `position / length`.  A zero `length` leaves the state
    /// unchanged.
    pub fn set_from_position(&mut self, position: u16, length: u16)
        requires
            old(self).wf(),
        ensures
            final(self).wf(),
            final(self).spec_min() == old(self).spec_min(),
            final(self).spec_max() == old(self).spec_max(),
            final(self).spec_step() == old(self).spec_step(),
            length == 0 ==> final(self).spec_value() == old(self).spec_value(),
            length > 0 ==> final(self).spec_value() == old(self).spec_min() + round_div(
                spec_clamp(position as int, 0, length as int) * old(self).spec_range(),
                length as int,
            ),
    {
        if length == 0 {
            return ;
        }
        self.set_percentage(position as u32, length as u32);
    }

    /// The value's discrete position within `length` slots:
    /// `percentage * length` rounded to the nearest integer.
    pub fn position(&self, length: u16) -> (r: u16)
        requires
            self.wf(),
        ensures
            r == round_div(
                (self.spec_value() - self.spec_min()) * length,
                self.spec_range(),
            ),
            r <= length,
    {
        let num_w: u128 = (self.value as i128 - self.min as i128) as u128;
        let den_w: u128 = (self.max as i128 - self.min as i128) as u128;
        proof {
            assert((num_w as int) * (length as int) <= 0xFFFF_FFFF_FFFF_FFFF * 0xFFFF)
                by (nonlinear_arith)
                requires
                    0 <= num_w <= 0xFFFF_FFFF_FFFF_FFFF,
                    0 <= length <= 0xFFFF,
            ;
        }
        let a: u128 = num_w * (length as u128);
        let q: u128 = (2 * a + den_w) / (2 * den_w);
        proof {
            assert((num_w as int) * (length as int) <= (den_w as int) * (length as int))
                by (nonlinear_arith)
                requires
                    0 <= num_w <= den_w,
                    length >= 0,
            ;
            lemma_round_div_le(a as int, den_w as int, length as int);
        }
        q as u16
    }

    /// The width of the range, `max - min`.
    pub fn range(&self) -> (r: u64)
        requires
            self.wf(),
        ensures
            r == self.spec_range(),
    {
        (self.max as i128 - self.min as i128) as u64
    }

    /// True when the value sits at the minimum.
    pub fn is_at_min(&self) -> (r: bool)
        ensures
            r == (self.spec_value() == self.spec_min()),
    {
        self.value == self.min
    }

    /// True when the value sits at the maximum.
    pub fn is_at_max(&self) -> (r: bool)
        ensures
            r == (self.spec_value() == self.spec_max()),
    {
        self.value == self.max
    }

    /// True when the value lies within a tenth of the range of the range's
    /// midpoint.
    pub fn is_at_middle(&self) -> (r: bool)
        requires
            self.wf(),
        ensures
            r == (10 * abs(2 * self.spec_value() - self.spec_min() - self.spec_max()) < 2
                * self.spec_range()),
    {
        let d: i128 = 2 * (self.value as i128) - self.min as i128 - self.max as i128;
        let a: i128 = if d < 0 {
            -d
        } else {
            d
        };
        let range_w: i128 = self.max as i128 - self.min as i128;
        10 * a < 2 * range_w
    }

    /// True when the value lies in the lower third of the range
    /// (percentage below 0.33).
    pub fn is_low(&self) -> (r: bool)
        requires
            self.wf(),
        ensures
            r == (100 * (self.spec_value() - self.spec_min()) < 33 * self.spec_range()),
    {
        let num_w: i128 = self.value as i128 - self.min as i128;
        let range_w: i128 = self.max as i128 - self.min as i128;
        100 * num_w < 33 * range_w
    }

    /// True when the value lies in the middle third of the range
    /// (percentage in `[0.33, 0.67)`).
    pub fn is_medium(&self) -> (r: bool)
        requires
            self.wf(),
        ensures
            r == (100 * (self.spec_value() - self.spec_min()) >= 33 * self.spec_range() && 100 * (
            self.spec_value() - self.spec_min()) < 67 * self.spec_range()),
    {
        let num_w: i128 = self.value as i128 - self.min as i128;
        let range_w: i128 = self.max as i128 - self.min as i128;
        100 * num_w >= 33 * range_w && 100 * num_w < 67 * range_w
    }

    /// True when the value lies in the upper third of the range
    /// (percentage at or above 0.67).
    pub fn is_high(&self) -> (r: bool)
        requires
            self.wf(),
        ensures
            r == (100 * (self.spec_value() - self.spec_min()) >= 67 * self.spec_range()),
    {
        let num_w: i128 = self.value as i128 - self.min as i128;
        let range_w: i128 = self.max as i128 - self.min as i128;
        100 * num_w >= 67 * range_w
    }

    /// How far the value sits above the minimum.
    pub fn distance_from_min(&self) -> (r: u64)
        requires
            self.wf(),
        ensures
            r == self.spec_value() - self.spec_min(),
    {
        (self.value as i128 - self.min as i128) as u64
    }

    /// How far the value sits below the maximum.
    pub fn distance_from_max(&self) -> (r: u64)
        requires
            self.wf(),
        ensures
            r == self.spec_max() - self.spec_value(),
    {
        (self.max as i128 - self.value as i128) as u64
    }

    /// The value as a decimal string, followed by a decimal point and
    /// `decimals` zeros when `decimals` is positive (integer states carry
    /// no fractional part).
    pub fn value_string(&self, decimals: usize) -> (r: String)
        ensures
            r@ == spec_int_string(self.spec_value()) + Seq::new(
                if decimals > 0 {
                    (decimals + 1) as nat
                } else {
                    0
                },
                |i: int| if i == 0 { '.' } else { '0' },
            ),
    {
        let mut s = crate::text::i64_string(self.value);
        if decimals > 0 {
            push_char(&mut s, '.');
            let mut i: usize = 0;
            while i < decimals
                invariant
                    i <= decimals,
                    s@ == spec_int_string(self.spec_value()) + Seq::new(
                        (i + 1) as nat,
                        |j: int| if j == 0 { '.' } else { '0' },
                    ),
                decreases decimals - i,
            {
                push_char(&mut s, '0');
                i = i + 1;
                assert(s@ =~= spec_int_string(self.spec_value()) + Seq::new(
                    (i + 1) as nat,
                    |j: int| if j == 0 { '.' } else { '0' },
                ));
            }
        }
        assert(s@ =~= spec_int_string(self.spec_value()) + Seq::new(
            if decimals > 0 {
                (decimals + 1) as nat
            } else {
                0
            },
            |i: int| if i == 0 { '.' } else { '0' },
        ));
        s
    }

    /// The percentage as a whole number of percent, rounded to the nearest
    /// integer, followed by a percent sign.
    pub fn percentage_string(&self) -> (r: String)
        requires
            self.wf(),
        ensures
            r@ == spec_digits(
                round_div(100 * (self.spec_value() - self.spec_min()), self.spec_range()),
            ) + seq!['%'],
    {
        let num_w: u128 = (self.value as i128 - self.min as i128) as u128;
        let den_w: u128 = (self.max as i128 - self.min as i128) as u128;
        let a: u128 = 100 * num_w;
        let q: u128 = (2 * a + den_w) / (2 * den_w);
        proof {
            lemma_round_div_le(a as int, den_w as int, 100 as int);
        }
        let mut s = u64_string(q as u64);
        push_char(&mut s, '%');
        assert(s@ =~= spec_digits(
            round_div(100 * (self.spec_value() - self.spec_min()), self.spec_range()),
        ) + seq!['%']);
        s
    }
}

impl Default for SliderState {
    /// The default state: value 0 in `[0, 100]` with step 1.
    fn default() -> (r: SliderState)
        ensures
            r.wf(),
            r.spec_value() == 0,
            r.spec_min() == 0,
            r.spec_max() == 100,
            r.spec_step() == 1,
    {
        SliderState::new(0, 0, 100)
    }
}

/// `v` forced into `[lo, hi]`.
fn clamp_i64(v: i64, lo: i64, hi: i64) -> (r: i64)
    requires
        lo <= hi,
    ensures
        r == spec_clamp(v as int, lo as int, hi as int),
{
    if v < lo {
        lo
    } else if v > hi {
        hi
    } else {
        v
    }
}

/// When `a <= d * bound`, the rounded quotient `round_div(a, d)` stays at
/// or below `bound`.
proof fn lemma_round_div_le(a: int, d: int, bound: int)
    requires
        d >= 1,
        bound >= 0,
        a >= 0,
        a <= d * bound,
    ensures
        0 <= round_div(a, d) <= bound,
{
    let z = d * bound;
    assert(bound * (2 * d) == 2 * z) by (nonlinear_arith)
        requires
            z == d * bound,
    ;
    lemma_fundamental_div_mod_converse(2 * z + d, 2 * d, bound, d);
    assert((2 * z + d) / (2 * d) == bound);
    lemma_div_is_ordered(2 * a + d, 2 * z + d, 2 * d);
    lemma_div_is_ordered(0, 2 * a + d, 2 * d);
}

/// Setting a percentage and reading it back is exact to within half a
/// denominator unit: with range `r = max - min` and a requested fraction
/// `num / den`, the value `v = min + round_div(num * r, den)` satisfies
/// `|(v - min) * den - num * r| <= den / 2` (stated doubled to stay in
/// integers), so the recovered fraction `(v - min) / r` differs from
/// `num / den` by at most `1 / (2 * r)`.
pub proof fn lemma_set_percentage_round_trip(num: int, den: int, min: int, max: int)
    requires
        min < max,
        1 <= den,
        0 <= num <= den,
    ensures
        ({
            let r = max - min;
            let v = min + round_div(num * r, den);
            &&& min <= v <= max
            &&& 2 * abs((v - min) * den - num * r) <= den
        }),
{
    let r = max - min;
    let a = num * r;
    assert(a >= 0) by {
        lemma_mul_inequality(0, num, r);
    }
    assert(a <= den * r) by {
        lemma_mul_inequality(num, den, r);
    }
    lemma_round_div_le(a, den, r);
    let q = round_div(a, den);
    lemma_fundamental_div_mod(2 * a + den, 2 * den);
    let rem = (2 * a + den) % (2 * den);
    assert(2 * a + den == (2 * den) * q + rem);
    assert(0 <= rem < 2 * den) by {
        vstd::arithmetic::div_mod::lemma_mod_bound(2 * a + den, 2 * den);
    }
    assert(2 * (q * den - a) == den - rem) by (nonlinear_arith)
        requires
            2 * a + den == (2 * den) * q + rem,
    ;
    assert(-den <= 2 * (q * den - a) <= den);
}

} // verus!
