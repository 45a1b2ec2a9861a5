//! Intensity weights: how much each frame of a sequence contributes.
//!
//! A weight is an exact fraction of two unsigned integers, so that the weight
//! of every frame of a sequence of any length is represented without rounding.

use vstd::prelude::*;
use crate::kernel::SAMPLE_MAX;

verus! {

/// How the contribution of a light frame varies with its place in the sequence.
#[derive(Clone, Copy, Debug, PartialEq, Eq, Structural)]
pub enum CometMode {
    /// Earlier frames weigh more.
    Falling,
    /// Later frames weigh more.
    Raising,
    /// Every frame weighs the same.
    Normal,
}

/// The fraction `num / den`.
#[derive(Clone, Copy, Debug, PartialEq, Eq, Structural)]
pub struct Weight {
    pub num: u64,
    pub den: u64,
}

impl Weight {
    /// A weight is a fraction with a denominator other than zero.
    pub open spec fn wf(&self) -> bool {
        self.den > 0
    }

    /// The weight stands for one.
    pub open spec fn is_one(&self) -> bool {
        self.den > 0 && self.num == self.den
    }

    /// The weight stands for zero.
    pub open spec fn is_zero(&self) -> bool {
        self.den > 0 && self.num == 0
    }

    /// Two weights stand for the same fraction.
    pub open spec fn same_value(&self, other: Weight) -> bool {
        self.num * other.den == other.num * self.den
    }

    /// The two weights add up to one.
    pub open spec fn complements(&self, other: Weight) -> bool {
        self.num * other.den + other.num * self.den == self.den * other.den
    }

    /// The weight one, in lowest terms.
    pub fn one() -> (w: Weight)
        ensures
            w == (Weight { num: 1, den: 1 }),
    {
        Weight { num: 1, den: 1 }
    }

    /// Whether the weight stands for one; `false` for a zero denominator.
    pub fn is_unit(&self) -> (b: bool)
        ensures
            b == self.is_one(),
    {
        self.den > 0 && self.num == self.den
    }
}

/// The weight of the light frame at `index` among `num_images`.
pub open spec fn intensity_of(mode: CometMode, index: nat, num_images: nat) -> Weight {
    match mode {
        CometMode::Falling => Weight { num: (num_images - index) as u64, den: num_images as u64 },
        CometMode::Raising => Weight { num: index as u64, den: num_images as u64 },
        CometMode::Normal => Weight { num: 1, den: 1 },
    }
}

/// The weight of each of `num_images` dark frames: their sum is then their average.
pub open spec fn dark_intensity_of(num_images: nat) -> Weight {
    Weight { num: 1, den: num_images as u64 }
}

/// A sample scaled by a weight: rounded to the nearest integer, halves upwards,
/// and held at `SAMPLE_MAX`.
pub open spec fn scale_sample(x: u16, w: Weight) -> u16
    recommends
        w.wf(),
{
    vstd::math::min((2 * x * w.num + w.den) / (2 * w.den), SAMPLE_MAX as int) as u16
}

/// A raster scaled sample by sample.
pub open spec fn scale(a: Seq<u16>, w: Weight) -> Seq<u16>
    recommends
        w.wf(),
{
    Seq::new(a.len(), |i: int| scale_sample(a[i], w))
}

/// The weight of the light frame at `index` among `num_images`.
///
/// In the fading modes the index must lie within the sequence; in normal mode
/// every index and every length gives one.
pub fn determine_intensity(mode: CometMode, index: usize, num_images: usize) -> (w: Weight)
    requires
        mode != CometMode::Normal ==> index < num_images,
    ensures
        w == intensity_of(mode, index as nat, num_images as nat),
        w.wf(),
        w.num <= w.den,
{
    match mode {
        CometMode::Falling => Weight { num: (num_images - index) as u64, den: num_images as u64 },
        CometMode::Raising => Weight { num: index as u64, den: num_images as u64 },
        CometMode::Normal => Weight { num: 1, den: 1 },
    }
}

/// The weight of each of `num_images` dark frames.
pub fn dark_intensity(num_images: usize) -> (w: Weight)
    requires
        num_images > 0,
    ensures
        w == dark_intensity_of(num_images as nat),
        w.wf(),
{
    Weight { num: 1, den: num_images as u64 }
}

/// A sample scaled by a weight.
pub fn scale_pixel(x: u16, w: Weight) -> (r: u16)
    requires
        w.wf(),
    ensures
        r == scale_sample(x, w),
{
    assert(2 * x * w.num + w.den <= 2 * 0xffff * 0xffff_ffff_ffff_ffff + 0xffff_ffff_ffff_ffff)
        by (nonlinear_arith)
        requires
            x <= 0xffff,
            w.num <= 0xffff_ffff_ffff_ffff,
            w.den <= 0xffff_ffff_ffff_ffff,
    ;
    assert(2 * x * w.num >= 0) by (nonlinear_arith)
        requires
            x >= 0,
            w.num >= 0,
    ;
    let twice: u128 = 2 * (x as u128);
    let n: u128 = twice * (w.num as u128) + (w.den as u128);
    let d: u128 = 2 * (w.den as u128);
    let q: u128 = n / d;
    if q > SAMPLE_MAX as u128 {
        SAMPLE_MAX
    } else {
        q as u16
    }
}

/// In normal mode every frame has the weight one, whatever its index and the
/// length of the sequence.
pub proof fn normal_intensity_is_one(index: nat, num_images: nat)
    ensures
        intensity_of(CometMode::Normal, index, num_images).is_one(),
{
}

/// In falling mode the first frame has the weight one and the last one the
/// weight one over the length of the sequence.
pub proof fn falling_intensity_at_ends(num_images: nat)
    requires
        0 < num_images <= u64::MAX,
    ensures
        intensity_of(CometMode::Falling, 0, num_images).is_one(),
        intensity_of(CometMode::Falling, (num_images - 1) as nat, num_images) == (Weight {
            num: 1,
            den: num_images as u64,
        }),
{
}

/// At every place of a sequence the raising and the falling weight add up to one.
pub proof fn raising_complements_falling(index: nat, num_images: nat)
    requires
        index < num_images <= u64::MAX,
    ensures
        intensity_of(CometMode::Raising, index, num_images).den == num_images,
        intensity_of(CometMode::Falling, index, num_images).den == num_images,
        intensity_of(CometMode::Raising, index, num_images).num + intensity_of(
            CometMode::Falling,
            index,
            num_images,
        ).num == num_images,
        intensity_of(CometMode::Raising, index, num_images).complements(
            intensity_of(CometMode::Falling, index, num_images),
        ),
{
    let r = intensity_of(CometMode::Raising, index, num_images);
    let f = intensity_of(CometMode::Falling, index, num_images);
    assert(r.num * f.den + f.num * r.den == r.den * f.den) by (nonlinear_arith)
        requires
            r.den == f.den,
            r.num + f.num == f.den,
    ;
}

/// Scaling by the weight one changes no sample.
pub proof fn scale_by_one(x: u16, w: Weight)
    requires
        w.is_one(),
    ensures
        scale_sample(x, w) == x,
{
    let d = w.den as int;
    assert((2 * x * d + d) / (2 * d) == x) by (nonlinear_arith)
        requires
            d > 0,
            x >= 0,
    ;
}

/// Scaling by the weight zero gives zero.
pub proof fn scale_by_zero(x: u16, w: Weight)
    requires
        w.is_zero(),
    ensures
        scale_sample(x, w) == 0,
{
    let d = w.den as int;
    assert((2 * x * 0 + d) / (2 * d) == 0) by (nonlinear_arith)
        requires
            d > 0,
    ;
}

/// Two weights that stand for the same fraction scale every sample alike.
pub proof fn scale_depends_on_value(x: u16, v: Weight, w: Weight)
    requires
        v.wf(),
        w.wf(),
        v.same_value(w),
    ensures
        scale_sample(x, v) == scale_sample(x, w),
{
    let a = 2 * x * v.num + v.den;
    let b = 2 * v.den;
    let c = 2 * x * w.num + w.den;
    let d = 2 * w.den;
    assert(a >= 0 && c >= 0) by (nonlinear_arith)
        requires
            a == 2 * x * v.num + v.den,
            c == 2 * x * w.num + w.den,
            x >= 0,
            v.num >= 0,
            w.num >= 0,
            v.den > 0,
            w.den > 0,
    ;
    vstd::arithmetic::div_mod::lemma_div_multiples_vanish_quotient(w.den as int, a, b);
    vstd::arithmetic::div_mod::lemma_div_multiples_vanish_quotient(v.den as int, c, d);
    assert(w.den * a == v.den * c) by (nonlinear_arith)
        requires
            a == 2 * x * v.num + v.den,
            c == 2 * x * w.num + w.den,
            v.num * w.den == w.num * v.den,
    ;
    assert(w.den * b == v.den * d) by (nonlinear_arith)
        requires
            b == 2 * v.den,
            d == 2 * w.den,
    ;
}

/// A weight of at most one never brightens a sample.
pub proof fn scale_never_brightens(x: u16, w: Weight)
    requires
        w.wf(),
        w.num <= w.den,
    ensures
        scale_sample(x, w) <= x,
{
    let n = w.num as int;
    let d = w.den as int;
    assert((2 * x * n + d) / (2 * d) <= x) by (nonlinear_arith)
        requires
            d > 0,
            0 <= n <= d,
            x >= 0,
    ;
}

} // verus!
