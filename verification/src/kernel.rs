//! The three per-sample combination rules and their lifting to whole rasters.

use vstd::prelude::*;

verus! {

/// Largest value a sample can hold.
pub const SAMPLE_MAX: u16 = 0xffff;

/// Brightest of two samples.
pub open spec fn lighten_sample(x: u16, y: u16) -> u16 {
    vstd::math::max(x as int, y as int) as u16
}

/// Sum of two samples, held at `SAMPLE_MAX`.
pub open spec fn additive_sample(x: u16, y: u16) -> u16 {
    vstd::math::min(x + y, SAMPLE_MAX as int) as u16
}

/// Difference of two samples, held at zero.
pub open spec fn subtract_sample(x: u16, y: u16) -> u16 {
    vstd::math::max(x - y, 0) as u16
}

/// Per-pixel brightest of two rasters of equal length.
pub open spec fn lighten(a: Seq<u16>, b: Seq<u16>) -> Seq<u16> {
    Seq::new(a.len(), |i: int| lighten_sample(a[i], b[i]))
}

/// Per-pixel saturating sum of two rasters of equal length.
pub open spec fn additive(a: Seq<u16>, b: Seq<u16>) -> Seq<u16> {
    Seq::new(a.len(), |i: int| additive_sample(a[i], b[i]))
}

/// Per-pixel difference of two rasters of equal length, never below zero.
pub open spec fn subtract(a: Seq<u16>, b: Seq<u16>) -> Seq<u16> {
    Seq::new(a.len(), |i: int| subtract_sample(a[i], b[i]))
}

/// The brightest-pixel rule does not depend on the order of its operands.
pub proof fn lighten_commutative(a: Seq<u16>, b: Seq<u16>)
    requires
        a.len() == b.len(),
    ensures
        lighten(a, b) == lighten(b, a),
{
    assert(lighten(a, b) =~= lighten(b, a));
}

/// The brightest-pixel rule may be grouped either way.
pub proof fn lighten_associative(a: Seq<u16>, b: Seq<u16>, c: Seq<u16>)
    requires
        a.len() == b.len(),
        b.len() == c.len(),
    ensures
        lighten(lighten(a, b), c) == lighten(a, lighten(b, c)),
{
    assert(lighten(lighten(a, b), c) =~= lighten(a, lighten(b, c)));
}

/// Merging a raster with itself under the brightest-pixel rule changes nothing.
pub proof fn lighten_idempotent(a: Seq<u16>)
    ensures
        lighten(a, a) == a,
{
    assert(lighten(a, a) =~= a);
}

/// The saturating sum does not depend on the order of its operands.
pub proof fn additive_commutative(a: Seq<u16>, b: Seq<u16>)
    requires
        a.len() == b.len(),
    ensures
        additive(a, b) == additive(b, a),
{
    assert(additive(a, b) =~= additive(b, a));
}

/// The saturating sum may be grouped either way.
pub proof fn additive_associative(a: Seq<u16>, b: Seq<u16>, c: Seq<u16>)
    requires
        a.len() == b.len(),
        b.len() == c.len(),
    ensures
        additive(additive(a, b), c) == additive(a, additive(b, c)),
{
    assert(additive(additive(a, b), c) =~= additive(a, additive(b, c)));
}

/// Brightest of two samples.
pub fn lighten_pixel(x: u16, y: u16) -> (r: u16)
    ensures
        r == lighten_sample(x, y),
{
    if x >= y {
        x
    } else {
        y
    }
}

/// Sum of two samples, held at `SAMPLE_MAX`.
pub fn additive_pixel(x: u16, y: u16) -> (r: u16)
    ensures
        r == additive_sample(x, y),
{
    if x > SAMPLE_MAX - y {
        SAMPLE_MAX
    } else {
        x + y
    }
}

/// Difference of two samples, held at zero.
pub fn subtract_pixel(x: u16, y: u16) -> (r: u16)
    ensures
        r == subtract_sample(x, y),
{
    if x >= y {
        x - y
    } else {
        0
    }
}

} // verus!
