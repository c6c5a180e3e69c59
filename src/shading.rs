//! Light-style lanes and the shading rule that combines base colour,
//! lightmap, light styles and the fullbright mask.
//!
//! Light-style intensities are fixed point: `LIGHT_ONE` stands for 1.0.
//! Colour channels, lightmap samples and fullbright masks are bytes where 255
//! stands for 1.0.

use vstd::arithmetic::div_mod::{lemma_div_by_multiple, lemma_div_denominator};
use vstd::prelude::*;

verus! {

/// The light-style intensity that stands for 1.0.
pub const LIGHT_ONE: u32 = 1000;

/// The value a face's light-style slot reads: the style's current intensity,
/// or `None` (an inactive lane) when no value is supplied for that style.
pub open spec fn lane_value(style: u8, values: Seq<u32>) -> Option<u32> {
    if (style as int) < values.len() {
        Some(values[style as int])
    } else {
        None
    }
}

/// Looks up the current intensity of one light style.
pub fn light_lane(style: u8, values: &[u32]) -> (r: Option<u32>)
    ensures
        r == lane_value(style, values@),
{
    if (style as usize) < values.len() {
        Some(values[style as usize])
    } else {
        None
    }
}

/// The four lanes of a face's light-style slots.
pub fn resolve_light_styles(styles: [u8; 4], values: &[u32]) -> (r: [Option<u32>; 4])
    ensures
        forall|i: int| 0 <= i < 4 ==> #[trigger] r@[i] == lane_value(styles@[i], values@),
{
    let r = [
        light_lane(styles[0], values),
        light_lane(styles[1], values),
        light_lane(styles[2], values),
        light_lane(styles[3], values),
    ];
    assert(forall|i: int| 0 <= i < 4 ==> #[trigger] r@[i] == lane_value(styles@[i], values@)) by {
        assert(r@[0] == lane_value(styles@[0], values@));
        assert(r@[1] == lane_value(styles@[1], values@));
        assert(r@[2] == lane_value(styles@[2], values@));
        assert(r@[3] == lane_value(styles@[3], values@));
    }
    r
}

/// Number of active lanes among the first `k`.
pub open spec fn lane_count(l: Seq<Option<u32>>, k: int) -> int
    decreases k,
{
    if k <= 0 {
        0
    } else {
        lane_count(l, k - 1) + if l[k - 1] is Some {
            1int
        } else {
            0int
        }
    }
}

/// Sum of the active lanes among the first `k`.
pub open spec fn lane_sum(l: Seq<Option<u32>>, k: int) -> int
    decreases k,
{
    if k <= 0 {
        0
    } else {
        lane_sum(l, k - 1) + match l[k - 1] {
            Some(v) => v as int,
            None => 0int,
        }
    }
}

/// A light multiplier `num / den`.
#[derive(Clone, Copy, Debug, PartialEq, Eq)]
pub struct LightFactor {
    pub num: u64,
    pub den: u64,
}

/// The blended multiplier of four lanes: the mean of the active lanes, or
/// 1.0 when no lane is active.
pub open spec fn blend(l: Seq<Option<u32>>) -> LightFactor {
    let c = lane_count(l, 4);
    if c == 0 {
        LightFactor { num: 1, den: 1 }
    } else {
        LightFactor { num: lane_sum(l, 4) as u64, den: (c * LIGHT_ONE as int) as u64 }
    }
}

/// Blends a face's four light-style lanes into one multiplier.
pub fn blend_light_styles(lanes: [Option<u32>; 4]) -> (r: LightFactor)
    ensures
        r == blend(lanes@),
        r.den > 0,
{
    let mut sum: u64 = 0;
    let mut count: u64 = 0;
    let mut k: usize = 0;
    while k < 4
        invariant
            k <= 4,
            sum == lane_sum(lanes@, k as int),
            count == lane_count(lanes@, k as int),
            sum <= k * 0xffff_ffffu64,
            count <= k,
        decreases 4 - k,
    {
        if let Some(v) = lanes[k] {
            sum = sum + v as u64;
            count = count + 1;
        }
        k += 1;
    }
    if count == 0 {
        LightFactor { num: 1, den: 1 }
    } else {
        assert(count * LIGHT_ONE <= 4 * 1000);
        LightFactor { num: sum, den: count * LIGHT_ONE as u64 }
    }
}

/// One shaded colour channel: the lightmapped colour
/// `base * lightmap / 255 * factor` mixed with the unlit `base` by
/// `mask / 255`, rounded down and saturated at 255.
pub open spec fn shade(base: u8, lightmap: u8, mask: u8, f: LightFactor) -> int {
    let n = base as int * lightmap as int * f.num as int * (255 - mask as int) + base as int
        * mask as int * 255 * f.den as int;
    let v = n / (255 * 255 * f.den as int);
    if v > 255 {
        255
    } else {
        v
    }
}

/// Shades one colour channel of a texel.
pub fn shade_channel(base: u8, lightmap: u8, mask: u8, f: LightFactor) -> (r: u8)
    requires
        f.den > 0,
    ensures
        r == shade(base, lightmap, mask, f),
{
    let b = base as u128;
    let lm = lightmap as u128;
    let m = mask as u128;
    let num = f.num as u128;
    let den = f.den as u128;
    assert(b * lm <= 255 * 255) by (nonlinear_arith)
        requires
            b <= 255,
            lm <= 255,
    ;
    assert(b * lm * num <= 255 * 255 * 0xffff_ffff_ffff_ffff) by (nonlinear_arith)
        requires
            b * lm <= 255 * 255,
            num <= 0xffff_ffff_ffff_ffff,
    ;
    assert(b * lm * num * (255 - m) <= 255 * 255 * 0xffff_ffff_ffff_ffff * 255) by (nonlinear_arith)
        requires
            b <= 255,
            lm <= 255,
            m <= 255,
            num <= 0xffff_ffff_ffff_ffff,
    ;
    assert(b * m <= 255 * 255) by (nonlinear_arith)
        requires
            b <= 255,
            m <= 255,
    ;
    assert(b * m * 255 * den <= 255 * 255 * 255 * 0xffff_ffff_ffff_ffff) by (nonlinear_arith)
        requires
            b <= 255,
            m <= 255,
            den <= 0xffff_ffff_ffff_ffff,
    ;
    assert(255 * 255 * den <= 255 * 255 * 0xffff_ffff_ffff_ffffu128) by (nonlinear_arith)
        requires
            den <= 0xffff_ffff_ffff_ffff,
    ;
    let n = b * lm * num * (255 - m) + b * m * 255 * den;
    let v = n / (255 * 255 * den);
    if v > 255 {
        255
    } else {
        v as u8
    }
}

/// A fully fullbright texel shows its base colour whatever the lightmap and
/// light styles; a texel with no fullbright shows base times lightmap times
/// the light factor.
pub proof fn lemma_fullbright_blend(base: u8, lightmap: u8, f: LightFactor)
    requires
        f.den > 0,
    ensures
        shade(base, lightmap, 255, f) == base,
        shade(base, lightmap, 0, f) == ({
            let v = (base as int * lightmap as int * f.num as int) / (255 * f.den as int);
            if v > 255 {
                255
            } else {
                v
            }
        }),
{
    let d = f.den as int;
    let b = base as int;
    let x = b * lightmap as int * f.num as int;
    assert(b * 255 * 255 * d == b * (255 * 255 * d)) by (nonlinear_arith);
    assert(x * 0 + b * 255 * 255 * d == b * (255 * 255 * d)) by (nonlinear_arith);
    assert(255 * 255 * d > 0) by (nonlinear_arith)
        requires
            d > 0,
    ;
    lemma_div_by_multiple(b, 255 * 255 * d);
    assert(x * 255 + b * 0 * 255 * d == x * 255) by (nonlinear_arith);
    assert(x >= 0) by (nonlinear_arith)
        requires
            x == b * lightmap as int * f.num as int,
            b >= 0,
    ;
    lemma_div_by_multiple(x, 255);
    lemma_div_denominator(x * 255, 255, 255 * d);
    assert(255 * (255 * d) == 255 * 255 * d) by (nonlinear_arith);
}

} // verus!
