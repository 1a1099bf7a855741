//! The colour model: an RGB triple, its packed wire form, and the conversion
//! from hue, saturation and value.
//!
//! The HSV conversion is the usual six-sector decomposition. With `s` and `v`
//! in percent and `h` in whole degrees every intermediate quantity is a
//! rational number with denominator 600 000, so the conversion is carried out
//! exactly on the numerators and rounded once, at the end.

use vstd::prelude::*;

verus! {

/// One pixel: three 8-bit channels, compared by value.
#[derive(Clone, Copy, Debug, PartialEq, Eq, Structural)]
pub struct Rgb {
    pub r: u8,
    pub g: u8,
    pub b: u8,
}

/// The hue, saturation or value handed to [`Rgb::from_hsv`] lies outside its
/// domain.
#[derive(Clone, Copy, Debug, PartialEq, Eq, Structural)]
pub struct RangeError;

/// Largest accepted hue, in degrees.
pub const HUE_MAX: u32 = 360;

/// Largest accepted saturation and value, in percent.
pub const PERCENT_MAX: u32 = 100;

/// Common denominator of chroma, secondary component and match value.
pub const HSV_SCALE: u32 = 600_000;

/// The domain of the conversion: `h` in `[0, 360]`, `s` and `v` in `[0, 100]`.
pub open spec fn hsv_in_range(h: int, s: int, v: int) -> bool {
    0 <= h <= 360 && 0 <= s <= 100 && 0 <= v <= 100
}

/// Index of the 60-degree sector that holds `h`. Sectors are closed below and
/// open above; the last one also takes `h = 360`.
pub open spec fn hue_sector(h: int) -> int {
    if h < 60 {
        0
    } else if h < 120 {
        1
    } else if h < 180 {
        2
    } else if h < 240 {
        3
    } else if h < 300 {
        4
    } else {
        5
    }
}

/// `60 * (1 - |((h / 60) mod 2) - 1|)`: the height, in sixtieths, of the
/// triangle wave that the secondary component follows.
pub open spec fn hue_ramp(h: int) -> int {
    let p = h % 120;
    if p <= 60 {
        p
    } else {
        120 - p
    }
}

/// Chroma `c = s * v`, times 600 000.
pub open spec fn chroma_scaled(s: int, v: int) -> int {
    60 * (s * v)
}

/// Secondary component `x = c * (1 - |((h / 60) mod 2) - 1|)`, times 600 000.
pub open spec fn secondary_scaled(h: int, s: int, v: int) -> int {
    (s * v) * hue_ramp(h)
}

/// Match value `m = v - c`, times 600 000.
pub open spec fn match_scaled(s: int, v: int) -> int {
    60 * (100 * v - s * v)
}

/// Red, green and blue, before the match value is added, for a hue in sector
/// `k` with chroma `c` and secondary component `x`.
pub open spec fn sector_assignment(k: int, c: int, x: int) -> (int, int, int) {
    if k == 0 {
        (c, x, 0)
    } else if k == 1 {
        (x, c, 0)
    } else if k == 2 {
        (0, c, x)
    } else if k == 3 {
        (0, x, c)
    } else if k == 4 {
        (x, 0, c)
    } else {
        (c, 0, x)
    }
}

/// The three components before the match value is added, times 600 000.
pub open spec fn sector_components(h: int, s: int, v: int) -> (int, int, int) {
    sector_assignment(hue_sector(h), chroma_scaled(s, v), secondary_scaled(h, s, v))
}

/// `round(255 * n / 600 000)` for a non-negative numerator, halves rounded up.
pub open spec fn channel_level(n: int) -> int {
    (510 * n + 600_000) / 1_200_000
}

/// The colour that `(h, s, v)` denotes, as three channel levels.
pub open spec fn hsv_levels(h: int, s: int, v: int) -> (int, int, int) {
    let (r, g, b) = sector_components(h, s, v);
    let m = match_scaled(s, v);
    (channel_level(r + m), channel_level(g + m), channel_level(b + m))
}

/// Every channel numerator of an in-range colour lies in `[0, 600 000]`, so
/// every level lies in `[0, 255]`.
pub proof fn lemma_hsv_levels_are_bytes(h: int, s: int, v: int)
    requires
        hsv_in_range(h, s, v),
    ensures
        0 <= hsv_levels(h, s, v).0 <= 255,
        0 <= hsv_levels(h, s, v).1 <= 255,
        0 <= hsv_levels(h, s, v).2 <= 255,
{
    lemma_components_bounded(h, s, v);
}

/// Bounds on the scaled components of an in-range colour.
pub proof fn lemma_components_bounded(h: int, s: int, v: int)
    requires
        hsv_in_range(h, s, v),
    ensures
        0 <= s * v <= 100 * v,
        0 <= hue_ramp(h) <= 60,
        0 <= secondary_scaled(h, s, v) <= chroma_scaled(s, v),
        0 <= chroma_scaled(s, v) + match_scaled(s, v) <= 600_000,
        0 <= match_scaled(s, v),
{
    assert(0 <= s * v <= 100 * v) by (nonlinear_arith)
        requires
            0 <= s <= 100,
            0 <= v <= 100,
    ;
    let p = s * v;
    let t = hue_ramp(h);
    assert(0 <= p * t <= 60 * p) by (nonlinear_arith)
        requires
            0 <= p,
            0 <= t <= 60,
    ;
}

/// Distance between two channel levels.
pub open spec fn level_gap(a: int, b: int) -> int {
    if a <= b {
        b - a
    } else {
        a - b
    }
}

/// At the hue where sector `k - 1` ends and sector `k` begins, the
/// assignments of both sectors give the same components: the conversion has
/// no jump at a sector boundary.
pub proof fn lemma_sector_boundaries_agree(k: int, s: int, v: int)
    requires
        1 <= k <= 5,
        0 <= s <= 100,
        0 <= v <= 100,
    ensures
        sector_assignment(k - 1, chroma_scaled(s, v), secondary_scaled(60 * k, s, v))
            == sector_assignment(k, chroma_scaled(s, v), secondary_scaled(60 * k, s, v)),
{
    let p = s * v;
    assert(p * 60 == 60 * p && p * 0 == 0) by (nonlinear_arith);
}

/// The hue circle closes: 360 degrees is the colour of 0 degrees.
pub proof fn lemma_hue_circle_closes(s: int, v: int)
    requires
        0 <= s <= 100,
        0 <= v <= 100,
    ensures
        hsv_levels(360, s, v) == hsv_levels(0, s, v),
{
    let p = s * v;
    assert(p * 0 == 0) by (nonlinear_arith);
}

/// The ramp rises through the even sectors and falls through the odd ones.
proof fn lemma_ramp_by_sector(h: int)
    requires
        0 <= h <= 360,
    ensures
        hue_sector(h) % 2 == 0 ==> hue_ramp(h) == h - 60 * hue_sector(h),
        hue_sector(h) % 2 == 1 ==> hue_ramp(h) == 60 * (hue_sector(h) + 1) - h,
{
}

/// Numerators that differ by at most 10 000 round to levels that differ by
/// at most five.
proof fn lemma_close_numerators_close_levels(a: int, b: int)
    requires
        0 <= a,
        0 <= b,
        a - b <= 10_000,
        b - a <= 10_000,
    ensures
        level_gap(channel_level(a), channel_level(b)) <= 5,
{
}

/// One degree of hue moves each channel numerator by at most `s * v`.
proof fn lemma_adjacent_components(h: int, s: int, v: int)
    requires
        hsv_in_range(h, s, v),
        h < 360,
    ensures
        level_gap(sector_components(h, s, v).0, sector_components(h + 1, s, v).0) <= s * v,
        level_gap(sector_components(h, s, v).1, sector_components(h + 1, s, v).1) <= s * v,
        level_gap(sector_components(h, s, v).2, sector_components(h + 1, s, v).2) <= s * v,
        0 <= sector_components(h, s, v).0,
        0 <= sector_components(h, s, v).1,
        0 <= sector_components(h, s, v).2,
        0 <= sector_components(h + 1, s, v).0,
        0 <= sector_components(h + 1, s, v).1,
        0 <= sector_components(h + 1, s, v).2,
{
    lemma_components_bounded(h, s, v);
    lemma_components_bounded(h + 1, s, v);
    lemma_ramp_by_sector(h);
    lemma_ramp_by_sector(h + 1);
    let p = s * v;
    let t0 = hue_ramp(h);
    let t1 = hue_ramp(h + 1);
    let k0 = hue_sector(h);
    let k1 = hue_sector(h + 1);
    let x0 = secondary_scaled(h, s, v);
    let x1 = secondary_scaled(h + 1, s, v);
    if k0 == k1 {
        assert(t1 == t0 + 1 || t1 == t0 - 1);
        assert(x1 == x0 + p || x1 == x0 - p) by (nonlinear_arith)
            requires
                x0 == p * t0,
                x1 == p * t1,
                t1 == t0 + 1 || t1 == t0 - 1,
        ;
    } else {
        assert(k1 == k0 + 1);
        assert(h + 1 == 60 * k1);
        if k1 % 2 == 1 {
            assert(t1 == 60 && t0 == 59);
            assert(x1 == 60 * p && x0 == 60 * p - p) by (nonlinear_arith)
                requires
                    x0 == p * t0,
                    x1 == p * t1,
                    t1 == 60,
                    t0 == 59,
            ;
        } else {
            assert(t1 == 0 && t0 == 1);
            assert(x1 == 0 && x0 == p) by (nonlinear_arith)
                requires
                    x0 == p * t0,
                    x1 == p * t1,
                    t1 == 0,
                    t0 == 1,
            ;
        }
    }
}

/// One degree of hue moves each channel by at most five levels, inside a
/// sector and across a sector boundary alike.
pub proof fn lemma_adjacent_hues_are_close(h: int, s: int, v: int)
    requires
        hsv_in_range(h, s, v),
        h < 360,
    ensures
        level_gap(hsv_levels(h, s, v).0, hsv_levels(h + 1, s, v).0) <= 5,
        level_gap(hsv_levels(h, s, v).1, hsv_levels(h + 1, s, v).1) <= 5,
        level_gap(hsv_levels(h, s, v).2, hsv_levels(h + 1, s, v).2) <= 5,
{
    lemma_components_bounded(h, s, v);
    lemma_adjacent_components(h, s, v);
    let m = match_scaled(s, v);
    let a = sector_components(h, s, v);
    let b = sector_components(h + 1, s, v);
    lemma_close_numerators_close_levels(a.0 + m, b.0 + m);
    lemma_close_numerators_close_levels(a.1 + m, b.1 + m);
    lemma_close_numerators_close_levels(a.2 + m, b.2 + m);
}

impl Rgb {
    /// Builds a pixel from its three channels; every byte value is valid.
    pub fn new(r: u8, g: u8, b: u8) -> (rgb: Self)
        ensures
            rgb == (Rgb { r, g, b }),
    {
        Self { r, g, b }
    }

    /// The all-off pixel.
    pub open spec fn black() -> Rgb {
        Rgb { r: 0, g: 0, b: 0 }
    }

    /// The 24-bit wire word: green in the most significant byte, then red,
    /// then blue.
    pub open spec fn packed(self) -> u32 {
        ((self.g as u32) << 16) | ((self.r as u32) << 8) | (self.b as u32)
    }

    /// Computes the wire word of this pixel.
    pub fn to_packed(&self) -> (word: u32)
        ensures
            word == self.packed(),
    {
        ((self.g as u32) << 16) | ((self.r as u32) << 8) | (self.b as u32)
    }

    /// Converts hue (degrees), saturation and value (percent) to RGB.
    ///
    /// Fails exactly when an argument is outside its domain. Otherwise each
    /// channel is the exactly rounded level of [`hsv_levels`].
    pub fn from_hsv(h: u32, s: u32, v: u32) -> (res: Result<Self, RangeError>)
        ensures
            res is Ok <==> hsv_in_range(h as int, s as int, v as int),
            res is Err ==> res == Err::<Rgb, RangeError>(RangeError),
            res matches Ok(rgb) ==> {
                &&& rgb.r == hsv_levels(h as int, s as int, v as int).0
                &&& rgb.g == hsv_levels(h as int, s as int, v as int).1
                &&& rgb.b == hsv_levels(h as int, s as int, v as int).2
            },
    {
        if h > HUE_MAX || s > PERCENT_MAX || v > PERCENT_MAX {
            return Err(RangeError);
        }
        proof {
            lemma_components_bounded(h as int, s as int, v as int);
        }
        let sv: u32 = s * v;
        let p: u32 = h % 120;
        let ramp: u32 = if p <= 60 {
            p
        } else {
            120 - p
        };
        let c: u32 = 60 * sv;
        let x: u32 = sv * ramp;
        let m: u32 = 60 * (100 * v - sv);
        let (r, g, b): (u32, u32, u32) = if h < 60 {
            (c, x, 0)
        } else if h < 120 {
            (x, c, 0)
        } else if h < 180 {
            (0, c, x)
        } else if h < 240 {
            (0, x, c)
        } else if h < 300 {
            (x, 0, c)
        } else {
            (c, 0, x)
        };
        Ok(Self { r: level_of(r + m), g: level_of(g + m), b: level_of(b + m) })
    }
}

impl From<Rgb> for u32 {
    /// The wire word of the pixel.
    fn from(rgb: Rgb) -> (word: u32) {
        rgb.to_packed()
    }
}

impl vstd::std_specs::convert::FromSpecImpl<Rgb> for u32 {
    open spec fn obeys_from_spec() -> bool {
        true
    }

    open spec fn from_spec(rgb: Rgb) -> u32 {
        rgb.packed()
    }
}

impl From<&Rgb> for u32 {
    /// The wire word of the pixel.
    fn from(rgb: &Rgb) -> (word: u32) {
        rgb.to_packed()
    }
}

impl vstd::std_specs::convert::FromSpecImpl<&Rgb> for u32 {
    open spec fn obeys_from_spec() -> bool {
        true
    }

    open spec fn from_spec(rgb: &Rgb) -> u32 {
        rgb.packed()
    }
}

/// Rounds a channel numerator to its 8-bit level.
fn level_of(n: u32) -> (level: u8)
    requires
        n <= HSV_SCALE,
    ensures
        level == channel_level(n as int),
{
    let q: u32 = (510 * n + 600_000) / 1_200_000;
    q as u8
}

} // verus!
