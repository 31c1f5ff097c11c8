//! Colormap lookup tables: 256 RGBA8 entries interpolated linearly between
//! colour stops, as single-precision floating point computes them.
//!
//! Entry `i` sits at `t = i / 255`, each stop at its position given in
//! thousandths; the fraction of the way through the segment around `t` and
//! the blended channel are computed with every operation rounded to single
//! precision (round to nearest, ties to even), and the channel is then cut
//! to a byte.  Single-precision values are held here exactly, as integer
//! multiples of `2^-60`, which every value of this computation is.
use vstd::prelude::*;

use crate::ui::Colormap;

verus! {

/// A colour stop: position in thousandths, then red, green, blue.
pub type Stop = (u32, u8, u8, u8);

/// The unit of the fixed-point values: `2^60` stands for 1.
pub const UNIT: u128 = 1152921504606846976;

/// One, in the units of the fixed-point values.
pub open spec fn one() -> nat {
    UNIT as nat
}

/// Two to the power `n`.
pub open spec fn two_to(n: nat) -> nat
    decreases n,
{
    if n == 0 {
        1
    } else {
        2 * two_to((n - 1) as nat)
    }
}

/// The number of binary digits of `v`.
pub open spec fn bit_len(v: nat) -> nat
    decreases v,
{
    if v == 0 {
        0
    } else {
        1 + bit_len(v / 2)
    }
}

/// `v` (in units of `2^-60`, plus a positive remainder below one unit when
/// `sticky`) rounded to 24 significant bits, ties to even: the single
/// precision value nearest to it.
pub open spec fn round24(v: nat, sticky: bool) -> nat {
    let h = bit_len(v);
    if h <= 24 {
        v
    } else {
        let u = two_to((h - 24) as nat);
        let q = v / u;
        let r = v % u;
        let half = u / 2;
        let up = r > half || (r == half && (sticky || q % 2 == 1));
        (if up {
            q + 1
        } else {
            q
        }) * u
    }
}

/// The single-precision value of `n / d`.
pub open spec fn ratio(n: nat, d: nat) -> nat {
    let x = n * one();
    round24(x / d, x % d != 0)
}

/// The single-precision value of a difference `a - b`, `b <= a`.
pub open spec fn minus(a: nat, b: nat) -> nat {
    round24((a - b) as nat, false)
}

/// The segment holding position `t`: the first `s` whose upper stop is at
/// or after `t`, or the last segment.
pub open spec fn segment_of(stops: Seq<Stop>, t: nat, s: int) -> int
    decreases stops.len() - s,
{
    if s + 2 >= stops.len() {
        s
    } else if t <= ratio(stops[s + 1].0 as nat, 1000) {
        s
    } else {
        segment_of(stops, t, s + 1)
    }
}

/// The red (`k == 0`), green (1) or blue (2) value of a stop.
pub open spec fn stop_channel(st: Stop, k: int) -> int {
    if k == 0 {
        st.1 as int
    } else if k == 1 {
        st.2 as int
    } else {
        st.3 as int
    }
}

/// The fraction of the way from `t0` to `t1` at `t`, kept within 0 and 1;
/// zero where the segment is shorter than `1e-6` or does not increase.
pub open spec fn fraction(t: nat, t0: nat, t1: nat) -> nat {
    if t1 <= t0 {
        0
    } else {
        let d2 = minus(t1, t0);
        if d2 < ratio(1, 1000000) || t <= t0 {
            0
        } else {
            let x = minus(t, t0) * one();
            let q = round24(x / d2, x % d2 != 0);
            if q > one() {
                one()
            } else {
                q
            }
        }
    }
}

/// The signed single-precision value of `v`.
pub open spec fn round24_signed(v: int) -> int {
    if v >= 0 {
        round24(v as nat, false) as int
    } else {
        -(round24((-v) as nat, false) as int)
    }
}

/// The channel blended from `c0` towards `c1` by the fraction `q`, cut to a
/// byte.
pub open spec fn blend(c0: int, c1: int, q: nat) -> int {
    let sum = c0 * one() + round24_signed((c1 - c0) * q);
    let v = round24_signed(sum);
    if v < 0 {
        0
    } else if v / (one() as int) > 255 {
        255
    } else {
        v / (one() as int)
    }
}

/// Channel `k` of entry `i` of the table interpolated through `stops`.
pub open spec fn lut_channel(stops: Seq<Stop>, i: int, k: int) -> int {
    let t = ratio(i as nat, 255);
    let s = segment_of(stops, t, 0);
    let t0 = ratio(stops[s].0 as nat, 1000);
    let t1 = ratio(stops[s + 1].0 as nat, 1000);
    blend(stop_channel(stops[s], k), stop_channel(stops[s + 1], k), fraction(t, t0, t1))
}

/// The table interpolated through `stops`: 256 entries of R, G, B, 255.
pub open spec fn lut_of(stops: Seq<Stop>, lut: Seq<u8>) -> bool {
    &&& lut.len() == 1024
    &&& forall|i: int, k: int|
        0 <= i < 256 && 0 <= k < 4 ==> #[trigger] lut[4 * i + k] == if k == 3 {
            255
        } else {
            lut_channel(stops, i, k)
        }
}

/// Stops at positions up to 1000.
pub open spec fn valid_stops(stops: Seq<Stop>) -> bool {
    &&& stops.len() >= 2
    &&& stops.len() <= 64
    &&& forall|j: int| 0 <= j < stops.len() ==> #[trigger] stops[j].0 <= 1000
}

proof fn lemma_two_to_pos(n: nat)
    ensures
        two_to(n) >= 1,
    decreases n,
{
    if n > 0 {
        lemma_two_to_pos((n - 1) as nat);
    }
}

proof fn lemma_two_to_mono(a: nat, b: nat)
    requires
        a <= b,
    ensures
        two_to(a) <= two_to(b),
    decreases b,
{
    lemma_two_to_pos(b);
    if a < b {
        lemma_two_to_mono(a, (b - 1) as nat);
    }
}

proof fn lemma_bit_len(v: nat)
    ensures
        v > 0 ==> two_to((bit_len(v) - 1) as nat) <= v < two_to(bit_len(v)),
        bit_len(v) <= v,
    decreases v,
{
    if v > 0 {
        lemma_bit_len(v / 2);
        lemma_two_to_pos(bit_len(v / 2));
    }
}

/// `round24` in exact arithmetic on `u128`.
fn round24_exec(v: u128, sticky: bool) -> (r: u128)
    requires
        v <= 0x4000_0000_0000_0000_0000_0000_0000_0000u128,
    ensures
        r == round24(v as nat, sticky),
        r <= 2 * v,
        v > 0 ==> r > 0,
{
    let mut h: u128 = 0;
    let mut w: u128 = v;
    proof {
        lemma_bit_len(v as nat);
    }
    while w > 0
        invariant
            h + bit_len(w as nat) == bit_len(v as nat),
            bit_len(v as nat) <= v,
        decreases w,
    {
        w = w / 2;
        h = h + 1;
    }
    if h <= 24 {
        return v;
    }
    let e = h - 24;
    let mut u: u128 = 1;
    let mut j: u128 = 0;
    proof {
        lemma_two_to_mono(e as nat, (h - 1) as nat);
    }
    while j < e
        invariant
            j <= e,
            e == h - 24,
            h == bit_len(v as nat),
            u == two_to(j as nat),
            u >= 1,
            two_to(e as nat) <= two_to((h - 1) as nat),
            two_to((h - 1) as nat) <= v,
        decreases e - j,
    {
        proof {
            lemma_two_to_mono((j + 1) as nat, e as nat);
            lemma_two_to_pos((j + 1) as nat);
        }
        u = u * 2;
        j = j + 1;
    }
    let q = v / u;
    let r = v % u;
    let half = u / 2;
    let up = r > half || (r == half && (sticky || q % 2 == 1));
    let q2 = if up { q + 1 } else { q };
    assert(q * u <= v && u <= v) by (nonlinear_arith)
        requires
            q == v / u,
            u >= 1,
            u <= v,
    ;
    assert(q2 * u <= 2 * v) by (nonlinear_arith)
        requires
            q * u <= v,
            u <= v,
            q2 <= q + 1,
    ;
    assert(q2 * u >= 1) by (nonlinear_arith)
        requires
            q == v / u,
            1 <= u <= v,
            q2 >= q,
    ;
    q2 * u
}

/// The single-precision value of `n / d`.
fn ratio_exec(n: u128, d: u128) -> (r: u128)
    requires
        d > 0,
        n <= 1000,
    ensures
        r == ratio(n as nat, d as nat),
        r <= 2 * (n as nat * one() / d as nat),
        n * UNIT >= d ==> r > 0,
{
    let x = n * UNIT;
    assert(x / d <= x) by (nonlinear_arith)
        requires
            d > 0,
            x >= 0,
    ;
    assert(x >= d ==> x / d > 0) by (nonlinear_arith)
        requires
            d > 0,
    ;
    round24_exec(x / d, x % d != 0)
}

/// The single-precision value of `a - b`.
fn minus_exec(a: u128, b: u128) -> (r: u128)
    requires
        b <= a,
        a <= 0x4000_0000_0000_0000_0000_0000_0000_0000u128,
    ensures
        r == minus(a as nat, b as nat),
        r <= 2 * (a - b),
{
    round24_exec(a - b, false)
}

fn channel_of(st: Stop, k: usize) -> (r: i128)
    requires
        k < 3,
    ensures
        r == stop_channel(st, k as int),
        0 <= r <= 255,
{
    if k == 0 {
        st.1 as i128
    } else if k == 1 {
        st.2 as i128
    } else {
        st.3 as i128
    }
}

/// The signed single-precision value of `v`.
fn round24_signed_exec(v: i128) -> (r: i128)
    requires
        -0x1000_0000_0000_0000_0000i128 <= v <= 0x1000_0000_0000_0000_0000i128,
    ensures
        r == round24_signed(v as int),
        v >= 0 ==> 0 <= r <= 2 * v,
        v < 0 ==> 2 * v <= r <= 0,
{
    if v >= 0 {
        round24_exec(v as u128, false) as i128
    } else {
        -(round24_exec((-v) as u128, false) as i128)
    }
}

fn fraction_exec(t: u128, t0: u128, t1: u128) -> (r: u128)
    requires
        t <= 2 * UNIT,
        t0 <= 4 * UNIT,
        t1 <= 4 * UNIT,
    ensures
        r == fraction(t as nat, t0 as nat, t1 as nat),
        r <= UNIT,
{
    if t1 <= t0 {
        return 0;
    }
    let d2 = minus_exec(t1, t0);
    let eps = ratio_exec(1, 1000000);
    if d2 < eps || t <= t0 {
        return 0;
    }
    let d1 = minus_exec(t, t0);
    let x = d1 * UNIT;
    assert(x / d2 <= x) by (nonlinear_arith)
        requires
            d2 > 0,
            x >= 0,
    ;
    let q = round24_exec(x / d2, x % d2 != 0);
    if q > UNIT {
        UNIT
    } else {
        q
    }
}

fn blend_exec(c0: i128, c1: i128, q: u128) -> (r: u8)
    requires
        0 <= c0 <= 255,
        0 <= c1 <= 255,
        q <= UNIT,
    ensures
        r == blend(c0 as int, c1 as int, q as nat),
{
    let qi = q as i128;
    assert(-255 * 0x1000_0000_0000_0000i128 <= (c1 - c0) * qi <= 255 * 0x1000_0000_0000_0000i128) by (nonlinear_arith)
        requires
            -255 <= c1 - c0 <= 255,
            0 <= qi <= 0x1000_0000_0000_0000i128,
    ;
    let p = round24_signed_exec((c1 - c0) * qi);
    assert(0 <= c0 * (UNIT as i128) <= 255 * 0x1000_0000_0000_0000i128) by (nonlinear_arith)
        requires
            0 <= c0 <= 255,
            UNIT == 0x1000_0000_0000_0000u128,
    ;
    let sum = c0 * (UNIT as i128) + p;
    let v = round24_signed_exec(sum);
    if v < 0 {
        0
    } else if v / (UNIT as i128) > 255 {
        255
    } else {
        (v / (UNIT as i128)) as u8
    }
}

fn find_segment(stops: &Vec<Stop>, t: u128) -> (s: usize)
    requires
        valid_stops(stops@),
    ensures
        s == segment_of(stops@, t as nat, 0),
        s + 1 < stops@.len(),
{
    let n = stops.len();
    let mut s: usize = 0;
    while s + 2 < n && !(t <= ratio_exec(stops[s + 1].0 as u128, 1000))
        invariant
            n == stops@.len(),
            valid_stops(stops@),
            s + 2 <= n,
            segment_of(stops@, t as nat, 0) == segment_of(stops@, t as nat, s as int),
        decreases n - s,
    {
        s = s + 1;
    }
    s
}

fn entry_channel(stops: &Vec<Stop>, s: usize, t: u128, i: usize, k: usize) -> (r: u8)
    requires
        valid_stops(stops@),
        s + 1 < stops@.len(),
        t == ratio(i as nat, 255),
        t <= 2 * UNIT,
        s == segment_of(stops@, t as nat, 0),
        i < 256,
        k < 3,
    ensures
        r == lut_channel(stops@, i as int, k as int),
{
    let p0 = stops[s].0 as u128;
    let p1 = stops[s + 1].0 as u128;
    assert(p0 <= 1000 && p1 <= 1000);
    let t0 = ratio_exec(p0, 1000);
    let t1 = ratio_exec(p1, 1000);
    assert((p0 as nat) * one() / 1000 <= one()) by (nonlinear_arith)
        requires
            p0 <= 1000,
    ;
    assert((p1 as nat) * one() / 1000 <= one()) by (nonlinear_arith)
        requires
            p1 <= 1000,
    ;
    let q = fraction_exec(t, t0, t1);
    let c0 = channel_of(stops[s], k);
    let c1 = channel_of(stops[s + 1], k);
    blend_exec(c0, c1, q)
}

/// The lookup table interpolated through `stops`.
pub fn interpolate_lut(stops: &Vec<Stop>) -> (r: Vec<u8>)
    requires
        valid_stops(stops@),
    ensures
        lut_of(stops@, r@),
{
    let mut data: Vec<u8> = Vec::new();
    let mut i: usize = 0;
    while i < 256
        invariant
            valid_stops(stops@),
            i <= 256,
            data@.len() == 4 * i,
            forall|j: int, k: int|
                0 <= j < i && 0 <= k < 4 ==> #[trigger] data@[4 * j + k] == if k == 3 {
                    255
                } else {
                    lut_channel(stops@, j, k)
                },
        decreases 256 - i,
    {
        let t = ratio_exec(i as u128, 255);
        assert((i as nat) * one() / 255 <= one()) by (nonlinear_arith)
            requires
                i <= 255,
        ;
        let s = find_segment(stops, t);
        let r = entry_channel(stops, s, t, i, 0);
        let g = entry_channel(stops, s, t, i, 1);
        let b = entry_channel(stops, s, t, i, 2);
        let ghost before = data@;
        data.push(r);
        data.push(g);
        data.push(b);
        data.push(255);
        assert forall|j: int, k: int| 0 <= j < i + 1 && 0 <= k < 4 implies #[trigger] data@[4 * j + k]
            == if k == 3 {
            255
        } else {
            lut_channel(stops@, j, k)
        } by {
            if j < i {
                assert(data@[4 * j + k] == before[4 * j + k]);
            }
        }
        i = i + 1;
    }
    data
}

// ---------------------------------------------------------------------------
// The colormaps
// ---------------------------------------------------------------------------

/// The colour stops of each colormap.
pub open spec fn colormap_stops(cm: Colormap) -> Seq<Stop> {
    match cm {
        Colormap::Viridis => seq![
            (0, 68, 1, 84), (125, 72, 35, 116), (250, 64, 67, 135), (375, 52, 94, 141),
            (500, 33, 145, 140), (625, 53, 183, 121), (750, 109, 205, 89), (875, 180, 222, 44),
            (1000, 253, 231, 37)],
        Colormap::Plasma => seq![
            (0, 13, 8, 135), (125, 75, 3, 161), (250, 126, 3, 168), (375, 168, 34, 150),
            (500, 204, 71, 120), (625, 230, 111, 82), (750, 248, 149, 64), (875, 249, 199, 42),
            (1000, 240, 249, 33)],
        Colormap::Inferno => seq![
            (0, 0, 0, 4), (125, 40, 11, 84), (250, 101, 21, 110), (375, 159, 42, 99),
            (500, 212, 72, 66), (625, 245, 125, 21), (750, 250, 175, 8), (875, 245, 224, 76),
            (1000, 252, 255, 164)],
        Colormap::Magma => seq![
            (0, 0, 0, 4), (125, 28, 16, 68), (250, 79, 18, 123), (375, 136, 34, 142),
            (500, 183, 54, 121), (625, 227, 89, 101), (750, 249, 142, 109), (875, 254, 205, 170),
            (1000, 252, 253, 191)],
        Colormap::Cividis => seq![
            (0, 0, 32, 77), (125, 0, 56, 108), (250, 59, 77, 107), (375, 95, 97, 104),
            (500, 123, 118, 105), (625, 153, 140, 96), (750, 185, 163, 78), (875, 218, 189, 49),
            (1000, 253, 216, 2)],
        Colormap::Turbo => seq![
            (0, 48, 18, 59), (100, 70, 68, 202), (200, 62, 131, 252), (300, 18, 190, 209),
            (400, 17, 232, 150), (500, 83, 253, 74), (600, 177, 237, 17), (700, 237, 195, 11),
            (800, 252, 136, 12), (900, 222, 63, 10), (1000, 122, 4, 3)],
        Colormap::RdBuR => seq![
            (0, 5, 48, 97), (125, 33, 102, 172), (250, 67, 147, 195), (375, 146, 197, 222),
            (500, 247, 247, 247), (625, 244, 165, 130), (750, 214, 96, 77), (875, 178, 24, 43),
            (1000, 103, 0, 31)],
        Colormap::Coolwarm => seq![
            (0, 59, 76, 192), (125, 98, 130, 234), (250, 141, 176, 254), (375, 184, 208, 249),
            (500, 221, 221, 221), (625, 245, 186, 152), (750, 238, 138, 105), (875, 213, 75, 60),
            (1000, 180, 4, 38)],
        Colormap::Spectral => seq![
            (0, 158, 1, 66), (125, 213, 62, 79), (250, 244, 109, 67), (375, 253, 174, 97),
            (500, 255, 255, 191), (625, 171, 221, 164), (750, 102, 194, 165), (875, 50, 136, 189),
            (1000, 94, 79, 162)],
        Colormap::BrBG => seq![
            (0, 84, 48, 5), (125, 140, 81, 10), (250, 191, 129, 45), (375, 223, 194, 125),
            (500, 245, 245, 245), (625, 128, 205, 193), (750, 53, 151, 143), (875, 1, 102, 94),
            (1000, 0, 60, 48)],
    }
}

/// The colour stops of a colormap.
pub fn stops_of(cm: Colormap) -> (r: Vec<Stop>)
    ensures
        r@ == colormap_stops(cm),
        valid_stops(r@),
{
    let v: Vec<Stop> = match cm {
        Colormap::Viridis => vec![
            (0, 68, 1, 84), (125, 72, 35, 116), (250, 64, 67, 135), (375, 52, 94, 141),
            (500, 33, 145, 140), (625, 53, 183, 121), (750, 109, 205, 89), (875, 180, 222, 44),
            (1000, 253, 231, 37)],
        Colormap::Plasma => vec![
            (0, 13, 8, 135), (125, 75, 3, 161), (250, 126, 3, 168), (375, 168, 34, 150),
            (500, 204, 71, 120), (625, 230, 111, 82), (750, 248, 149, 64), (875, 249, 199, 42),
            (1000, 240, 249, 33)],
        Colormap::Inferno => vec![
            (0, 0, 0, 4), (125, 40, 11, 84), (250, 101, 21, 110), (375, 159, 42, 99),
            (500, 212, 72, 66), (625, 245, 125, 21), (750, 250, 175, 8), (875, 245, 224, 76),
            (1000, 252, 255, 164)],
        Colormap::Magma => vec![
            (0, 0, 0, 4), (125, 28, 16, 68), (250, 79, 18, 123), (375, 136, 34, 142),
            (500, 183, 54, 121), (625, 227, 89, 101), (750, 249, 142, 109), (875, 254, 205, 170),
            (1000, 252, 253, 191)],
        Colormap::Cividis => vec![
            (0, 0, 32, 77), (125, 0, 56, 108), (250, 59, 77, 107), (375, 95, 97, 104),
            (500, 123, 118, 105), (625, 153, 140, 96), (750, 185, 163, 78), (875, 218, 189, 49),
            (1000, 253, 216, 2)],
        Colormap::Turbo => vec![
            (0, 48, 18, 59), (100, 70, 68, 202), (200, 62, 131, 252), (300, 18, 190, 209),
            (400, 17, 232, 150), (500, 83, 253, 74), (600, 177, 237, 17), (700, 237, 195, 11),
            (800, 252, 136, 12), (900, 222, 63, 10), (1000, 122, 4, 3)],
        Colormap::RdBuR => vec![
            (0, 5, 48, 97), (125, 33, 102, 172), (250, 67, 147, 195), (375, 146, 197, 222),
            (500, 247, 247, 247), (625, 244, 165, 130), (750, 214, 96, 77), (875, 178, 24, 43),
            (1000, 103, 0, 31)],
        Colormap::Coolwarm => vec![
            (0, 59, 76, 192), (125, 98, 130, 234), (250, 141, 176, 254), (375, 184, 208, 249),
            (500, 221, 221, 221), (625, 245, 186, 152), (750, 238, 138, 105), (875, 213, 75, 60),
            (1000, 180, 4, 38)],
        Colormap::Spectral => vec![
            (0, 158, 1, 66), (125, 213, 62, 79), (250, 244, 109, 67), (375, 253, 174, 97),
            (500, 255, 255, 191), (625, 171, 221, 164), (750, 102, 194, 165), (875, 50, 136, 189),
            (1000, 94, 79, 162)],
        Colormap::BrBG => vec![
            (0, 84, 48, 5), (125, 140, 81, 10), (250, 191, 129, 45), (375, 223, 194, 125),
            (500, 245, 245, 245), (625, 128, 205, 193), (750, 53, 151, 143), (875, 1, 102, 94),
            (1000, 0, 60, 48)],
    };
    v
}

/// Generate the lookup table (256 RGBA8 entries) of a colormap.
pub fn colormap_lut(colormap: Colormap) -> (r: Vec<u8>)
    ensures
        lut_of(colormap_stops(colormap), r@),
{
    let stops = stops_of(colormap);
    interpolate_lut(&stops)
}


/// Every colormap's stops run from 0 to 1000.
pub proof fn lemma_colormaps_span_unit(cm: Colormap)
    ensures
        spans_unit(colormap_stops(cm)),
{
    let st = colormap_stops(cm);
    assert(forall|j: int| 0 <= j < st.len() - 1 ==> #[trigger] st[j].0 < 1000);
}

proof fn lemma_two_to_adds(a: nat, b: nat)
    ensures
        two_to(a + b) == two_to(a) * two_to(b),
    decreases b,
{
    if b > 0 {
        lemma_two_to_adds(a, (b - 1) as nat);
        assert((a + b - 1) as nat == a + ((b - 1) as nat));
        assert(two_to(a + b) == 2 * two_to((a + b - 1) as nat));
        assert(two_to(a) * two_to(b) == two_to(a) * (2 * two_to((b - 1) as nat)));
        assert(two_to(a) * (2 * two_to((b - 1) as nat)) == 2 * (two_to(a) * two_to((b - 1) as nat))) by (nonlinear_arith);
    } else {
        assert(two_to(0) == 1);
        assert(a + b == a);
    }
}

proof fn lemma_bit_len_shift(c: nat, m: nat)
    requires
        c > 0,
    ensures
        bit_len(c * two_to(m)) == bit_len(c) + m,
    decreases m,
{
    if m > 0 {
        lemma_bit_len_shift(c, (m - 1) as nat);
        let x = c * two_to((m - 1) as nat);
        assert(c * two_to(m) == 2 * x) by (nonlinear_arith)
            requires
                two_to(m) == 2 * two_to((m - 1) as nat),
                x == c * two_to((m - 1) as nat),
        ;
        lemma_two_to_pos((m - 1) as nat);
        assert(x > 0) by (nonlinear_arith)
            requires
                c > 0,
                two_to((m - 1) as nat) >= 1,
                x == c * two_to((m - 1) as nat),
        ;
        assert((2 * x) / 2 == x);
        assert(bit_len(2 * x) == 1 + bit_len(x));
        assert(bit_len(c * two_to(m)) == bit_len(2 * x));
    } else {
        assert(two_to(0) == 1);
        assert(c * two_to(m) == c);
    }
}

/// A value of at most 24 significant bits is its own rounding.
proof fn lemma_round24_exact(c: nat, m: nat)
    requires
        c < two_to(24),
    ensures
        round24(c * two_to(m), false) == c * two_to(m),
{
    let v = c * two_to(m);
    if c > 0 {
        lemma_bit_len_shift(c, m);
        lemma_bit_len(c);
        if bit_len(c) >= 25 {
            lemma_two_to_mono(24, (bit_len(c) - 1) as nat);
        }
        let h = bit_len(v);
        if h > 24 {
            let e = (h - 24) as nat;
            assert(e <= m);
            lemma_two_to_adds((m - e) as nat, e);
            let u = two_to(e);
            lemma_two_to_pos(e);
            let k = c * two_to((m - e) as nat);
            assert(v == k * u) by (nonlinear_arith)
                requires
                    v == c * two_to(m),
                    two_to(m) == two_to((m - e) as nat) * u,
                    k == c * two_to((m - e) as nat),
            ;
            vstd::arithmetic::div_mod::lemma_mod_multiples_basic(k as int, u as int);
            vstd::arithmetic::div_mod::lemma_div_multiples_vanish(k as int, u as int);
            assert(u * k == k * u) by (nonlinear_arith);
            assert(v / u == k);
            assert(v % u == 0);
            assert(u >= 2) by {
                lemma_two_to_mono(1, e);
            }
        }
    } else {
        assert(v == 0);
    }
}

proof fn lemma_two_to_values()
    ensures
        two_to(24) == 16777216,
        two_to(36) == 68719476736,
        two_to(37) == 137438953472,
        two_to(60) == one(),
        two_to(61) == 2 * one(),
{
    reveal_with_fuel(two_to, 61);
}

/// Rounding moves a value by less than one unit of its 24th bit.
proof fn lemma_round24_near(v: nat, sticky: bool, b: nat)
    requires
        v < two_to(b),
        b >= 24,
    ensures
        v - two_to((b - 24) as nat) <= round24(v, sticky) <= v + two_to((b - 24) as nat),
{
    lemma_bit_len(v);
    let h = bit_len(v);
    if h > 24 {
        if h > b {
            lemma_two_to_mono(b, (h - 1) as nat);
        }
        let u = two_to((h - 24) as nat);
        lemma_two_to_pos((h - 24) as nat);
        lemma_two_to_mono((h - 24) as nat, (b - 24) as nat);
        let q = v / u;
        let r = v % u;
        vstd::arithmetic::div_mod::lemma_fundamental_div_mod(v as int, u as int);
        assert(0 <= r < u);
        let q2 = if r > u / 2 || (r == u / 2 && (sticky || q % 2 == 1)) { q + 1 } else { q };
        assert(round24(v, sticky) == q2 * u);
        assert(v - u <= q2 * u <= v + u) by (nonlinear_arith)
            requires
                v == u * q + r,
                0 <= r < u,
                q <= q2 <= q + 1,
        ;
    }
}

/// Stops that run from 0 to 1000, with no other stop at 1000.
pub open spec fn spans_unit(stops: Seq<Stop>) -> bool {
    &&& stops.len() >= 2
    &&& stops[0].0 == 0
    &&& stops.last().0 == 1000
    &&& forall|j: int| 0 <= j < stops.len() - 1 ==> #[trigger] stops[j].0 < 1000
}

proof fn lemma_unit_ratio()
    ensures
        ratio(255, 255) == one(),
        ratio(1000, 1000) == one(),
        ratio(0, 1000) == 0,
        ratio(0, 255) == 0,
{
    lemma_two_to_values();
    lemma_round24_exact(1, 60);
    assert((255 * one()) / 255 == one());
    assert((1000 * one()) / 1000 == one());
    assert(bit_len(0) == 0);
}

proof fn lemma_below_unit(p: nat)
    requires
        p < 1000,
    ensures
        ratio(p, 1000) <= 999 * one() / 1000 + 68719476736,
        ratio(p, 1000) < one(),
{
    lemma_two_to_values();
    let x = p * one();
    assert(x / 1000 <= 999 * one() / 1000) by (nonlinear_arith)
        requires
            p <= 999,
            x == p * one(),
            one() == 1152921504606846976,
    ;
    lemma_round24_near(x / 1000, x % 1000 != 0, 60);
}

proof fn lemma_last_segment(stops: Seq<Stop>, s: int)
    requires
        0 <= s,
        s + 2 <= stops.len(),
        spans_unit(stops),
    ensures
        segment_of(stops, one(), s) == stops.len() - 2,
    decreases stops.len() - s,
{
    if s + 2 < stops.len() {
        assert(stops[s + 1].0 < 1000);
        lemma_below_unit(stops[s + 1].0 as nat);
        lemma_last_segment(stops, s + 1);
    }
}

proof fn lemma_blend_ends(c0: int, c1: int)
    requires
        0 <= c0 <= 255,
        0 <= c1 <= 255,
    ensures
        blend(c0, c1, 0) == c0,
        blend(c0, c1, one()) == c1,
{
    lemma_two_to_values();
    assert(bit_len(0) == 0);
    assert(round24_signed((c1 - c0) * 0) == 0);
    lemma_round24_exact(c0 as nat, 60);
    lemma_round24_exact(c1 as nat, 60);
    if c1 >= c0 {
        lemma_round24_exact((c1 - c0) as nat, 60);
    } else {
        lemma_round24_exact((c0 - c1) as nat, 60);
    }
    assert(c0 * one() + (c1 - c0) * one() == c1 * one()) by (nonlinear_arith);
    assert((c0 * one()) / (one() as int) == c0) by (nonlinear_arith)
        requires
            one() > 0,
    ;
    assert((c1 * one()) / (one() as int) == c1) by (nonlinear_arith)
        requires
            one() > 0,
    ;
}

/// The first entry of a table is the colour of the first stop, the last
/// entry the colour of the last stop.
#[verifier::spinoff_prover]
pub proof fn lemma_lut_ends(stops: Seq<Stop>, k: int)
    requires
        spans_unit(stops),
        forall|j: int| 0 <= j < stops.len() ==> #[trigger] stops[j].0 <= 1000,
        0 <= k < 3,
    ensures
        lut_channel(stops, 0, k) == stop_channel(stops[0], k),
        lut_channel(stops, 255, k) == stop_channel(stops.last(), k),
{
    lemma_unit_ratio();
    lemma_two_to_values();
    let c00 = stop_channel(stops[0], k);
    let c01 = stop_channel(stops[1], k);
    assert(segment_of(stops, 0, 0) == 0);
    assert(fraction(0, 0, ratio(stops[1].0 as nat, 1000)) == 0);
    lemma_blend_ends(c00, c01);
    lemma_last_segment(stops, 0);
    let s = stops.len() - 2;
    assert(stops[s + 1] == stops.last());
    let p0 = stops[s].0 as nat;
    assert(p0 < 1000);
    lemma_below_unit(p0);
    let t0 = ratio(p0, 1000);
    let d = (one() - t0) as nat;
    assert(d >= one() - 999 * one() / 1000 - 68719476736);
    lemma_round24_near(d, false, 61);
    let d2 = minus(one(), t0);
    assert(d2 >= d - 137438953472);
    let e = ratio(1, 1000000);
    lemma_round24_near(one() / 1000000, one() % 1000000 != 0, 60);
    assert(e <= one() / 1000000 + 68719476736);
    assert(d2 >= e);
    let x = d2 * one();
    assert(x / d2 == one() && x % d2 == 0) by {
        vstd::arithmetic::div_mod::lemma_div_multiples_vanish(one() as int, d2 as int);
        vstd::arithmetic::div_mod::lemma_mod_multiples_basic(one() as int, d2 as int);
        assert(d2 * one() == one() * d2) by (nonlinear_arith);
    }
    assert(fraction(one(), t0, one()) == one());
    lemma_blend_ends(stop_channel(stops[s], k), stop_channel(stops.last(), k));
}

/// Every colormap's table starts at the colour of its first stop and ends
/// at the colour of its last stop, fully opaque.
pub proof fn lemma_colormap_lut_ends(cm: Colormap, lut: Seq<u8>, k: int)
    requires
        lut_of(colormap_stops(cm), lut),
        0 <= k < 3,
    ensures
        lut[k] == stop_channel(colormap_stops(cm)[0], k),
        lut[1020 + k] == stop_channel(colormap_stops(cm).last(), k),
        lut[3] == 255 && lut[1023] == 255,
{
    let st = colormap_stops(cm);
    lemma_colormaps_span_unit(cm);
    assert forall|j: int| 0 <= j < st.len() implies #[trigger] st[j].0 <= 1000 by {
        if j < st.len() - 1 {
            assert(st[j].0 < 1000);
        }
    }
    lemma_lut_ends(st, k);
    assert(lut[4 * 0 + k] == lut_channel(st, 0, k));
    assert(lut[4 * 255 + k] == lut_channel(st, 255, k));
    assert(lut[4 * 0int + 3] == 255);
    assert(lut[4 * 255int + 3] == 255);
}

} // verus!
