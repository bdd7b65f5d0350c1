use vstd::prelude::*;
use vstd::arithmetic::div_mod::{
    lemma_fundamental_div_mod,
    lemma_fundamental_div_mod_converse,
    lemma_mod_bound,
};

verus! {

/// One LED color: three independent 8-bit channels.
#[derive(Clone, Copy, Debug, PartialEq, Eq, Structural)]
pub struct Rgb {
    pub r: u8,
    pub g: u8,
    pub b: u8,
}

/// The color with every channel off.
pub fn off() -> (c: Rgb)
    ensures
        c == (Rgb { r: 0, g: 0, b: 0 }),
{
    Rgb { r: 0, g: 0, b: 0 }
}

/// One channel of the blend `a + (b - a) * t` with `t = tn / td`, rounded to
/// the nearest integer, halves away from zero.
pub open spec fn lerp_channel(a: int, b: int, tn: int, td: int) -> int {
    (2 * (a * (td - tn) + b * tn) + td) / (2 * td)
}

/// The per-channel blend of two colors at `t = tn / td`.
pub open spec fn lerp_spec(a: Rgb, b: Rgb, tn: int, td: int) -> Rgb {
    Rgb {
        r: lerp_channel(a.r as int, b.r as int, tn, td) as u8,
        g: lerp_channel(a.g as int, b.g as int, tn, td) as u8,
        b: lerp_channel(a.b as int, b.b as int, tn, td) as u8,
    }
}

/// The color of a cyclic gradient `g` at position `pos_num / pos_den` on a
/// wheel of `slices` positions: the position is scaled into gradient-index
/// space, its floor picks the color (modulo the gradient's length) and its
/// fractional part blends toward the next one.
pub open spec fn sample_spec(g: Seq<Rgb>, pos_num: int, pos_den: int, slices: int) -> Rgb {
    let n = g.len() as int;
    let d = pos_den * slices;
    let s = pos_num * n;
    let idx = (s / d) % n;
    lerp_spec(g[idx], g[(idx + 1) % n], s % d, d)
}

/// The exact blend stays within the 8-bit range.
pub proof fn lemma_lerp_channel_bounds(a: int, b: int, tn: int, td: int)
    requires
        0 <= a <= 255,
        0 <= b <= 255,
        0 <= tn <= td,
        0 < td,
    ensures
        0 <= lerp_channel(a, b, tn, td) <= 255,
{
    let x = 2 * (a * (td - tn) + b * tn) + td;
    let d = 2 * td;
    assert(0 <= a * (td - tn) <= 255 * (td - tn)) by (nonlinear_arith)
        requires
            0 <= a <= 255,
            0 <= tn <= td,
    ;
    assert(0 <= b * tn <= 255 * tn) by (nonlinear_arith)
        requires
            0 <= b <= 255,
            0 <= tn,
    ;
    lemma_fundamental_div_mod(x, d);
    lemma_mod_bound(x, d);
    let q = x / d;
    assert(0 <= q < 256) by (nonlinear_arith)
        requires
            x == d * q + x % d,
            0 <= x % d < d,
            0 <= x < 256 * d,
            0 < d,
    ;
}

/// Blending a channel with itself gives that channel back.
pub proof fn lemma_lerp_channel_same(a: int, tn: int, td: int)
    requires
        0 < td,
    ensures
        lerp_channel(a, a, tn, td) == a,
{
    assert(2 * (a * (td - tn) + a * tn) + td == a * (2 * td) + td) by (nonlinear_arith);
    lemma_fundamental_div_mod_converse(a * (2 * td) + td, 2 * td, a, td);
}

/// Interpolation at `t = 0` gives `a` exactly, and at `t = 1` gives `b`
/// exactly, for all colors `a` and `b`.
pub proof fn lemma_lerp_endpoints(a: Rgb, b: Rgb, td: int)
    requires
        0 < td,
    ensures
        lerp_spec(a, b, 0, td) == a,
        lerp_spec(a, b, td, td) == b,
{
    assert forall|x: int, y: int| 0 <= x <= 255 && 0 <= y <= 255 implies lerp_channel(x, y, 0, td)
        == x && lerp_channel(x, y, td, td) == y by {
        assert(2 * (x * (td - 0) + y * 0) + td == x * (2 * td) + td) by (nonlinear_arith);
        lemma_fundamental_div_mod_converse(x * (2 * td) + td, 2 * td, x, td);
        assert(2 * (x * (td - td) + y * td) + td == y * (2 * td) + td) by (nonlinear_arith);
        lemma_fundamental_div_mod_converse(y * (2 * td) + td, 2 * td, y, td);
    }
}

/// Sampling a gradient is periodic in the wheel size: moving the position by
/// one full turn (`slices` positions) gives the same color.
pub proof fn lemma_sample_periodic(g: Seq<Rgb>, pos_num: int, pos_den: int, slices: int)
    requires
        g.len() > 0,
        pos_den > 0,
        slices > 0,
        pos_num >= 0,
    ensures
        sample_spec(g, pos_num + slices * pos_den, pos_den, slices) == sample_spec(
            g,
            pos_num,
            pos_den,
            slices,
        ),
{
    let n = g.len() as int;
    let d = pos_den * slices;
    let s = pos_num * n;
    let s2 = (pos_num + slices * pos_den) * n;
    assert(d > 0) by (nonlinear_arith)
        requires
            d == pos_den * slices,
            pos_den > 0,
            slices > 0,
    ;
    assert(s2 == s + n * d) by (nonlinear_arith)
        requires
            d == pos_den * slices,
            s == pos_num * n,
            s2 == (pos_num + slices * pos_den) * n,
    ;
    lemma_fundamental_div_mod(s, d);
    lemma_mod_bound(s, d);
    assert(s2 == (s / d + n) * d + s % d) by (nonlinear_arith)
        requires
            s2 == s + n * d,
            s == d * (s / d) + s % d,
    ;
    lemma_fundamental_div_mod_converse(s2, d, s / d + n, s % d);
    lemma_fundamental_div_mod(s / d, n);
    lemma_mod_bound(s / d, n);
    assert(s / d + n == (1 + (s / d) / n) * n + (s / d) % n) by (nonlinear_arith)
        requires
            s / d == n * ((s / d) / n) + (s / d) % n,
    ;
    lemma_fundamental_div_mod_converse(s / d + n, n, 1 + (s / d) / n, (s / d) % n);
}

/// A gradient of a single color gives that color at every position.
pub proof fn lemma_sample_single(c: Rgb, pos_num: int, pos_den: int, slices: int)
    requires
        pos_den > 0,
        slices > 0,
        pos_num >= 0,
    ensures
        sample_spec(seq![c], pos_num, pos_den, slices) == c,
{
    let d = pos_den * slices;
    assert(d > 0) by (nonlinear_arith)
        requires
            d == pos_den * slices,
            pos_den > 0,
            slices > 0,
    ;
    let s = pos_num * 1;
    assert((s / d) % 1 == 0);
    assert((0 + 1int) % 1 == 0);
    lemma_mod_bound(s, d);
    lemma_lerp_channel_same(c.r as int, s % d, d);
    lemma_lerp_channel_same(c.g as int, s % d, d);
    lemma_lerp_channel_same(c.b as int, s % d, d);
}

fn lerp_channel_exec(a: u8, b: u8, tn: u128, td: u128) -> (r: u8)
    requires
        0 < td <= 0x1_0000_0000_0000_0000_0000,
        tn <= td,
    ensures
        r as int == lerp_channel(a as int, b as int, tn as int, td as int),
{
    proof {
        lemma_lerp_channel_bounds(a as int, b as int, tn as int, td as int);
        assert(a as int * (td - tn) <= 255 * (td - tn)) by (nonlinear_arith)
            requires
                a <= 255,
                tn <= td,
        ;
        assert(b as int * tn <= 255 * tn) by (nonlinear_arith)
            requires
                b <= 255,
        ;
    }
    let x = 2 * (a as u128 * (td - tn) + b as u128 * tn) + td;
    (x / (2 * td)) as u8
}

/// Linear interpolation between two colors at `t = tn / td`, per channel,
/// rounded to the nearest integer.
pub fn lerp(a: Rgb, b: Rgb, tn: u128, td: u128) -> (c: Rgb)
    requires
        0 < td <= 0x1_0000_0000_0000_0000_0000,
        tn <= td,
    ensures
        c == lerp_spec(a, b, tn as int, td as int),
{
    Rgb {
        r: lerp_channel_exec(a.r, b.r, tn, td),
        g: lerp_channel_exec(a.g, b.g, tn, td),
        b: lerp_channel_exec(a.b, b.b, tn, td),
    }
}

/// Samples the cyclic gradient `colors` at position `pos_num / pos_den` of a
/// wheel of `slices` positions, blending between neighbouring colors.
pub fn sample_gradient(colors: &Vec<Rgb>, pos_num: u64, pos_den: u64, slices: u8) -> (c: Rgb)
    requires
        colors@.len() > 0,
        pos_den > 0,
        slices > 0,
    ensures
        c == sample_spec(colors@, pos_num as int, pos_den as int, slices as int),
{
    let n = colors.len();
    proof {
        assert(pos_den as int * slices as int <= 0xffff_ffff_ffff_ffff * 255) by (nonlinear_arith)
            requires
                pos_den <= 0xffff_ffff_ffff_ffff,
                slices <= 255,
        ;
        assert(0 < pos_den as int * slices as int) by (nonlinear_arith)
            requires
                pos_den > 0,
                slices > 0,
        ;
        assert(pos_num as int * n as int <= 0xffff_ffff_ffff_ffff * 0xffff_ffff_ffff_ffff)
            by (nonlinear_arith)
            requires
                pos_num <= 0xffff_ffff_ffff_ffff,
                n <= 0xffff_ffff_ffff_ffff,
        ;
    }
    let d: u128 = pos_den as u128 * slices as u128;
    let s: u128 = pos_num as u128 * n as u128;
    let idx: usize = ((s / d) % (n as u128)) as usize;
    let next: usize = (idx + 1) % n;
    proof {
        lemma_mod_bound(s as int, d as int);
    }
    lerp(colors[idx], colors[next], s % d, d)
}

} // verus!
