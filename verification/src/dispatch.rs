//! Work-group grid of the full-screen compute passes (tone mapping, accumulation,
//! clears, blits, denoising).
use vstd::prelude::*;
use crate::rt_schedule::div_ceil;

verus! {

/// `value / divisor` rounded up.
pub fn div_ceil_u32(value: u32, divisor: u32) -> (r: u32)
    requires
        divisor > 0,
    ensures
        r == div_ceil(value as int, divisor as int),
        r * divisor >= value,
        r > 0 ==> (r - 1) * divisor < value,
{
    let q = value / divisor;
    let m = value % divisor;
    proof {
        let d = divisor as int;
        assert(m != 0 ==> q < u32::MAX) by (nonlinear_arith)
            requires
                d > 0,
                q == value as int / d,
                m == value as int % d,
                value <= u32::MAX,
        ;
    }
    let r = q + if m == 0 { 0 } else { 1 };
    proof {
        let d = divisor as int;
        assert(value as int == q * d + m && 0 <= m < d) by (nonlinear_arith)
            requires
                d > 0,
                q == value as int / d,
                m == value as int % d,
        ;
        assert(div_ceil(value as int, d) == r && r * d >= value && (r > 0 ==> (r - 1) * d < value))
            by (nonlinear_arith)
            requires
                d > 0,
                value as int == q * d + m,
                0 <= m < d,
                r == q + if m == 0 { 0int } else { 1int },
        ;
    }
    r
}

/// The dispatch size covering a `width` x `height` image with work groups of
/// `group_x` x `group_y` threads.
pub fn compute_dispatch_groups(width: u32, height: u32, group_x: u32, group_y: u32) -> (g: [u32; 3])
    requires
        group_x > 0,
        group_y > 0,
    ensures
        g@ == seq![
            div_ceil(width as int, group_x as int) as u32,
            div_ceil(height as int, group_y as int) as u32,
            1u32,
        ],
        g[0] * group_x >= width,
        g[1] * group_y >= height,
{
    let x = div_ceil_u32(width, group_x);
    let y = div_ceil_u32(height, group_y);
    let g = [x, y, 1];
    assert(g@ =~= seq![x, y, 1u32]);
    g
}

} // verus!
