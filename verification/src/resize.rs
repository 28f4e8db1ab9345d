//! Resize policy: the size an image is brought to so that its longer edge
//! meets a maximum dimension, and the resampling filter that gets it there.

use vstd::prelude::*;
use vstd::arithmetic::div_mod::{lemma_fundamental_div_mod, lemma_fundamental_div_mod_converse};
use vstd::arithmetic::mul::lemma_mul_is_commutative;

verus! {

/// Resampling filters that the policy chooses between.
#[derive(Clone, Copy, Debug, PartialEq, Eq, Structural)]
pub enum Filter {
    /// Cubic filter, used when a source edge exceeds the target.
    CatmullRom,
    /// Lanczos filter with window 3, used for every other change of size.
    Lanczos3,
}

/// What the policy decides for one image.
#[derive(Clone, Copy, Debug, PartialEq, Eq, Structural)]
pub struct ResizePlan {
    /// Width of the result.
    pub width: u32,
    /// Height of the result.
    pub height: u32,
    /// Filter to resample with, or `None` where the image already has that
    /// size.
    pub filter: Option<Filter>,
}

/// The larger of two numbers.
pub open spec fn larger(a: int, b: int) -> int {
    if a >= b {
        a
    } else {
        b
    }
}

/// `value * target / longest`, rounded to the nearest integer, halves upwards.
pub open spec fn scaled(value: int, target: int, longest: int) -> int {
    (2 * value * target + longest) / (2 * longest)
}

/// The size that the policy aims for. A square source takes the requested
/// size as it is; any other source has both edges scaled by
/// `larger(width, height) / larger(dim_x, dim_y)`.
pub open spec fn target_size(dim_x: u32, dim_y: u32, width: u32, height: u32) -> (int, int) {
    if dim_x != dim_y {
        let target = larger(width as int, height as int);
        let longest = larger(dim_x as int, dim_y as int);
        (scaled(dim_x as int, target, longest), scaled(dim_y as int, target, longest))
    } else {
        (width as int, height as int)
    }
}

/// The filter for bringing a `dim_x` by `dim_y` image to `width` by `height`.
pub open spec fn filter_for(dim_x: int, dim_y: int, width: int, height: int) -> Option<Filter> {
    if dim_x > width || dim_y > height {
        Some(Filter::CatmullRom)
    } else if dim_x != width || dim_y != height {
        Some(Filter::Lanczos3)
    } else {
        None
    }
}

/// The whole decision for a `dim_x` by `dim_y` source and a requested size.
pub open spec fn plan_for(dim_x: u32, dim_y: u32, width: u32, height: u32) -> ResizePlan {
    let (w, h) = target_size(dim_x, dim_y, width, height);
    ResizePlan {
        width: w as u32,
        height: h as u32,
        filter: filter_for(dim_x as int, dim_y as int, w, h),
    }
}

/// Scaling an edge rounds to the nearest integer, never exceeds the target,
/// and maps the longest edge to the target exactly.
pub proof fn lemma_scaled_is_nearest(value: int, target: int, longest: int)
    requires
        0 <= value <= longest,
        0 < longest,
        0 <= target,
    ensures
        0 <= scaled(value, target, longest) <= target,
        -longest < 2 * (scaled(value, target, longest) * longest - value * target) <= longest,
        value == longest ==> scaled(value, target, longest) == target,
{
    let n = 2 * value * target + longest;
    let d = 2 * longest;
    let s = n / d;
    let m = n % d;
    assert(0 <= value * target <= longest * target) by (nonlinear_arith)
        requires
            0 <= value <= longest,
            0 <= target,
    ;
    assert(2 * value * target == 2 * (value * target)) by (nonlinear_arith);
    lemma_fundamental_div_mod(n, d);
    assert(0 <= m < d);
    assert(d * s == 2 * (s * longest)) by (nonlinear_arith)
        requires
            d == 2 * longest,
    ;
    // n == d * s + m, so 2 * (s * longest - value * target) == longest - m.
    assert(s >= 0) by (nonlinear_arith)
        requires
            n >= 0,
            d > 0,
            n == d * s + m,
            m < d,
    ;
    assert(s <= target) by (nonlinear_arith)
        requires
            n == d * s + m,
            0 <= m,
            d == 2 * longest,
            longest > 0,
            n <= 2 * (longest * target) + longest,
    ;
    if value == longest {
        assert(n == target * d + longest) by (nonlinear_arith)
            requires
                n == 2 * value * target + longest,
                value == longest,
                d == 2 * longest,
        ;
        lemma_fundamental_div_mod_converse(n, d, target, longest);
    }
}

/// Scales one edge of an image whose longest edge is `longest` so that the
/// longest edge becomes `target`.
pub fn scale_edge(value: u32, target: u32, longest: u32) -> (edge: u32)
    requires
        value <= longest,
        0 < longest,
    ensures
        edge == scaled(value as int, target as int, longest as int),
{
    assert(value * target <= 0xffff_ffff * 0xffff_ffff) by (nonlinear_arith)
        requires
            0 <= value <= 0xffff_ffff,
            0 <= target <= 0xffff_ffff,
    ;
    let product: u64 = (value as u64) * (target as u64);
    let divisor: u64 = longest as u64;
    let quotient: u64 = product / divisor;
    let remainder: u64 = product % divisor;
    let rounded: u64 = if remainder >= divisor - remainder {
        quotient + 1
    } else {
        quotient
    };
    proof {
        let v = value as int;
        let t = target as int;
        let l = longest as int;
        let q = quotient as int;
        let r = remainder as int;
        lemma_scaled_is_nearest(v, t, l);
        lemma_fundamental_div_mod(v * t, l);
        lemma_mul_is_commutative(l, q);
        assert(2 * v * t == 2 * (v * t)) by (nonlinear_arith);
        if r >= l - r {
            assert(2 * v * t + l == (q + 1) * (2 * l) + (2 * r - l)) by (nonlinear_arith)
                requires
                    v * t == q * l + r,
                    2 * v * t == 2 * (v * t),
            ;
            lemma_fundamental_div_mod_converse(2 * v * t + l, 2 * l, q + 1, 2 * r - l);
        } else {
            assert(2 * v * t + l == q * (2 * l) + (2 * r + l)) by (nonlinear_arith)
                requires
                    v * t == q * l + r,
                    2 * v * t == 2 * (v * t),
            ;
            lemma_fundamental_div_mod_converse(2 * v * t + l, 2 * l, q, 2 * r + l);
        }
    }
    rounded as u32
}

/// Decides the size and the filter for a `dim_x` by `dim_y` image that is to
/// fit `width` by `height`.
pub fn resize_plan(dim_x: u32, dim_y: u32, width: u32, height: u32) -> (plan: ResizePlan)
    ensures
        plan == plan_for(dim_x, dim_y, width, height),
        plan.filter == filter_for(
            dim_x as int,
            dim_y as int,
            plan.width as int,
            plan.height as int,
        ),
        dim_x == dim_y ==> plan.width == width && plan.height == height,
        dim_x != dim_y ==> larger(plan.width as int, plan.height as int) == larger(
            width as int,
            height as int,
        ),
{
    let mut target_width = width;
    let mut target_height = height;
    if dim_x != dim_y {
        let target = if width >= height {
            width
        } else {
            height
        };
        let longest = if dim_x >= dim_y {
            dim_x
        } else {
            dim_y
        };
        proof {
            lemma_scaled_is_nearest(dim_x as int, target as int, longest as int);
            lemma_scaled_is_nearest(dim_y as int, target as int, longest as int);
        }
        target_width = scale_edge(dim_x, target, longest);
        target_height = scale_edge(dim_y, target, longest);
    }
    let filter = if dim_x > target_width || dim_y > target_height {
        Some(Filter::CatmullRom)
    } else if dim_x != target_width || dim_y != target_height {
        Some(Filter::Lanczos3)
    } else {
        None
    };
    ResizePlan { width: target_width, height: target_height, filter }
}

/// The longer edge of the result is the longer edge of what was asked for,
/// whatever the source; both edges of the result fit 32 bits.
pub proof fn lemma_longer_edge_meets_target(dim_x: u32, dim_y: u32, width: u32, height: u32)
    ensures
        target_size(dim_x, dim_y, width, height) == (
            plan_for(dim_x, dim_y, width, height).width as int,
            plan_for(dim_x, dim_y, width, height).height as int,
        ),
        larger(
            plan_for(dim_x, dim_y, width, height).width as int,
            plan_for(dim_x, dim_y, width, height).height as int,
        ) == larger(width as int, height as int),
{
    if dim_x != dim_y {
        let target = larger(width as int, height as int);
        let longest = larger(dim_x as int, dim_y as int);
        lemma_scaled_is_nearest(dim_x as int, target, longest);
        lemma_scaled_is_nearest(dim_y as int, target, longest);
    }
}

/// A source that is not square keeps its aspect ratio within rounding: each
/// edge of the result is the source's edge times the scale, rounded to the
/// nearest integer.
pub proof fn lemma_aspect_ratio_kept(dim_x: u32, dim_y: u32, width: u32, height: u32)
    requires
        dim_x != dim_y,
    ensures
        ({
            let plan = plan_for(dim_x, dim_y, width, height);
            let target = larger(width as int, height as int);
            let longest = larger(dim_x as int, dim_y as int);
            &&& -longest < 2 * (plan.width * longest - dim_x * target) <= longest
            &&& -longest < 2 * (plan.height * longest - dim_y * target) <= longest
        }),
{
    let target = larger(width as int, height as int);
    let longest = larger(dim_x as int, dim_y as int);
    lemma_scaled_is_nearest(dim_x as int, target, longest);
    lemma_scaled_is_nearest(dim_y as int, target, longest);
}

/// A square source fitted to a maximum dimension comes out square with
/// exactly that edge; a larger source is brought down with the cubic filter.
pub proof fn lemma_square_source_meets_max_dimension(dim: u32, max_dimension: u32)
    ensures
        plan_for(dim, dim, max_dimension, max_dimension).width == max_dimension,
        plan_for(dim, dim, max_dimension, max_dimension).height == max_dimension,
        dim > max_dimension ==> plan_for(dim, dim, max_dimension, max_dimension).filter == Some(
            Filter::CatmullRom,
        ),
{
}

} // verus!
