//! Linear remapping of a value from one range onto another.

use crate::fixed::saturate;
use vstd::arithmetic::div_mod::lemma_fundamental_div_mod;
use vstd::arithmetic::div_mod::lemma_fundamental_div_mod_converse;
use vstd::prelude::*;

verus! {

/// The point that corresponds to `n` when the range from `input_start` to
/// `input_end` is laid onto the range from `output_start` to `output_end`:
/// the line through the two ends, taken at `n` and rounded down to a whole
/// number. Nothing is clamped: a value outside the input range lands outside
/// the output range.
pub open spec fn remap(
    n: int,
    input_start: int,
    input_end: int,
    output_start: int,
    output_end: int,
) -> int
    recommends
        input_start != input_end,
{
    if input_end > input_start {
        output_start + ((output_end - output_start) * (n - input_start)) / (input_end
            - input_start)
    } else {
        output_start + ((output_start - output_end) * (n - input_start)) / (input_start
            - input_end)
    }
}

/// The size of `v` without its sign.
spec fn magnitude(v: int) -> int {
    if v < 0 {
        -v
    } else {
        v
    }
}

/// The size of the difference of two `i64` values, without its sign.
fn span(from: i64, to: i64) -> (size: u128)
    ensures
        size == magnitude(to - from),
        size <= 0xffff_ffff_ffff_ffff,
{
    let difference: i128 = to as i128 - from as i128;
    if difference < 0 {
        (-difference) as u128
    } else {
        difference as u128
    }
}

/// Rounding down the quotient of a negated numerator: the quotient of the
/// numerator itself, negated, and one lower where the division leaves a rest.
proof fn lemma_floor_of_negated(p: int, d: int)
    requires
        p >= 0,
        d > 0,
    ensures
        (-p) / d == (if p % d == 0 {
            -(p / d)
        } else {
            -(p / d) - 1
        }),
{
    let q = p / d;
    let r = p % d;
    lemma_fundamental_div_mod(p, d);
    assert(p == q * d + r) by (nonlinear_arith)
        requires
            p == d * q + r,
    ;
    if r == 0 {
        assert(-p == (-q) * d + 0) by (nonlinear_arith)
            requires
                p == q * d + r,
                r == 0,
        ;
        lemma_fundamental_div_mod_converse(-p, d, -q, 0);
    } else {
        assert(-p == (-q - 1) * d + (d - r)) by (nonlinear_arith)
            requires
                p == q * d + r,
        ;
        lemma_fundamental_div_mod_converse(-p, d, -q - 1, d - r);
    }
}

/// The product of two numbers from the product of their sizes: the sign is
/// that of the two factors together.
proof fn lemma_product_from_magnitudes(a: int, b: int)
    ensures
        (a < 0) == (b < 0) ==> a * b == magnitude(a) * magnitude(b),
        (a < 0) != (b < 0) ==> a * b == -(magnitude(a) * magnitude(b)),
        magnitude(a) * magnitude(b) >= 0,
{
    assert((-a) * (-b) == a * b) by (nonlinear_arith);
    assert((-a) * b == -(a * b)) by (nonlinear_arith);
    assert(a * (-b) == -(a * b)) by (nonlinear_arith);
    assert(magnitude(a) * magnitude(b) >= 0) by (nonlinear_arith)
        requires
            magnitude(a) >= 0,
            magnitude(b) >= 0,
    ;
}

/// Maps `n` from the range `input_start..input_end` onto the range
/// `output_start..output_end` along the line through the two ends, rounding
/// down. A value outside the input range is carried on along the same line; a
/// result beyond the range of `i64` stays at the end of that range.
pub fn map(n: i64, input_start: i64, input_end: i64, output_start: i64, output_end: i64) -> (mapped:
    i64)
    requires
        input_start != input_end,
    ensures
        mapped == saturate(
            remap(
                n as int,
                input_start as int,
                input_end as int,
                output_start as int,
                output_end as int,
            ),
        ),
        n == input_start ==> mapped == output_start,
        n == input_end ==> mapped == output_end,
{
    proof {
        lemma_remap_ends(
            input_start as int,
            input_end as int,
            output_start as int,
            output_end as int,
        );
    }
    let rise: u128 = span(output_start, output_end);
    let run: u128 = span(input_start, input_end);
    let offset: u128 = span(input_start, n);
    let falls: bool = (output_end < output_start) != (input_end < input_start);
    let downwards: bool = falls != (n < input_start);

    let ghost signed_rise: int = if input_end > input_start {
        output_end - output_start
    } else {
        output_start - output_end
    };
    let ghost numerator: int = signed_rise * (n - input_start);
    proof {
        assert(rise * offset <= 0xffff_ffff_ffff_ffff * 0xffff_ffff_ffff_ffff) by (nonlinear_arith)
            requires
                0 <= rise <= 0xffff_ffff_ffff_ffff,
                0 <= offset <= 0xffff_ffff_ffff_ffff,
        ;
        // The numerator is the product of the two sizes, negated where the
        // line lies below the start of the output range at `n`.
        lemma_product_from_magnitudes(signed_rise, n - input_start);
        assert(rise == 0 ==> rise * offset == 0) by (nonlinear_arith);
        assert(numerator == if downwards {
            -(rise * offset)
        } else {
            rise * offset
        });
    }
    let product: u128 = rise * offset;
    let quotient: u128 = product / run;
    let rest: u128 = product % run;
    proof {
        lemma_fundamental_div_mod(product as int, run as int);
        assert(quotient <= product) by (nonlinear_arith)
            requires
                product == run * quotient + rest,
                run >= 1,
                quotient >= 0,
                rest >= 0,
        ;
    }
    if !downwards {
        let room: u128 = (i64::MAX as i128 - output_start as i128) as u128;
        if quotient > room {
            i64::MAX
        } else {
            (output_start as i128 + quotient as i128) as i64
        }
    } else {
        proof {
            lemma_floor_of_negated(product as int, run as int);
        }
        let descent: u128 = if rest == 0 {
            quotient
        } else {
            quotient + 1
        };
        let room: u128 = (output_start as i128 - i64::MIN as i128) as u128;
        if descent > room {
            i64::MIN
        } else {
            (output_start as i128 - descent as i128) as i64
        }
    }
}

/// The two ends of the input range are mapped onto the two ends of the output
/// range.
pub proof fn lemma_remap_ends(input_start: int, input_end: int, output_start: int, output_end: int)
    requires
        input_start != input_end,
    ensures
        remap(input_start, input_start, input_end, output_start, output_end) == output_start,
        remap(input_end, input_start, input_end, output_start, output_end) == output_end,
{
    let run = if input_end > input_start {
        input_end - input_start
    } else {
        input_start - input_end
    };
    let rise = if input_end > input_start {
        output_end - output_start
    } else {
        output_start - output_end
    };
    assert(rise * (input_start - input_start) == 0) by (nonlinear_arith);
    lemma_fundamental_div_mod_converse(0, run, 0, 0);
    if input_end > input_start {
        assert(rise * (input_end - input_start) == rise * run + 0);
        lemma_fundamental_div_mod_converse(rise * run, run, rise, 0);
    } else {
        assert(rise * (input_end - input_start) == (-rise) * run + 0) by (nonlinear_arith)
            requires
                input_end - input_start == -run,
        ;
        lemma_fundamental_div_mod_converse((-rise) * run, run, -rise, 0);
    }
}

/// The map follows the line through the two ends: the mapped value is the
/// point of that line at `n`, rounded down, so it lies less than one below the
/// line and never above it. Stated without division: `run` times the height of
/// the mapped value above the start of the output range misses `rise` times
/// the distance of `n` from the start of the input range by less than `run`.
pub proof fn lemma_remap_follows_line(
    n: int,
    input_start: int,
    input_end: int,
    output_start: int,
    output_end: int,
)
    requires
        input_start != input_end,
    ensures
        ({
            let run = input_end - input_start;
            let rise = output_end - output_start;
            let height = remap(n, input_start, input_end, output_start, output_end) - output_start;
            &&& run > 0 ==> run * height <= rise * (n - input_start) < run * height + run
            &&& run < 0 ==> run * height + run < rise * (n - input_start) <= run * height
        }),
{
    let run = input_end - input_start;
    let rise = output_end - output_start;
    let offset = n - input_start;
    let height = remap(n, input_start, input_end, output_start, output_end) - output_start;
    if run > 0 {
        lemma_fundamental_div_mod(rise * offset, run);
    } else {
        lemma_fundamental_div_mod((-rise) * offset, -run);
        assert((-rise) * offset == -(rise * offset)) by (nonlinear_arith);
        assert((-run) * height == -(run * height)) by (nonlinear_arith);
    }
}

/// Where the output range is a whole multiple of the input range the map is
/// affine in its input: a constant slope times the distance from the start of
/// the input range, above the start of the output range.
pub proof fn lemma_remap_affine(
    n: int,
    input_start: int,
    input_end: int,
    output_start: int,
    output_end: int,
    slope: int,
)
    requires
        input_start != input_end,
        output_end - output_start == slope * (input_end - input_start),
    ensures
        remap(n, input_start, input_end, output_start, output_end) == output_start + slope * (n
            - input_start),
{
    let offset = n - input_start;
    if input_end > input_start {
        let run = input_end - input_start;
        assert((output_end - output_start) * offset == (slope * offset) * run + 0)
            by (nonlinear_arith)
            requires
                output_end - output_start == slope * run,
        ;
        lemma_fundamental_div_mod_converse(
            (output_end - output_start) * offset,
            run,
            slope * offset,
            0,
        );
    } else {
        let run = input_start - input_end;
        assert((output_start - output_end) * offset == (slope * offset) * run + 0)
            by (nonlinear_arith)
            requires
                output_end - output_start == slope * (-run),
        ;
        lemma_fundamental_div_mod_converse(
            (output_start - output_end) * offset,
            run,
            slope * offset,
            0,
        );
    }
}

} // verus!
