//! Linear rescaling of a value from one integer span onto another, with
//! clamping to the target span and deliberate round-toward-zero division.

use vstd::prelude::*;

verus! {

/// Truncating (round-toward-zero) division for a positive divisor, as Rust's
/// `/` operator computes it on machine integers.
pub open spec fn trunc_div(a: int, b: int) -> int {
    if a >= 0 {
        a / b
    } else {
        -((-a) / b)
    }
}

/// `x` limited to the closed interval `[lo, hi]`.
pub open spec fn clamp_to(x: int, lo: int, hi: int) -> int {
    if x < lo {
        lo
    } else if x > hi {
        hi
    } else {
        x
    }
}

/// The unclamped linear remap of `v` from the span `[in_min, in_max]` onto
/// `[out_min, out_max]`, using truncating division.
pub open spec fn rescale_unclamped(
    v: int,
    in_min: int,
    in_max: int,
    out_min: int,
    out_max: int,
) -> int {
    trunc_div((v - in_min) * (out_max - out_min), in_max - in_min) + out_min
}

/// The remapped value of `v`, clamped to `[out_min, out_max]`.
pub open spec fn rescale_clamped(
    v: int,
    in_min: int,
    in_max: int,
    out_min: int,
    out_max: int,
) -> int {
    clamp_to(rescale_unclamped(v, in_min, in_max, out_min, out_max), out_min, out_max)
}

/// Rescale a value to a new range with limiting.
///
/// The intermediate product is carried in 128 bits, so the mapping is the
/// exact mathematical remap for every 32-bit argument.
pub fn rescale_and_clamp(value: i32, in_min: i32, in_max: i32, out_min: i32, out_max: i32) -> (r:
    i32)
    requires
        in_min < in_max,
        out_min < out_max,
    ensures
        r as int == rescale_clamped(
            value as int,
            in_min as int,
            in_max as int,
            out_min as int,
            out_max as int,
        ),
        out_min <= r <= out_max,
{
    let diff: i128 = value as i128 - in_min as i128;
    let span_out: i128 = out_max as i128 - out_min as i128;
    proof {
        assert(-0x10000000000000000 <= diff * span_out <= 0x10000000000000000)
            by (nonlinear_arith)
            requires
                -0x100000000 <= diff <= 0x100000000,
                0 <= span_out <= 0x100000000,
        ;
    }
    let num: i128 = diff * span_out;
    let den: i128 = in_max as i128 - in_min as i128;
    let q: i128 = num / den + out_min as i128;
    if q < out_min as i128 {
        out_min
    } else if q > out_max as i128 {
        out_max
    } else {
        q as i32
    }
}

} // verus!
