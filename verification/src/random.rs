use vstd::prelude::*;

verus! {

/// One draw from the process-wide generator, by `rand::random::<u32>`. The
/// draw is uniform over all of `u32`; nothing is promised of its value, so
/// whatever is built on it is proved for every draw.
#[verifier::external_body]
pub(crate) fn random_draw() -> (draw: u32) {
    rand::random::<u32>()
}

/// A draw scaled onto `[0, span)`: the draw's share of the full range of
/// `u32`, taken of `span`.
pub open spec fn scale_spec(draw: u32, span: int) -> int {
    (draw as int * span) / 0x1_0000_0000
}

/// Scales a draw onto `[0, span)`.
pub fn scale_draw(draw: u32, span: i64) -> (r: i64)
    requires
        0 < span,
    ensures
        r == scale_spec(draw, span as int),
        0 <= r < span,
{
    proof {
        let d = draw as int;
        let s = span as int;
        assert(0 <= d * s && d * s < 0x1_0000_0000 * s) by (nonlinear_arith)
            requires
                0 <= d && d < 0x1_0000_0000,
                0 < s,
        ;
    }
    let product: i128 = (draw as i128) * (span as i128);
    let r: i128 = product / 0x1_0000_0000;
    r as i64
}

/// A draw scaled onto `[-factor, factor)`; zero where `factor` is zero.
pub open spec fn spread_spec(draw: u32, factor: int) -> int {
    if factor == 0 {
        0
    } else {
        scale_spec(draw, 2 * factor) - factor
    }
}

/// Scales a draw onto an offset of magnitude `factor` at most.
pub fn spread_draw(draw: u32, factor: i64) -> (r: i64)
    requires
        0 <= factor <= 0x3fff_ffff_ffff_ffff,
    ensures
        r == spread_spec(draw, factor as int),
        -factor <= r <= factor,
{
    if factor == 0 {
        0
    } else {
        scale_draw(draw, 2 * factor) - factor
    }
}

} // verus!
