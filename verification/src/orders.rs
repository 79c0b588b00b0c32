//! The orders codec: a single scalar encoding a 2D waypoint handed to a
//! newly launched missile or torpedo.
//!
//! A waypoint `(x, y)` with both coordinates in `[-BIAS, BIAS - 1]` is
//! packed as `(x + BIAS) + (y + BIAS) * SCALE`. The scalar `0` is reserved
//! for "no orders" and decodes to the origin; the one waypoint that packs
//! to `0` is `(-BIAS, -BIAS)` itself.

use vstd::prelude::*;

use vstd::arithmetic::div_mod::lemma_div_is_ordered_by_denominator;

verus! {

/// Unit in which the y coordinate is shifted past the x coordinate.
pub const SCALE: u64 = 1000000;

/// Offset that makes both packed coordinates non-negative.
pub const BIAS: i64 = 500000;

/// Whether a coordinate is small enough to be packed.
pub open spec fn coord_in_range(c: i64) -> bool {
    -BIAS <= c < BIAS
}

/// The packed form of a waypoint.
pub open spec fn orders_of(x: i64, y: i64) -> u64
    recommends
        coord_in_range(x),
        coord_in_range(y),
{
    ((x + BIAS) + (y + BIAS) * SCALE) as u64
}

/// Pack a waypoint into one orders scalar.
pub fn make_orders(x: i64, y: i64) -> (o: u64)
    requires
        coord_in_range(x),
        coord_in_range(y),
    ensures
        o == orders_of(x, y),
        o == 0 <==> (x == -BIAS && y == -BIAS),
{
    let xs: u64 = (x + BIAS) as u64;
    let ys: u64 = (y + BIAS) as u64;
    proof {
        assert(xs + ys * SCALE < SCALE * SCALE) by (nonlinear_arith)
            requires
                xs < SCALE,
                ys < SCALE,
                SCALE == 1000000,
        ;
        assert(ys >= 1 ==> ys * SCALE >= SCALE) by (nonlinear_arith)
            requires
                SCALE == 1000000,
        ;
    }
    xs + ys * SCALE
}

/// Unpack an orders scalar into a waypoint. The scalar `0` stands for "no
/// orders" and yields the origin.
pub fn parse_orders(o: u64) -> (p: (i64, i64))
    ensures
        o == 0 ==> p == (0i64, 0i64),
        o != 0 ==> p.0 == o % SCALE - BIAS && p.1 == o / SCALE - BIAS,
{
    if o == 0 {
        (0, 0)
    } else {
        let xs: u64 = o % SCALE;
        let ys: u64 = o / SCALE;
        proof {
            lemma_div_is_ordered_by_denominator(o as int, 2, SCALE as int);
            assert(ys <= o as int / 2);
        }
        ((xs as i64) - BIAS, (ys as i64) - BIAS)
    }
}

/// The round trip: every waypoint with coordinates in `[-BIAS, BIAS - 1]`,
/// except the reserved corner `(-BIAS, -BIAS)`, packs to a non-zero scalar
/// from which unpacking recovers both coordinates exactly.
pub proof fn lemma_orders_round_trip(x: i64, y: i64)
    requires
        coord_in_range(x),
        coord_in_range(y),
        !(x == -BIAS && y == -BIAS),
    ensures
        orders_of(x, y) != 0,
        orders_of(x, y) % SCALE == x + BIAS,
        orders_of(x, y) / SCALE == y + BIAS,
{
    let xs = (x + BIAS) as int;
    let ys = (y + BIAS) as int;
    assert(0 <= xs < SCALE);
    assert(0 <= ys < SCALE);
    assert(xs + ys * (SCALE as int) < SCALE * SCALE) by (nonlinear_arith)
        requires
            0 <= xs < 1000000,
            0 <= ys < 1000000,
            SCALE == 1000000,
    ;
    assert(ys >= 1 ==> ys * (SCALE as int) >= SCALE) by (nonlinear_arith)
        requires
            SCALE == 1000000,
    ;
    assert((xs + ys * (SCALE as int)) % (SCALE as int) == xs) by (nonlinear_arith)
        requires
            0 <= xs < 1000000,
            0 <= ys,
            SCALE == 1000000,
    ;
    assert((xs + ys * (SCALE as int)) / (SCALE as int) == ys) by (nonlinear_arith)
        requires
            0 <= xs < 1000000,
            0 <= ys,
            SCALE == 1000000,
    ;
}

} // verus!
