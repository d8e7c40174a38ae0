//! Tilt classification: the flat test and the mapping of a normalized angle
//! in quadrant units onto the eight compass buckets.
//!
//! Angles are carried in milli-quadrants: one quadrant (90 degrees) is 1000,
//! a full turn is 4000, so the angular scale of the original quadrant units
//! is kept without transcendental comparisons.

use crate::direction::Direction;
use crate::vector::UnitVector;
use crate::vector::unit_in_range;
use vstd::prelude::*;

verus! {

use vstd::arithmetic::div_mod::{lemma_div_is_ordered, lemma_div_by_multiple};

/// The board counts as flat while both horizontal components stay within
/// this many thousandths of one g: the cosine of 85 degrees, so within five
/// degrees of horizontal. A design constant, not derived at runtime.
pub const FLAT_THRESHOLD_MILLI: i32 = 87;

/// The board is flat: both horizontal components are within the threshold,
/// whatever the vertical component is.
pub open spec fn is_flat_spec(u: UnitVector) -> bool {
    &&& -FLAT_THRESHOLD_MILLI <= u.x <= FLAT_THRESHOLD_MILLI
    &&& -FLAT_THRESHOLD_MILLI <= u.y <= FLAT_THRESHOLD_MILLI
}

/// Polynomial arc tangent of a ratio in thousandths, in milli-quadrants:
/// maps `0..=1000` onto `0..=500` with 0 at 0 and 500 (half a quadrant) at
/// 1000.
pub open spec fn atan_quarter(t: int) -> int {
    (t * 500000 + t * (1000 - t) * 174) / 1000000
}

/// Angle in milli-quadrants between the positive `ay` axis and the vector
/// `(ax, ay)` of a first quadrant, in `0..=1000`.
pub open spec fn octant_angle(ax: int, ay: int) -> int {
    if ax <= ay {
        atan_quarter((ax * 1000) / ay)
    } else {
        1000 - atan_quarter((ay * 1000) / ax)
    }
}

/// Normalized clockwise-from-north angle of `(x, y)` in milli-quadrants,
/// in `0..4000`: 0 points north (positive y), 1000 east (positive x).
pub open spec fn atan2_norm_milli(x: int, y: int) -> int {
    let ax = if x >= 0 { x } else { -x };
    let ay = if y >= 0 { y } else { -y };
    let raw = octant_angle(ax, ay);
    if x >= 0 && y >= 0 {
        raw
    } else if x >= 0 {
        2000 - raw
    } else if y < 0 {
        2000 + raw
    } else if raw == 0 {
        0
    } else {
        4000 - raw
    }
}

/// The compass bucket of a normalized angle: each bucket spans 500
/// milli-quadrants, upper bound inclusive, and North owns the wraparound
/// interval above 3750 and up to 250.
pub open spec fn bucket_spec(a: int) -> Direction {
    if a > 3750 || a <= 250 {
        Direction::North
    } else if a <= 750 {
        Direction::NorthEast
    } else if a <= 1250 {
        Direction::East
    } else if a <= 1750 {
        Direction::SouthEast
    } else if a <= 2250 {
        Direction::South
    } else if a <= 2750 {
        Direction::SouthWest
    } else if a <= 3250 {
        Direction::West
    } else {
        Direction::NorthWest
    }
}

/// The flat test of the classifier; holds exactly when both horizontal
/// components are within [`FLAT_THRESHOLD_MILLI`], regardless of `z`.
pub fn board_is_flat(u: &UnitVector) -> (r: bool)
    ensures
        r == is_flat_spec(*u),
{
    -FLAT_THRESHOLD_MILLI <= u.x && u.x <= FLAT_THRESHOLD_MILLI && -FLAT_THRESHOLD_MILLI <= u.y
        && u.y <= FLAT_THRESHOLD_MILLI
}

fn atan_quarter_exec(t: u32) -> (r: u32)
    requires
        t <= 1000,
    ensures
        r as int == atan_quarter(t as int),
        r <= 500,
{
    proof {
        assert(0 <= (t as int) * (1000 - t as int) && (t as int) * (1000 - t as int) <= 1000000)
            by (nonlinear_arith)
            requires
                0 <= (t as int) && (t as int) <= 1000,
        ;
        assert((t as int) * 500000 + (t as int) * (1000 - t as int) * 174 <= 500000000)
            by (nonlinear_arith)
            requires
                0 <= (t as int) && (t as int) <= 1000,
        ;
    }
    let num: u64 = (t as u64) * 500000 + (t as u64) * (1000 - t as u64) * 174;
    proof {
        lemma_div_is_ordered(num as int, 500000000, 1000000);
    }
    (num / 1000000) as u32
}

/// Normalized clockwise-from-north angle of the horizontal components of a
/// unit vector, in milli-quadrants below 4000.
pub fn atan2_normalized(x: i32, y: i32) -> (r: u32)
    requires
        -1000 <= x <= 1000,
        -1000 <= y <= 1000,
        !(x == 0 && y == 0),
    ensures
        r as int == atan2_norm_milli(x as int, y as int),
        r < 4000,
{
    let ax: u32 = if x >= 0 {
        x as u32
    } else {
        (-x) as u32
    };
    let ay: u32 = if y >= 0 {
        y as u32
    } else {
        (-y) as u32
    };
    let raw: u32 = if ax <= ay {
        proof {
            assert((ax as int) * 1000 <= (ay as int) * 1000) by (nonlinear_arith)
                requires
                    (ax as int) <= (ay as int),
            ;
            lemma_div_is_ordered((ax as int) * 1000, (ay as int) * 1000, ay as int);
            lemma_div_by_multiple(1000, ay as int);
        }
        atan_quarter_exec(ax * 1000 / ay)
    } else {
        proof {
            assert((ay as int) * 1000 <= (ax as int) * 1000) by (nonlinear_arith)
                requires
                    (ay as int) <= (ax as int),
            ;
            lemma_div_is_ordered((ay as int) * 1000, (ax as int) * 1000, ax as int);
            lemma_div_by_multiple(1000, ax as int);
        }
        1000 - atan_quarter_exec(ay * 1000 / ax)
    };
    if x >= 0 && y >= 0 {
        raw
    } else if x >= 0 {
        2000 - raw
    } else if y < 0 {
        2000 + raw
    } else if raw == 0 {
        0
    } else {
        4000 - raw
    }
}

/// Maps a normalized angle onto its compass bucket, upper bound inclusive,
/// with the wraparound case for North. Total: once flatness is ruled out no
/// other outcome is possible.
pub fn bucket_from_angle(a: u32) -> (r: Direction)
    requires
        a < 4000,
    ensures
        r == bucket_spec(a as int),
{
    if a > 3750 || a <= 250 {
        Direction::North
    } else if a <= 750 {
        Direction::NorthEast
    } else if a <= 1250 {
        Direction::East
    } else if a <= 1750 {
        Direction::SouthEast
    } else if a <= 2250 {
        Direction::South
    } else if a <= 2750 {
        Direction::SouthWest
    } else if a <= 3250 {
        Direction::West
    } else {
        Direction::NorthWest
    }
}

/// Classifies a unit vector: `None` while the board is flat, otherwise the
/// compass bucket of its normalized horizontal angle.
///
/// Every vector whose horizontal components both stay within the flat
/// threshold is classified flat regardless of its vertical component, and
/// every other vector always receives a bucket.
pub fn tilt_direction(u: &UnitVector) -> (r: Option<Direction>)
    requires
        unit_in_range(*u),
    ensures
        r is None <==> is_flat_spec(*u),
        !is_flat_spec(*u) ==> r == Some(
            bucket_spec(atan2_norm_milli(u.x as int, u.y as int)),
        ),
{
    if board_is_flat(u) {
        None
    } else {
        Some(bucket_from_angle(atan2_normalized(u.x, u.y)))
    }
}

/// The four axis tilts carry the exact axis angles: north is 0, east one
/// quadrant, south two, west three.
pub proof fn lemma_atan2_axes()
    ensures
        atan2_norm_milli(0, 1000) == 0,
        atan2_norm_milli(1000, 0) == 1000,
        atan2_norm_milli(0, -1000) == 2000,
        atan2_norm_milli(-1000, 0) == 3000,
{
    assert((0int * 1000) / 1000 == 0);
    assert(atan_quarter(0) == 0);
}

/// Every bucket boundary belongs to the lower-numbered bucket: at
/// `250 + 500 k` milli-quadrants the bucket still has index `k`, and one
/// step past the boundary the next bucket begins, wrapping to North after
/// NorthWest.
pub proof fn lemma_boundary_belongs_to_lower_bucket(k: int)
    requires
        0 <= k < 8,
    ensures
        bucket_spec(250 + 500 * k).index_spec() == k,
        k < 7 ==> bucket_spec(250 + 500 * k + 1).index_spec() == k + 1,
        k == 7 ==> bucket_spec(250 + 500 * k + 1).index_spec() == 0,
{
}

/// The wraparound rule: every angle above 3750 or at most 250
/// milli-quadrants is North.
pub proof fn lemma_north_wraparound(a: int)
    requires
        0 <= a < 4000,
        a > 3750 || a <= 250,
    ensures
        bucket_spec(a) == Direction::North,
{
}

} // verus!
