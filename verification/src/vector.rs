//! Fixed-point unit-vector math: frame conversion of raw accelerometer
//! samples and normalization into a unit vector held in thousandths.

use vstd::prelude::*;

verus! {

/// Raw 3-axis accelerometer sample in sensor-native units; with the default
/// sensitivity, one g is 16384 counts.
#[derive(Clone, Copy, Debug, PartialEq, Eq, Structural)]
pub struct RawSample {
    pub x: i16,
    pub y: i16,
    pub z: i16,
}

/// A gravity vector carried in the board reference frame, still in
/// sensor-native units. Components are widened so that negating a full-scale
/// sensor reading cannot overflow.
#[derive(Clone, Copy, Debug, PartialEq, Eq, Structural)]
pub struct BoardVector {
    pub x: i32,
    pub y: i32,
    pub z: i32,
}

/// A dimensionless unit vector, each component in thousandths, so a component
/// of 1000 stands for 1.0.
#[derive(Clone, Copy, Debug, PartialEq, Eq, Structural)]
pub struct UnitVector {
    pub x: i32,
    pub y: i32,
    pub z: i32,
}

/// Normalizing failed because the input vector has zero magnitude; the sample
/// is unusable and must be skipped, never classified.
#[derive(Clone, Copy, Debug, PartialEq, Eq, Structural)]
pub enum MathError {
    DegenerateVector,
}

/// Bound on the sensor-native units a [`BoardVector`] may carry.
pub open spec fn board_in_range(v: BoardVector) -> bool {
    &&& -32768 <= v.x <= 32768
    &&& -32768 <= v.y <= 32768
    &&& -32768 <= v.z <= 32768
}

/// Every component of a unit vector lies within one unit.
pub open spec fn unit_in_range(u: UnitVector) -> bool {
    &&& -1000 <= u.x <= 1000
    &&& -1000 <= u.y <= 1000
    &&& -1000 <= u.z <= 1000
}

/// Converts a raw sample into the board reference frame shared with the
/// gyroscope: board x is sensor y, board y is the negated sensor x, and z is
/// kept. The magnitude is untouched, so normalization is unaffected.
pub fn g_from_raw_acc_value(raw: &RawSample) -> (r: BoardVector)
    ensures
        r.x == raw.y as int,
        r.y == -(raw.x as int),
        r.z == raw.z as int,
        board_in_range(r),
{
    BoardVector { x: raw.y as i32, y: -(raw.x as i32), z: raw.z as i32 }
}

/// The squared Euclidean magnitude of a board vector.
pub open spec fn norm_sq(v: BoardVector) -> int {
    v.x * v.x + v.y * v.y + v.z * v.z
}

/// `n` is the integer square root of `s`.
pub open spec fn is_isqrt(n: int, s: int) -> bool {
    0 <= n && n * n <= s && s < (n + 1) * (n + 1)
}

/// The integer square root of a non-negative `s`.
pub open spec fn isqrt_spec(s: int) -> int {
    choose|n: int| is_isqrt(n, s)
}

/// An integer square root exists for every non-negative number, so
/// [`isqrt_spec`] denotes it.
pub proof fn lemma_isqrt_exists(s: int)
    requires
        s >= 0,
    ensures
        is_isqrt(isqrt_spec(s), s),
    decreases s,
{
    if s == 0 {
        assert(is_isqrt(0, 0)) by (nonlinear_arith);
    } else {
        lemma_isqrt_exists(s - 1);
        let m = isqrt_spec(s - 1);
        if s < (m + 1) * (m + 1) {
            assert(is_isqrt(m, s));
        } else {
            assert(s == (m + 1) * (m + 1));
            assert(is_isqrt(m + 1, s)) by (nonlinear_arith)
                requires
                    s == (m + 1) * (m + 1) && m >= 0,
            ;
        }
    }
    assert(exists|n: int| is_isqrt(n, s));
}

/// Integer square roots are unique.
pub proof fn lemma_isqrt_unique(a: int, b: int, s: int)
    requires
        is_isqrt(a, s),
        is_isqrt(b, s),
    ensures
        a == b,
{
    assert(a == b) by (nonlinear_arith)
        requires
            0 <= a && a * a <= s && s < (a + 1) * (a + 1) && 0 <= b && b * b <= s && s < (b + 1) * (
            b + 1),
    ;
}

/// Integer square root by bisection.
pub fn isqrt64(s: u64) -> (r: u64)
    ensures
        is_isqrt(r as int, s as int),
        r == isqrt_spec(s as int),
        r <= 0xffff_ffff,
{
    let mut lo: u64 = 0;
    let mut hi: u64 = 0x1_0000_0000;
    proof {
        assert((hi as int) * (hi as int) > s as int) by (nonlinear_arith)
            requires
                hi == 0x1_0000_0000 && s <= u64::MAX,
        ;
    }
    while hi - lo > 1
        invariant
            lo < hi <= 0x1_0000_0000,
            (lo as int) * (lo as int) <= s as int,
            (hi as int) * (hi as int) > s as int,
        decreases hi - lo,
    {
        let mid: u64 = lo + (hi - lo) / 2;
        assert(lo < mid < hi);
        assert(mid * mid <= 0xffff_ffff_0000_0001) by (nonlinear_arith)
            requires
                mid <= 0xffff_ffff,
        ;
        if mid * mid <= s {
            lo = mid;
        } else {
            hi = mid;
        }
    }
    proof {
        assert(is_isqrt(lo as int, s as int));
        lemma_isqrt_exists(s as int);
        lemma_isqrt_unique(lo as int, isqrt_spec(s as int), s as int);
    }
    lo
}

/// A component of `v` scaled into thousandths of the magnitude of `v`,
/// where `s` is the squared magnitude: the square root of `c^2 * 10^6 / s`,
/// with the sign of `c` applied afterwards. Taking the root per component
/// keeps the relative error within one thousandth even for short vectors.
pub open spec fn scaled(c: int, s: int) -> int {
    if c >= 0 {
        isqrt_spec((c * c * 1000000) / s)
    } else {
        -isqrt_spec((c * c * 1000000) / s)
    }
}

/// The unit vector that normalizing `v` yields.
pub open spec fn unit_of(v: BoardVector) -> UnitVector {
    let s = norm_sq(v);
    UnitVector {
        x: scaled(v.x as int, s) as i32,
        y: scaled(v.y as int, s) as i32,
        z: scaled(v.z as int, s) as i32,
    }
}

/// The squared thousandths-magnitude of a unit vector.
pub open spec fn unit_norm_sq(u: UnitVector) -> int {
    u.x * u.x + u.y * u.y + u.z * u.z
}

/// Facts about one scaled component: `m` is the root of the component's
/// share `q` of the squared magnitude, bounded by one unit, and `q`
/// undershoots its real value by at most `2 m`.
proof fn lemma_scaled_component(c: int, s: int) -> (r: (int, int))
    requires
        1 <= s,
        c * c <= s,
    ensures
        r.0 == (c * c * 1000000) / s,
        r.1 == isqrt_spec(r.0),
        scaled(c, s) == if c >= 0 { r.1 } else { -r.1 },
        is_isqrt(r.1, r.0),
        0 <= r.1 <= 1000,
        0 <= r.0 <= 1000000,
        r.0 - 2000 <= r.1 * r.1 <= r.0,
        s * r.0 + (c * c * 1000000) % s == c * c * 1000000,
        0 <= (c * c * 1000000) % s < s,
{
    let a = c * c;
    assert(0 <= a) by (nonlinear_arith)
        requires
            a == c * c,
    ;
    let q = (a * 1000000) / s;
    vstd::arithmetic::div_mod::lemma_div_pos_is_pos(a * 1000000, s);
    vstd::arithmetic::div_mod::lemma_multiply_divide_le(a * 1000000, s, 1000000);
    vstd::arithmetic::div_mod::lemma_fundamental_div_mod(a * 1000000, s);
    vstd::arithmetic::div_mod::lemma_mod_bound(a * 1000000, s);
    lemma_isqrt_exists(q);
    let m = isqrt_spec(q);
    assert(0 <= m <= 1000 && q - 2000 <= m * m <= q) by (nonlinear_arith)
        requires
            0 <= m && m * m <= q && q < (m + 1) * (m + 1) && q <= 1000000,
    ;
    (q, m)
}

/// The norm invariant: every unit vector that [`unit_of`] yields has a
/// squared thousandths-magnitude within a small fixed tolerance below one,
/// and each component within one unit.
pub proof fn lemma_unit_norm(v: BoardVector)
    requires
        !(v.x == 0 && v.y == 0 && v.z == 0),
    ensures
        993998 <= unit_norm_sq(unit_of(v)) <= 1000000,
        unit_in_range(unit_of(v)),
{
    let s = norm_sq(v);
    assert(s >= 1 && v.x * v.x <= s && v.y * v.y <= s && v.z * v.z <= s) by (nonlinear_arith)
        requires
            s == v.x * v.x + v.y * v.y + v.z * v.z && !(v.x == 0 && v.y == 0 && v.z == 0),
    ;
    let (qx, mx) = lemma_scaled_component(v.x as int, s);
    let (qy, my) = lemma_scaled_component(v.y as int, s);
    let (qz, mz) = lemma_scaled_component(v.z as int, s);
    let rx = (v.x * v.x * 1000000) % s;
    let ry = (v.y * v.y * 1000000) % s;
    let rz = (v.z * v.z * 1000000) % s;
    assert(s * qx + s * qy + s * qz + rx + ry + rz == s * 1000000) by (nonlinear_arith)
        requires
            s * qx + rx == v.x * v.x * 1000000,
            s * qy + ry == v.y * v.y * 1000000,
            s * qz + rz == v.z * v.z * 1000000,
            s == v.x * v.x + v.y * v.y + v.z * v.z,
    ;
    assert(999998 <= qx + qy + qz <= 1000000) by (nonlinear_arith)
        requires
            s * qx + s * qy + s * qz + rx + ry + rz == s * 1000000,
            0 <= rx < s,
            0 <= ry < s,
            0 <= rz < s,
            1 <= s,
            0 <= qx,
            0 <= qy,
            0 <= qz,
    ;
    let u = unit_of(v);
    assert(u.x * u.x == mx * mx && u.y * u.y == my * my && u.z * u.z == mz * mz)
        by (nonlinear_arith)
        requires
            u.x == mx || u.x == -mx,
            u.y == my || u.y == -my,
            u.z == mz || u.z == -mz,
    ;
}

fn scale_component(c: i32, s: u64) -> (r: i32)
    requires
        1 <= s <= 0xc000_0000,
        -32768 <= c <= 32768,
        (c as int) * (c as int) <= s as int,
    ensures
        r as int == scaled(c as int, s as int),
        -1000 <= r <= 1000,
{
    let mag: u64 = if c >= 0 {
        c as u64
    } else {
        (-(c as i64)) as u64
    };
    proof {
        assert((mag as int) * (mag as int) == (c as int) * (c as int) && (mag as int) * (
        mag as int) <= 0x4000_0000) by (nonlinear_arith)
            requires
                (mag as int) == (c as int) || (mag as int) == -(c as int),
                -32768 <= (c as int) && (c as int) <= 32768,
        ;
    }
    let cc: u64 = mag * mag;
    let q: u64 = (cc * 1000000) / s;
    proof {
        vstd::arithmetic::div_mod::lemma_div_pos_is_pos((cc * 1000000) as int, s as int);
        vstd::arithmetic::div_mod::lemma_multiply_divide_le(
            (cc * 1000000) as int,
            s as int,
            1000000,
        );
    }
    let m: u64 = isqrt64(q);
    proof {
        assert(m <= 1000) by (nonlinear_arith)
            requires
                (m as int) * (m as int) <= q as int,
                (q as int) <= 1000000,
                0 <= (m as int),
        ;
    }
    if c >= 0 {
        m as i32
    } else {
        -(m as i32)
    }
}

/// Normalization discards magnitude exactly: a vector and any positive
/// multiple of it yield the same unit vector.
pub proof fn lemma_unit_scale_invariant(v: BoardVector, w: BoardVector, k: int)
    requires
        k >= 1,
        w.x == k * v.x,
        w.y == k * v.y,
        w.z == k * v.z,
        !(v.x == 0 && v.y == 0 && v.z == 0),
    ensures
        unit_of(w) == unit_of(v),
{
    let sv = norm_sq(v);
    let sw = norm_sq(w);
    assert(sw == (k * k) * sv && sv >= 1 && k * k >= 1) by (nonlinear_arith)
        requires
            sv == v.x * v.x + v.y * v.y + v.z * v.z,
            sw == w.x * w.x + w.y * w.y + w.z * w.z,
            w.x == k * v.x && w.y == k * v.y && w.z == k * v.z,
            k >= 1,
            !(v.x == 0 && v.y == 0 && v.z == 0),
    ;
    lemma_scaled_multiples_vanish(v.x as int, sv, k);
    lemma_scaled_multiples_vanish(v.y as int, sv, k);
    lemma_scaled_multiples_vanish(v.z as int, sv, k);
}

/// Scaling the component and the squared magnitude by `k` together leaves
/// the scaled component unchanged.
proof fn lemma_scaled_multiples_vanish(c: int, s: int, k: int)
    requires
        1 <= s,
        1 <= k,
    ensures
        scaled(k * c, (k * k) * s) == scaled(c, s),
{
    let a = c * c;
    assert(a >= 0 && (k * c) * (k * c) == (k * k) * a && (k * k) >= 1 && ((k * c >= 0) == (c
        >= 0))) by (nonlinear_arith)
        requires
            a == c * c && k >= 1,
    ;
    assert(((k * k) * a) * 1000000 == (k * k) * (a * 1000000)) by (nonlinear_arith);
    vstd::arithmetic::div_mod::lemma_div_multiples_vanish_quotient(k * k, a * 1000000, s);
    assert(((k * k) * (a * 1000000)) / ((k * k) * s) == (a * 1000000) / s);
}

/// Normalizes a board-frame gravity vector into a dimensionless unit vector
/// held in thousandths.
///
/// Fails with [`MathError::DegenerateVector`] exactly on the all-zero input,
/// whose direction is undefined; every other in-range input yields the
/// vector scaled by its own magnitude: each component within one unit, and
/// the squared thousandths-magnitude within a small fixed tolerance of one.
pub fn normalize(v: &BoardVector) -> (r: Result<UnitVector, MathError>)
    requires
        board_in_range(*v),
    ensures
        r is Err <==> (v.x == 0 && v.y == 0 && v.z == 0),
        r is Err ==> r == Result::<UnitVector, MathError>::Err(MathError::DegenerateVector),
        r is Ok ==> r->Ok_0 == unit_of(*v),
        r is Ok ==> unit_in_range(r->Ok_0),
        r is Ok ==> 993998 <= unit_norm_sq(r->Ok_0) <= 1000000,
{
    proof {
        assert(0 <= (v.x as int) * (v.x as int) <= 0x4000_0000) by (nonlinear_arith)
            requires
                -32768 <= (v.x as int) && (v.x as int) <= 32768,
        ;
        assert(0 <= (v.y as int) * (v.y as int) <= 0x4000_0000) by (nonlinear_arith)
            requires
                -32768 <= (v.y as int) && (v.y as int) <= 32768,
        ;
        assert(0 <= (v.z as int) * (v.z as int) <= 0x4000_0000) by (nonlinear_arith)
            requires
                -32768 <= (v.z as int) && (v.z as int) <= 32768,
        ;
    }
    let xx: i64 = (v.x as i64) * (v.x as i64);
    let yy: i64 = (v.y as i64) * (v.y as i64);
    let zz: i64 = (v.z as i64) * (v.z as i64);
    let s: i64 = xx + yy + zz;
    if s == 0 {
        proof {
            assert(v.x == 0 && v.y == 0 && v.z == 0) by (nonlinear_arith)
                requires
                    (v.x as int) * (v.x as int) + (v.y as int) * (v.y as int) + (v.z as int)
                        * (v.z as int) == 0,
            ;
        }
        Err(MathError::DegenerateVector)
    } else {
        proof {
            assert((s as int) >= 1 && !(v.x == 0 && v.y == 0 && v.z == 0)) by (nonlinear_arith)
                requires
                    (s as int) == (v.x as int) * (v.x as int) + (v.y as int) * (v.y as int) + (
                    v.z as int) * (v.z as int),
                    (s as int) != 0,
            ;
        }
        let u = UnitVector {
            x: scale_component(v.x, s as u64),
            y: scale_component(v.y, s as u64),
            z: scale_component(v.z, s as u64),
        };
        proof {
            assert(u == unit_of(*v));
            lemma_unit_norm(*v);
        }
        Ok(u)
    }
}

} // verus!
