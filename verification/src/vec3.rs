use vstd::prelude::*;

verus! {

// Fixed-point conventions used throughout the library:
//   positions are in micrometres, velocities in nanometres per second,
//   accelerations in picometres per second squared, durations in
//   microseconds, masses in kilograms.  `UNIT` is the scale of unit
//   direction vectors and of the time-scale factor (parts per million).

/// Scale of unit vectors and of parts-per-million quantities.
pub const UNIT: i128 = 1_000_000;

/// Largest magnitude a position (micrometres) or velocity (nanometres per
/// second) component may take; integration clamps to this box so that all
/// later arithmetic stays within `i128`.
pub const COORD_LIMIT: i128 = 1_000_000_000_000_000_000;

/// Largest magnitude of an accumulated acceleration component
/// (picometres per second squared).
pub const ACCEL_LIMIT: i128 = 10_000_000_000_000_000_000_000_000_000;

/// Largest mass (kilograms) a celestial body may be given.
pub const MASS_LIMIT: i128 = 2_500_000_000_000_000_000_000_000_000_000;

/// Micrometres squared per square metre.
pub const SQ_METRE: i128 = 1_000_000_000_000;

/// Below this squared separation (micrometres squared; one square metre)
/// a gravity source is skipped as effectively coincident with the target.
pub const EPSILON_SQ: i128 = 1_000_000_000_000;

/// Numerator of the gravitational constant: an acceleration in picometres
/// per second squared is `G_NUM * mass_kg / (distance_sq_m2 * G_DEN)`.
pub const G_NUM: i128 = 66743;

/// Denominator scale pairing `G_NUM` with picometre accelerations.
pub const G_DEN: i128 = 1_000;

/// Picometre-microsecond products per nanometre (`a * dt` to a velocity
/// change).
pub const VEL_SCALE: i128 = 1_000_000_000;

/// Nanometre-microsecond products per micrometre (`v * dt` to a position
/// displacement).
pub const POS_SCALE: i128 = 1_000_000_000;

/// A three-component vector in fixed-point coordinates.
#[derive(Clone, Copy, Debug, PartialEq, Eq, Structural)]
pub struct Vec3 {
    pub x: i128,
    pub y: i128,
    pub z: i128,
}

/// Mathematical (unbounded) counterpart of `Vec3`, used in specifications.
pub struct V3 {
    pub x: int,
    pub y: int,
    pub z: int,
}

impl View for Vec3 {
    type V = V3;

    open spec fn view(&self) -> V3 {
        V3 { x: self.x as int, y: self.y as int, z: self.z as int }
    }
}

pub open spec fn v3_zero() -> V3 {
    V3 { x: 0, y: 0, z: 0 }
}

pub open spec fn v3_add(a: V3, b: V3) -> V3 {
    V3 { x: a.x + b.x, y: a.y + b.y, z: a.z + b.z }
}

pub open spec fn v3_sub(a: V3, b: V3) -> V3 {
    V3 { x: a.x - b.x, y: a.y - b.y, z: a.z - b.z }
}

pub open spec fn v3_scale(a: V3, k: int) -> V3 {
    V3 { x: a.x * k, y: a.y * k, z: a.z * k }
}

pub open spec fn v3_dot(a: V3, b: V3) -> int {
    a.x * b.x + a.y * b.y + a.z * b.z
}

pub open spec fn v3_norm_sq(a: V3) -> int {
    v3_dot(a, a)
}

/// Every component lies in `[-lim, lim]`.
pub open spec fn v3_in(a: V3, lim: int) -> bool {
    &&& -lim <= a.x <= lim
    &&& -lim <= a.y <= lim
    &&& -lim <= a.z <= lim
}

/// Clamp `x` into `[-lim, lim]`.
pub open spec fn clampi(x: int, lim: int) -> int {
    if x < -lim {
        -lim
    } else if x > lim {
        lim
    } else {
        x
    }
}

pub open spec fn v3_clamp(a: V3, lim: int) -> V3 {
    V3 { x: clampi(a.x, lim), y: clampi(a.y, lim), z: clampi(a.z, lim) }
}

/// Truncating division (round towards zero) for a positive divisor; this is
/// what `/` computes on Rust's signed integers.
pub open spec fn divt(x: int, d: int) -> int
    recommends
        d > 0,
{
    if x >= 0 {
        x / d
    } else {
        -((-x) / d)
    }
}

/// Divide each component by `d`, truncating towards zero, after scaling by `m`.
pub open spec fn v3_muldiv(a: V3, m: int, d: int) -> V3
    recommends
        d > 0,
{
    V3 { x: divt(a.x * m, d), y: divt(a.y * m, d), z: divt(a.z * m, d) }
}

/// `r` is the integer square root of `n`, rounded down.
pub open spec fn is_sqrt(r: int, n: int) -> bool {
    &&& 0 <= r
    &&& r * r <= n
    &&& n < (r + 1) * (r + 1)
}

/// The integer square root of `n`, rounded down (meaningful for `n >= 0`).
pub open spec fn sqrt_floor(n: int) -> int {
    choose|r: int| #[trigger] is_sqrt(r, n)
}

pub proof fn lemma_sqrt_exists(n: int)
    requires
        0 <= n,
    ensures
        exists|r: int| is_sqrt(r, n),
    decreases n,
{
    if n == 0 {
        assert(is_sqrt(0, 0)) by (nonlinear_arith);
    } else {
        lemma_sqrt_exists(n - 1);
        let p = choose|r: int| #[trigger] is_sqrt(r, n - 1);
        if n < (p + 1) * (p + 1) {
            assert(is_sqrt(p, n));
        } else {
            assert(n == (p + 1) * (p + 1));
            assert(is_sqrt(p + 1, n)) by (nonlinear_arith)
                requires n == (p + 1) * (p + 1) && p >= 0;
        }
    }
}

pub proof fn lemma_sqrt_unique(r1: int, r2: int, n: int)
    requires
        is_sqrt(r1, n),
        is_sqrt(r2, n),
    ensures
        r1 == r2,
{
    assert(r1 == r2) by (nonlinear_arith)
        requires is_sqrt(r1, n) && is_sqrt(r2, n);
}

/// Establishes `sqrt_floor(n) == r` from the defining property.
pub proof fn lemma_sqrt_is(r: int, n: int)
    requires
        is_sqrt(r, n),
    ensures
        sqrt_floor(n) == r,
{
    assert(is_sqrt(sqrt_floor(n), n)) by {
        assert(exists|q: int| is_sqrt(q, n));
    }
    lemma_sqrt_unique(sqrt_floor(n), r, n);
}

/// The result of `Vec3::normalize`: squared magnitude, magnitude, and the
/// unit direction scaled by `UNIT`.
pub struct NormVec3 {
    pub distance_sq: i128,
    pub distance: i128,
    pub unit_direction: Vec3,
}

/// The `UNIT`-scaled unit direction of `a`: each component is
/// `a_i * UNIT / |a|`, truncated towards zero; the zero vector for `a == 0`.
pub open spec fn v3_unit(a: V3) -> V3 {
    let d = sqrt_floor(v3_norm_sq(a));
    if d == 0 {
        v3_zero()
    } else {
        v3_muldiv(a, UNIT as int, d)
    }
}

/// Integer square root by binary search.
pub fn isqrt(n: u128) -> (r: u128)
    requires
        (n as int) < 0x40000000000000000000000000000000,
    ensures
        r as int == sqrt_floor(n as int),
        is_sqrt(r as int, n as int),
{
    proof {
        lemma_sqrt_exists(n as int);
    }
    if n == 0 {
        proof {
            lemma_sqrt_is(0, 0);
        }
        return 0;
    }
    let mut lo: u128 = 0;
    let mut hi: u128 = 0x8000000000000000;
    proof {
        assert((hi * hi) as int == 0x40000000000000000000000000000000) by (nonlinear_arith)
            requires hi == 0x8000000000000000u128;
    }
    while lo + 1 < hi
        invariant
            lo < hi,
            hi <= 0x8000000000000000,
            (lo * lo) as int <= n as int,
            (n as int) < (hi * hi) as int,
        decreases hi - lo,
    {
        let mid: u128 = lo + (hi - lo) / 2;
        proof {
            assert(lo < mid < hi);
            assert((mid * mid) as int <= 0x40000000000000000000000000000000) by (nonlinear_arith)
                requires mid <= 0x8000000000000000;
        }
        if mid * mid <= n {
            lo = mid;
        } else {
            hi = mid;
        }
    }
    proof {
        assert(hi == lo + 1);
        assert(is_sqrt(lo as int, n as int));
        lemma_sqrt_is(lo as int, n as int);
    }
    lo
}

/// `x * y`, with the caller showing the product representable.
pub fn mul_i128(x: i128, y: i128) -> (r: i128)
    requires
        i128::MIN <= x * y <= i128::MAX,
    ensures
        r as int == x * y,
{
    x * y
}

/// `x + y`, with the caller showing the sum representable.
pub fn add_i128(x: i128, y: i128) -> (r: i128)
    requires
        i128::MIN <= x + y <= i128::MAX,
    ensures
        r as int == x + y,
{
    x + y
}

/// Truncating division by a positive divisor.
pub fn div_trunc(x: i128, d: i128) -> (r: i128)
    requires
        d > 0,
    ensures
        r as int == divt(x as int, d as int),
{
    proof {
        lemma_divt_in_range(x as int, d as int);
    }
    match x.checked_div(d) {
        Some(q) => q,
        None => unreached(),
    }
}

/// Truncating division never grows the magnitude of the dividend.
pub proof fn lemma_divt_in_range(x: int, d: int)
    requires
        d > 0,
    ensures
        x >= 0 ==> 0 <= divt(x, d) <= x,
        x < 0 ==> x <= divt(x, d) <= 0,
{
    if x >= 0 {
        vstd::arithmetic::div_mod::lemma_div_is_ordered_by_denominator(x, 1, d);
        vstd::arithmetic::div_mod::lemma_div_basics(x);
        vstd::arithmetic::div_mod::lemma_div_pos_is_pos(x, d);
    } else {
        vstd::arithmetic::div_mod::lemma_div_is_ordered_by_denominator(-x, 1, d);
        vstd::arithmetic::div_mod::lemma_div_basics(-x);
        vstd::arithmetic::div_mod::lemma_div_pos_is_pos(-x, d);
    }
}

/// A bound on the scaled dividend carries over to a truncating quotient.
pub proof fn lemma_divt_bound(x: int, d: int, k: int)
    requires
        d > 0,
        0 <= k,
        -(k * d) <= x <= k * d,
    ensures
        -k <= divt(x, d) <= k,
{
    vstd::arithmetic::div_mod::lemma_div_multiples_vanish(k, d);
    assert((d * k) / d == k);
    assert(k * d == d * k);
    if x >= 0 {
        vstd::arithmetic::div_mod::lemma_div_pos_is_pos(x, d);
        vstd::arithmetic::div_mod::lemma_div_is_ordered(x, k * d, d);
        assert(x / d <= (k * d) / d);
        assert(divt(x, d) == x / d);
    } else {
        vstd::arithmetic::div_mod::lemma_div_pos_is_pos(-x, d);
        vstd::arithmetic::div_mod::lemma_div_is_ordered(-x, k * d, d);
        assert((-x) / d <= (k * d) / d);
        assert(divt(x, d) == -((-x) / d));
    }
}

/// Bound on a product from bounds on its factors.
pub proof fn lemma_mul_bound(x: int, bx: int, y: int, by: int)
    requires
        -bx <= x <= bx,
        -by <= y <= by,
        0 <= bx,
        0 <= by,
    ensures
        -(bx * by) <= x * y <= bx * by,
{
    assert(-(bx * by) <= x * y <= bx * by) by (nonlinear_arith)
        requires -bx <= x <= bx && -by <= y <= by && 0 <= bx && 0 <= by;
}

impl Vec3 {
    /// The zero vector.
    pub fn default() -> (r: Vec3)
        ensures
            r@ == v3_zero(),
    {
        Vec3 { x: 0, y: 0, z: 0 }
    }

    /// Component-wise sum.
    pub fn add(&self, other: &Vec3) -> (r: Vec3)
        requires
            i128::MIN <= self@.x + other@.x <= i128::MAX,
            i128::MIN <= self@.y + other@.y <= i128::MAX,
            i128::MIN <= self@.z + other@.z <= i128::MAX,
        ensures
            r@ == v3_add(self@, other@),
    {
        Vec3 { x: self.x + other.x, y: self.y + other.y, z: self.z + other.z }
    }

    /// Component-wise difference.
    pub fn sub(&self, other: &Vec3) -> (r: Vec3)
        requires
            i128::MIN <= self@.x - other@.x <= i128::MAX,
            i128::MIN <= self@.y - other@.y <= i128::MAX,
            i128::MIN <= self@.z - other@.z <= i128::MAX,
        ensures
            r@ == v3_sub(self@, other@),
    {
        Vec3 { x: self.x - other.x, y: self.y - other.y, z: self.z - other.z }
    }

    /// Component-wise scaling.
    pub fn scale(&self, k: i128) -> (r: Vec3)
        requires
            i128::MIN <= self@.x * k <= i128::MAX,
            i128::MIN <= self@.y * k <= i128::MAX,
            i128::MIN <= self@.z * k <= i128::MAX,
        ensures
            r@ == v3_scale(self@, k as int),
    {
        Vec3 { x: self.x * k, y: self.y * k, z: self.z * k }
    }

    /// Dot product.
    pub fn dot(&self, other: &Vec3) -> (r: i128)
        requires
            i128::MIN <= self@.x * other@.x <= i128::MAX,
            i128::MIN <= self@.y * other@.y <= i128::MAX,
            i128::MIN <= self@.z * other@.z <= i128::MAX,
            i128::MIN <= self@.x * other@.x + self@.y * other@.y <= i128::MAX,
            i128::MIN <= v3_dot(self@, other@) <= i128::MAX,
        ensures
            r as int == v3_dot(self@, other@),
    {
        self.x * other.x + self.y * other.y + self.z * other.z
    }

    /// Component-wise comparison within a non-negative tolerance.
    pub fn equal_to(&self, other: &Vec3, epsilon: i128) -> (r: bool)
        requires
            0 <= epsilon,
            i128::MIN <= self@.x - other@.x <= i128::MAX,
            i128::MIN <= self@.y - other@.y <= i128::MAX,
            i128::MIN <= self@.z - other@.z <= i128::MAX,
        ensures
            r == {
                &&& -epsilon <= self@.x - other@.x <= epsilon
                &&& -epsilon <= self@.y - other@.y <= epsilon
                &&& -epsilon <= self@.z - other@.z <= epsilon
            },
    {
        let dx: i128 = self.x - other.x;
        let dy: i128 = self.y - other.y;
        let dz: i128 = self.z - other.z;
        -epsilon <= dx && dx <= epsilon && -epsilon <= dy && dy <= epsilon && -epsilon <= dz
            && dz <= epsilon
    }

    /// Squared magnitude, magnitude (rounded down), and the `UNIT`-scaled
    /// unit direction of `self` (the zero vector when `self` is zero).
    pub fn normalize(&self) -> (r: NormVec3)
        requires
            v3_in(self@, 2 * COORD_LIMIT as int),
        ensures
            r.distance_sq as int == v3_norm_sq(self@),
            r.distance as int == sqrt_floor(v3_norm_sq(self@)),
            r.unit_direction@ == v3_unit(self@),
            v3_in(r.unit_direction@, UNIT as int),
    {
        proof {
            assert(0 <= self@.x * self@.x <= 4000000000000000000000000000000000000)
                by (nonlinear_arith)
                requires -2000000000000000000 <= self@.x <= 2000000000000000000;
            assert(0 <= self@.y * self@.y <= 4000000000000000000000000000000000000)
                by (nonlinear_arith)
                requires -2000000000000000000 <= self@.y <= 2000000000000000000;
            assert(0 <= self@.z * self@.z <= 4000000000000000000000000000000000000)
                by (nonlinear_arith)
                requires -2000000000000000000 <= self@.z <= 2000000000000000000;
        }
        let distance_sq: i128 = self.dot(self);
        assert(0 <= distance_sq as int <= 12000000000000000000000000000000000000);
        let root: u128 = isqrt(distance_sq as u128);
        proof {
            assert(is_sqrt(root as int, distance_sq as int));
            assert(root as int <= 4000000000000000000) by (nonlinear_arith)
                requires
                    0 <= root as int,
                    (root as int) * (root as int) <= 12000000000000000000000000000000000000;
        }
        let distance: i128 = root as i128;
        proof {
            lemma_abs_le_sqrt(self@.x, distance_sq as int, distance as int);
            lemma_abs_le_sqrt(self@.y, distance_sq as int, distance as int);
            lemma_abs_le_sqrt(self@.z, distance_sq as int, distance as int);
        }
        let unit_direction: Vec3 = if distance == 0 {
            Vec3::default()
        } else {
            proof {
                lemma_mul_bound(self@.x, distance as int, UNIT as int, UNIT as int);
                lemma_mul_bound(self@.y, distance as int, UNIT as int, UNIT as int);
                lemma_mul_bound(self@.z, distance as int, UNIT as int, UNIT as int);
                assert((distance as int) * (UNIT as int)
                    <= 4000000000000000000000000000000000000) by (nonlinear_arith)
                    requires 0 <= distance as int <= 4000000000000000000;
                lemma_divt_bound(self@.x * UNIT as int, distance as int, UNIT as int);
                lemma_divt_bound(self@.y * UNIT as int, distance as int, UNIT as int);
                lemma_divt_bound(self@.z * UNIT as int, distance as int, UNIT as int);
            }
            Vec3 {
                x: div_trunc(mul_i128(self.x, UNIT), distance),
                y: div_trunc(mul_i128(self.y, UNIT), distance),
                z: div_trunc(mul_i128(self.z, UNIT), distance),
            }
        };
        NormVec3 { distance_sq, distance, unit_direction }
    }
}

/// A component is bounded in magnitude by the rounded-down square root of
/// the squared magnitude.
pub proof fn lemma_abs_le_sqrt(x: int, dsq: int, d: int)
    requires
        x * x <= dsq,
        is_sqrt(d, dsq),
    ensures
        -d <= x <= d,
{
    assert(-d <= x <= d) by (nonlinear_arith)
        requires x * x <= dsq && 0 <= d && d * d <= dsq && dsq < (d + 1) * (d + 1);
}

/// Largest magnitude of a rate-times-duration product that the integrator
/// accepts (`ACCEL_LIMIT * DT_LIMIT`).
pub const STEP_LIMIT: i128 = 100_000_000_000_000_000_000_000_000_000_000_000_000;

/// Longest tick duration (microseconds) the integrator accepts.
pub const DT_LIMIT: u64 = 10_000_000_000;

/// The velocity after one tick: the old velocity advanced by
/// `acceleration * dt` (scaled from picometre-microsecond units), clamped
/// into the coordinate box.  Velocity is updated before position
/// (semi-implicit Euler).
pub open spec fn vel_after(vel: V3, acc: V3, dt: int) -> V3 {
    v3_clamp(v3_add(vel, v3_muldiv(acc, dt, VEL_SCALE as int)), COORD_LIMIT as int)
}

/// The position after one tick: the old position advanced by the *updated*
/// velocity times `dt`, clamped into the coordinate box.
pub open spec fn pos_after(pos: V3, new_vel: V3, dt: int) -> V3 {
    v3_clamp(v3_add(pos, v3_muldiv(new_vel, dt, POS_SCALE as int)), COORD_LIMIT as int)
}

/// One clamped component of an integration step:
/// `clamp(value + rate * dt / scale)`.
fn advance(value: i128, rate: i128, dt: i128, scale: i128) -> (r: i128)
    requires
        0 < scale,
        -COORD_LIMIT as int <= value as int <= COORD_LIMIT as int,
        -STEP_LIMIT as int <= rate as int * dt as int <= STEP_LIMIT as int,
    ensures
        r as int == clampi(value as int + divt(rate as int * dt as int, scale as int),
            COORD_LIMIT as int),
{
    proof {
        lemma_divt_in_range(rate as int * dt as int, scale as int);
    }
    let delta: i128 = div_trunc(mul_i128(rate, dt), scale);
    clamp_i128(add_i128(value, delta), COORD_LIMIT)
}

/// Advance a position and a velocity by one tick of semi-implicit Euler:
/// the velocity moves first, and the position then moves with the updated
/// velocity.  Both results are clamped into the coordinate box.
pub fn integrate(pos: Vec3, vel: Vec3, acc: Vec3, dt: u64) -> (r: (Vec3, Vec3))
    requires
        v3_in(pos@, COORD_LIMIT as int),
        v3_in(vel@, COORD_LIMIT as int),
        v3_in(acc@, ACCEL_LIMIT as int),
        dt <= DT_LIMIT,
    ensures
        r.1@ == vel_after(vel@, acc@, dt as int),
        r.0@ == pos_after(pos@, vel_after(vel@, acc@, dt as int), dt as int),
        v3_in(r.0@, COORD_LIMIT as int),
        v3_in(r.1@, COORD_LIMIT as int),
{
    let dti: i128 = dt as i128;
    proof {
        lemma_mul_bound(acc@.x, ACCEL_LIMIT as int, dti as int, DT_LIMIT as int);
        lemma_mul_bound(acc@.y, ACCEL_LIMIT as int, dti as int, DT_LIMIT as int);
        lemma_mul_bound(acc@.z, ACCEL_LIMIT as int, dti as int, DT_LIMIT as int);
        assert(ACCEL_LIMIT as int * DT_LIMIT as int == STEP_LIMIT as int) by (nonlinear_arith);
    }
    let vx: i128 = advance(vel.x, acc.x, dti, VEL_SCALE);
    let vy: i128 = advance(vel.y, acc.y, dti, VEL_SCALE);
    let vz: i128 = advance(vel.z, acc.z, dti, VEL_SCALE);
    let new_vel = Vec3 { x: vx, y: vy, z: vz };
    proof {
        lemma_mul_bound(new_vel@.x, COORD_LIMIT as int, dti as int, DT_LIMIT as int);
        lemma_mul_bound(new_vel@.y, COORD_LIMIT as int, dti as int, DT_LIMIT as int);
        lemma_mul_bound(new_vel@.z, COORD_LIMIT as int, dti as int, DT_LIMIT as int);
        assert(COORD_LIMIT as int * DT_LIMIT as int <= STEP_LIMIT as int) by (nonlinear_arith);
    }
    let px: i128 = advance(pos.x, vx, dti, POS_SCALE);
    let py: i128 = advance(pos.y, vy, dti, POS_SCALE);
    let pz: i128 = advance(pos.z, vz, dti, POS_SCALE);
    (Vec3 { x: px, y: py, z: pz }, new_vel)
}

/// Component-wise sum clamped into `[-lim, lim]`.
pub fn add_clamp(a: &Vec3, b: &Vec3, lim: i128) -> (r: Vec3)
    requires
        0 <= lim,
        i128::MIN <= a@.x + b@.x <= i128::MAX,
        i128::MIN <= a@.y + b@.y <= i128::MAX,
        i128::MIN <= a@.z + b@.z <= i128::MAX,
    ensures
        r@ == v3_clamp(v3_add(a@, b@), lim as int),
        v3_in(r@, lim as int),
    {
    Vec3 {
        x: clamp_i128(add_i128(a.x, b.x), lim),
        y: clamp_i128(add_i128(a.y, b.y), lim),
        z: clamp_i128(add_i128(a.z, b.z), lim),
    }
}

/// Clamp into `[-lim, lim]`.
pub fn clamp_i128(x: i128, lim: i128) -> (r: i128)
    requires
        0 <= lim,
    ensures
        r as int == clampi(x as int, lim as int),
{
    if x < -lim {
        -lim
    } else if x > lim {
        lim
    } else {
        x
    }
}

} // verus!
