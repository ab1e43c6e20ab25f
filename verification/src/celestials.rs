use vstd::prelude::*;

use crate::celestial::Celestial;
use crate::vec3::{
    add_clamp, div_trunc, divt, is_sqrt, lemma_divt_bound, lemma_divt_in_range, lemma_mul_bound,
    lemma_sqrt_exists, mul_i128, sqrt_floor,
    v3_add, v3_clamp, v3_in, v3_muldiv, v3_norm_sq, v3_sub, v3_unit, v3_zero, Vec3, ACCEL_LIMIT,
    COORD_LIMIT, EPSILON_SQ, G_DEN, G_NUM, MASS_LIMIT, SQ_METRE, UNIT, V3,
};

verus! {

/// Largest magnitude of a single gravity term (picometres per second
/// squared): `G_NUM * MASS_LIMIT / G_DEN` over the smallest accepted
/// separation.
pub const TERM_LIMIT: i128 = 166_857_500_000_000_000_000_000_000_000_000;

/// The acceleration (picometres per second squared) that one source of the
/// given mass at `source_pos` induces at `point`.  A source closer than
/// `EPSILON_SQ` (effectively coincident, including the point itself)
/// contributes nothing, which keeps the division regular.
pub open spec fn accel_contrib(mass: int, source_pos: V3, point: V3) -> V3 {
    let diff = v3_sub(source_pos, point);
    let dsq = v3_norm_sq(diff);
    if dsq <= EPSILON_SQ as int {
        v3_zero()
    } else {
        let unit = v3_unit(diff);
        let dsq_m = divt(dsq, SQ_METRE as int);
        let a_n = divt(G_NUM as int * mass, dsq_m * G_DEN as int);
        v3_muldiv(unit, a_n, UNIT as int)
    }
}

/// The acceleration at `point` accumulated over the first `n` sources, in
/// sequence order, skipping the source at index `excl` (pass a negative
/// index to exclude nothing).  Each accumulation step is clamped into the
/// acceleration box.
pub open spec fn accel_upto(cs: Seq<Celestial>, point: V3, excl: int, n: int) -> V3
    decreases n,
{
    if n <= 0 {
        v3_zero()
    } else {
        let prev = accel_upto(cs, point, excl, n - 1);
        if excl == n - 1 {
            prev
        } else {
            v3_clamp(
                v3_add(prev, accel_contrib(cs[n - 1].mass as int, cs[n - 1].pos@, point)),
                ACCEL_LIMIT as int,
            )
        }
    }
}

/// The acceleration at `point` from all sources but the one at index
/// `excl` (negative: none excluded), accumulated in sequence order.
pub open spec fn accel_at(cs: Seq<Celestial>, point: V3, excl: int) -> V3 {
    accel_upto(cs, point, excl, cs.len() as int)
}

/// Gravity attracts: no component of a single source's term ever points
/// away from the source.  (A component can vanish to rounding, so the
/// alignment is weak.)
pub proof fn lemma_term_toward_source(mass: int, source_pos: V3, point: V3)
    requires
        0 < mass,
    ensures
        accel_contrib(mass, source_pos, point).x * (source_pos.x - point.x) >= 0,
        accel_contrib(mass, source_pos, point).y * (source_pos.y - point.y) >= 0,
        accel_contrib(mass, source_pos, point).z * (source_pos.z - point.z) >= 0,
{
    let diff = v3_sub(source_pos, point);
    let dsq = v3_norm_sq(diff);
    if dsq <= EPSILON_SQ as int {
        assert(accel_contrib(mass, source_pos, point) == v3_zero());
    } else {
        let d = sqrt_floor(dsq);
        let dsq_m = divt(dsq, SQ_METRE as int);
        let a_n = divt(G_NUM as int * mass, dsq_m * G_DEN as int);
        lemma_sqrt_exists(dsq);
        assert(is_sqrt(d, dsq)) by {
            assert(exists|q: int| is_sqrt(q, dsq));
        }
        assert(d > 0) by (nonlinear_arith)
            requires is_sqrt(d, dsq) && dsq > EPSILON_SQ as int && EPSILON_SQ as int > 0;
        lemma_divt_in_range(dsq, SQ_METRE as int);
        assert(dsq_m >= 0);
        if dsq_m * G_DEN as int > 0 {
            assert(G_NUM as int * mass >= 0) by (nonlinear_arith)
                requires mass > 0;
            lemma_divt_in_range(G_NUM as int * mass, dsq_m * G_DEN as int);
            assert(a_n >= 0);
            lemma_component_aligned(diff.x, d, a_n);
            lemma_component_aligned(diff.y, d, a_n);
            lemma_component_aligned(diff.z, d, a_n);
        }
    }
}

/// One component of a gravity term keeps the sign of the displacement it
/// was computed from.
proof fn lemma_component_aligned(dx: int, d: int, a_n: int)
    requires
        d > 0,
        a_n >= 0,
    ensures
        divt(divt(dx * UNIT as int, d) * a_n, UNIT as int) * dx >= 0,
{
    let u = divt(dx * UNIT as int, d);
    let c = divt(u * a_n, UNIT as int);
    if dx >= 0 {
        assert(dx * UNIT as int >= 0) by (nonlinear_arith)
            requires dx >= 0;
        lemma_divt_in_range(dx * UNIT as int, d);
        assert(u >= 0);
        assert(u * a_n >= 0) by (nonlinear_arith)
            requires u >= 0 && a_n >= 0;
        lemma_divt_in_range(u * a_n, UNIT as int);
        assert(c * dx >= 0) by (nonlinear_arith)
            requires c >= 0 && dx >= 0;
    } else {
        assert(dx * UNIT as int <= 0) by (nonlinear_arith)
            requires dx <= 0;
        lemma_divt_in_range(dx * UNIT as int, d);
        assert(u <= 0);
        assert(u * a_n <= 0) by (nonlinear_arith)
            requires u <= 0 && a_n >= 0;
        lemma_divt_in_range(u * a_n, UNIT as int);
        assert(c * dx >= 0) by (nonlinear_arith)
            requires c <= 0 && dx <= 0;
    }
}

/// The accumulated acceleration depends only on the sources' masses and
/// positions, not on their names, velocities or radii.
pub proof fn lemma_accel_upto_congruent(
    cs1: Seq<Celestial>,
    cs2: Seq<Celestial>,
    point: V3,
    excl: int,
    n: int,
)
    requires
        n <= cs1.len(),
        n <= cs2.len(),
        forall|i: int|
            0 <= i < n ==> (#[trigger] cs1[i]).mass == cs2[i].mass && cs1[i].pos == cs2[i].pos,
    ensures
        accel_upto(cs1, point, excl, n) == accel_upto(cs2, point, excl, n),
    decreases n,
{
    if n > 0 {
        lemma_accel_upto_congruent(cs1, cs2, point, excl, n - 1);
    }
}

/// There is a source of this name in the sequence.
pub open spec fn has_name(cs: Seq<Celestial>, name: Seq<char>) -> bool {
    exists|i: int| 0 <= i < cs.len() && (#[trigger] cs[i]).name@ == name
}

/// Pointwise agreement of two source sequences on every field.
pub open spec fn cels_like(a: Seq<Celestial>, b: Seq<Celestial>) -> bool {
    &&& a.len() == b.len()
    &&& forall|i: int| 0 <= i < a.len() ==> (#[trigger] a[i]).like(&b[i])
}

/// All sources are well-formed and their names are pairwise distinct.
pub open spec fn cels_wf(cs: Seq<Celestial>) -> bool {
    &&& forall|i: int| 0 <= i < cs.len() ==> (#[trigger] cs[i]).wf()
    &&& forall|i: int, j: int|
        #![trigger cs[i].name@, cs[j].name@]
        0 <= i < j < cs.len() ==> cs[i].name@ != cs[j].name@
}

/// One gravity term: what the source with the given mass and position
/// contributes to the acceleration at `point`.
pub fn accel_term(mass: i128, source_pos: &Vec3, point: &Vec3) -> (r: Vec3)
    requires
        0 < mass <= MASS_LIMIT,
        v3_in(source_pos@, COORD_LIMIT as int),
        v3_in(point@, COORD_LIMIT as int),
    ensures
        r@ == accel_contrib(mass as int, source_pos@, point@),
        v3_in(r@, TERM_LIMIT as int),
{
    let diff: Vec3 = source_pos.sub(point);
    let norm = diff.normalize();
    if norm.distance_sq <= EPSILON_SQ {
        return Vec3::default();
    }
    let dsq: i128 = norm.distance_sq;
    proof {
        assert(dsq as int <= 12000000000000000000000000000000000000) by {
            assert(0 <= diff@.x * diff@.x <= 4000000000000000000000000000000000000)
                by (nonlinear_arith)
                requires -2000000000000000000 <= diff@.x <= 2000000000000000000;
            assert(0 <= diff@.y * diff@.y <= 4000000000000000000000000000000000000)
                by (nonlinear_arith)
                requires -2000000000000000000 <= diff@.y <= 2000000000000000000;
            assert(0 <= diff@.z * diff@.z <= 4000000000000000000000000000000000000)
                by (nonlinear_arith)
                requires -2000000000000000000 <= diff@.z <= 2000000000000000000;
        }
        vstd::arithmetic::div_mod::lemma_div_by_self(SQ_METRE as int);
        vstd::arithmetic::div_mod::lemma_div_is_ordered(SQ_METRE as int, dsq as int,
            SQ_METRE as int);
        lemma_divt_bound(dsq as int, SQ_METRE as int, 12000000000000000000000000);
    }
    let dsq_m: i128 = div_trunc(dsq, SQ_METRE);
    proof {
        assert(1 <= dsq_m as int <= 12000000000000000000000000);
        assert(G_NUM as int * mass <= 166857500000000000000000000000000000) by (nonlinear_arith)
            requires 0 < mass <= MASS_LIMIT as int;
        assert(G_NUM as int * mass >= 0) by (nonlinear_arith)
            requires 0 < mass;
        assert(1000 <= dsq_m as int * G_DEN as int <= 12000000000000000000000000000)
            by (nonlinear_arith)
            requires 1 <= dsq_m as int <= 12000000000000000000000000;
    }
    let num: i128 = mul_i128(G_NUM, mass);
    let den: i128 = mul_i128(dsq_m, G_DEN);
    proof {
        assert(TERM_LIMIT as int * den as int >= 166857500000000000000000000000000000)
            by (nonlinear_arith)
            requires den as int >= 1000;
        lemma_divt_bound(num as int, den as int, TERM_LIMIT as int);
        lemma_divt_in_range(num as int, den as int);
    }
    let a_n: i128 = div_trunc(num, den);
    let u: Vec3 = norm.unit_direction;
    proof {
        lemma_mul_bound(u@.x, UNIT as int, a_n as int, TERM_LIMIT as int);
        lemma_mul_bound(u@.y, UNIT as int, a_n as int, TERM_LIMIT as int);
        lemma_mul_bound(u@.z, UNIT as int, a_n as int, TERM_LIMIT as int);
        assert(UNIT as int * TERM_LIMIT as int == 166857500000000000000000000000000000000)
            by (nonlinear_arith);
        lemma_divt_bound(u@.x * a_n as int, UNIT as int, TERM_LIMIT as int);
        lemma_divt_bound(u@.y * a_n as int, UNIT as int, TERM_LIMIT as int);
        lemma_divt_bound(u@.z * a_n as int, UNIT as int, TERM_LIMIT as int);
    }
    Vec3 {
        x: div_trunc(mul_i128(u.x, a_n), UNIT),
        y: div_trunc(mul_i128(u.y, a_n), UNIT),
        z: div_trunc(mul_i128(u.z, a_n), UNIT),
    }
}

/// The gravity sources of a world: celestial bodies keyed by their unique
/// names, in a stable order that fixes the force summation order.
#[derive(Clone, Debug)]
pub struct Celestials(pub Vec<Celestial>);

impl View for Celestials {
    type V = Seq<Celestial>;

    open spec fn view(&self) -> Seq<Celestial> {
        self.0@
    }
}

impl Celestials {
    pub open spec fn wf(&self) -> bool {
        cels_wf(self@)
    }

    /// An empty collection.
    pub fn new() -> (r: Celestials)
        ensures
            r@.len() == 0,
            r.wf(),
    {
        Celestials(Vec::new())
    }

    /// Insert a body under its name: an existing body of the same name is
    /// replaced in place, otherwise the body is appended.
    pub fn add(&mut self, new_celestial: Celestial)
        requires
            old(self).wf(),
            new_celestial.wf(),
        ensures
            final(self).wf(),
            has_name(old(self)@, new_celestial.name@) ==> exists|i: int|
                0 <= i < old(self)@.len() && (#[trigger] old(self)@[i]).name@
                    == new_celestial.name@ && final(self)@ == old(self)@.update(i, new_celestial),
            !has_name(old(self)@, new_celestial.name@) ==> final(self)@ == old(self)@.push(
                new_celestial,
            ),
    {
        let ghost orig = self@;
        let n: usize = self.0.len();
        let mut i: usize = 0;
        while i < n
            invariant
                orig == old(self)@,
                n == orig.len(),
                self@ == orig,
                i <= n,
                cels_wf(orig),
                new_celestial.wf(),
                forall|j: int| 0 <= j < i ==> (#[trigger] orig[j]).name@ != new_celestial.name@,
            decreases n - i,
        {
            if self.0[i].name == new_celestial.name {
                self.0.set(i, new_celestial);
                proof {
                    assert(self@ == orig.update(i as int, new_celestial));
                    assert((i as int) < orig.len() && (#[trigger] orig[i as int]).name@
                        == new_celestial.name@);
                    assert(has_name(orig, new_celestial.name@));
                    assert forall|p: int, q: int|
                        #![trigger self@[p].name@, self@[q].name@]
                        0 <= p < q < self@.len() implies self@[p].name@ != self@[q].name@ by {
                        assert(orig[p].name@ != orig[q].name@);
                    }
                }
                return ;
            }
            i = i + 1;
        }
        self.0.push(new_celestial);
        proof {
            assert(self@ == orig.push(new_celestial));
            assert(!has_name(orig, new_celestial.name@));
            assert forall|p: int, q: int|
                #![trigger self@[p].name@, self@[q].name@]
                0 <= p < q < self@.len() implies self@[p].name@ != self@[q].name@ by {
                if q < orig.len() {
                    assert(orig[p].name@ != orig[q].name@);
                } else {
                    assert(self@[q] == new_celestial);
                    assert(orig[p].name@ != new_celestial.name@);
                }
            }
        }
    }

    /// An owned copy of all bodies, in summation order.
    pub fn get(&self) -> (r: Vec<Celestial>)
        ensures
            cels_like(r@, self@),
    {
        let n: usize = self.0.len();
        let mut r: Vec<Celestial> = Vec::new();
        let mut i: usize = 0;
        while i < n
            invariant
                n == self@.len(),
                i <= n,
                r@.len() == i,
                forall|j: int| 0 <= j < i ==> (#[trigger] r@[j]).like(&self@[j]),
            decreases n - i,
        {
            r.push(self.0[i].duplicate());
            i = i + 1;
        }
        r
    }

    /// Direct mutable access to the underlying bodies.
    pub fn get_mut(&mut self) -> (r: &mut Vec<Celestial>)
        ensures
            *r == old(self).0,
            final(self).0 == *final(r),
    {
        &mut self.0
    }

    /// An owned copy of the whole collection.
    pub fn snapshot(&self) -> (r: Celestials)
        requires
            self.wf(),
        ensures
            cels_like(r@, self@),
            r.wf(),
    {
        let r = Celestials(self.get());
        proof {
            assert forall|i: int| 0 <= i < r@.len() implies (#[trigger] r@[i]).wf() by {
                assert(r@[i].like(&self@[i]));
                assert(self@[i].wf());
            }
            assert forall|p: int, q: int|
                #![trigger r@[p].name@, r@[q].name@]
                0 <= p < q < r@.len() implies r@[p].name@ != r@[q].name@ by {
                assert(r@[p].like(&self@[p]));
                assert(r@[q].like(&self@[q]));
                assert(self@[p].name@ != self@[q].name@);
            }
        }
        r
    }

    /// The acceleration that these sources induce at `point`, accumulated
    /// in collection order, skipping the source at index `excluding` (the
    /// target itself, identified by position in the collection, never by
    /// name).
    pub fn acceleration_at(&self, point: Vec3, excluding: Option<usize>) -> (r: Vec3)
        requires
            self.wf(),
            v3_in(point@, COORD_LIMIT as int),
        ensures
            r@ == accel_at(self@, point@, excl_of(excluding)),
            v3_in(r@, ACCEL_LIMIT as int),
    {
        let ghost excl = excl_of(excluding);
        let n: usize = self.0.len();
        let mut acc: Vec3 = Vec3::default();
        let mut i: usize = 0;
        while i < n
            invariant
                n == self@.len(),
                i <= n,
                cels_wf(self@),
                v3_in(point@, COORD_LIMIT as int),
                acc@ == accel_upto(self@, point@, excl, i as int),
                v3_in(acc@, ACCEL_LIMIT as int),
                excl == excl_of(excluding),
            decreases n - i,
        {
            let skip: bool = match excluding {
                Some(e) => e == i,
                None => false,
            };
            if !skip {
                let c = &self.0[i];
                proof {
                    assert(self@[i as int].wf());
                }
                let term: Vec3 = accel_term(c.mass, &c.pos, &point);
                acc = add_clamp(&acc, &term, ACCEL_LIMIT);
            }
            i = i + 1;
        }
        acc
    }

    /// The acceleration these sources induce at `origin`, excluding none
    /// of them (a target that is itself a source is shielded only by the
    /// coincidence threshold).
    pub fn get_global_acceleration(&self, origin: Vec3) -> (r: Vec3)
        requires
            self.wf(),
            v3_in(origin@, COORD_LIMIT as int),
        ensures
            r@ == accel_at(self@, origin@, -1),
            v3_in(r@, ACCEL_LIMIT as int),
    {
        self.acceleration_at(origin, None)
    }
}

/// The exclusion index denoted by an optional position: `-1` for none.
pub open spec fn excl_of(e: Option<usize>) -> int {
    match e {
        None => -1,
        Some(i) => i as int,
    }
}

} // verus!
