//! Ray / bounding-box intersection.
//!
//! A candidate time of impact along a ray is an exact rational `p / q`
//! with `q > 0`, so the hit test is precise integer arithmetic: a ray
//! hits a volume exactly when some point `origin + (p/q) * dir` with
//! `p/q >= 0` lies inside the volume no farther along the ray than the
//! pick cutoff. The executable test is the slab method over exact
//! rationals, proved equivalent to that definition.

use vstd::prelude::*;
use crate::fixed::{COORD_LIMIT, mul_wide};
use crate::math::{Vec3I, Aabb, aabb_in_range, vol_range, dir_range, vec3_vol_range, vec3_dir_range};

verus! {

/// Picking ignores hits farther than this distance along the ray
/// (thirty world units, in fixed-point).
pub const MAX_TOI: i64 = 30_000;

/// Squared length of a direction vector.
pub open spec fn len2(d: Vec3I) -> int {
    (d.x as int) * (d.x as int) + (d.y as int) * (d.y as int) + (d.z as int) * (d.z as int)
}

/// `p1 / q1 <= p2 / q2` for positive denominators, in product form.
pub open spec fn rat_le(p1: int, q1: int, p2: int, q2: int) -> bool {
    p1 * q2 <= p2 * q1
}

/// The slab constraint of one axis: at parameter `p / q` the ray's
/// point stays between `mn` and `mx` on this axis.
pub open spec fn axis_ok(o: int, d: int, mn: int, mx: int, p: int, q: int) -> bool {
    q * mn <= q * o + p * d <= q * mx
}

/// At parameter `p / q` the ray's point lies within the pick cutoff:
/// the travelled distance `(p/q) * |dir|` is at most `MAX_TOI`.
pub open spec fn within_cutoff(d: Vec3I, p: int, q: int) -> bool {
    p * p * len2(d) <= (MAX_TOI as int) * (MAX_TOI as int) * (q * q)
}

/// The ray `o + t * d` hits box `b` at the exact parameter `t = p / q`.
pub open spec fn hits_at(o: Vec3I, d: Vec3I, b: Aabb, p: int, q: int) -> bool {
    &&& q > 0
    &&& p >= 0
    &&& axis_ok(o.x as int, d.x as int, b.min.x as int, b.max.x as int, p, q)
    &&& axis_ok(o.y as int, d.y as int, b.min.y as int, b.max.y as int, p, q)
    &&& axis_ok(o.z as int, d.z as int, b.min.z as int, b.max.z as int, p, q)
    &&& within_cutoff(d, p, q)
}

/// A ray hits a box when some nonnegative rational parameter within the
/// cutoff places the ray's point inside the box.
pub open spec fn ray_hits(o: Vec3I, d: Vec3I, b: Aabb) -> bool {
    exists |p: int, q: int| hits_at(o, d, b, p, q)
}

/// Transitivity of the product-form rational order.
pub proof fn lemma_rat_le_trans(p1: int, q1: int, p2: int, q2: int, p3: int, q3: int)
    requires
        q1 > 0,
        q2 > 0,
        q3 > 0,
        rat_le(p1, q1, p2, q2),
        rat_le(p2, q2, p3, q3),
    ensures
        rat_le(p1, q1, p3, q3),
{
    assert(p1 * q3 <= p3 * q1) by (nonlinear_arith)
        requires
            q1 > 0,
            q2 > 0,
            q3 > 0,
            p1 * q2 <= p2 * q1,
            p2 * q3 <= p3 * q2;
}

/// Travelling farther along a ray never shrinks the distance: if the
/// point at `p / q` is within the cutoff, so is the earlier `lp / lq`.
proof fn lemma_dist_mono(lp: int, lq: int, p: int, q: int, d: Vec3I)
    requires
        lq > 0,
        q > 0,
        0 <= lp,
        0 <= p,
        rat_le(lp, lq, p, q),
        within_cutoff(d, p, q),
    ensures
        within_cutoff(d, lp, lq),
{
    let l2 = len2(d);
    let t = (MAX_TOI as int) * (MAX_TOI as int);
    assert((d.x as int) * (d.x as int) + (d.y as int) * (d.y as int)
        + (d.z as int) * (d.z as int) >= 0) by (nonlinear_arith);
    assert(l2 >= 0);
    assert((lp * q) * (lp * q) <= (p * lq) * (p * lq)) by (nonlinear_arith)
        requires
            0 <= lp,
            0 <= p,
            lq > 0,
            q > 0,
            lp * q <= p * lq;
    assert((lp * lp * l2) * (q * q) <= (p * p * l2) * (lq * lq)) by (nonlinear_arith)
        requires
            l2 >= 0,
            (lp * q) * (lp * q) <= (p * lq) * (p * lq);
    assert((p * p * l2) * (lq * lq) <= (t * (q * q)) * (lq * lq)) by (nonlinear_arith)
        requires
            lq > 0,
            p * p * l2 <= t * (q * q);
    assert(lp * lp * l2 <= t * (lq * lq)) by (nonlinear_arith)
        requires
            q > 0,
            (lp * lp * l2) * (q * q) <= (t * (q * q)) * (lq * lq);
}

/// A ray aimed through the exact center of a nonempty box, with the
/// center within the pick cutoff, hits the box: the candidate set of a
/// resolution always includes the object straight under the cursor.
pub proof fn lemma_center_ray_hits(o: Vec3I, d: Vec3I, b: Aabb, p: int, q: int)
    requires
        q > 0,
        p >= 0,
        b.min.x <= b.max.x,
        b.min.y <= b.max.y,
        b.min.z <= b.max.z,
        2 * (q * (o.x as int) + p * (d.x as int)) == q * ((b.min.x as int) + (b.max.x as int)),
        2 * (q * (o.y as int) + p * (d.y as int)) == q * ((b.min.y as int) + (b.max.y as int)),
        2 * (q * (o.z as int) + p * (d.z as int)) == q * ((b.min.z as int) + (b.max.z as int)),
        within_cutoff(d, p, q),
    ensures
        ray_hits(o, d, b),
{
    assert(axis_ok(o.x as int, d.x as int, b.min.x as int, b.max.x as int, p, q)) by (nonlinear_arith)
        requires
            q > 0,
            (b.min.x as int) <= (b.max.x as int),
            2 * (q * (o.x as int) + p * (d.x as int)) == q * ((b.min.x as int) + (b.max.x as int));
    assert(axis_ok(o.y as int, d.y as int, b.min.y as int, b.max.y as int, p, q)) by (nonlinear_arith)
        requires
            q > 0,
            (b.min.y as int) <= (b.max.y as int),
            2 * (q * (o.y as int) + p * (d.y as int)) == q * ((b.min.y as int) + (b.max.y as int));
    assert(axis_ok(o.z as int, d.z as int, b.min.z as int, b.max.z as int, p, q)) by (nonlinear_arith)
        requires
            q > 0,
            (b.min.z as int) <= (b.max.z as int),
            2 * (q * (o.z as int) + p * (d.z as int)) == q * ((b.min.z as int) + (b.max.z as int));
    assert(hits_at(o, d, b, p, q));
}

/// A ray every one of whose in-box parameters lies beyond the cutoff
/// misses: geometric intersection of the infinite ray alone is not a
/// hit.
pub proof fn lemma_beyond_cutoff_misses(o: Vec3I, d: Vec3I, b: Aabb)
    requires
        forall |p: int, q: int| q > 0 && p >= 0
            && axis_ok(o.x as int, d.x as int, b.min.x as int, b.max.x as int, p, q)
            && axis_ok(o.y as int, d.y as int, b.min.y as int, b.max.y as int, p, q)
            && axis_ok(o.z as int, d.z as int, b.min.z as int, b.max.z as int, p, q)
            ==> !(#[trigger] within_cutoff(d, p, q)),
    ensures
        !ray_hits(o, d, b),
{
    assert forall |p: int, q: int| !hits_at(o, d, b, p, q) by {
        if hits_at(o, d, b, p, q) {
            assert(within_cutoff(d, p, q));
        }
    }
}

/// The slab interval while the axes are folded in: the parameters still
/// feasible are those in `[lo_p/lo_q, hi_p/hi_q]` (upper bound only
/// once `hi_set` holds).
struct Slab {
    lo_p: i64,
    lo_q: i64,
    hi_p: i64,
    hi_q: i64,
    hi_set: bool,
}

spec fn slab_wf(st: Slab) -> bool {
    &&& 0 <= st.lo_p <= 8 * (COORD_LIMIT as int)
    &&& 0 < st.lo_q <= 10 * (COORD_LIMIT as int)
    &&& st.hi_set ==> -8 * (COORD_LIMIT as int) <= st.hi_p <= 8 * (COORD_LIMIT as int)
    &&& st.hi_set ==> 0 < st.hi_q <= 10 * (COORD_LIMIT as int)
}

spec fn in_iv(st: Slab, p: int, q: int) -> bool {
    &&& rat_le(st.lo_p as int, st.lo_q as int, p, q)
    &&& st.hi_set ==> rat_le(p, q, st.hi_p as int, st.hi_q as int)
}

fn rat_le_exec(p1: i64, q1: i64, p2: i64, q2: i64) -> (r: bool)
    ensures
        r == rat_le(p1 as int, q1 as int, p2 as int, q2 as int),
{
    let a: i128 = mul_wide(p1, q2);
    let b: i128 = mul_wide(p2, q1);
    a <= b
}

/// Fold one axis' slab constraint into the feasible interval. Returns
/// false only when no parameter at all can satisfy this axis.
fn axis_update(o: i64, d: i64, mn: i64, mx: i64, st: &mut Slab) -> (ok: bool)
    requires
        slab_wf(*old(st)),
        vol_range(o),
        dir_range(d),
        vol_range(mn),
        vol_range(mx),
        mn <= mx,
    ensures
        slab_wf(*final(st)),
        final(st).hi_set == (old(st).hi_set || d != 0),
        ok ==> forall |p: int, q: int| q > 0 ==> ((#[trigger] in_iv(*final(st), p, q))
            <==> in_iv(*old(st), p, q)
                && axis_ok(o as int, d as int, mn as int, mx as int, p, q)),
        !ok ==> forall |p: int, q: int| q > 0
            ==> !(#[trigger] axis_ok(o as int, d as int, mn as int, mx as int, p, q)),
        !ok ==> *final(st) == *old(st),
{
    if d == 0 {
        if o < mn || o > mx {
            proof {
                assert forall |p: int, q: int| q > 0
                    implies !axis_ok(o as int, d as int, mn as int, mx as int, p, q) by {
                    if o < mn {
                        assert(q * (o as int) < q * (mn as int)) by (nonlinear_arith)
                            requires
                                q > 0,
                                (o as int) < (mn as int);
                    } else {
                        assert(q * (mx as int) < q * (o as int)) by (nonlinear_arith)
                            requires
                                q > 0,
                                (mx as int) < (o as int);
                    }
                }
            }
            return false;
        }
        proof {
            assert forall |p: int, q: int| q > 0
                implies axis_ok(o as int, d as int, mn as int, mx as int, p, q) by {
                assert(q * (mn as int) <= q * (o as int) && q * (o as int) <= q * (mx as int))
                    by (nonlinear_arith)
                    requires
                        q > 0,
                        (mn as int) <= (o as int),
                        (o as int) <= (mx as int);
            }
        }
        return true;
    }

    let en_p: i64;
    let ex_p: i64;
    let den: i64;
    if d > 0 {
        en_p = mn - o;
        ex_p = mx - o;
        den = d;
    } else {
        en_p = o - mx;
        ex_p = o - mn;
        den = -d;
    }
    let ghost st0 = *st;

    // Lower bound: the feasible interval keeps the larger of the old
    // lower bound and this axis' entry parameter.
    let replace_lo: bool = !rat_le_exec(en_p, den, st.lo_p, st.lo_q);
    if replace_lo {
        proof {
            assert(en_p > 0) by (nonlinear_arith)
                requires
                    (st0.lo_p as int) * (den as int) < (en_p as int) * (st0.lo_q as int),
                    st0.lo_p >= 0,
                    st0.lo_q > 0,
                    den > 0;
        }
        st.lo_p = en_p;
        st.lo_q = den;
    }
    // Upper bound: keep the smaller of the old upper bound and this
    // axis' exit parameter.
    let ghost st1 = *st;
    if !st.hi_set {
        st.hi_p = ex_p;
        st.hi_q = den;
        st.hi_set = true;
    } else {
        let replace_hi: bool = !rat_le_exec(st.hi_p, st.hi_q, ex_p, den);
        if replace_hi {
            st.hi_p = ex_p;
            st.hi_q = den;
        }
    }

    proof {
        let stf = *st;
        assert forall |p: int, q: int| q > 0
            implies ((#[trigger] in_iv(stf, p, q))
                <==> in_iv(st0, p, q)
                    && axis_ok(o as int, d as int, mn as int, mx as int, p, q)) by {
            // The axis constraint in entry/exit form.
            if d > 0 {
                assert(axis_ok(o as int, d as int, mn as int, mx as int, p, q)
                    == (rat_le(en_p as int, den as int, p, q)
                        && rat_le(p, q, ex_p as int, den as int))) by (nonlinear_arith)
                    requires
                        q > 0,
                        (d as int) > 0,
                        (den as int) == d as int,
                        (en_p as int) == (mn as int) - (o as int),
                        (ex_p as int) == (mx as int) - (o as int);
            } else {
                assert(axis_ok(o as int, d as int, mn as int, mx as int, p, q)
                    == (rat_le(en_p as int, den as int, p, q)
                        && rat_le(p, q, ex_p as int, den as int))) by (nonlinear_arith)
                    requires
                        q > 0,
                        (d as int) < 0,
                        (den as int) == -(d as int),
                        (en_p as int) == (o as int) - (mx as int),
                        (ex_p as int) == (o as int) - (mn as int);
            }
            // Lower bound: lo' == max(lo, entry).
            if replace_lo {
                if rat_le(st1.lo_p as int, st1.lo_q as int, p, q) {
                    lemma_rat_le_trans(
                        st0.lo_p as int, st0.lo_q as int,
                        en_p as int, den as int, p, q);
                }
            } else {
                if rat_le(st1.lo_p as int, st1.lo_q as int, p, q) {
                    lemma_rat_le_trans(
                        en_p as int, den as int,
                        st0.lo_p as int, st0.lo_q as int, p, q);
                }
            }
            // Upper bound: hi' == min(hi, exit).
            if st0.hi_set {
                if stf.hi_p == ex_p && stf.hi_q == den && !(st0.hi_p == ex_p && st0.hi_q == den) {
                    // exit became the bound because it is below the old one
                    if rat_le(p, q, stf.hi_p as int, stf.hi_q as int) {
                        lemma_rat_le_trans(
                            p, q, ex_p as int, den as int,
                            st0.hi_p as int, st0.hi_q as int);
                    }
                } else {
                    if rat_le(p, q, stf.hi_p as int, stf.hi_q as int) {
                        lemma_rat_le_trans(
                            p, q, st0.hi_p as int, st0.hi_q as int,
                            ex_p as int, den as int);
                    }
                }
            }
        }
    }
    true
}

/// Exact hit test of a ray against a world-space bounding box: true
/// exactly when `ray_hits` holds, by the slab method.
pub fn ray_aabb_hit(o: &Vec3I, d: &Vec3I, b: &Aabb) -> (hit: bool)
    requires
        vec3_vol_range(*o),
        vec3_dir_range(*d),
        aabb_in_range(*b),
        b.min.x <= b.max.x,
        b.min.y <= b.max.y,
        b.min.z <= b.max.z,
        !(d.x == 0 && d.y == 0 && d.z == 0),
    ensures
        hit == ray_hits(*o, *d, *b),
{
    let mut st = Slab { lo_p: 0, lo_q: 1, hi_p: 0, hi_q: 1, hi_set: false };
    let ghost g0 = st;
    proof {
        assert forall |p: int, q: int| q > 0 implies (in_iv(g0, p, q) <==> p >= 0) by {
            assert(rat_le(0int, 1int, p, q) == (0 * q <= p * 1));
        }
    }

    let ok_x = axis_update(o.x, d.x, b.min.x, b.max.x, &mut st);
    if !ok_x {
        proof {
            assert forall |p: int, q: int| !hits_at(*o, *d, *b, p, q) by {
                if hits_at(*o, *d, *b, p, q) {
                    assert(axis_ok(o.x as int, d.x as int, b.min.x as int, b.max.x as int, p, q));
                }
            }
        }
        return false;
    }
    let ghost g1 = st;

    let ok_y = axis_update(o.y, d.y, b.min.y, b.max.y, &mut st);
    if !ok_y {
        proof {
            assert forall |p: int, q: int| !hits_at(*o, *d, *b, p, q) by {
                if hits_at(*o, *d, *b, p, q) {
                    assert(axis_ok(o.y as int, d.y as int, b.min.y as int, b.max.y as int, p, q));
                }
            }
        }
        return false;
    }
    let ghost g2 = st;

    let ok_z = axis_update(o.z, d.z, b.min.z, b.max.z, &mut st);
    if !ok_z {
        proof {
            assert forall |p: int, q: int| !hits_at(*o, *d, *b, p, q) by {
                if hits_at(*o, *d, *b, p, q) {
                    assert(axis_ok(o.z as int, d.z as int, b.min.z as int, b.max.z as int, p, q));
                }
            }
        }
        return false;
    }
    let ghost g3 = st;

    // At least one axis of the direction is nonzero, so an exit bound
    // exists.
    if !st.hi_set {
        proof {
            assert(false);
        }
        return false;
    }

    let nonempty = rat_le_exec(st.lo_p, st.lo_q, st.hi_p, st.hi_q);
    if !nonempty {
        proof {
            assert forall |p: int, q: int| !hits_at(*o, *d, *b, p, q) by {
                if hits_at(*o, *d, *b, p, q) {
                    assert(in_iv(g1, p, q));
                    assert(in_iv(g2, p, q));
                    assert(in_iv(g3, p, q));
                    lemma_rat_le_trans(
                        g3.lo_p as int, g3.lo_q as int, p, q,
                        g3.hi_p as int, g3.hi_q as int);
                }
            }
        }
        return false;
    }

    // Distance cutoff, tested at the earliest feasible parameter.
    let dx2: i128 = mul_wide(d.x, d.x);
    let dy2: i128 = mul_wide(d.y, d.y);
    let dz2: i128 = mul_wide(d.z, d.z);
    proof {
        lemma_square_range(d.x as int, 10 * (COORD_LIMIT as int));
        lemma_square_range(d.y as int, 10 * (COORD_LIMIT as int));
        lemma_square_range(d.z as int, 10 * (COORD_LIMIT as int));
    }
    let l2: i128 = dx2 + dy2 + dz2;
    let lp2: i128 = mul_wide(st.lo_p, st.lo_p);
    let lq2: i128 = mul_wide(st.lo_q, st.lo_q);
    proof {
        lemma_square_range(st.lo_p as int, 8 * (COORD_LIMIT as int));
        lemma_square_range(st.lo_q as int, 10 * (COORD_LIMIT as int));
        assert((lp2 as int) * (l2 as int)
            <= (64 * (COORD_LIMIT as int) * (COORD_LIMIT as int))
                * (300 * (COORD_LIMIT as int) * (COORD_LIMIT as int))
            && (lp2 as int) * (l2 as int) >= 0) by (nonlinear_arith)
            requires
                0 <= lp2 as int <= 64 * (COORD_LIMIT as int) * (COORD_LIMIT as int),
                0 <= l2 as int <= 300 * (COORD_LIMIT as int) * (COORD_LIMIT as int);
        assert((9_0000_0000int) * (lq2 as int)
            <= 9_0000_0000int * (100 * (COORD_LIMIT as int) * (COORD_LIMIT as int))
            && 9_0000_0000int * (lq2 as int) >= 0) by (nonlinear_arith)
            requires
                0 <= lq2 as int <= 100 * (COORD_LIMIT as int) * (COORD_LIMIT as int);
    }
    let lhs: i128 = lp2 * l2;
    let rhs: i128 = 9_0000_0000i128 * lq2;
    let within = lhs <= rhs;
    proof {
        assert((MAX_TOI as int) * (MAX_TOI as int) == 9_0000_0000int);
        assert(within == within_cutoff(*d, st.lo_p as int, st.lo_q as int));
    }

    if within {
        proof {
            let lp = g3.lo_p as int;
            let lq = g3.lo_q as int;
            assert(rat_le(lp, lq, lp, lq));
            assert(in_iv(g3, lp, lq));
            assert(in_iv(g2, lp, lq)
                && axis_ok(o.z as int, d.z as int, b.min.z as int, b.max.z as int, lp, lq));
            assert(in_iv(g1, lp, lq)
                && axis_ok(o.y as int, d.y as int, b.min.y as int, b.max.y as int, lp, lq));
            assert(in_iv(g0, lp, lq)
                && axis_ok(o.x as int, d.x as int, b.min.x as int, b.max.x as int, lp, lq));
            assert(hits_at(*o, *d, *b, lp, lq));
        }
        true
    } else {
        proof {
            assert forall |p: int, q: int| !hits_at(*o, *d, *b, p, q) by {
                if hits_at(*o, *d, *b, p, q) {
                    assert(in_iv(g1, p, q));
                    assert(in_iv(g2, p, q));
                    assert(in_iv(g3, p, q));
                    lemma_dist_mono(g3.lo_p as int, g3.lo_q as int, p, q, *d);
                }
            }
        }
        false
    }
}

proof fn lemma_square_range(a: int, c: int)
    requires
        -c <= a <= c,
        c >= 0,
    ensures
        0 <= a * a <= c * c,
{
    assert(0 <= a * a <= c * c) by (nonlinear_arith)
        requires
            -c <= a <= c,
            c >= 0;
}

} // verus!
