//! Per-lane solver kernels.
//!
//! Each SIMD lane of a batched constraint is one independent scalar problem.
//! This module defines, over the fixed-point spec functions of `fx`, what one
//! lane computes — constraint coefficients at generation, the impulse applied
//! at warm start, and one friction/normal relaxation step — and exec kernels
//! proved to return exactly those values.

use crate::data::{ContactManifold, DeltaVel, RigidBodyState, SBody, SDelta, SIso, SManifold,
    SPoint};
use crate::fx::{fx_add, fx_clamp, fx_div, fx_max, fx_mul, fx_neg, fx_sub, fxadd, fxclamp, fxdiv,
    fits64, fxmax, fxmul, fxneg, fxsub, lemma_fx_add_zero, lemma_fx_mul_nonneg,
    lemma_fx_mul_zero, lemma_fx_square_nonneg, tdiv, FP_ONE};
use vstd::prelude::*;

verus! {

// ---------------------------------------------------------------------------
// Spec-level geometry.
// ---------------------------------------------------------------------------
/// x component of a rotation (cosine `c`, sine `s`) applied to a vector.
pub open spec fn sp_rot_x(c: int, s: int, vx: int, vy: int) -> int {
    fx_sub(fx_mul(c, vx), fx_mul(s, vy))
}

/// y component of a rotation applied to a vector.
pub open spec fn sp_rot_y(c: int, s: int, vx: int, vy: int) -> int {
    fx_add(fx_mul(s, vx), fx_mul(c, vy))
}

/// Composition of two isometries: rotations compose as complex products,
/// the translation of `b` is carried through `a`.
pub open spec fn sp_iso_mul(a: SIso, b: SIso) -> SIso {
    SIso {
        c: fx_sub(fx_mul(a.c, b.c), fx_mul(a.s, b.s)),
        s: fx_add(fx_mul(a.s, b.c), fx_mul(a.c, b.s)),
        tx: fx_add(a.tx, sp_rot_x(a.c, a.s, b.tx, b.ty)),
        ty: fx_add(a.ty, sp_rot_y(a.c, a.s, b.tx, b.ty)),
    }
}

/// x component of an isometry applied to a point.
pub open spec fn sp_iso_pt_x(a: SIso, px: int, py: int) -> int {
    fx_add(a.tx, sp_rot_x(a.c, a.s, px, py))
}

/// y component of an isometry applied to a point.
pub open spec fn sp_iso_pt_y(a: SIso, px: int, py: int) -> int {
    fx_add(a.ty, sp_rot_y(a.c, a.s, px, py))
}

pub open spec fn sp_dot(ax: int, ay: int, bx: int, by: int) -> int {
    fx_add(fx_mul(ax, bx), fx_mul(ay, by))
}

/// The planar cross product of two vectors (a scalar).
pub open spec fn sp_cross(ax: int, ay: int, bx: int, by: int) -> int {
    fx_sub(fx_mul(ax, by), fx_mul(ay, bx))
}

/// The collider pose of body 1: the body pose composed with the manifold's
/// local delta transform.
pub open spec fn sp_coll_pos1(m: SManifold, b1: SBody) -> SIso {
    sp_iso_mul(b1.pos, m.delta1)
}

pub open spec fn sp_coll_pos2(m: SManifold, b2: SBody) -> SIso {
    sp_iso_mul(b2.pos, m.delta2)
}

/// x component of the world contact normal, pointing from body 2 toward
/// body 1: the first collider pose's rotation applied to the negated local
/// normal.
pub open spec fn sp_dir_x(m: SManifold, b1: SBody) -> int {
    sp_rot_x(sp_coll_pos1(m, b1).c, sp_coll_pos1(m, b1).s, fx_neg(m.nx), fx_neg(m.ny))
}

/// y component of the world contact normal.
pub open spec fn sp_dir_y(m: SManifold, b1: SBody) -> int {
    sp_rot_y(sp_coll_pos1(m, b1).c, sp_coll_pos1(m, b1).s, fx_neg(m.nx), fx_neg(m.ny))
}

// ---------------------------------------------------------------------------
// Spec-level constraint element.
// ---------------------------------------------------------------------------
/// Precomputed solver coefficients for one direction of one contact point of
/// one lane.
pub struct SPart {
    /// Angular Jacobian term of body 1 (inertia-sqrt-premultiplied).
    pub g1: int,
    /// Angular Jacobian term of body 2.
    pub g2: int,
    /// Bias velocity the solver drives the relative velocity toward.
    pub rhs: int,
    /// Accumulated impulse along this direction.
    pub imp: int,
    /// Diagonal-approximate inverse effective mass.
    pub r: int,
}

/// One contact point's normal and tangent coefficients for one lane.
pub struct SElem {
    pub normal: SPart,
    pub tangent: SPart,
}

/// Sum of inverse masses and squared angular terms: the effective-mass
/// denominator.
pub open spec fn sp_denom(im1: int, im2: int, g1: int, g2: int) -> int {
    fx_add(fx_add(fx_add(im1, im2), fx_mul(g1, g1)), fx_mul(g2, g2))
}

/// Everything `generate` computes for contact point `k` of one lane:
/// world positions, lever arms, relative velocity, then the normal part
/// (with restitution and penetration bias) and the tangent part.
#[verifier::opaque]
pub open spec fn sp_element(
    inv_dt: int,
    thr: int,
    wcoeff: int,
    m: SManifold,
    b1: SBody,
    b2: SBody,
    k: int,
) -> SElem
    recommends
        0 <= k < m.points.len(),
{
    let cp1 = sp_coll_pos1(m, b1);
    let cp2 = sp_coll_pos2(m, b2);
    let dx = sp_dir_x(m, b1);
    let dy = sp_dir_y(m, b1);
    let pt = m.points[k];
    let dp1x = fx_sub(sp_iso_pt_x(cp1, pt.p1x, pt.p1y), b1.comx);
    let dp1y = fx_sub(sp_iso_pt_y(cp1, pt.p1x, pt.p1y), b1.comy);
    let dp2x = fx_sub(sp_iso_pt_x(cp2, pt.p2x, pt.p2y), b2.comx);
    let dp2y = fx_sub(sp_iso_pt_y(cp2, pt.p2x, pt.p2y), b2.comy);
    let relx = fx_sub(fx_add(b1.lvx, fx_mul(fx_neg(b1.av), dp1y)), fx_add(
        b2.lvx,
        fx_mul(fx_neg(b2.av), dp2y),
    ));
    let rely = fx_sub(fx_add(b1.lvy, fx_mul(b1.av, dp1x)), fx_add(b2.lvy, fx_mul(b2.av, dp2x)));
    let warm = fx_mul(m.warmstart_multiplier, wcoeff);
    let g1n = fx_mul(b1.inv_inertia_sqrt, sp_cross(dp1x, dp1y, dx, dy));
    let g2n = fx_mul(b2.inv_inertia_sqrt, sp_cross(dp2x, dp2y, fx_neg(dx), fx_neg(dy)));
    let vn = sp_dot(relx, rely, dx, dy);
    let vn_res = if vn <= fx_neg(thr) {
        fx_add(vn, fx_mul(vn, m.restitution))
    } else {
        vn
    };
    let tx = fx_neg(dy);
    let ty = dx;
    let g1t = fx_mul(b1.inv_inertia_sqrt, sp_cross(dp1x, dp1y, tx, ty));
    let g2t = fx_mul(b2.inv_inertia_sqrt, sp_cross(dp2x, dp2y, fx_neg(tx), fx_neg(ty)));
    SElem {
        normal: SPart {
            g1: g1n,
            g2: g2n,
            rhs: fx_add(vn_res, fx_mul(fx_max(pt.dist, 0), inv_dt)),
            imp: fx_mul(pt.impulse, warm),
            r: fx_div(FP_ONE as int, sp_denom(b1.inv_mass, b2.inv_mass, g1n, g2n)),
        },
        tangent: SPart {
            g1: g1t,
            g2: g2t,
            rhs: sp_dot(relx, rely, tx, ty),
            imp: fx_mul(pt.tangent_impulse, warm),
            r: fx_div(FP_ONE as int, sp_denom(b1.inv_mass, b2.inv_mass, g1t, g2t)),
        },
    }
}

// ---------------------------------------------------------------------------
// Spec-level warm start and relaxation steps.
// ---------------------------------------------------------------------------
/// Warm-start contribution of one contact point to body 1's velocity delta:
/// the stored normal then tangent impulses applied along their directions.
pub open spec fn sp_warm_b1(dirx: int, diry: int, im1: int, e: SElem, d: SDelta) -> SDelta {
    let tx = fx_neg(diry);
    let ty = dirx;
    let dn = SDelta {
        lx: fx_add(d.lx, fx_mul(dirx, fx_mul(im1, e.normal.imp))),
        ly: fx_add(d.ly, fx_mul(diry, fx_mul(im1, e.normal.imp))),
        ang: fx_add(d.ang, fx_mul(e.normal.g1, e.normal.imp)),
    };
    SDelta {
        lx: fx_add(dn.lx, fx_mul(tx, fx_mul(im1, e.tangent.imp))),
        ly: fx_add(dn.ly, fx_mul(ty, fx_mul(im1, e.tangent.imp))),
        ang: fx_add(dn.ang, fx_mul(e.tangent.g1, e.tangent.imp)),
    }
}

/// Warm-start contribution of one contact point to body 2's velocity delta
/// (opposite linear sign, body 2's angular terms).
pub open spec fn sp_warm_b2(dirx: int, diry: int, im2: int, e: SElem, d: SDelta) -> SDelta {
    let tx = fx_neg(diry);
    let ty = dirx;
    let dn = SDelta {
        lx: fx_add(d.lx, fx_mul(dirx, fx_mul(fx_neg(im2), e.normal.imp))),
        ly: fx_add(d.ly, fx_mul(diry, fx_mul(fx_neg(im2), e.normal.imp))),
        ang: fx_add(d.ang, fx_mul(e.normal.g2, e.normal.imp)),
    };
    SDelta {
        lx: fx_add(dn.lx, fx_mul(tx, fx_mul(fx_neg(im2), e.tangent.imp))),
        ly: fx_add(dn.ly, fx_mul(ty, fx_mul(fx_neg(im2), e.tangent.imp))),
        ang: fx_add(dn.ang, fx_mul(e.tangent.g2, e.tangent.imp)),
    }
}

/// State carried through one relaxation step: the updated direction part and
/// both bodies' velocity deltas.
pub struct SStep {
    pub p: SPart,
    pub d1: SDelta,
    pub d2: SDelta,
}

/// Constraint violation along a direction: relative velocity of the current
/// buffered deltas plus the stored bias.
pub open spec fn sp_violation(ux: int, uy: int, p: SPart, d1: SDelta, d2: SDelta) -> int {
    fx_add(
        fx_add(
            fx_sub(fx_add(sp_dot(ux, uy, d1.lx, d1.ly), fx_mul(p.g1, d1.ang)), sp_dot(
                ux,
                uy,
                d2.lx,
                d2.ly,
            )),
            fx_mul(p.g2, d2.ang),
        ),
        p.rhs,
    )
}

/// One friction relaxation step: the candidate impulse is clamped to the
/// decoupled Coulomb box `[-limit * nimp, +limit * nimp]` (where `nimp` is
/// the normal impulse of the previous sweep), and the impulse change is
/// applied to both bodies' deltas at once.
pub open spec fn sp_tan_step(
    tx: int,
    ty: int,
    im1: int,
    im2: int,
    limit: int,
    nimp: int,
    e: SPart,
    d1: SDelta,
    d2: SDelta,
) -> SStep {
    let lim = fx_mul(limit, nimp);
    let newi = fx_clamp(fx_sub(e.imp, fx_mul(e.r, sp_violation(tx, ty, e, d1, d2))), fx_neg(lim),
        lim);
    let dl = fx_sub(newi, e.imp);
    SStep {
        p: SPart { g1: e.g1, g2: e.g2, rhs: e.rhs, imp: newi, r: e.r },
        d1: SDelta {
            lx: fx_add(d1.lx, fx_mul(tx, fx_mul(im1, dl))),
            ly: fx_add(d1.ly, fx_mul(ty, fx_mul(im1, dl))),
            ang: fx_add(d1.ang, fx_mul(e.g1, dl)),
        },
        d2: SDelta {
            lx: fx_add(d2.lx, fx_mul(tx, fx_mul(fx_neg(im2), dl))),
            ly: fx_add(d2.ly, fx_mul(ty, fx_mul(fx_neg(im2), dl))),
            ang: fx_add(d2.ang, fx_mul(e.g2, dl)),
        },
    }
}

/// One normal relaxation step: the candidate impulse is clamped to
/// `[0, +infinity)` — the contact can only push.
pub open spec fn sp_nrm_step(
    dirx: int,
    diry: int,
    im1: int,
    im2: int,
    e: SPart,
    d1: SDelta,
    d2: SDelta,
) -> SStep {
    let newi = fx_max(fx_sub(e.imp, fx_mul(e.r, sp_violation(dirx, diry, e, d1, d2))), 0);
    let dl = fx_sub(newi, e.imp);
    SStep {
        p: SPart { g1: e.g1, g2: e.g2, rhs: e.rhs, imp: newi, r: e.r },
        d1: SDelta {
            lx: fx_add(d1.lx, fx_mul(dirx, fx_mul(im1, dl))),
            ly: fx_add(d1.ly, fx_mul(diry, fx_mul(im1, dl))),
            ang: fx_add(d1.ang, fx_mul(e.g1, dl)),
        },
        d2: SDelta {
            lx: fx_add(d2.lx, fx_mul(dirx, fx_mul(fx_neg(im2), dl))),
            ly: fx_add(d2.ly, fx_mul(diry, fx_mul(fx_neg(im2), dl))),
            ang: fx_add(d2.ang, fx_mul(e.g2, dl)),
        },
    }
}

/// A warm-start step with zero stored impulses changes neither body's
/// delta.
pub proof fn lemma_warm_step_zero(dirx: int, diry: int, im: int, e: SElem, d: SDelta)
    requires
        e.normal.imp == 0,
        e.tangent.imp == 0,
        fits64(d.lx),
        fits64(d.ly),
        fits64(d.ang),
    ensures
        sp_warm_b1(dirx, diry, im, e, d) == d,
        sp_warm_b2(dirx, diry, im, e, d) == d,
{
    lemma_fx_mul_zero(im);
    lemma_fx_mul_zero(fx_neg(im));
    lemma_fx_mul_zero(dirx);
    lemma_fx_mul_zero(diry);
    lemma_fx_mul_zero(fx_neg(diry));
    lemma_fx_mul_zero(e.normal.g1);
    lemma_fx_mul_zero(e.normal.g2);
    lemma_fx_mul_zero(e.tangent.g1);
    lemma_fx_mul_zero(e.tangent.g2);
    lemma_fx_add_zero(d.lx);
    lemma_fx_add_zero(d.ly);
    lemma_fx_add_zero(d.ang);
}

/// Warm scaling keeps stored impulses nonnegative: with a nonnegative
/// stored impulse and nonnegative warm-start factors, the generated
/// element's normal impulse is nonnegative — what the friction-cone law
/// asks of the next sweep's clamping.
pub proof fn lemma_element_warm_impulse_nonneg(
    inv_dt: int,
    thr: int,
    wcoeff: int,
    m: SManifold,
    b1: SBody,
    b2: SBody,
    k: int,
)
    requires
        0 <= k < m.points.len(),
        m.points[k].impulse >= 0,
        m.warmstart_multiplier >= 0,
        wcoeff >= 0,
    ensures
        sp_element(inv_dt, thr, wcoeff, m, b1, b2, k).normal.imp >= 0,
{
    reveal(sp_element);
    lemma_fx_mul_nonneg(m.warmstart_multiplier, wcoeff);
    lemma_fx_mul_nonneg(m.points[k].impulse, fx_mul(m.warmstart_multiplier, wcoeff));
}

/// A normal relaxation step never leaves a negative (pulling) impulse.
pub proof fn lemma_nrm_step_nonneg(
    dirx: int,
    diry: int,
    im1: int,
    im2: int,
    e: SPart,
    d1: SDelta,
    d2: SDelta,
)
    ensures
        sp_nrm_step(dirx, diry, im1, im2, e, d1, d2).p.imp >= 0,
{
}

/// A friction relaxation step keeps the impulse inside the Coulomb box
/// `[-limit * nimp, +limit * nimp]` whenever the friction coefficient and
/// the normal impulse it is coupled to are nonnegative.
pub proof fn lemma_tan_step_cone(
    tx: int,
    ty: int,
    im1: int,
    im2: int,
    limit: int,
    nimp: int,
    e: SPart,
    d1: SDelta,
    d2: SDelta,
)
    requires
        limit >= 0,
        nimp >= 0,
    ensures
        fx_neg(fx_mul(limit, nimp)) <= sp_tan_step(tx, ty, im1, im2, limit, nimp, e, d1, d2).p.imp
            <= fx_mul(limit, nimp),
{
    lemma_fx_mul_nonneg(limit, nimp);
}

/// With a zero friction coefficient the Coulomb box degenerates to `{0}`:
/// a friction step always leaves a zero tangential impulse.
pub proof fn lemma_tan_step_zero_limit(
    tx: int,
    ty: int,
    im1: int,
    im2: int,
    nimp: int,
    e: SPart,
    d1: SDelta,
    d2: SDelta,
)
    ensures
        sp_tan_step(tx, ty, im1, im2, 0, nimp, e, d1, d2).p.imp == 0,
{
    assert(fx_mul(0, nimp) == 0) by {
        assert(0 * nimp == 0);
        assert(tdiv(0, FP_ONE as int) == 0);
    }
}

// ---------------------------------------------------------------------------
// Exec mirrors of the per-lane types.
// ---------------------------------------------------------------------------
/// Exec form of `SPart` for one lane.
#[derive(Clone, Copy)]
pub struct LanePart {
    pub g1: i64,
    pub g2: i64,
    pub rhs: i64,
    pub imp: i64,
    pub r: i64,
}

impl View for LanePart {
    type V = SPart;

    open spec fn view(&self) -> SPart {
        SPart {
            g1: self.g1 as int,
            g2: self.g2 as int,
            rhs: self.rhs as int,
            imp: self.imp as int,
            r: self.r as int,
        }
    }
}

/// Exec form of `SElem` for one lane.
#[derive(Clone, Copy)]
pub struct LaneElement {
    pub normal: LanePart,
    pub tangent: LanePart,
}

impl View for LaneElement {
    type V = SElem;

    open spec fn view(&self) -> SElem {
        SElem { normal: self.normal@, tangent: self.tangent@ }
    }
}

// ---------------------------------------------------------------------------
// Exec kernels.
// ---------------------------------------------------------------------------
fn rot_x(c: i64, s: i64, vx: i64, vy: i64) -> (r: i64)
    ensures
        r as int == sp_rot_x(c as int, s as int, vx as int, vy as int),
{
    fxsub(fxmul(c, vx), fxmul(s, vy))
}

fn rot_y(c: i64, s: i64, vx: i64, vy: i64) -> (r: i64)
    ensures
        r as int == sp_rot_y(c as int, s as int, vx as int, vy as int),
{
    fxadd(fxmul(s, vx), fxmul(c, vy))
}

fn dot2(ax: i64, ay: i64, bx: i64, by: i64) -> (r: i64)
    ensures
        r as int == sp_dot(ax as int, ay as int, bx as int, by as int),
{
    fxadd(fxmul(ax, bx), fxmul(ay, by))
}

fn cross2(ax: i64, ay: i64, bx: i64, by: i64) -> (r: i64)
    ensures
        r as int == sp_cross(ax as int, ay as int, bx as int, by as int),
{
    fxsub(fxmul(ax, by), fxmul(ay, bx))
}

/// Composed collider pose of one body, as the four scalars of the isometry.
fn coll_pos(pos: &crate::data::Iso2, delta: &crate::data::Iso2) -> (r: (i64, i64, i64, i64))
    ensures
        r.0 as int == sp_iso_mul(pos@, delta@).c,
        r.1 as int == sp_iso_mul(pos@, delta@).s,
        r.2 as int == sp_iso_mul(pos@, delta@).tx,
        r.3 as int == sp_iso_mul(pos@, delta@).ty,
{
    (
        fxsub(fxmul(pos.rot_c, delta.rot_c), fxmul(pos.rot_s, delta.rot_s)),
        fxadd(fxmul(pos.rot_s, delta.rot_c), fxmul(pos.rot_c, delta.rot_s)),
        fxadd(pos.tx, rot_x(pos.rot_c, pos.rot_s, delta.tx, delta.ty)),
        fxadd(pos.ty, rot_y(pos.rot_c, pos.rot_s, delta.tx, delta.ty)),
    )
}

/// World contact normal of one lane, from body 1's pose and the manifold's
/// stored local normal.
pub fn lane_dir(m: &ContactManifold, b1: &RigidBodyState) -> (r: (i64, i64))
    ensures
        r.0 as int == sp_dir_x(m@, b1@),
        r.1 as int == sp_dir_y(m@, b1@),
{
    let cp = coll_pos(&b1.position, &m.delta1);
    let nnx = fxneg(m.local_n1_x);
    let nny = fxneg(m.local_n1_y);
    (rot_x(cp.0, cp.1, nnx, nny), rot_y(cp.0, cp.1, nnx, nny))
}

/// Effective mass: the reciprocal of the denominator, which is positive
/// whenever at least one body of the pair is movable.
fn effective_mass(im1: i64, im2: i64, g1: i64, g2: i64) -> (r: i64)
    requires
        im1 >= 0,
        im2 >= 0,
        im1 as int + im2 as int >= 1,
    ensures
        r as int == fx_div(FP_ONE as int, sp_denom(im1 as int, im2 as int, g1 as int, g2 as int)),
{
    let g1sq = fxmul(g1, g1);
    let g2sq = fxmul(g2, g2);
    proof {
        lemma_fx_square_nonneg(g1 as int);
        lemma_fx_square_nonneg(g2 as int);
    }
    let denom = fxadd(fxadd(fxadd(im1, im2), g1sq), g2sq);
    fxdiv(FP_ONE, denom)
}

/// All solver coefficients of contact point `k` for one lane, exactly as
/// `sp_element` states them.
pub fn gen_lane_element(
    inv_dt: i64,
    thr: i64,
    wcoeff: i64,
    m: &ContactManifold,
    b1: &RigidBodyState,
    b2: &RigidBodyState,
    k: usize,
) -> (e: LaneElement)
    requires
        k < m.points@.len(),
        b1.inv_mass >= 0,
        b2.inv_mass >= 0,
        b1.inv_mass as int + b2.inv_mass as int >= 1,
    ensures
        e@ == sp_element(inv_dt as int, thr as int, wcoeff as int, m@, b1@, b2@, k as int),
{
    proof {
        reveal(sp_element);
    }
    let cp1 = coll_pos(&b1.position, &m.delta1);
    let cp2 = coll_pos(&b2.position, &m.delta2);
    let d = lane_dir(m, b1);
    let pt = m.points[k];
    let dp1x = fxsub(fxadd(cp1.2, rot_x(cp1.0, cp1.1, pt.local_p1_x, pt.local_p1_y)),
        b1.world_com_x);
    let dp1y = fxsub(fxadd(cp1.3, rot_y(cp1.0, cp1.1, pt.local_p1_x, pt.local_p1_y)),
        b1.world_com_y);
    let dp2x = fxsub(fxadd(cp2.2, rot_x(cp2.0, cp2.1, pt.local_p2_x, pt.local_p2_y)),
        b2.world_com_x);
    let dp2y = fxsub(fxadd(cp2.3, rot_y(cp2.0, cp2.1, pt.local_p2_x, pt.local_p2_y)),
        b2.world_com_y);
    let relx = fxsub(
        fxadd(b1.linvel_x, fxmul(fxneg(b1.angvel), dp1y)),
        fxadd(b2.linvel_x, fxmul(fxneg(b2.angvel), dp2y)),
    );
    let rely = fxsub(
        fxadd(b1.linvel_y, fxmul(b1.angvel, dp1x)),
        fxadd(b2.linvel_y, fxmul(b2.angvel, dp2x)),
    );
    let warm = fxmul(m.warmstart_multiplier, wcoeff);

    let g1n = fxmul(b1.inv_inertia_sqrt, cross2(dp1x, dp1y, d.0, d.1));
    let g2n = fxmul(b2.inv_inertia_sqrt, cross2(dp2x, dp2y, fxneg(d.0), fxneg(d.1)));
    let vn = dot2(relx, rely, d.0, d.1);
    let vn_res = if vn <= fxneg(thr) {
        fxadd(vn, fxmul(vn, m.restitution))
    } else {
        vn
    };
    let normal = LanePart {
        g1: g1n,
        g2: g2n,
        rhs: fxadd(vn_res, fxmul(fxmax(pt.dist, 0), inv_dt)),
        imp: fxmul(pt.impulse, warm),
        r: effective_mass(b1.inv_mass, b2.inv_mass, g1n, g2n),
    };

    let tx = fxneg(d.1);
    let ty = d.0;
    let g1t = fxmul(b1.inv_inertia_sqrt, cross2(dp1x, dp1y, tx, ty));
    let g2t = fxmul(b2.inv_inertia_sqrt, cross2(dp2x, dp2y, fxneg(tx), fxneg(ty)));
    let tangent = LanePart {
        g1: g1t,
        g2: g2t,
        rhs: dot2(relx, rely, tx, ty),
        imp: fxmul(pt.tangent_impulse, warm),
        r: effective_mass(b1.inv_mass, b2.inv_mass, g1t, g2t),
    };

    LaneElement { normal, tangent }
}

/// Warm-start application of one contact point to body 1's delta.
pub fn warm_b1_lane(dirx: i64, diry: i64, im1: i64, e: &LaneElement, d: DeltaVel) -> (r: DeltaVel)
    ensures
        r@ == sp_warm_b1(dirx as int, diry as int, im1 as int, e@, d@),
{
    let tx = fxneg(diry);
    let ty = dirx;
    let nlx = fxadd(d.linear_x, fxmul(dirx, fxmul(im1, e.normal.imp)));
    let nly = fxadd(d.linear_y, fxmul(diry, fxmul(im1, e.normal.imp)));
    let nang = fxadd(d.angular, fxmul(e.normal.g1, e.normal.imp));
    DeltaVel {
        linear_x: fxadd(nlx, fxmul(tx, fxmul(im1, e.tangent.imp))),
        linear_y: fxadd(nly, fxmul(ty, fxmul(im1, e.tangent.imp))),
        angular: fxadd(nang, fxmul(e.tangent.g1, e.tangent.imp)),
    }
}

/// Warm-start application of one contact point to body 2's delta.
pub fn warm_b2_lane(dirx: i64, diry: i64, im2: i64, e: &LaneElement, d: DeltaVel) -> (r: DeltaVel)
    ensures
        r@ == sp_warm_b2(dirx as int, diry as int, im2 as int, e@, d@),
{
    let tx = fxneg(diry);
    let ty = dirx;
    let nim2 = fxneg(im2);
    let nlx = fxadd(d.linear_x, fxmul(dirx, fxmul(nim2, e.normal.imp)));
    let nly = fxadd(d.linear_y, fxmul(diry, fxmul(nim2, e.normal.imp)));
    let nang = fxadd(d.angular, fxmul(e.normal.g2, e.normal.imp));
    DeltaVel {
        linear_x: fxadd(nlx, fxmul(tx, fxmul(nim2, e.tangent.imp))),
        linear_y: fxadd(nly, fxmul(ty, fxmul(nim2, e.tangent.imp))),
        angular: fxadd(nang, fxmul(e.tangent.g2, e.tangent.imp)),
    }
}

fn violation(ux: i64, uy: i64, p: &LanePart, d1: &DeltaVel, d2: &DeltaVel) -> (r: i64)
    ensures
        r as int == sp_violation(ux as int, uy as int, p@, d1@, d2@),
{
    fxadd(
        fxadd(
            fxsub(
                fxadd(dot2(ux, uy, d1.linear_x, d1.linear_y), fxmul(p.g1, d1.angular)),
                dot2(ux, uy, d2.linear_x, d2.linear_y),
            ),
            fxmul(p.g2, d2.angular),
        ),
        p.rhs,
    )
}

/// One friction relaxation step of one lane.
pub fn tan_step_lane(
    tx: i64,
    ty: i64,
    im1: i64,
    im2: i64,
    limit: i64,
    nimp: i64,
    e: LanePart,
    d1: DeltaVel,
    d2: DeltaVel,
) -> (r: (LanePart, DeltaVel, DeltaVel))
    ensures
        r.0@ == sp_tan_step(tx as int, ty as int, im1 as int, im2 as int, limit as int,
            nimp as int, e@, d1@, d2@).p,
        r.1@ == sp_tan_step(tx as int, ty as int, im1 as int, im2 as int, limit as int,
            nimp as int, e@, d1@, d2@).d1,
        r.2@ == sp_tan_step(tx as int, ty as int, im1 as int, im2 as int, limit as int,
            nimp as int, e@, d1@, d2@).d2,
{
    let dimp = violation(tx, ty, &e, &d1, &d2);
    let lim = fxmul(limit, nimp);
    let newi = fxclamp(fxsub(e.imp, fxmul(e.r, dimp)), fxneg(lim), lim);
    let dl = fxsub(newi, e.imp);
    let p = LanePart { g1: e.g1, g2: e.g2, rhs: e.rhs, imp: newi, r: e.r };
    let nim2 = fxneg(im2);
    let nd1 = DeltaVel {
        linear_x: fxadd(d1.linear_x, fxmul(tx, fxmul(im1, dl))),
        linear_y: fxadd(d1.linear_y, fxmul(ty, fxmul(im1, dl))),
        angular: fxadd(d1.angular, fxmul(e.g1, dl)),
    };
    let nd2 = DeltaVel {
        linear_x: fxadd(d2.linear_x, fxmul(tx, fxmul(nim2, dl))),
        linear_y: fxadd(d2.linear_y, fxmul(ty, fxmul(nim2, dl))),
        angular: fxadd(d2.angular, fxmul(e.g2, dl)),
    };
    (p, nd1, nd2)
}

/// One normal relaxation step of one lane.
pub fn nrm_step_lane(
    dirx: i64,
    diry: i64,
    im1: i64,
    im2: i64,
    e: LanePart,
    d1: DeltaVel,
    d2: DeltaVel,
) -> (r: (LanePart, DeltaVel, DeltaVel))
    ensures
        r.0@ == sp_nrm_step(dirx as int, diry as int, im1 as int, im2 as int, e@, d1@, d2@).p,
        r.1@ == sp_nrm_step(dirx as int, diry as int, im1 as int, im2 as int, e@, d1@, d2@).d1,
        r.2@ == sp_nrm_step(dirx as int, diry as int, im1 as int, im2 as int, e@, d1@, d2@).d2,
{
    let dimp = violation(dirx, diry, &e, &d1, &d2);
    let newi = fxmax(fxsub(e.imp, fxmul(e.r, dimp)), 0);
    let dl = fxsub(newi, e.imp);
    let p = LanePart { g1: e.g1, g2: e.g2, rhs: e.rhs, imp: newi, r: e.r };
    let nim2 = fxneg(im2);
    let nd1 = DeltaVel {
        linear_x: fxadd(d1.linear_x, fxmul(dirx, fxmul(im1, dl))),
        linear_y: fxadd(d1.linear_y, fxmul(diry, fxmul(im1, dl))),
        angular: fxadd(d1.angular, fxmul(e.g1, dl)),
    };
    let nd2 = DeltaVel {
        linear_x: fxadd(d2.linear_x, fxmul(dirx, fxmul(nim2, dl))),
        linear_y: fxadd(d2.linear_y, fxmul(diry, fxmul(nim2, dl))),
        angular: fxadd(d2.angular, fxmul(e.g2, dl)),
    };
    (p, nd1, nd2)
}

} // verus!
