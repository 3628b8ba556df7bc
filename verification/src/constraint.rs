//! Batched velocity constraints.
//!
//! A `WVelocityConstraint` packs one contact "slot" from each of
//! `SIMD_WIDTH` independent manifolds into a single data-parallel unit, kept
//! in struct-of-arrays layout: every scalar field is a `WFx`, one lane per
//! manifold. The four operations — `generate`, `warmstart`, `solve`,
//! `writeback_impulses` — are specified lane by lane against the kernels of
//! `kernel`.

use crate::data::{ContactManifold, DeltaVel, IntegrationParameters, RigidBodyState, SBody,
    SDelta, SManifold, SPoint, MAX_MANIFOLD_POINTS, SIMD_WIDTH};
use crate::fx::{fits64, fx_mul, fx_neg, fxneg};
use crate::kernel::{gen_lane_element, lane_dir, lemma_nrm_step_nonneg, lemma_tan_step_cone,
    lemma_tan_step_zero_limit, lemma_warm_step_zero, nrm_step_lane, sp_dir_x, sp_dir_y, sp_element, sp_nrm_step,
    sp_tan_step, sp_warm_b1, sp_warm_b2, tan_step_lane, warm_b1_lane, warm_b2_lane, LaneElement,
    LanePart, SElem, SPart, SStep};
use vstd::prelude::*;

verus! {

/// One fixed-point scalar per SIMD lane.
#[derive(Clone, Copy)]
pub struct WFx {
    pub l: [i64; SIMD_WIDTH],
}

impl WFx {
    /// The scalar of lane `i`, as a mathematical integer.
    pub open spec fn lane(self, i: int) -> int {
        self.l@[i] as int
    }

    pub fn splat(v: i64) -> (r: WFx)
        ensures
            forall|i: int| 0 <= i < SIMD_WIDTH as int ==> #[trigger] r.lane(i) == v as int,
    {
        WFx { l: [v, v, v, v] }
    }
}

/// A two-dimensional vector of wide scalars.
#[derive(Clone, Copy)]
pub struct WVec2 {
    pub x: WFx,
    pub y: WFx,
}

/// Precomputed solver coefficients for one direction (the contact normal or
/// a tangent) of one batched contact point.
#[derive(Clone, Copy)]
pub struct WVelocityConstraintElementPart {
    /// Angular Jacobian term of body 1, premultiplied by its inverse-inertia
    /// square root.
    pub gcross1: WFx,
    /// Angular Jacobian term of body 2.
    pub gcross2: WFx,
    /// Bias velocity the solver drives the relative velocity toward.
    pub rhs: WFx,
    /// Accumulated impulse along this direction.
    pub impulse: WFx,
    /// Diagonal-approximate inverse effective mass.
    pub r: WFx,
}

/// The all-zero direction part.
pub open spec fn sp_zero_part() -> SPart {
    SPart { g1: 0, g2: 0, rhs: 0, imp: 0, r: 0 }
}

impl WVelocityConstraintElementPart {
    /// The coefficients of lane `i`.
    pub open spec fn lane_part(self, i: int) -> SPart {
        SPart {
            g1: self.gcross1.lane(i),
            g2: self.gcross2.lane(i),
            rhs: self.rhs.lane(i),
            imp: self.impulse.lane(i),
            r: self.r.lane(i),
        }
    }

    pub fn zero() -> (r: Self)
        ensures
            forall|i: int| 0 <= i < SIMD_WIDTH as int ==> #[trigger] r.lane_part(i)
                == sp_zero_part(),
    {
        WVelocityConstraintElementPart {
            gcross1: WFx::splat(0),
            gcross2: WFx::splat(0),
            rhs: WFx::splat(0),
            impulse: WFx::splat(0),
            r: WFx::splat(0),
        }
    }
}

/// One batched contact point: a normal part plus the tangent part.
#[derive(Clone, Copy)]
pub struct WVelocityConstraintElement {
    pub normal_part: WVelocityConstraintElementPart,
    pub tangent_parts: [WVelocityConstraintElementPart; 1],
}

/// The all-zero element.
pub open spec fn sp_zero_elem() -> SElem {
    SElem { normal: sp_zero_part(), tangent: sp_zero_part() }
}

impl WVelocityConstraintElement {
    /// The coefficients of lane `i`.
    pub open spec fn lane_elem(self, i: int) -> SElem {
        SElem { normal: self.normal_part.lane_part(i), tangent: self.tangent_parts@[0].lane_part(i) }
    }

    pub fn zero() -> (r: Self)
        ensures
            forall|i: int| 0 <= i < SIMD_WIDTH as int ==> #[trigger] r.lane_elem(i)
                == sp_zero_elem(),
    {
        WVelocityConstraintElement {
            normal_part: WVelocityConstraintElementPart::zero(),
            tangent_parts: [WVelocityConstraintElementPart::zero()],
        }
    }
}

/// Groups one contact slot from each of `SIMD_WIDTH` independent manifolds
/// into a single data-parallel constraint.
pub struct WVelocityConstraint {
    /// Per-lane world contact normal, pointing from body 2 toward body 1.
    pub dir1: WVec2,
    /// Fixed-capacity element storage; the first `num_contacts` are valid.
    pub elements: [WVelocityConstraintElement; MAX_MANIFOLD_POINTS],
    /// Number of valid elements (at most `MAX_MANIFOLD_POINTS`).
    pub num_contacts: u8,
    /// Per-lane inverse masses of the two bodies.
    pub im1: WFx,
    pub im2: WFx,
    /// Per-lane Coulomb friction coefficient.
    pub limit: WFx,
    /// Per-lane offsets of the two bodies into the velocity-delta buffer.
    pub mj_lambda1: [usize; SIMD_WIDTH],
    pub mj_lambda2: [usize; SIMD_WIDTH],
    /// Per-lane index of the owning manifold, for writeback.
    pub manifold_id: [usize; SIMD_WIDTH],
    /// Index of the first contact point this instance covers within its
    /// manifold's point list.
    pub manifold_contact_id: usize,
}

impl WVelocityConstraint {
    pub open spec fn wf(self) -> bool {
        self.num_contacts as int <= MAX_MANIFOLD_POINTS as int
    }

    /// The coefficients of contact point `k`, lane `i`.
    pub open spec fn elem(self, k: int, i: int) -> SElem {
        self.elements@[k].lane_elem(i)
    }

    /// No two lanes of the batch may share a velocity-delta slot: the
    /// external scheduler's graph-coloring precondition.
    pub open spec fn bodies_distinct(self) -> bool {
        &&& forall|i: int, j: int|
            0 <= i < SIMD_WIDTH as int && 0 <= j < SIMD_WIDTH as int ==> self.mj_lambda1@[i]
                != self.mj_lambda2@[j]
        &&& forall|i: int, j: int|
            0 <= i < SIMD_WIDTH as int && 0 <= j < SIMD_WIDTH as int && i != j ==> self.mj_lambda1@[i]
                != self.mj_lambda1@[j] && self.mj_lambda2@[i] != self.mj_lambda2@[j]
    }

    /// Whether buffer slot `j` belongs to one of the batch's bodies.
    pub open spec fn touches(self, j: int) -> bool {
        self.touched_below(j, SIMD_WIDTH as int)
    }
}

/// Extract the coefficients of lane `i` from a wide direction part.
fn lane_part_at(p: &WVelocityConstraintElementPart, i: usize) -> (lp: LanePart)
    requires
        i < SIMD_WIDTH,
    ensures
        lp@ == p.lane_part(i as int),
{
    LanePart {
        g1: p.gcross1.l[i],
        g2: p.gcross2.l[i],
        rhs: p.rhs.l[i],
        imp: p.impulse.l[i],
        r: p.r.l[i],
    }
}

/// Extract the coefficients of lane `i` from a wide element.
fn lane_elem_at(e: &WVelocityConstraintElement, i: usize) -> (le: LaneElement)
    requires
        i < SIMD_WIDTH,
    ensures
        le@ == e.lane_elem(i as int),
{
    LaneElement {
        normal: lane_part_at(&e.normal_part, i),
        tangent: lane_part_at(&e.tangent_parts[0], i),
    }
}

/// Pack four per-lane direction parts into a wide one.
fn pack_part(
    p0: LanePart,
    p1: LanePart,
    p2: LanePart,
    p3: LanePart,
) -> (w: WVelocityConstraintElementPart)
    ensures
        w.lane_part(0) == p0@,
        w.lane_part(1) == p1@,
        w.lane_part(2) == p2@,
        w.lane_part(3) == p3@,
{
    WVelocityConstraintElementPart {
        gcross1: WFx { l: [p0.g1, p1.g1, p2.g1, p3.g1] },
        gcross2: WFx { l: [p0.g2, p1.g2, p2.g2, p3.g2] },
        rhs: WFx { l: [p0.rhs, p1.rhs, p2.rhs, p3.rhs] },
        impulse: WFx { l: [p0.imp, p1.imp, p2.imp, p3.imp] },
        r: WFx { l: [p0.r, p1.r, p2.r, p3.r] },
    }
}

/// Pack four per-lane elements into a wide one.
fn pack_elem(
    e0: LaneElement,
    e1: LaneElement,
    e2: LaneElement,
    e3: LaneElement,
) -> (w: WVelocityConstraintElement)
    ensures
        w.lane_elem(0) == e0@,
        w.lane_elem(1) == e1@,
        w.lane_elem(2) == e2@,
        w.lane_elem(3) == e3@,
{
    WVelocityConstraintElement {
        normal_part: pack_part(e0.normal, e1.normal, e2.normal, e3.normal),
        tangent_parts: [pack_part(e0.tangent, e1.tangent, e2.tangent, e3.tangent)],
    }
}

// ---------------------------------------------------------------------------
// Constraint generation.
// ---------------------------------------------------------------------------
/// The manifold a lane refers to.
pub open spec fn lane_m(manifolds: Seq<ContactManifold>, mid: usize) -> SManifold {
    manifolds[mid as int]@
}

/// The first body of a lane's pair.
pub open spec fn lane_b1(
    manifolds: Seq<ContactManifold>,
    bodies: Seq<RigidBodyState>,
    mid: usize,
) -> SBody {
    bodies[lane_m(manifolds, mid).body1]@
}

/// The second body of a lane's pair.
pub open spec fn lane_b2(
    manifolds: Seq<ContactManifold>,
    bodies: Seq<RigidBodyState>,
    mid: usize,
) -> SBody {
    bodies[lane_m(manifolds, mid).body2]@
}

/// What `generate` asks of one lane: indices in range, nonnegative inverse
/// masses, and at least one movable body (excluding immovable-immovable
/// pairs keeps the effective-mass denominator positive).
pub open spec fn lane_inputs_ok(
    manifolds: Seq<ContactManifold>,
    bodies: Seq<RigidBodyState>,
    mid: usize,
) -> bool {
    &&& (mid as int) < manifolds.len()
    &&& 0 <= lane_m(manifolds, mid).body1 < bodies.len()
    &&& 0 <= lane_m(manifolds, mid).body2 < bodies.len()
    &&& lane_b1(manifolds, bodies, mid).inv_mass >= 0
    &&& lane_b2(manifolds, bodies, mid).inv_mass >= 0
    &&& lane_b1(manifolds, bodies, mid).inv_mass + lane_b2(manifolds, bodies, mid).inv_mass >= 1
}

/// Number of constraint instances a manifold with `n` contact points
/// produces: one per chunk of `MAX_MANIFOLD_POINTS`.
pub open spec fn num_chunks(n: int) -> int {
    (n + 1) / 2
}

/// Contact-point count shared by all lanes of the batch.
pub open spec fn batch_points(manifolds: Seq<ContactManifold>, mids: [usize; SIMD_WIDTH]) -> int {
    lane_m(manifolds, mids@[0]).points.len() as int
}

/// The per-lane header data `generate` gathers once per batch.
pub open spec fn lane_header_ok(
    c: WVelocityConstraint,
    mids: [usize; SIMD_WIDTH],
    manifolds: Seq<ContactManifold>,
    bodies: Seq<RigidBodyState>,
    i: int,
) -> bool {
    let m = lane_m(manifolds, mids@[i]);
    let b1 = lane_b1(manifolds, bodies, mids@[i]);
    let b2 = lane_b2(manifolds, bodies, mids@[i]);
    &&& c.dir1.x.lane(i) == sp_dir_x(m, b1)
    &&& c.dir1.y.lane(i) == sp_dir_y(m, b1)
    &&& c.im1.lane(i) == b1.inv_mass
    &&& c.im2.lane(i) == b2.inv_mass
    &&& c.limit.lane(i) == m.friction
    &&& c.mj_lambda1@[i] as int == b1.active_set_offset
    &&& c.mj_lambda2@[i] as int == b2.active_set_offset
}

/// Everything `generate` promises of the instance emitted for chunk `j` of a
/// batch whose manifolds have `n` contact points each: the header gathered
/// from the bodies, the chunk bookkeeping, and every element's coefficients
/// equal to `sp_element` of the covered contact point.
pub open spec fn chunk_ok(
    c: WVelocityConstraint,
    inv_dt: int,
    thr: int,
    wcoeff: int,
    mids: [usize; SIMD_WIDTH],
    manifolds: Seq<ContactManifold>,
    bodies: Seq<RigidBodyState>,
    j: int,
    n: int,
) -> bool {
    &&& c.wf()
    &&& c.manifold_id@ == mids@
    &&& c.manifold_contact_id as int == 2 * j
    &&& c.num_contacts as int == (if n - 2 * j >= 2 {
        2int
    } else {
        n - 2 * j
    })
    &&& forall|i: int|
        0 <= i < SIMD_WIDTH as int ==> #[trigger] lane_header_ok(c, mids, manifolds, bodies, i)
    &&& forall|i: int, k: int|
        0 <= i < SIMD_WIDTH as int && 0 <= k < c.num_contacts as int ==> #[trigger] c.elem(k, i)
            == sp_element(
            inv_dt,
            thr,
            wcoeff,
            lane_m(manifolds, mids@[i]),
            lane_b1(manifolds, bodies, mids@[i]),
            lane_b2(manifolds, bodies, mids@[i]),
            2 * j + k,
        )
}

struct LaneHeader {
    dirx: i64,
    diry: i64,
    im1: i64,
    im2: i64,
    limit: i64,
    off1: usize,
    off2: usize,
}

fn gen_lane_header(
    manifolds: &Vec<ContactManifold>,
    bodies: &Vec<RigidBodyState>,
    mid: usize,
) -> (h: LaneHeader)
    requires
        lane_inputs_ok(manifolds@, bodies@, mid),
    ensures
        h.dirx as int == sp_dir_x(lane_m(manifolds@, mid), lane_b1(manifolds@, bodies@, mid)),
        h.diry as int == sp_dir_y(lane_m(manifolds@, mid), lane_b1(manifolds@, bodies@, mid)),
        h.im1 as int == lane_b1(manifolds@, bodies@, mid).inv_mass,
        h.im2 as int == lane_b2(manifolds@, bodies@, mid).inv_mass,
        h.limit as int == lane_m(manifolds@, mid).friction,
        h.off1 as int == lane_b1(manifolds@, bodies@, mid).active_set_offset,
        h.off2 as int == lane_b2(manifolds@, bodies@, mid).active_set_offset,
{
    let m = &manifolds[mid];
    let b1 = &bodies[m.body1];
    let b2 = &bodies[m.body2];
    let d = lane_dir(m, b1);
    LaneHeader {
        dirx: d.0,
        diry: d.1,
        im1: b1.inv_mass,
        im2: b2.inv_mass,
        limit: m.friction,
        off1: b1.active_set_offset,
        off2: b2.active_set_offset,
    }
}

fn gen_elem_for_lane(
    inv_dt: i64,
    thr: i64,
    wcoeff: i64,
    manifolds: &Vec<ContactManifold>,
    bodies: &Vec<RigidBodyState>,
    mid: usize,
    k: usize,
) -> (le: LaneElement)
    requires
        lane_inputs_ok(manifolds@, bodies@, mid),
        (k as int) < lane_m(manifolds@, mid).points.len(),
    ensures
        le@ == sp_element(
            inv_dt as int,
            thr as int,
            wcoeff as int,
            lane_m(manifolds@, mid),
            lane_b1(manifolds@, bodies@, mid),
            lane_b2(manifolds@, bodies@, mid),
            k as int,
        ),
{
    let m = &manifolds[mid];
    let b1 = &bodies[m.body1];
    let b2 = &bodies[m.body2];
    gen_lane_element(inv_dt, thr, wcoeff, m, b1, b2, k)
}

fn wide_element(
    inv_dt: i64,
    thr: i64,
    wcoeff: i64,
    manifolds: &Vec<ContactManifold>,
    bodies: &Vec<RigidBodyState>,
    mids: &[usize; SIMD_WIDTH],
    k: usize,
) -> (e: WVelocityConstraintElement)
    requires
        forall|i: int|
            0 <= i < SIMD_WIDTH as int ==> lane_inputs_ok(manifolds@, bodies@, #[trigger] mids@[i]),
        forall|i: int|
            0 <= i < SIMD_WIDTH as int ==> (k as int) < lane_m(
                manifolds@,
                #[trigger] mids@[i],
            ).points.len(),
    ensures
        forall|i: int|
            0 <= i < SIMD_WIDTH as int ==> #[trigger] e.lane_elem(i) == sp_element(
                inv_dt as int,
                thr as int,
                wcoeff as int,
                lane_m(manifolds@, mids@[i]),
                lane_b1(manifolds@, bodies@, mids@[i]),
                lane_b2(manifolds@, bodies@, mids@[i]),
                k as int,
            ),
{
    let l0 = gen_elem_for_lane(inv_dt, thr, wcoeff, manifolds, bodies, mids[0], k);
    let l1 = gen_elem_for_lane(inv_dt, thr, wcoeff, manifolds, bodies, mids[1], k);
    let l2 = gen_elem_for_lane(inv_dt, thr, wcoeff, manifolds, bodies, mids[2], k);
    let l3 = gen_elem_for_lane(inv_dt, thr, wcoeff, manifolds, bodies, mids[3], k);
    pack_elem(l0, l1, l2, l3)
}

impl WVelocityConstraint {
    /// Build the constraint instances for one batch of `SIMD_WIDTH`
    /// manifolds, one instance per chunk of `MAX_MANIFOLD_POINTS` contact
    /// points: gather the per-lane body and manifold state, precompute every
    /// element's solver coefficients, and either append the instances
    /// (`push`) or overwrite the stable slots recorded by the first lane's
    /// manifold (`constraint_index`).
    #[verifier::loop_isolation(false)]
    #[verifier::rlimit(100)]
    pub fn generate(
        params: &IntegrationParameters,
        manifold_id: [usize; SIMD_WIDTH],
        manifolds: &Vec<ContactManifold>,
        bodies: &Vec<RigidBodyState>,
        out_constraints: &mut Vec<WVelocityConstraint>,
        push: bool,
    )
        requires
            forall|i: int|
                0 <= i < SIMD_WIDTH as int ==> lane_inputs_ok(
                    manifolds@,
                    bodies@,
                    #[trigger] manifold_id@[i],
                ),
            forall|i: int|
                0 <= i < SIMD_WIDTH as int ==> lane_m(
                    manifolds@,
                    #[trigger] manifold_id@[i],
                ).points.len() == batch_points(manifolds@, manifold_id),
            batch_points(manifolds@, manifold_id) <= usize::MAX as int - 2,
            !push ==> lane_m(manifolds@, manifold_id@[0]).constraint_index + num_chunks(
                batch_points(manifolds@, manifold_id),
            ) <= old(out_constraints)@.len(),
        ensures
            push ==> final(out_constraints)@.len() == old(out_constraints)@.len() + num_chunks(
                batch_points(manifolds@, manifold_id),
            ),
            push ==> forall|q: int|
                0 <= q < old(out_constraints)@.len() ==> final(out_constraints)@[q] == old(
                    out_constraints,
                )@[q],
            push ==> forall|j: int|
                0 <= j < num_chunks(batch_points(manifolds@, manifold_id))
                    ==> #[trigger] chunk_ok(
                    final(out_constraints)@[old(out_constraints)@.len() + j],
                    params.inv_dt as int,
                    params.restitution_velocity_threshold as int,
                    params.warmstart_coeff as int,
                    manifold_id,
                    manifolds@,
                    bodies@,
                    j,
                    batch_points(manifolds@, manifold_id),
                ),
            !push ==> final(out_constraints)@.len() == old(out_constraints)@.len(),
            !push ==> forall|j: int|
                0 <= j < num_chunks(batch_points(manifolds@, manifold_id))
                    ==> #[trigger] chunk_ok(
                    final(out_constraints)@[lane_m(manifolds@, manifold_id@[0]).constraint_index
                        + j],
                    params.inv_dt as int,
                    params.restitution_velocity_threshold as int,
                    params.warmstart_coeff as int,
                    manifold_id,
                    manifolds@,
                    bodies@,
                    j,
                    batch_points(manifolds@, manifold_id),
                ),
            !push ==> forall|q: int|
                0 <= q < old(out_constraints)@.len() && !(lane_m(
                    manifolds@,
                    manifold_id@[0],
                ).constraint_index <= q < lane_m(manifolds@, manifold_id@[0]).constraint_index
                    + num_chunks(batch_points(manifolds@, manifold_id)))
                    ==> final(out_constraints)@[q] == old(out_constraints)@[q],
    {
        let inv_dt = params.inv_dt;
        let thr = params.restitution_velocity_threshold;
        let wcoeff = params.warmstart_coeff;
        let h0 = gen_lane_header(manifolds, bodies, manifold_id[0]);
        let h1 = gen_lane_header(manifolds, bodies, manifold_id[1]);
        let h2 = gen_lane_header(manifolds, bodies, manifold_id[2]);
        let h3 = gen_lane_header(manifolds, bodies, manifold_id[3]);
        let n = manifolds[manifold_id[0]].num_active_contacts();
        let ci = manifolds[manifold_id[0]].constraint_index;
        let outlen0 = out_constraints.len();
        let ghost oldlen = old(out_constraints)@.len() as int;

        let mut l: usize = 0;
        while l < n
            invariant
                l % 2 == 0,
                l as int <= n as int + 1,
                push ==> out_constraints@.len() == oldlen + l as int / 2,
                push ==> forall|q: int|
                    0 <= q < oldlen ==> out_constraints@[q] == old(out_constraints)@[q],
                push ==> forall|j: int|
                    0 <= j < l as int / 2 ==> #[trigger] chunk_ok(
                        out_constraints@[oldlen + j],
                        inv_dt as int,
                        thr as int,
                        wcoeff as int,
                        manifold_id,
                        manifolds@,
                        bodies@,
                        j,
                        n as int,
                    ),
                !push ==> out_constraints@.len() == oldlen,
                !push ==> forall|j: int|
                    0 <= j < l as int / 2 ==> #[trigger] chunk_ok(
                        out_constraints@[ci as int + j],
                        inv_dt as int,
                        thr as int,
                        wcoeff as int,
                        manifold_id,
                        manifolds@,
                        bodies@,
                        j,
                        n as int,
                    ),
                !push ==> forall|q: int|
                    0 <= q < oldlen && !(ci as int <= q < ci as int + l as int / 2)
                        ==> out_constraints@[q] == old(out_constraints)@[q],
            decreases n as int + 2 - l as int,
        {
            let nc: usize = if n - l >= 2 {
                2
            } else {
                1
            };
            let e_first = wide_element(inv_dt, thr, wcoeff, manifolds, bodies, &manifold_id, l);
            let e_second = if nc == 2 {
                wide_element(inv_dt, thr, wcoeff, manifolds, bodies, &manifold_id, l + 1)
            } else {
                WVelocityConstraintElement::zero()
            };
            let c = WVelocityConstraint {
                dir1: WVec2 {
                    x: WFx { l: [h0.dirx, h1.dirx, h2.dirx, h3.dirx] },
                    y: WFx { l: [h0.diry, h1.diry, h2.diry, h3.diry] },
                },
                elements: [e_first, e_second],
                num_contacts: nc as u8,
                im1: WFx { l: [h0.im1, h1.im1, h2.im1, h3.im1] },
                im2: WFx { l: [h0.im2, h1.im2, h2.im2, h3.im2] },
                limit: WFx { l: [h0.limit, h1.limit, h2.limit, h3.limit] },
                mj_lambda1: [h0.off1, h1.off1, h2.off1, h3.off1],
                mj_lambda2: [h0.off2, h1.off2, h2.off2, h3.off2],
                manifold_id,
                manifold_contact_id: l,
            };
            proof {
                let j = l as int / 2;
                assert(2 * j == l as int);
                assert forall|i: int| 0 <= i < SIMD_WIDTH as int implies #[trigger] lane_header_ok(
                    c,
                    manifold_id,
                    manifolds@,
                    bodies@,
                    i,
                ) by {
                    assert(0 <= i < 4);
                }
                assert forall|i: int, k: int|
                    0 <= i < SIMD_WIDTH as int && 0 <= k < c.num_contacts as int implies #[trigger] c.elem(
                    k,
                    i,
                ) == sp_element(
                    inv_dt as int,
                    thr as int,
                    wcoeff as int,
                    lane_m(manifolds@, manifold_id@[i]),
                    lane_b1(manifolds@, bodies@, manifold_id@[i]),
                    lane_b2(manifolds@, bodies@, manifold_id@[i]),
                    2 * j + k,
                ) by {
                    assert(k == 0 || k == 1);
                    assert(c.elements@[0] == e_first);
                    assert(c.elements@[1] == e_second);
                }
                assert(chunk_ok(
                    c,
                    inv_dt as int,
                    thr as int,
                    wcoeff as int,
                    manifold_id,
                    manifolds@,
                    bodies@,
                    j,
                    n as int,
                ));
            }
            if push {
                out_constraints.push(c);
            } else {
                proof {
                    assert(l as int / 2 < num_chunks(n as int));
                    assert(ci as int + l as int / 2 < outlen0 as int);
                }
                out_constraints[ci + l / 2] = c;
            }
            l = l + 2;
        }
    }
}

// ---------------------------------------------------------------------------
// Warm start.
// ---------------------------------------------------------------------------
impl WVelocityConstraint {
    /// Whether buffer slot `j` belongs to a lane below `hi`.
    pub open spec fn touched_below(self, j: int, hi: int) -> bool {
        exists|i: int|
            0 <= i < hi && ((#[trigger] self.mj_lambda1@[i]) as int == j || (
            #[trigger] self.mj_lambda2@[i]) as int == j)
    }

    /// Body 1's velocity delta of lane `i` after warm start: the stored
    /// impulses of every active element applied in order.
    pub open spec fn warm1_spec(self, i: int, d: SDelta) -> SDelta {
        let d0 = if self.num_contacts as int >= 1 {
            sp_warm_b1(
                self.dir1.x.lane(i),
                self.dir1.y.lane(i),
                self.im1.lane(i),
                self.elem(0, i),
                d,
            )
        } else {
            d
        };
        if self.num_contacts as int >= 2 {
            sp_warm_b1(
                self.dir1.x.lane(i),
                self.dir1.y.lane(i),
                self.im1.lane(i),
                self.elem(1, i),
                d0,
            )
        } else {
            d0
        }
    }

    /// Body 2's velocity delta of lane `i` after warm start.
    pub open spec fn warm2_spec(self, i: int, d: SDelta) -> SDelta {
        let d0 = if self.num_contacts as int >= 1 {
            sp_warm_b2(
                self.dir1.x.lane(i),
                self.dir1.y.lane(i),
                self.im2.lane(i),
                self.elem(0, i),
                d,
            )
        } else {
            d
        };
        if self.num_contacts as int >= 2 {
            sp_warm_b2(
                self.dir1.x.lane(i),
                self.dir1.y.lane(i),
                self.im2.lane(i),
                self.elem(1, i),
                d0,
            )
        } else {
            d0
        }
    }

    fn warm_lane(&self, ii: usize, d1: DeltaVel, d2: DeltaVel) -> (r: (DeltaVel, DeltaVel))
        requires
            self.wf(),
            ii < SIMD_WIDTH,
        ensures
            r.0@ == self.warm1_spec(ii as int, d1@),
            r.1@ == self.warm2_spec(ii as int, d2@),
    {
        let dirx = self.dir1.x.l[ii];
        let diry = self.dir1.y.l[ii];
        let im1 = self.im1.l[ii];
        let im2 = self.im2.l[ii];
        let mut nd1 = d1;
        let mut nd2 = d2;
        if self.num_contacts >= 1 {
            let e = lane_elem_at(&self.elements[0], ii);
            nd1 = warm_b1_lane(dirx, diry, im1, &e, nd1);
            nd2 = warm_b2_lane(dirx, diry, im2, &e, nd2);
        }
        if self.num_contacts >= 2 {
            let e = lane_elem_at(&self.elements[1], ii);
            nd1 = warm_b1_lane(dirx, diry, im1, &e, nd1);
            nd2 = warm_b2_lane(dirx, diry, im2, &e, nd2);
        }
        (nd1, nd2)
    }

    /// Apply the warm-started stored impulses of every active contact point
    /// to both bodies' entries of the shared velocity-delta buffer. The
    /// change of each touched entry is exactly the stored impulses times
    /// their Jacobian contributions (`warm1_spec` / `warm2_spec`), and no
    /// other entry is touched.
    #[verifier::loop_isolation(false)]
    pub fn warmstart(&self, mj_lambdas: &mut Vec<DeltaVel>)
        requires
            self.wf(),
            self.bodies_distinct(),
            forall|i: int|
                0 <= i < SIMD_WIDTH as int ==> ((#[trigger] self.mj_lambda1@[i]) as int) < old(
                    mj_lambdas,
                )@.len() && ((#[trigger] self.mj_lambda2@[i]) as int) < old(mj_lambdas)@.len(),
        ensures
            final(mj_lambdas)@.len() == old(mj_lambdas)@.len(),
            forall|i: int|
                0 <= i < SIMD_WIDTH as int ==> final(mj_lambdas)@[(
                #[trigger] self.mj_lambda1@[i]) as int]@ == self.warm1_spec(
                    i,
                    old(mj_lambdas)@[self.mj_lambda1@[i] as int]@,
                ),
            forall|i: int|
                0 <= i < SIMD_WIDTH as int ==> final(mj_lambdas)@[(
                #[trigger] self.mj_lambda2@[i]) as int]@ == self.warm2_spec(
                    i,
                    old(mj_lambdas)@[self.mj_lambda2@[i] as int]@,
                ),
            forall|j: int|
                0 <= j < old(mj_lambdas)@.len() && !self.touches(j) ==> final(mj_lambdas)@[j]
                    == old(mj_lambdas)@[j],
    {
        let mut ii: usize = 0;
        while ii < SIMD_WIDTH
            invariant
                ii <= SIMD_WIDTH,
                mj_lambdas@.len() == old(mj_lambdas)@.len(),
                forall|i: int|
                    0 <= i < ii as int ==> mj_lambdas@[(#[trigger] self.mj_lambda1@[i]) as int]@
                        == self.warm1_spec(i, old(mj_lambdas)@[self.mj_lambda1@[i] as int]@),
                forall|i: int|
                    0 <= i < ii as int ==> mj_lambdas@[(#[trigger] self.mj_lambda2@[i]) as int]@
                        == self.warm2_spec(i, old(mj_lambdas)@[self.mj_lambda2@[i] as int]@),
                forall|j: int|
                    0 <= j < mj_lambdas@.len() && !self.touched_below(j, ii as int)
                        ==> mj_lambdas@[j] == old(mj_lambdas)@[j],
            decreases SIMD_WIDTH - ii,
        {
            let i1 = self.mj_lambda1[ii];
            let i2 = self.mj_lambda2[ii];
            proof {
                assert forall|i: int| 0 <= i < ii as int implies (self.mj_lambda1@[i] as int != i1
                    as int && self.mj_lambda2@[i] as int != i1 as int && self.mj_lambda1@[i] as int
                    != i2 as int && self.mj_lambda2@[i] as int != i2 as int) by {
                    assert(self.mj_lambda1@[i] != self.mj_lambda1@[ii as int]);
                    assert(self.mj_lambda2@[i] != self.mj_lambda1@[ii as int]);
                    assert(self.mj_lambda1@[i] != self.mj_lambda2@[ii as int]);
                    assert(self.mj_lambda2@[i] != self.mj_lambda2@[ii as int]);
                }
                assert(!self.touched_below(i1 as int, ii as int));
                assert(!self.touched_below(i2 as int, ii as int));
            }
            let d1 = mj_lambdas[i1];
            let d2 = mj_lambdas[i2];
            let r = self.warm_lane(ii, d1, d2);
            mj_lambdas[i1] = r.0;
            mj_lambdas[i2] = r.1;
            proof {
                assert forall|j: int|
                    0 <= j < mj_lambdas@.len() && !self.touched_below(j, ii as int + 1)
                        implies mj_lambdas@[j] == old(mj_lambdas)@[j] by {
                    if self.mj_lambda1@[ii as int] as int == j {
                        assert(0 <= (ii as int) < (ii as int) + 1);
                        assert(self.touched_below(j, ii as int + 1));
                    }
                    if self.mj_lambda2@[ii as int] as int == j {
                        assert(self.touched_below(j, ii as int + 1));
                    }
                    if self.touched_below(j, ii as int) {
                        let w = choose|i: int|
                            0 <= i < ii as int && (self.mj_lambda1@[i] as int == j
                                || self.mj_lambda2@[i] as int == j);
                        assert(self.touched_below(j, ii as int + 1));
                    }
                }
            }
            ii = ii + 1;
        }
    }
}

// ---------------------------------------------------------------------------
// Iterative solve.
// ---------------------------------------------------------------------------
/// Result of one relaxation sweep of one lane: the two (possibly updated)
/// elements and both bodies' velocity deltas.
pub struct SSolve {
    pub e0: SElem,
    pub e1: SElem,
    pub d1: SDelta,
    pub d2: SDelta,
}

impl WVelocityConstraint {
    /// One projected Gauss-Seidel sweep of lane `i`, in the fixed order the
    /// solver uses: the friction step of every active contact point first,
    /// then the normal step of every active point, each step applying its
    /// impulse change to the deltas immediately. The friction steps clamp
    /// against the normal impulses of the previous sweep.
    pub open spec fn solve_spec(self, i: int, d1: SDelta, d2: SDelta) -> SSolve {
        let dirx = self.dir1.x.lane(i);
        let diry = self.dir1.y.lane(i);
        let tx = fx_neg(diry);
        let ty = dirx;
        let im1 = self.im1.lane(i);
        let im2 = self.im2.lane(i);
        let limit = self.limit.lane(i);
        let nc = self.num_contacts as int;
        let e0 = self.elem(0, i);
        let e1 = self.elem(1, i);
        let f0 = if nc >= 1 {
            sp_tan_step(tx, ty, im1, im2, limit, e0.normal.imp, e0.tangent, d1, d2)
        } else {
            SStep { p: e0.tangent, d1: d1, d2: d2 }
        };
        let f1 = if nc >= 2 {
            sp_tan_step(tx, ty, im1, im2, limit, e1.normal.imp, e1.tangent, f0.d1, f0.d2)
        } else {
            SStep { p: e1.tangent, d1: f0.d1, d2: f0.d2 }
        };
        let n0 = if nc >= 1 {
            sp_nrm_step(dirx, diry, im1, im2, e0.normal, f1.d1, f1.d2)
        } else {
            SStep { p: e0.normal, d1: f1.d1, d2: f1.d2 }
        };
        let n1 = if nc >= 2 {
            sp_nrm_step(dirx, diry, im1, im2, e1.normal, n0.d1, n0.d2)
        } else {
            SStep { p: e1.normal, d1: n0.d1, d2: n0.d2 }
        };
        SSolve {
            e0: SElem { normal: n0.p, tangent: f0.p },
            e1: SElem { normal: n1.p, tangent: f1.p },
            d1: n1.d1,
            d2: n1.d2,
        }
    }

    fn solve_lane(&self, ii: usize, d1: DeltaVel, d2: DeltaVel) -> (out: (
        LaneElement,
        LaneElement,
        DeltaVel,
        DeltaVel,
    ))
        requires
            self.wf(),
            ii < SIMD_WIDTH,
        ensures
            out.0@ == self.solve_spec(ii as int, d1@, d2@).e0,
            out.1@ == self.solve_spec(ii as int, d1@, d2@).e1,
            out.2@ == self.solve_spec(ii as int, d1@, d2@).d1,
            out.3@ == self.solve_spec(ii as int, d1@, d2@).d2,
    {
        let dirx = self.dir1.x.l[ii];
        let diry = self.dir1.y.l[ii];
        let tx = fxneg(diry);
        let ty = dirx;
        let im1 = self.im1.l[ii];
        let im2 = self.im2.l[ii];
        let limit = self.limit.l[ii];
        let mut e0 = lane_elem_at(&self.elements[0], ii);
        let mut e1 = lane_elem_at(&self.elements[1], ii);
        let mut dd1 = d1;
        let mut dd2 = d2;
        if self.num_contacts >= 1 {
            let s = tan_step_lane(tx, ty, im1, im2, limit, e0.normal.imp, e0.tangent, dd1, dd2);
            e0 = LaneElement { normal: e0.normal, tangent: s.0 };
            dd1 = s.1;
            dd2 = s.2;
        }
        if self.num_contacts >= 2 {
            let s = tan_step_lane(tx, ty, im1, im2, limit, e1.normal.imp, e1.tangent, dd1, dd2);
            e1 = LaneElement { normal: e1.normal, tangent: s.0 };
            dd1 = s.1;
            dd2 = s.2;
        }
        if self.num_contacts >= 1 {
            let s = nrm_step_lane(dirx, diry, im1, im2, e0.normal, dd1, dd2);
            e0 = LaneElement { normal: s.0, tangent: e0.tangent };
            dd1 = s.1;
            dd2 = s.2;
        }
        if self.num_contacts >= 2 {
            let s = nrm_step_lane(dirx, diry, im1, im2, e1.normal, dd1, dd2);
            e1 = LaneElement { normal: s.0, tangent: e1.tangent };
            dd1 = s.1;
            dd2 = s.2;
        }
        (e0, e1, dd1, dd2)
    }

    /// One relaxation sweep over every contact point of the batch, mutating
    /// the velocity-delta buffer in place: all friction steps first, then
    /// all normal steps, exactly as `solve_spec` composes them per lane.
    /// Only the elements' impulses and the touched buffer entries change.
    #[verifier::rlimit(100)]
    pub fn solve(&mut self, mj_lambdas: &mut Vec<DeltaVel>)
        requires
            old(self).wf(),
            old(self).bodies_distinct(),
            forall|i: int|
                0 <= i < SIMD_WIDTH as int ==> ((#[trigger] old(self).mj_lambda1@[i]) as int)
                    < old(mj_lambdas)@.len() && ((#[trigger] old(self).mj_lambda2@[i]) as int)
                    < old(mj_lambdas)@.len(),
        ensures
            final(self).dir1 == old(self).dir1,
            final(self).num_contacts == old(self).num_contacts,
            final(self).im1 == old(self).im1,
            final(self).im2 == old(self).im2,
            final(self).limit == old(self).limit,
            final(self).mj_lambda1 == old(self).mj_lambda1,
            final(self).mj_lambda2 == old(self).mj_lambda2,
            final(self).manifold_id == old(self).manifold_id,
            final(self).manifold_contact_id == old(self).manifold_contact_id,
            final(mj_lambdas)@.len() == old(mj_lambdas)@.len(),
            forall|i: int|
                0 <= i < SIMD_WIDTH as int ==> #[trigger] final(self).elem(0, i) == old(
                    self,
                ).solve_spec(
                    i,
                    old(mj_lambdas)@[old(self).mj_lambda1@[i] as int]@,
                    old(mj_lambdas)@[old(self).mj_lambda2@[i] as int]@,
                ).e0,
            forall|i: int|
                0 <= i < SIMD_WIDTH as int ==> #[trigger] final(self).elem(1, i) == old(
                    self,
                ).solve_spec(
                    i,
                    old(mj_lambdas)@[old(self).mj_lambda1@[i] as int]@,
                    old(mj_lambdas)@[old(self).mj_lambda2@[i] as int]@,
                ).e1,
            forall|i: int|
                0 <= i < SIMD_WIDTH as int ==> final(mj_lambdas)@[(
                #[trigger] old(self).mj_lambda1@[i]) as int]@ == old(self).solve_spec(
                    i,
                    old(mj_lambdas)@[old(self).mj_lambda1@[i] as int]@,
                    old(mj_lambdas)@[old(self).mj_lambda2@[i] as int]@,
                ).d1,
            forall|i: int|
                0 <= i < SIMD_WIDTH as int ==> final(mj_lambdas)@[(
                #[trigger] old(self).mj_lambda2@[i]) as int]@ == old(self).solve_spec(
                    i,
                    old(mj_lambdas)@[old(self).mj_lambda1@[i] as int]@,
                    old(mj_lambdas)@[old(self).mj_lambda2@[i] as int]@,
                ).d2,
            forall|j: int|
                0 <= j < old(mj_lambdas)@.len() && !old(self).touches(j) ==> final(mj_lambdas)@[j]
                    == old(mj_lambdas)@[j],
    {
        let i10 = self.mj_lambda1[0];
        let i20 = self.mj_lambda2[0];
        let r0 = self.solve_lane(0, mj_lambdas[i10], mj_lambdas[i20]);
        mj_lambdas[i10] = r0.2;
        mj_lambdas[i20] = r0.3;
        let i11 = self.mj_lambda1[1];
        let i21 = self.mj_lambda2[1];
        let r1 = self.solve_lane(1, mj_lambdas[i11], mj_lambdas[i21]);
        mj_lambdas[i11] = r1.2;
        mj_lambdas[i21] = r1.3;
        let i12 = self.mj_lambda1[2];
        let i22 = self.mj_lambda2[2];
        let r2 = self.solve_lane(2, mj_lambdas[i12], mj_lambdas[i22]);
        mj_lambdas[i12] = r2.2;
        mj_lambdas[i22] = r2.3;
        let i13 = self.mj_lambda1[3];
        let i23 = self.mj_lambda2[3];
        let r3 = self.solve_lane(3, mj_lambdas[i13], mj_lambdas[i23]);
        mj_lambdas[i13] = r3.2;
        mj_lambdas[i23] = r3.3;
        let new_e0 = pack_elem(r0.0, r1.0, r2.0, r3.0);
        let new_e1 = pack_elem(r0.1, r1.1, r2.1, r3.1);
        self.elements = [new_e0, new_e1];
    }
}



// ---------------------------------------------------------------------------
// Impulse writeback.
// ---------------------------------------------------------------------------
impl WVelocityConstraint {
    /// The manifolds of distinct lanes are distinct records: each lane's
    /// writeback targets its own manifold.
    pub open spec fn mid_distinct(self) -> bool {
        forall|i: int, j: int|
            0 <= i < SIMD_WIDTH as int && 0 <= j < SIMD_WIDTH as int && i != j
                ==> self.manifold_id@[i] != self.manifold_id@[j]
    }

    /// Whether manifold slot `j` belongs to a lane below `hi`.
    pub open spec fn mid_touched_below(self, j: int, hi: int) -> bool {
        exists|i: int| 0 <= i < hi && (#[trigger] self.manifold_id@[i]) as int == j
    }

    /// What writeback leaves in lane `i`'s manifold: the points this
    /// instance covers carry its final normal and tangential impulses, every
    /// other point and every other field of the manifold is untouched.
    pub open spec fn wrote_manifold(self, i: int, om: SManifold, nm: SManifold) -> bool {
        let base = self.manifold_contact_id as int;
        let nc = self.num_contacts as int;
        &&& nm == SManifold { points: nm.points, ..om }
        &&& nm.points.len() == om.points.len()
        &&& forall|p: int|
            0 <= p < om.points.len() ==> #[trigger] nm.points[p] == (if base <= p < base + nc {
                SPoint {
                    impulse: self.elem(p - base, i).normal.imp,
                    tangent_impulse: self.elem(p - base, i).tangent.imp,
                    ..om.points[p]
                }
            } else {
                om.points[p]
            })
    }

    /// Copy the final impulses of every contact point of the batch back into
    /// the owning manifolds' point records, at the offset this instance
    /// covers. This is the only mutation of external state the solver
    /// performs; it feeds the next step's warm start.
    #[verifier::loop_isolation(false)]
    #[verifier::rlimit(100)]
    pub fn writeback_impulses(&self, manifolds_all: &mut Vec<ContactManifold>)
        requires
            self.wf(),
            self.mid_distinct(),
            forall|i: int|
                0 <= i < SIMD_WIDTH as int ==> ((#[trigger] self.manifold_id@[i]) as int) < old(
                    manifolds_all,
                )@.len(),
            forall|i: int|
                0 <= i < SIMD_WIDTH as int ==> self.manifold_contact_id as int
                    + self.num_contacts as int <= old(manifolds_all)@[(
                #[trigger] self.manifold_id@[i]) as int]@.points.len(),
        ensures
            final(manifolds_all)@.len() == old(manifolds_all)@.len(),
            forall|i: int|
                0 <= i < SIMD_WIDTH as int ==> self.wrote_manifold(
                    i,
                    old(manifolds_all)@[(#[trigger] self.manifold_id@[i]) as int]@,
                    final(manifolds_all)@[self.manifold_id@[i] as int]@,
                ),
            forall|j: int|
                0 <= j < old(manifolds_all)@.len() && !self.mid_touched_below(
                    j,
                    SIMD_WIDTH as int,
                ) ==> final(manifolds_all)@[j] == old(manifolds_all)@[j],
    {
        let mut ii: usize = 0;
        while ii < SIMD_WIDTH
            invariant
                ii <= SIMD_WIDTH,
                manifolds_all@.len() == old(manifolds_all)@.len(),
                forall|i: int|
                    0 <= i < ii as int ==> self.wrote_manifold(
                        i,
                        old(manifolds_all)@[(#[trigger] self.manifold_id@[i]) as int]@,
                        manifolds_all@[self.manifold_id@[i] as int]@,
                    ),
                forall|j: int|
                    0 <= j < manifolds_all@.len() && !self.mid_touched_below(j, ii as int)
                        ==> manifolds_all@[j] == old(manifolds_all)@[j],
            decreases SIMD_WIDTH - ii,
        {
            let mi = self.manifold_id[ii];
            proof {
                assert forall|i: int| 0 <= i < ii as int implies self.manifold_id@[i] as int != mi
                    as int by {
                    assert(self.manifold_id@[i] != self.manifold_id@[ii as int]);
                }
                assert(!self.mid_touched_below(mi as int, ii as int));
            }
            let base = self.manifold_contact_id;
            if self.num_contacts >= 1 {
                manifolds_all[mi].points[base].impulse = self.elements[0].normal_part.impulse.l[ii];
                manifolds_all[mi].points[base].tangent_impulse =
                    self.elements[0].tangent_parts[0].impulse.l[ii];
            }
            if self.num_contacts >= 2 {
                let plen = manifolds_all[mi].points.len();
                proof {
                    assert(base as int + 2 <= plen as int);
                }
                manifolds_all[mi].points[base + 1].impulse =
                    self.elements[1].normal_part.impulse.l[ii];
                manifolds_all[mi].points[base + 1].tangent_impulse =
                    self.elements[1].tangent_parts[0].impulse.l[ii];
            }
            proof {
                assert(self.wrote_manifold(
                    ii as int,
                    old(manifolds_all)@[mi as int]@,
                    manifolds_all@[mi as int]@,
                ));
                assert forall|j: int|
                    0 <= j < manifolds_all@.len() && !self.mid_touched_below(j, ii as int + 1)
                        implies manifolds_all@[j] == old(manifolds_all)@[j] by {
                    if self.manifold_id@[ii as int] as int == j {
                        assert(self.mid_touched_below(j, ii as int + 1));
                    }
                    if self.mid_touched_below(j, ii as int) {
                        let w = choose|i: int|
                            0 <= i < ii as int && (#[trigger] self.manifold_id@[i]) as int == j;
                        assert(self.mid_touched_below(j, ii as int + 1));
                    }
                }
            }
            ii = ii + 1;
        }
    }
}


// ---------------------------------------------------------------------------
// Laws.
// ---------------------------------------------------------------------------
/// Non-penetration: after a relaxation sweep, every active contact point's
/// normal impulse is nonnegative — the normal step clamps to `[0, +oo)`.
pub proof fn lemma_solve_nonpenetration(c: WVelocityConstraint, i: int, d1: SDelta, d2: SDelta)
    requires
        c.wf(),
        0 <= i < SIMD_WIDTH as int,
    ensures
        c.num_contacts as int >= 1 ==> c.solve_spec(i, d1, d2).e0.normal.imp >= 0,
        c.num_contacts as int >= 2 ==> c.solve_spec(i, d1, d2).e1.normal.imp >= 0,
{
    let dirx = c.dir1.x.lane(i);
    let diry = c.dir1.y.lane(i);
    let tx = fx_neg(diry);
    let ty = dirx;
    let im1 = c.im1.lane(i);
    let im2 = c.im2.lane(i);
    let limit = c.limit.lane(i);
    let nc = c.num_contacts as int;
    let e0 = c.elem(0, i);
    let e1 = c.elem(1, i);
    if nc >= 1 {
        let f0 = sp_tan_step(tx, ty, im1, im2, limit, e0.normal.imp, e0.tangent, d1, d2);
        let f1 = if nc >= 2 {
            sp_tan_step(tx, ty, im1, im2, limit, e1.normal.imp, e1.tangent, f0.d1, f0.d2)
        } else {
            SStep { p: e1.tangent, d1: f0.d1, d2: f0.d2 }
        };
        lemma_nrm_step_nonneg(dirx, diry, im1, im2, e0.normal, f1.d1, f1.d2);
        if nc >= 2 {
            let n0 = sp_nrm_step(dirx, diry, im1, im2, e0.normal, f1.d1, f1.d2);
            lemma_nrm_step_nonneg(dirx, diry, im1, im2, e1.normal, n0.d1, n0.d2);
        }
    }
}

/// Friction cone: after a relaxation sweep, each active tangential impulse
/// lies within the decoupled Coulomb box `[-limit * n, +limit * n]`, where
/// `n` is the normal impulse the friction step clamped against (the one of
/// the previous sweep — the documented decoupled approximation).
pub proof fn lemma_solve_friction_cone(c: WVelocityConstraint, i: int, d1: SDelta, d2: SDelta)
    requires
        c.wf(),
        0 <= i < SIMD_WIDTH as int,
        c.limit.lane(i) >= 0,
        c.num_contacts as int >= 1 ==> c.elem(0, i).normal.imp >= 0,
        c.num_contacts as int >= 2 ==> c.elem(1, i).normal.imp >= 0,
    ensures
        c.num_contacts as int >= 1 ==> fx_neg(fx_mul(c.limit.lane(i), c.elem(0, i).normal.imp))
            <= c.solve_spec(i, d1, d2).e0.tangent.imp <= fx_mul(
            c.limit.lane(i),
            c.elem(0, i).normal.imp,
        ),
        c.num_contacts as int >= 2 ==> fx_neg(fx_mul(c.limit.lane(i), c.elem(1, i).normal.imp))
            <= c.solve_spec(i, d1, d2).e1.tangent.imp <= fx_mul(
            c.limit.lane(i),
            c.elem(1, i).normal.imp,
        ),
{
    let dirx = c.dir1.x.lane(i);
    let diry = c.dir1.y.lane(i);
    let tx = fx_neg(diry);
    let ty = dirx;
    let im1 = c.im1.lane(i);
    let im2 = c.im2.lane(i);
    let limit = c.limit.lane(i);
    let nc = c.num_contacts as int;
    let e0 = c.elem(0, i);
    let e1 = c.elem(1, i);
    if nc >= 1 {
        lemma_tan_step_cone(tx, ty, im1, im2, limit, e0.normal.imp, e0.tangent, d1, d2);
        if nc >= 2 {
            let f0 = sp_tan_step(tx, ty, im1, im2, limit, e0.normal.imp, e0.tangent, d1, d2);
            lemma_tan_step_cone(tx, ty, im1, im2, limit, e1.normal.imp, e1.tangent, f0.d1, f0.d2);
        }
    }
}

/// Zero friction: with a zero friction coefficient the tangential impulses
/// are zero after a relaxation sweep, whatever the tangential velocities.
pub proof fn lemma_solve_zero_friction(c: WVelocityConstraint, i: int, d1: SDelta, d2: SDelta)
    requires
        c.wf(),
        0 <= i < SIMD_WIDTH as int,
        c.limit.lane(i) == 0,
    ensures
        c.num_contacts as int >= 1 ==> c.solve_spec(i, d1, d2).e0.tangent.imp == 0,
        c.num_contacts as int >= 2 ==> c.solve_spec(i, d1, d2).e1.tangent.imp == 0,
{
    let dirx = c.dir1.x.lane(i);
    let diry = c.dir1.y.lane(i);
    let tx = fx_neg(diry);
    let ty = dirx;
    let im1 = c.im1.lane(i);
    let im2 = c.im2.lane(i);
    let nc = c.num_contacts as int;
    let e0 = c.elem(0, i);
    let e1 = c.elem(1, i);
    if nc >= 1 {
        lemma_tan_step_zero_limit(tx, ty, im1, im2, e0.normal.imp, e0.tangent, d1, d2);
        if nc >= 2 {
            let f0 = sp_tan_step(tx, ty, im1, im2, 0, e0.normal.imp, e0.tangent, d1, d2);
            lemma_tan_step_zero_limit(tx, ty, im1, im2, e1.normal.imp, e1.tangent, f0.d1, f0.d2);
        }
    }
}

/// Warm start applies nothing beyond the stored impulses: with every stored
/// impulse zero, a lane's buffer entries are predicted unchanged.
pub proof fn lemma_warmstart_zero_impulses(c: WVelocityConstraint, i: int, d: SDelta)
    requires
        c.wf(),
        0 <= i < SIMD_WIDTH as int,
        c.num_contacts as int >= 1 ==> c.elem(0, i).normal.imp == 0 && c.elem(
            0,
            i,
        ).tangent.imp == 0,
        c.num_contacts as int >= 2 ==> c.elem(1, i).normal.imp == 0 && c.elem(
            1,
            i,
        ).tangent.imp == 0,
        fits64(d.lx),
        fits64(d.ly),
        fits64(d.ang),
    ensures
        c.warm1_spec(i, d) == d,
        c.warm2_spec(i, d) == d,
{
    let dirx = c.dir1.x.lane(i);
    let diry = c.dir1.y.lane(i);
    if c.num_contacts as int >= 1 {
        lemma_warm_step_zero(dirx, diry, c.im1.lane(i), c.elem(0, i), d);
        lemma_warm_step_zero(dirx, diry, c.im2.lane(i), c.elem(0, i), d);
    }
    if c.num_contacts as int >= 2 {
        lemma_warm_step_zero(dirx, diry, c.im1.lane(i), c.elem(1, i), d);
        lemma_warm_step_zero(dirx, diry, c.im2.lane(i), c.elem(1, i), d);
    }
}

/// Chunking correctness: the instances generated for a manifold with `n`
/// contact points cover the point list in consecutive disjoint chunks —
/// point `p` is covered by instance `p / 2` and by no other.
pub proof fn lemma_chunks_partition(cs: Seq<WVelocityConstraint>, n: int)
    requires
        n >= 0,
        cs.len() == num_chunks(n),
        forall|j: int|
            0 <= j < cs.len() ==> (#[trigger] cs[j].manifold_contact_id) as int == 2 * j,
        forall|j: int|
            0 <= j < cs.len() ==> (#[trigger] cs[j].num_contacts) as int == (if n - 2 * j >= 2 {
                2int
            } else {
                n - 2 * j
            }),
    ensures
        forall|p: int|
            0 <= p < n ==> 0 <= p / 2 < cs.len() && (#[trigger] cs[p / 2].manifold_contact_id)
                as int <= p < cs[p / 2].manifold_contact_id as int + cs[p / 2].num_contacts as int,
        forall|j1: int, j2: int|
            0 <= j1 < j2 < cs.len() ==> (#[trigger] cs[j1].manifold_contact_id) as int
                + cs[j1].num_contacts as int <= (#[trigger] cs[j2].manifold_contact_id) as int,
{
    assert forall|p: int| 0 <= p < n implies 0 <= p / 2 < cs.len() && (
    #[trigger] cs[p / 2].manifold_contact_id) as int <= p < cs[p / 2].manifold_contact_id as int
        + cs[p / 2].num_contacts as int by {
        vstd::arithmetic::div_mod::lemma_fundamental_div_mod(p, 2);
        vstd::arithmetic::div_mod::lemma_fundamental_div_mod(n + 1, 2);
        assert(0 <= p % 2 < 2);
        assert(0 <= (n + 1) % 2 < 2);
        assert(p / 2 < num_chunks(n));
    }
    assert forall|j1: int, j2: int| 0 <= j1 < j2 < cs.len() implies (
    #[trigger] cs[j1].manifold_contact_id) as int + cs[j1].num_contacts as int <= (
    #[trigger] cs[j2].manifold_contact_id) as int by {
        assert(cs[j1].num_contacts as int <= 2);
    }
}

} // verus!
