use contact_solver::constraint::{WVelocityConstraint, WVelocityConstraintElement,
    WVelocityConstraintElementPart};
use contact_solver::data::{ContactManifold, ContactPoint, DeltaVel, IntegrationParameters, Iso2,
    RigidBodyState};
use contact_solver::fx::FP_ONE;

const ONE: i64 = FP_ONE;

fn identity_iso() -> Iso2 {
    Iso2 { rot_c: ONE, rot_s: 0, tx: 0, ty: 0 }
}

fn body(inv_mass: i64, linvel_x: i64, linvel_y: i64, offset: usize) -> RigidBodyState {
    RigidBodyState {
        inv_mass,
        inv_inertia_sqrt: 0,
        linvel_x,
        linvel_y,
        angvel: 0,
        position: identity_iso(),
        world_com_x: 0,
        world_com_y: 0,
        active_set_offset: offset,
    }
}

fn point(dist: i64, impulse: i64, tangent_impulse: i64) -> ContactPoint {
    ContactPoint {
        local_p1_x: 0,
        local_p1_y: 0,
        local_p2_x: 0,
        local_p2_y: 0,
        dist,
        impulse,
        tangent_impulse,
    }
}

// The manifold's local normal is (0, -1), so with identity poses the world
// contact normal (from body 2 toward body 1) is (0, +1).
fn manifold(body1: usize, body2: usize, friction: i64, restitution: i64, pts: Vec<ContactPoint>) -> ContactManifold {
    ContactManifold {
        body1,
        body2,
        delta1: identity_iso(),
        delta2: identity_iso(),
        local_n1_x: 0,
        local_n1_y: -ONE,
        friction,
        restitution,
        warmstart_multiplier: ONE,
        constraint_index: 0,
        points: pts,
    }
}

// Four identical lanes: lane k couples body 2k (moving, unit inverse mass)
// with body 2k+1 (inverse mass im2), one contact point each.
fn batch(
    friction: i64,
    restitution: i64,
    vx: i64,
    vy: i64,
    im2: i64,
    pt: ContactPoint,
) -> (Vec<ContactManifold>, Vec<RigidBodyState>) {
    let mut manifolds = Vec::new();
    let mut bodies = Vec::new();
    for lane in 0..4usize {
        bodies.push(body(ONE, vx, vy, 2 * lane));
        bodies.push(body(im2, 0, 0, 2 * lane + 1));
        manifolds.push(manifold(2 * lane, 2 * lane + 1, friction, restitution, vec![pt]));
    }
    (manifolds, bodies)
}

fn params(inv_dt: i64) -> IntegrationParameters {
    IntegrationParameters {
        inv_dt,
        restitution_velocity_threshold: ONE,
        warmstart_coeff: ONE,
    }
}

fn zero_buffer(n: usize) -> Vec<DeltaVel> {
    let mut v = Vec::new();
    for _ in 0..n {
        v.push(DeltaVel::zero());
    }
    v
}

#[test]
fn generate_computes_expected_coefficients() {
    // Unit mass against a static body, approaching at 5 units/s with
    // restitution 1/2 and threshold 1: the bias is amplified to -7.5, the
    // effective mass is exactly 1.
    let (manifolds, bodies) = batch(0, ONE / 2, 0, -5 * ONE, 0, point(0, 0, 0));
    let mut out: Vec<WVelocityConstraint> = Vec::new();
    WVelocityConstraint::generate(&params(60 * ONE), [0, 1, 2, 3], &manifolds, &bodies, &mut out, true);
    assert_eq!(out.len(), 1);
    let c = &out[0];
    assert_eq!(c.num_contacts, 1);
    assert_eq!(c.manifold_contact_id, 0);
    for lane in 0..4 {
        assert_eq!(c.dir1.x.l[lane], 0);
        assert_eq!(c.dir1.y.l[lane], ONE);
        assert_eq!(c.im1.l[lane], ONE);
        assert_eq!(c.im2.l[lane], 0);
        let n = &c.elements[0].normal_part;
        assert_eq!(n.r.l[lane], ONE);
        // -5 * (1 + 1/2) = -7.5
        assert_eq!(n.rhs.l[lane], -15 * ONE / 2);
        assert_eq!(n.impulse.l[lane], 0);
    }
}

#[test]
fn restitution_below_threshold_is_inelastic() {
    // Approaching at 1/2 unit/s, slower than the threshold of 1: the bias
    // keeps the raw relative velocity, restitution does not trigger.
    let (manifolds, bodies) = batch(0, ONE / 2, 0, -ONE / 2, 0, point(0, 0, 0));
    let mut out: Vec<WVelocityConstraint> = Vec::new();
    WVelocityConstraint::generate(&params(60 * ONE), [0, 1, 2, 3], &manifolds, &bodies, &mut out, true);
    assert_eq!(out[0].elements[0].normal_part.rhs.l[0], -ONE / 2);
}

#[test]
fn separated_point_gets_penetration_bias_only_when_penetrating() {
    // A separated point (negative signed depth) contributes no bias.
    let (manifolds, bodies) = batch(0, 0, 0, 0, 0, point(-ONE, 0, 0));
    let mut out: Vec<WVelocityConstraint> = Vec::new();
    WVelocityConstraint::generate(&params(60 * ONE), [0, 1, 2, 3], &manifolds, &bodies, &mut out, true);
    assert_eq!(out[0].elements[0].normal_part.rhs.l[0], 0);
    // A penetrating point adds depth * inv_dt.
    let (manifolds, bodies) = batch(0, 0, 0, 0, 0, point(ONE / 64, 0, 0));
    let mut out: Vec<WVelocityConstraint> = Vec::new();
    WVelocityConstraint::generate(&params(60 * ONE), [0, 1, 2, 3], &manifolds, &bodies, &mut out, true);
    assert_eq!(out[0].elements[0].normal_part.rhs.l[0], 60 * ONE / 64);
}

#[test]
fn restitution_scenario_bounces_at_half_speed() {
    // A point mass with inverse mass 1 approaching a static plane at speed 5
    // with restitution 1/2 and threshold 1: after one solve the separating
    // velocity is exactly 2.5.
    let (manifolds, bodies) = batch(0, ONE / 2, 0, -5 * ONE, 0, point(0, 0, 0));
    let mut out: Vec<WVelocityConstraint> = Vec::new();
    WVelocityConstraint::generate(&params(60 * ONE), [0, 1, 2, 3], &manifolds, &bodies, &mut out, true);
    let mut buf = zero_buffer(8);
    out[0].warmstart(&mut buf);
    // Warm start with zero stored impulses leaves the buffer untouched.
    for j in 0..8 {
        assert_eq!(buf[j].linear_x, 0);
        assert_eq!(buf[j].linear_y, 0);
        assert_eq!(buf[j].angular, 0);
    }
    out[0].solve(&mut buf);
    for lane in 0..4 {
        // normal impulse 7.5, all of it on the movable body
        assert_eq!(out[0].elements[0].normal_part.impulse.l[lane], 15 * ONE / 2);
        let v_after = -5 * ONE + buf[2 * lane].linear_y;
        assert_eq!(v_after, 5 * ONE / 2);
        assert_eq!(buf[2 * lane + 1].linear_y, 0);
    }
}

#[test]
fn resting_contact_converges_to_zero_normal_velocity() {
    // Two unit-mass bodies, approaching slowly, zero restitution and
    // friction: after ten sweeps the relative normal velocity is exactly
    // zero and stays there.
    let (manifolds, bodies) = batch(0, 0, 0, -ONE / 2, ONE, point(0, 0, 0));
    let mut out: Vec<WVelocityConstraint> = Vec::new();
    WVelocityConstraint::generate(&params(60 * ONE), [0, 1, 2, 3], &manifolds, &bodies, &mut out, true);
    let mut buf = zero_buffer(8);
    out[0].warmstart(&mut buf);
    for _ in 0..10 {
        out[0].solve(&mut buf);
    }
    for lane in 0..4 {
        let v1 = -ONE / 2 + buf[2 * lane].linear_y;
        let v2 = buf[2 * lane + 1].linear_y;
        assert_eq!(v1 - v2, 0);
        // each unit-mass body absorbs half the impulse of 1/4
        assert_eq!(out[0].elements[0].normal_part.impulse.l[lane], ONE / 4);
        assert!(out[0].elements[0].normal_part.impulse.l[lane] >= 0);
    }
}

#[test]
fn friction_clamps_to_the_coulomb_cone() {
    // Sliding sideways at 3 while approaching at 5 against a static body,
    // friction 1/2: the first sweep sets the normal impulse to 5, the
    // second clamps the tangential impulse at 0.5 * 5 = 2.5.
    let (manifolds, bodies) = batch(ONE / 2, 0, 3 * ONE, -5 * ONE, 0, point(0, 0, 0));
    let mut out: Vec<WVelocityConstraint> = Vec::new();
    WVelocityConstraint::generate(&params(60 * ONE), [0, 1, 2, 3], &manifolds, &bodies, &mut out, true);
    let mut buf = zero_buffer(8);
    out[0].warmstart(&mut buf);
    out[0].solve(&mut buf);
    for lane in 0..4 {
        // friction ran before the normal pass saw any normal impulse
        assert_eq!(out[0].elements[0].tangent_parts[0].impulse.l[lane], 0);
        assert_eq!(out[0].elements[0].normal_part.impulse.l[lane], 5 * ONE);
    }
    out[0].solve(&mut buf);
    for lane in 0..4 {
        let n = out[0].elements[0].normal_part.impulse.l[lane];
        let t = out[0].elements[0].tangent_parts[0].impulse.l[lane];
        assert_eq!(t, 5 * ONE / 2);
        assert!(t.abs() <= ((ONE as i128 / 2) * (n as i128) / (ONE as i128)) as i64);
        assert!(n >= 0);
    }
}

#[test]
fn zero_friction_keeps_tangential_impulses_zero() {
    let (manifolds, bodies) = batch(0, 0, 3 * ONE, -5 * ONE, 0, point(0, 0, 0));
    let mut out: Vec<WVelocityConstraint> = Vec::new();
    WVelocityConstraint::generate(&params(60 * ONE), [0, 1, 2, 3], &manifolds, &bodies, &mut out, true);
    let mut buf = zero_buffer(8);
    out[0].warmstart(&mut buf);
    for _ in 0..7 {
        out[0].solve(&mut buf);
    }
    for lane in 0..4 {
        assert_eq!(out[0].elements[0].tangent_parts[0].impulse.l[lane], 0);
    }
}

#[test]
fn warmstart_applies_exactly_the_stored_impulses() {
    // Stored normal impulse 2 and tangential impulse 1/2, warm-start
    // multiplier and coefficient both 1: the buffered velocity change is
    // exactly impulse times Jacobian — dir * im * 2 plus tangent * im * 1/2,
    // with opposite sign on body 2.
    let (manifolds, bodies) = batch(0, 0, 0, 0, ONE, point(0, 2 * ONE, ONE / 2));
    let mut out: Vec<WVelocityConstraint> = Vec::new();
    WVelocityConstraint::generate(&params(60 * ONE), [0, 1, 2, 3], &manifolds, &bodies, &mut out, true);
    let mut buf = zero_buffer(8);
    out[0].warmstart(&mut buf);
    for lane in 0..4 {
        // dir = (0, 1), tangent = (-1, 0)
        assert_eq!(buf[2 * lane].linear_y, 2 * ONE);
        assert_eq!(buf[2 * lane].linear_x, -ONE / 2);
        assert_eq!(buf[2 * lane].angular, 0);
        assert_eq!(buf[2 * lane + 1].linear_y, -2 * ONE);
        assert_eq!(buf[2 * lane + 1].linear_x, ONE / 2);
    }
}

#[test]
fn warmstart_damping_scales_stored_impulses() {
    let (mut manifolds, bodies) = batch(0, 0, 0, 0, ONE, point(0, 2 * ONE, 0));
    for m in manifolds.iter_mut() {
        m.warmstart_multiplier = ONE / 2;
    }
    let mut out: Vec<WVelocityConstraint> = Vec::new();
    let p = IntegrationParameters {
        inv_dt: 60 * ONE,
        restitution_velocity_threshold: ONE,
        warmstart_coeff: ONE / 2,
    };
    WVelocityConstraint::generate(&p, [0, 1, 2, 3], &manifolds, &bodies, &mut out, true);
    // 2 * (1/2 * 1/2) = 1/2
    assert_eq!(out[0].elements[0].normal_part.impulse.l[0], ONE / 2);
}

#[test]
fn writeback_round_trips_the_final_impulses() {
    let (manifolds, bodies) = batch(ONE / 2, 0, 3 * ONE, -5 * ONE, 0, point(0, 0, 0));
    let mut manifolds = manifolds;
    let mut out: Vec<WVelocityConstraint> = Vec::new();
    WVelocityConstraint::generate(&params(60 * ONE), [0, 1, 2, 3], &manifolds, &bodies, &mut out, true);
    let mut buf = zero_buffer(8);
    out[0].warmstart(&mut buf);
    out[0].solve(&mut buf);
    out[0].solve(&mut buf);
    out[0].writeback_impulses(&mut manifolds);
    for lane in 0..4 {
        let m = &manifolds[lane];
        assert_eq!(m.points[0].impulse, out[0].elements[0].normal_part.impulse.l[lane]);
        assert_eq!(m.points[0].tangent_impulse, out[0].elements[0].tangent_parts[0].impulse.l[lane]);
    }
}

#[test]
fn chunking_splits_a_large_manifold_without_gaps_or_overlap() {
    // Three contact points with capacity two: two instances, covering
    // points [0, 2) and [2, 3). Writeback targets the disjoint ranges.
    let mut manifolds = Vec::new();
    let mut bodies = Vec::new();
    for lane in 0..4usize {
        bodies.push(body(ONE, 0, 0, 2 * lane));
        bodies.push(body(0, 0, 0, 2 * lane + 1));
        manifolds.push(manifold(
            2 * lane,
            2 * lane + 1,
            0,
            0,
            vec![point(0, ONE, 0), point(0, 2 * ONE, 0), point(0, 3 * ONE, 0)],
        ));
    }
    let mut out: Vec<WVelocityConstraint> = Vec::new();
    let p = IntegrationParameters {
        inv_dt: 60 * ONE,
        restitution_velocity_threshold: ONE,
        warmstart_coeff: ONE / 2,
    };
    assert_eq!(manifolds[0].num_active_contacts(), 3);
    WVelocityConstraint::generate(&p, [0, 1, 2, 3], &manifolds, &bodies, &mut out, true);
    assert_eq!(out.len(), 2);
    assert_eq!(out[0].manifold_contact_id, 0);
    assert_eq!(out[0].num_contacts, 2);
    assert_eq!(out[1].manifold_contact_id, 2);
    assert_eq!(out[1].num_contacts, 1);
    // Warm-started impulses are the stored ones halved.
    assert_eq!(out[0].elements[0].normal_part.impulse.l[0], ONE / 2);
    assert_eq!(out[0].elements[1].normal_part.impulse.l[0], ONE);
    assert_eq!(out[1].elements[0].normal_part.impulse.l[0], 3 * ONE / 2);
    out[0].writeback_impulses(&mut manifolds);
    out[1].writeback_impulses(&mut manifolds);
    for lane in 0..4 {
        assert_eq!(manifolds[lane].points[0].impulse, ONE / 2);
        assert_eq!(manifolds[lane].points[1].impulse, ONE);
        assert_eq!(manifolds[lane].points[2].impulse, 3 * ONE / 2);
    }
}

#[test]
fn empty_manifold_emits_no_instance() {
    let mut manifolds = Vec::new();
    let mut bodies = Vec::new();
    for lane in 0..4usize {
        bodies.push(body(ONE, 0, 0, 2 * lane));
        bodies.push(body(0, 0, 0, 2 * lane + 1));
        manifolds.push(manifold(2 * lane, 2 * lane + 1, 0, 0, Vec::new()));
    }
    let mut out: Vec<WVelocityConstraint> = Vec::new();
    WVelocityConstraint::generate(&params(60 * ONE), [0, 1, 2, 3], &manifolds, &bodies, &mut out, true);
    assert_eq!(out.len(), 0);
}

#[test]
fn update_mode_overwrites_the_stable_slot() {
    let (mut manifolds, bodies) = batch(0, 0, 0, -ONE, 0, point(0, 0, 0));
    for m in manifolds.iter_mut() {
        m.constraint_index = 1;
    }
    let mut out: Vec<WVelocityConstraint> = Vec::new();
    // Preallocate two slots by pushing twice in append mode.
    let (pm, pb) = batch(0, 0, 0, 0, 0, point(0, 0, 0));
    WVelocityConstraint::generate(&params(60 * ONE), [0, 1, 2, 3], &pm, &pb, &mut out, true);
    WVelocityConstraint::generate(&params(60 * ONE), [0, 1, 2, 3], &pm, &pb, &mut out, true);
    assert_eq!(out.len(), 2);
    assert_eq!(out[0].elements[0].normal_part.rhs.l[0], 0);
    WVelocityConstraint::generate(&params(60 * ONE), [0, 1, 2, 3], &manifolds, &bodies, &mut out, false);
    assert_eq!(out.len(), 2);
    // Slot 0 untouched, slot 1 overwritten with the new rhs of -1.
    assert_eq!(out[0].elements[0].normal_part.rhs.l[0], 0);
    assert_eq!(out[1].elements[0].normal_part.rhs.l[0], -ONE);
}

#[test]
fn zero_elements_are_all_zero() {
    let p = WVelocityConstraintElementPart::zero();
    for lane in 0..4 {
        assert_eq!(p.gcross1.l[lane], 0);
        assert_eq!(p.gcross2.l[lane], 0);
        assert_eq!(p.rhs.l[lane], 0);
        assert_eq!(p.impulse.l[lane], 0);
        assert_eq!(p.r.l[lane], 0);
    }
    let e = WVelocityConstraintElement::zero();
    assert_eq!(e.normal_part.impulse.l[0], 0);
    assert_eq!(e.tangent_parts[0].impulse.l[0], 0);
}

#[test]
fn warmstart_and_solve_touch_only_the_batch_bodies() {
    let (manifolds, bodies) = batch(0, 0, 0, -5 * ONE, 0, point(0, 2 * ONE, 0));
    let mut out: Vec<WVelocityConstraint> = Vec::new();
    WVelocityConstraint::generate(&params(60 * ONE), [0, 1, 2, 3], &manifolds, &bodies, &mut out, true);
    // Two extra buffer entries that belong to other batches.
    let mut buf = zero_buffer(10);
    buf[8].linear_x = 77;
    buf[9].angular = -33;
    out[0].warmstart(&mut buf);
    out[0].solve(&mut buf);
    assert_eq!(buf[8].linear_x, 77);
    assert_eq!(buf[8].linear_y, 0);
    assert_eq!(buf[9].angular, -33);
}

#[test]
fn writeback_touches_only_the_batch_manifolds() {
    let (mut manifolds, bodies) = batch(0, 0, 0, -5 * ONE, 0, point(0, 0, 0));
    // A fifth manifold no lane refers to.
    manifolds.push(manifold(0, 1, 0, 0, vec![point(0, 9 * ONE, 8 * ONE)]));
    let mut out: Vec<WVelocityConstraint> = Vec::new();
    WVelocityConstraint::generate(&params(60 * ONE), [0, 1, 2, 3], &manifolds, &bodies, &mut out, true);
    let mut buf = zero_buffer(8);
    out[0].warmstart(&mut buf);
    out[0].solve(&mut buf);
    out[0].writeback_impulses(&mut manifolds);
    assert_eq!(manifolds[4].points[0].impulse, 9 * ONE);
    assert_eq!(manifolds[4].points[0].tangent_impulse, 8 * ONE);
    // The referenced manifolds did get the solved impulse of 5.
    assert_eq!(manifolds[0].points[0].impulse, 5 * ONE);
}
