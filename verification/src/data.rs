//! Plain data exchanged with the external collaborators: rigid-body state,
//! contact manifolds, the shared velocity-delta buffer, and the stepping
//! parameters.
//!
//! Each exec type has a spec-level mirror (`S...`) over mathematical
//! integers, reached through its view (`@`); the solver contracts are stated
//! over those mirrors.

use vstd::prelude::*;

verus! {

/// Number of independent body pairs packed into one batched constraint.
pub const SIMD_WIDTH: usize = 4;

/// Maximum contact points one constraint instance covers; manifolds with
/// more points are split into consecutive instances.
pub const MAX_MANIFOLD_POINTS: usize = 2;

/// A two-dimensional isometry: a rotation stored as the cosine/sine pair of
/// its angle, followed by a translation.
#[derive(Clone, Copy)]
pub struct Iso2 {
    pub rot_c: i64,
    pub rot_s: i64,
    pub tx: i64,
    pub ty: i64,
}

pub struct SIso {
    pub c: int,
    pub s: int,
    pub tx: int,
    pub ty: int,
}

impl View for Iso2 {
    type V = SIso;

    open spec fn view(&self) -> SIso {
        SIso { c: self.rot_c as int, s: self.rot_s as int, tx: self.tx as int, ty: self.ty as int }
    }
}

/// One geometric contact point of a manifold: local positions on both
/// bodies, signed penetration distance (negative means separated), and the
/// impulses persisted from the previous step for warm starting.
#[derive(Clone, Copy)]
pub struct ContactPoint {
    pub local_p1_x: i64,
    pub local_p1_y: i64,
    pub local_p2_x: i64,
    pub local_p2_y: i64,
    pub dist: i64,
    pub impulse: i64,
    pub tangent_impulse: i64,
}

pub struct SPoint {
    pub p1x: int,
    pub p1y: int,
    pub p2x: int,
    pub p2y: int,
    pub dist: int,
    pub impulse: int,
    pub tangent_impulse: int,
}

impl View for ContactPoint {
    type V = SPoint;

    open spec fn view(&self) -> SPoint {
        SPoint {
            p1x: self.local_p1_x as int,
            p1y: self.local_p1_y as int,
            p2x: self.local_p2_x as int,
            p2y: self.local_p2_y as int,
            dist: self.dist as int,
            impulse: self.impulse as int,
            tangent_impulse: self.tangent_impulse as int,
        }
    }
}

/// A contact manifold: the contact points between one colliding body pair,
/// the material coefficients, and the bookkeeping the solver needs to find
/// the bodies and its own constraint slots.
pub struct ContactManifold {
    pub body1: usize,
    pub body2: usize,
    pub delta1: Iso2,
    pub delta2: Iso2,
    pub local_n1_x: i64,
    pub local_n1_y: i64,
    pub friction: i64,
    pub restitution: i64,
    pub warmstart_multiplier: i64,
    pub constraint_index: usize,
    pub points: Vec<ContactPoint>,
}

pub struct SManifold {
    pub body1: int,
    pub body2: int,
    pub delta1: SIso,
    pub delta2: SIso,
    pub nx: int,
    pub ny: int,
    pub friction: int,
    pub restitution: int,
    pub warmstart_multiplier: int,
    pub constraint_index: int,
    pub points: Seq<SPoint>,
}

impl View for ContactManifold {
    type V = SManifold;

    open spec fn view(&self) -> SManifold {
        SManifold {
            body1: self.body1 as int,
            body2: self.body2 as int,
            delta1: self.delta1@,
            delta2: self.delta2@,
            nx: self.local_n1_x as int,
            ny: self.local_n1_y as int,
            friction: self.friction as int,
            restitution: self.restitution as int,
            warmstart_multiplier: self.warmstart_multiplier as int,
            constraint_index: self.constraint_index as int,
            points: self.points@.map_values(|p: ContactPoint| p@),
        }
    }
}

impl ContactManifold {
    /// Number of contact points the solver must cover for this manifold.
    pub fn num_active_contacts(&self) -> (n: usize)
        ensures
            n as int == self@.points.len(),
    {
        self.points.len()
    }
}

/// Read-only per-body physical state, plus the body's offset into the shared
/// velocity-delta buffer.
#[derive(Clone, Copy)]
pub struct RigidBodyState {
    pub inv_mass: i64,
    /// Square root of the inverse angular inertia: angular Jacobian terms are
    /// premultiplied by it, so their squares carry the full inverse inertia.
    pub inv_inertia_sqrt: i64,
    pub linvel_x: i64,
    pub linvel_y: i64,
    pub angvel: i64,
    pub position: Iso2,
    pub world_com_x: i64,
    pub world_com_y: i64,
    pub active_set_offset: usize,
}

pub struct SBody {
    pub inv_mass: int,
    pub inv_inertia_sqrt: int,
    pub lvx: int,
    pub lvy: int,
    pub av: int,
    pub pos: SIso,
    pub comx: int,
    pub comy: int,
    pub active_set_offset: int,
}

impl View for RigidBodyState {
    type V = SBody;

    open spec fn view(&self) -> SBody {
        SBody {
            inv_mass: self.inv_mass as int,
            inv_inertia_sqrt: self.inv_inertia_sqrt as int,
            lvx: self.linvel_x as int,
            lvy: self.linvel_y as int,
            av: self.angvel as int,
            pos: self.position@,
            comx: self.world_com_x as int,
            comy: self.world_com_y as int,
            active_set_offset: self.active_set_offset as int,
        }
    }
}

/// One entry of the shared velocity-delta buffer: the linear and angular
/// velocity correction accumulated for one active body.
#[derive(Clone, Copy)]
pub struct DeltaVel {
    pub linear_x: i64,
    pub linear_y: i64,
    pub angular: i64,
}

pub struct SDelta {
    pub lx: int,
    pub ly: int,
    pub ang: int,
}

impl View for DeltaVel {
    type V = SDelta;

    open spec fn view(&self) -> SDelta {
        SDelta { lx: self.linear_x as int, ly: self.linear_y as int, ang: self.angular as int }
    }
}

impl DeltaVel {
    pub fn zero() -> (d: DeltaVel)
        ensures
            d@.lx == 0 && d@.ly == 0 && d@.ang == 0,
    {
        DeltaVel { linear_x: 0, linear_y: 0, angular: 0 }
    }
}

/// Per-step parameters handed down by the stepping subsystem.
#[derive(Clone, Copy)]
pub struct IntegrationParameters {
    /// Inverse timestep, scaling the positional (Baumgarte) bias.
    pub inv_dt: i64,
    /// Approach speed below which no restitution is applied.
    pub restitution_velocity_threshold: i64,
    /// Global damping of warm-started impulses.
    pub warmstart_coeff: i64,
}

} // verus!
