//! Velocity-level contact-constraint solver for a rigid-body simulator.
//!
//! Given batches of colliding body pairs and their contact points, the crate
//! builds data-parallel velocity constraints (`generate`), primes the shared
//! velocity-delta buffer with last step's impulses (`warmstart`), relaxes the
//! normal and friction impulses one projected Gauss-Seidel sweep at a time
//! (`solve`), and persists the converged impulses back into the contact
//! manifolds (`writeback_impulses`).
//!
//! All scalars are saturating fixed-point numbers (see `fx`), so every
//! operation is total and exactly specified.

pub mod constraint;
pub mod data;
pub mod fx;
pub mod kernel;
