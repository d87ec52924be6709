//! The three time-stepping schemes and the tag that selects one.
//!
//! A scheme keeps nothing between calls: each is a function of the bodies and
//! the step, and the schemes differ only in the order in which forces,
//! velocities and positions are taken up.

use vstd::prelude::*;
use crate::physics::{
    all_finite, apply_forces, divergent, get_forces_for_bodies, has_coincident_bodies,
    shares_position, spec_apply_forces, spec_forces_for_bodies, spec_update, spec_update_all,
    spec_update_bodies, update_all, update_bodies, PhysObject,
};
use crate::scalar::Scalar;

verus! {

/// The tag that selects a scheme.
#[derive(Clone, Copy, Debug, PartialEq, Eq, Structural)]
pub enum IntegrationAlgorithm {
    /// Explicit Euler: first order, not symplectic.
    Euler,
    /// Semi-implicit Euler: first order, symplectic.
    SymplecticEuler,
    /// Velocity Verlet: second order, symplectic.
    Leapfrog,
}

/// Explicit Euler: forces at the current positions; the positions move with
/// the velocities as they were; then the velocities take up the forces.
pub open spec fn spec_update_euler(bodies: Seq<PhysObject>, dt: Scalar) -> Seq<PhysObject> {
    spec_apply_forces(spec_update_all(bodies, dt), spec_forces_for_bodies(bodies, dt))
}

/// Semi-implicit Euler: forces at the current positions; the velocities take
/// them up; then the positions move with the new velocities.
pub open spec fn spec_update_symplectic_euler(bodies: Seq<PhysObject>, dt: Scalar) -> Seq<
    PhysObject,
> {
    spec_update_bodies(bodies, dt)
}

/// Leapfrog: half a step of force on the velocities, a whole step of the
/// positions with those velocities, and half a step of the force at the new
/// positions on the velocities.
pub open spec fn spec_update_leapfrog(bodies: Seq<PhysObject>, dt: Scalar) -> Seq<PhysObject> {
    let half = dt.mul(Scalar::half());
    let kicked = spec_apply_forces(bodies, spec_forces_for_bodies(bodies, half));
    let drifted = spec_update_all(kicked, dt);
    spec_apply_forces(drifted, spec_forces_for_bodies(drifted, half))
}

impl IntegrationAlgorithm {
    /// The name of the scheme as it is shown to the user.
    pub open spec fn spec_label(self) -> Seq<char> {
        match self {
            IntegrationAlgorithm::Leapfrog => "Leapfrog"@,
            IntegrationAlgorithm::Euler => "Euler"@,
            IntegrationAlgorithm::SymplecticEuler => "Symplectic Euler"@,
        }
    }

    /// The name of the scheme as it is shown to the user.
    pub fn label(self) -> (text: &'static str)
        ensures
            text@ == self.spec_label(),
    {
        match self {
            IntegrationAlgorithm::Leapfrog => "Leapfrog",
            IntegrationAlgorithm::Euler => "Euler",
            IntegrationAlgorithm::SymplecticEuler => "Symplectic Euler",
        }
    }

    /// The bodies after one step of this scheme.
    pub open spec fn spec_update_bodies(self, bodies: Seq<PhysObject>, dt: Scalar) -> Seq<
        PhysObject,
    > {
        match self {
            IntegrationAlgorithm::Euler => spec_update_euler(bodies, dt),
            IntegrationAlgorithm::SymplecticEuler => spec_update_symplectic_euler(bodies, dt),
            IntegrationAlgorithm::Leapfrog => spec_update_leapfrog(bodies, dt),
        }
    }

    /// Advances the bodies by one step of this scheme. Whatever the scheme,
    /// bodies that coincide do not come out of the step all finite.
    pub fn update_bodies(self, bodies: &mut [PhysObject], dt: Scalar)
        ensures
            final(bodies)@ == self.spec_update_bodies(old(bodies)@, dt),
            has_coincident_bodies(old(bodies)@) ==> !all_finite(final(bodies)@),
    {
        match self {
            IntegrationAlgorithm::Euler => update_euler(bodies, dt),
            IntegrationAlgorithm::SymplecticEuler => update_symplectic_euler(bodies, dt),
            IntegrationAlgorithm::Leapfrog => update_leapfrog(bodies, dt),
        }
    }
}

/// `after` holds the bodies of `before`, index by index: as many, with the
/// same names and the same masses.
pub open spec fn same_bodies(before: Seq<PhysObject>, after: Seq<PhysObject>) -> bool {
    &&& after.len() == before.len()
    &&& forall|i: int|
        0 <= i < before.len() ==> (#[trigger] after[i]).body_name == before[i].body_name
            && after[i].mass == before[i].mass
}

/// A step of any scheme moves the bodies and changes their velocities; it
/// adds none, removes none, and leaves every name and mass as it was.
pub proof fn lemma_update_keeps_bodies(
    algorithm: IntegrationAlgorithm,
    bodies: Seq<PhysObject>,
    dt: Scalar,
)
    ensures
        same_bodies(bodies, algorithm.spec_update_bodies(bodies, dt)),
{
}

/// Where a velocity has no finite component, the bodies are not all finite.
proof fn lemma_divergent_velocity(bodies: Seq<PhysObject>, i: int)
    requires
        0 <= i < bodies.len(),
        divergent(bodies[i].vel),
    ensures
        !all_finite(bodies),
{
    assert(!bodies[i].spec_is_finite());
}

/// One step of explicit Euler.
pub fn update_euler(bodies: &mut [PhysObject], dt: Scalar)
    ensures
        final(bodies)@ == spec_update_euler(old(bodies)@, dt),
        has_coincident_bodies(old(bodies)@) ==> !all_finite(final(bodies)@),
{
    let forces = get_forces_for_bodies(bodies, dt);
    update_all(bodies, dt);
    apply_forces(bodies, forces.as_slice());
    proof {
        if has_coincident_bodies(old(bodies)@) {
            let i = choose|i: int|
                0 <= i < old(bodies)@.len() && #[trigger] shares_position(old(bodies)@, i);
            assert(divergent(forces@[i]));
            lemma_divergent_velocity(bodies@, i);
        }
    }
}

/// One step of semi-implicit Euler.
pub fn update_symplectic_euler(bodies: &mut [PhysObject], dt: Scalar)
    ensures
        final(bodies)@ == spec_update_symplectic_euler(old(bodies)@, dt),
        has_coincident_bodies(old(bodies)@) ==> !all_finite(final(bodies)@),
{
    update_bodies(bodies, dt);
}

/// One step of leapfrog.
pub fn update_leapfrog(bodies: &mut [PhysObject], dt: Scalar)
    ensures
        final(bodies)@ == spec_update_leapfrog(old(bodies)@, dt),
        has_coincident_bodies(old(bodies)@) ==> !all_finite(final(bodies)@),
{
    let half = dt.mul(Scalar::half());
    let first = get_forces_for_bodies(bodies, half);
    apply_forces(bodies, first.as_slice());
    let ghost kicked = bodies@;
    update_all(bodies, dt);
    let ghost drifted = bodies@;
    let second = get_forces_for_bodies(bodies, half);
    apply_forces(bodies, second.as_slice());
    proof {
        if has_coincident_bodies(old(bodies)@) {
            let i = choose|i: int|
                0 <= i < old(bodies)@.len() && #[trigger] shares_position(old(bodies)@, i);
            assert(divergent(first@[i]));
            assert(divergent(kicked[i].vel));
            assert(drifted[i] == spec_update(kicked[i], dt));
            assert(divergent(drifted[i].vel));
            lemma_divergent_velocity(bodies@, i);
        }
    }
}

} // verus!
