//! What a body must satisfy before a run may start.
//!
//! A body is fit to simulate when its mass is greater than zero and its
//! position and velocity are finite. A set of bodies is checked front to
//! back, and the first body that fails is reported with what is wrong with
//! it.

use vstd::prelude::*;
use crate::physics::{all_finite, PhysObject};
use crate::scalar::Scalar;

verus! {

/// What keeps a body out of a run.
#[derive(Clone, Copy, Debug, PartialEq, Eq, Structural)]
pub enum BodyDefect {
    /// The mass is not greater than zero; a NaN is not.
    NonPositiveMass,
    /// A component of the position is infinite or a NaN.
    NonFinitePosition,
    /// A component of the velocity is infinite or a NaN.
    NonFiniteVelocity,
}

/// The first unfit body of a set: its index and its defect.
#[derive(Clone, Copy, Debug, PartialEq, Eq, Structural)]
pub struct ConfigError {
    pub index: usize,
    pub defect: BodyDefect,
}

/// The defect of a body, the mass looked at first, then the position, then
/// the velocity; `None` for a body that is fit.
pub open spec fn spec_defect(body: PhysObject) -> Option<BodyDefect> {
    if !Scalar::zero().lt(body.mass) {
        Some(BodyDefect::NonPositiveMass)
    } else if !(body.pos[0].is_finite() && body.pos[1].is_finite()) {
        Some(BodyDefect::NonFinitePosition)
    } else if !(body.vel[0].is_finite() && body.vel[1].is_finite()) {
        Some(BodyDefect::NonFiniteVelocity)
    } else {
        None
    }
}

/// No body of the set has a defect.
pub open spec fn all_valid(bodies: Seq<PhysObject>) -> bool {
    forall|i: int| 0 <= i < bodies.len() ==> spec_defect(#[trigger] bodies[i]) is None
}

/// `error` names the first unfit body of `bodies`.
pub open spec fn is_first_defect(bodies: Seq<PhysObject>, error: ConfigError) -> bool {
    &&& error.index < bodies.len()
    &&& spec_defect(bodies[error.index as int]) == Some(error.defect)
    &&& all_valid(bodies.take(error.index as int))
}

/// The defect of a body, if it has one.
pub fn defect(body: &PhysObject) -> (found: Option<BodyDefect>)
    ensures
        found == spec_defect(*body),
{
    if !Scalar::zero().lt(body.mass) {
        Some(BodyDefect::NonPositiveMass)
    } else if !(body.pos[0].is_finite() && body.pos[1].is_finite()) {
        Some(BodyDefect::NonFinitePosition)
    } else if !(body.vel[0].is_finite() && body.vel[1].is_finite()) {
        Some(BodyDefect::NonFiniteVelocity)
    } else {
        None
    }
}

/// Accepts the set when every body is fit, and otherwise names the first one
/// that is not.
pub fn validate_bodies(bodies: &[PhysObject]) -> (checked: Result<(), ConfigError>)
    ensures
        checked is Ok <==> all_valid(bodies@),
        checked matches Err(error) ==> is_first_defect(bodies@, error),
{
    let n = bodies.len();
    let mut i: usize = 0;
    while i < n
        invariant
            n == bodies@.len(),
            i <= n,
            all_valid(bodies@.take(i as int)),
        decreases n - i,
    {
        match defect(&bodies[i]) {
            Some(found) => {
                return Err(ConfigError { index: i, defect: found });
            },
            None => {
                assert forall|k: int| 0 <= k < i + 1 implies spec_defect(
                    #[trigger] bodies@.take(i + 1)[k],
                ) is None by {
                    if k < i {
                        assert(bodies@.take(i + 1)[k] == bodies@.take(i as int)[k]);
                    }
                }
            },
        }
        i += 1;
    }
    assert(bodies@.take(n as int) =~= bodies@);
    Ok(())
}

/// Fit bodies are finite bodies.
pub proof fn lemma_valid_bodies_are_finite(bodies: Seq<PhysObject>)
    requires
        all_valid(bodies),
    ensures
        all_finite(bodies),
{
    assert forall|i: int| 0 <= i < bodies.len() implies (#[trigger] bodies[i]).spec_is_finite() by {
        assert(spec_defect(bodies[i]) is None);
    }
}

} // verus!
