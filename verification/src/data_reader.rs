//! From a row of the planetary dataset to a body.
//!
//! The dataset gives masses in units of 10^24 kg, distances from the Sun in
//! units of 10^6 km and orbital velocities in km/s. A planet starts on the
//! y-axis at its distance from the Sun and moves along the x-axis.

use vstd::prelude::*;
use crate::physics::PhysObject;
use crate::scalar::Scalar;

verus! {

/// The encoding of `1e24`: kilograms in a unit of mass of the dataset.
pub const MASS_UNIT_BITS: u64 = 0x44EA_7843_79D9_9DB4;

/// The encoding of `1e9`: metres in a unit of distance of the dataset.
pub const DISTANCE_UNIT_BITS: u64 = 0x41CD_CD65_0000_0000;

/// The encoding of `1e3`: metres per second in a unit of velocity of the
/// dataset.
pub const VELOCITY_UNIT_BITS: u64 = 0x408F_4000_0000_0000;

/// What a body is made from, in the units of the dataset.
#[derive(Clone, Debug)]
pub struct Record {
    pub planet: String,
    pub mass: Scalar,
    pub distance_from_sun: Scalar,
    pub orbital_velocity: Scalar,
}

/// The body of a record: on the y-axis at its distance from the Sun, moving
/// along the x-axis at its orbital velocity, all in SI units.
pub open spec fn spec_record_to_planet(record: Record) -> PhysObject {
    PhysObject {
        body_name: record.planet,
        pos: [Scalar::zero(), record.distance_from_sun.mul(Scalar { bits: DISTANCE_UNIT_BITS })],
        vel: [record.orbital_velocity.mul(Scalar { bits: VELOCITY_UNIT_BITS }), Scalar::zero()],
        mass: record.mass.mul(Scalar { bits: MASS_UNIT_BITS }),
    }
}

/// Makes the body of a record.
pub fn record_to_planet(record: Record) -> (planet: PhysObject)
    ensures
        planet == spec_record_to_planet(record),
{
    PhysObject {
        body_name: record.planet,
        pos: [Scalar::zero(), record.distance_from_sun.mul(Scalar::from_bits(DISTANCE_UNIT_BITS))],
        vel: [record.orbital_velocity.mul(Scalar::from_bits(VELOCITY_UNIT_BITS)), Scalar::zero()],
        mass: record.mass.mul(Scalar::from_bits(MASS_UNIT_BITS)),
    }
}

} // verus!
