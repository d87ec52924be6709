//! What the controls of a run decide.
//!
//! Reading the keyboard is the caller's business. These functions take which
//! controls are held and return the setting that results; where two are held
//! at once, the one named first wins.

use vstd::prelude::*;
use crate::integrator::IntegrationAlgorithm;
use crate::scalar::Scalar;

verus! {

/// `value` halved when `halve` is set, else doubled when `double` is set,
/// else as it is.
pub open spec fn spec_rescale(value: Scalar, halve: bool, double: bool) -> Scalar {
    if halve {
        value.mul(Scalar::half())
    } else if double {
        value.mul(Scalar::two())
    } else {
        value
    }
}

fn rescale(value: Scalar, halve: bool, double: bool) -> (scaled: Scalar)
    ensures
        scaled == spec_rescale(value, halve, double),
{
    if halve {
        return value.mul(Scalar::half());
    }
    if double {
        return value.mul(Scalar::two());
    }
    value
}

/// The acceleration factor after the controls for slower and faster time.
pub fn handle_time_scaling_input(iterations_per_frame: Scalar, slower: bool, faster: bool) -> (factor:
    Scalar)
    ensures
        factor == spec_rescale(iterations_per_frame, slower, faster),
{
    rescale(iterations_per_frame, slower, faster)
}

/// The metres per pixel after the controls for zooming in and out.
pub fn handle_space_scaling_input(space_factor: Scalar, zoom_in: bool, zoom_out: bool) -> (factor:
    Scalar)
    ensures
        factor == spec_rescale(space_factor, zoom_in, zoom_out),
{
    rescale(space_factor, zoom_in, zoom_out)
}

/// The scheme that the selection controls ask for, or the current one.
pub open spec fn spec_integrator_change(
    integrator: IntegrationAlgorithm,
    leapfrog: bool,
    symplectic_euler: bool,
    euler: bool,
) -> IntegrationAlgorithm {
    if leapfrog {
        IntegrationAlgorithm::Leapfrog
    } else if symplectic_euler {
        IntegrationAlgorithm::SymplecticEuler
    } else if euler {
        IntegrationAlgorithm::Euler
    } else {
        integrator
    }
}

/// The scheme after the three selection controls: leapfrog before
/// semi-implicit Euler before explicit Euler, and the current scheme when none
/// is held.
pub fn handle_integrator_change(
    integrator: IntegrationAlgorithm,
    leapfrog: bool,
    symplectic_euler: bool,
    euler: bool,
) -> (selected: IntegrationAlgorithm)
    ensures
        selected == spec_integrator_change(integrator, leapfrog, symplectic_euler, euler),
{
    if leapfrog {
        return IntegrationAlgorithm::Leapfrog;
    }
    if symplectic_euler {
        return IntegrationAlgorithm::SymplecticEuler;
    }
    if euler {
        return IntegrationAlgorithm::Euler;
    }
    integrator
}

} // verus!
