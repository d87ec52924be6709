//! The simulation driver: it owns the bodies of a run, the selected scheme
//! and the acceleration factor, and advances the bodies frame by frame.
//!
//! After every integration step the driver looks for a position or velocity
//! that is no longer finite. Such a step is the last one: the frame ends with
//! an error and the driver takes no further step.

use vstd::prelude::*;
use crate::integrator::{lemma_update_keeps_bodies, same_bodies, IntegrationAlgorithm};
use crate::physics::{all_finite, has_coincident_bodies, PhysObject};
use crate::scalar::Scalar;
use crate::schedule::{plan_frame, spec_plan_frame};
use crate::validation::{
    all_valid, is_first_defect, lemma_valid_bodies_are_finite, spec_defect, validate_bodies,
    ConfigError,
};

verus! {

/// Why a frame did not complete.
#[derive(Clone, Copy, Debug, PartialEq, Eq, Structural)]
pub enum SimulationError {
    /// A step left a position or a velocity that is not finite.
    NonFiniteState,
    /// An earlier frame ended with `NonFiniteState`.
    Halted,
}

/// What is reported of steps that left finite results, or did not.
pub open spec fn spec_verdict(finite: bool) -> Result<(), SimulationError> {
    if finite {
        Ok(())
    } else {
        Err(SimulationError::NonFiniteState)
    }
}

/// The bodies after up to `steps` steps of `dt`: stepping stops with the
/// first step whose result is not all finite, and that result stays.
pub open spec fn spec_advance(
    bodies: Seq<PhysObject>,
    dt: Scalar,
    algorithm: IntegrationAlgorithm,
    steps: nat,
) -> Seq<PhysObject>
    decreases steps,
{
    if steps == 0 {
        bodies
    } else {
        let next = algorithm.spec_update_bodies(bodies, dt);
        if all_finite(next) {
            spec_advance(next, dt, algorithm, (steps - 1) as nat)
        } else {
            next
        }
    }
}

/// All of the `steps` steps leave finite results.
pub open spec fn spec_survives(
    bodies: Seq<PhysObject>,
    dt: Scalar,
    algorithm: IntegrationAlgorithm,
    steps: nat,
) -> bool
    decreases steps,
{
    steps == 0 || {
        let next = algorithm.spec_update_bodies(bodies, dt);
        all_finite(next) && spec_survives(next, dt, algorithm, (steps - 1) as nat)
    }
}

/// However many steps are taken, the bodies stay the same bodies.
pub proof fn lemma_advance_keeps_bodies(
    bodies: Seq<PhysObject>,
    dt: Scalar,
    algorithm: IntegrationAlgorithm,
    steps: nat,
)
    ensures
        same_bodies(bodies, spec_advance(bodies, dt, algorithm, steps)),
    decreases steps,
{
    if steps > 0 {
        let next = algorithm.spec_update_bodies(bodies, dt);
        lemma_update_keeps_bodies(algorithm, bodies, dt);
        if all_finite(next) {
            lemma_advance_keeps_bodies(next, dt, algorithm, (steps - 1) as nat);
        }
    }
}

/// How a span of steps is cut into frames does not matter: as long as the
/// first `first` steps all leave finite results, taking `second` more steps
/// after them gives what `first + second` steps give at once.
pub proof fn lemma_advance_composes(
    bodies: Seq<PhysObject>,
    dt: Scalar,
    algorithm: IntegrationAlgorithm,
    first: nat,
    second: nat,
)
    requires
        spec_survives(bodies, dt, algorithm, first),
    ensures
        spec_advance(spec_advance(bodies, dt, algorithm, first), dt, algorithm, second)
            == spec_advance(bodies, dt, algorithm, first + second),
    decreases first,
{
    if first > 0 {
        let next = algorithm.spec_update_bodies(bodies, dt);
        lemma_advance_composes(next, dt, algorithm, (first - 1) as nat, second);
        assert((first + second - 1) as nat == (first - 1) as nat + second);
    }
}

/// A run that survives ends with finite bodies, provided it began with them.
pub proof fn lemma_survivors_are_finite(
    bodies: Seq<PhysObject>,
    dt: Scalar,
    algorithm: IntegrationAlgorithm,
    steps: nat,
)
    requires
        all_finite(bodies),
    ensures
        spec_survives(bodies, dt, algorithm, steps) <==> all_finite(
            spec_advance(bodies, dt, algorithm, steps),
        ),
    decreases steps,
{
    if steps > 0 {
        let next = algorithm.spec_update_bodies(bodies, dt);
        if all_finite(next) {
            lemma_survivors_are_finite(next, dt, algorithm, (steps - 1) as nat);
        }
    }
}

/// Fit bodies that stay the same bodies and stay finite stay fit.
proof fn lemma_same_finite_bodies_are_valid(before: Seq<PhysObject>, after: Seq<PhysObject>)
    requires
        all_valid(before),
        same_bodies(before, after),
        all_finite(after),
    ensures
        all_valid(after),
{
    assert forall|i: int| 0 <= i < after.len() implies spec_defect(#[trigger] after[i]) is None by {
        assert(spec_defect(before[i]) is None);
        assert(after[i].spec_is_finite());
    }
}

/// Whether every position and velocity is finite.
pub fn bodies_are_finite(bodies: &[PhysObject]) -> (finite: bool)
    ensures
        finite == all_finite(bodies@),
{
    let n = bodies.len();
    let mut i: usize = 0;
    while i < n
        invariant
            n == bodies@.len(),
            i <= n,
            forall|k: int| 0 <= k < i ==> (#[trigger] bodies@[k]).spec_is_finite(),
        decreases n - i,
    {
        if !bodies[i].is_finite() {
            return false;
        }
        i += 1;
    }
    true
}

/// One step of `algorithm`, and then the check that every position and
/// velocity is still finite. The bodies are advanced either way.
pub fn checked_step(bodies: &mut [PhysObject], dt: Scalar, algorithm: IntegrationAlgorithm) -> (done:
    Result<(), SimulationError>)
    ensures
        final(bodies)@ == algorithm.spec_update_bodies(old(bodies)@, dt),
        done == spec_verdict(all_finite(final(bodies)@)),
        has_coincident_bodies(old(bodies)@) ==> done is Err,
{
    algorithm.update_bodies(bodies, dt);
    if bodies_are_finite(bodies) {
        Ok(())
    } else {
        Err(SimulationError::NonFiniteState)
    }
}

/// Up to `steps` checked steps of `dt`, ending early with the first one that
/// fails.
pub fn advance(
    bodies: &mut [PhysObject],
    dt: Scalar,
    algorithm: IntegrationAlgorithm,
    steps: u64,
) -> (done: Result<(), SimulationError>)
    ensures
        final(bodies)@ == spec_advance(old(bodies)@, dt, algorithm, steps as nat),
        done == spec_verdict(spec_survives(old(bodies)@, dt, algorithm, steps as nat)),
        has_coincident_bodies(old(bodies)@) && steps > 0 ==> done is Err,
{
    let mut taken: u64 = 0;
    while taken < steps
        invariant
            taken <= steps,
            spec_advance(old(bodies)@, dt, algorithm, steps as nat) == spec_advance(
                bodies@,
                dt,
                algorithm,
                (steps - taken) as nat,
            ),
            spec_survives(old(bodies)@, dt, algorithm, steps as nat) == spec_survives(
                bodies@,
                dt,
                algorithm,
                (steps - taken) as nat,
            ),
            taken == 0 ==> bodies@ == old(bodies)@,
            has_coincident_bodies(old(bodies)@) ==> taken == 0,
        decreases steps - taken,
    {
        match checked_step(bodies, dt, algorithm) {
            Err(error) => {
                return Err(error);
            },
            Ok(()) => {},
        }
        taken += 1;
    }
    Ok(())
}

/// A run: the bodies, the scheme in use and the acceleration factor.
pub struct Simulation {
    bodies: Vec<PhysObject>,
    integrator: IntegrationAlgorithm,
    iterations_per_frame: Scalar,
    halted: bool,
}

/// What a run is to its contracts.
pub struct SimulationView {
    pub bodies: Seq<PhysObject>,
    pub integrator: IntegrationAlgorithm,
    pub iterations_per_frame: Scalar,
    pub halted: bool,
}

impl View for Simulation {
    type V = SimulationView;

    closed spec fn view(&self) -> SimulationView {
        SimulationView {
            bodies: self.bodies@,
            integrator: self.integrator,
            iterations_per_frame: self.iterations_per_frame,
            halted: self.halted,
        }
    }
}

/// A run after one rendered frame. The acceleration factor decides the steps
/// and their length, and the selected scheme takes them, up to the first step
/// that leaves a position or a velocity that is not finite: with that step
/// the run halts. A halted run stays as it is.
pub open spec fn spec_tick(run: SimulationView) -> SimulationView {
    if run.halted {
        run
    } else {
        let plan = spec_plan_frame(run.iterations_per_frame);
        let bodies = spec_advance(run.bodies, plan.dt, run.integrator, plan.steps as nat);
        SimulationView { bodies, halted: !all_finite(bodies), ..run }
    }
}

/// What a frame reports: `Halted` of a run that had halted before,
/// `NonFiniteState` of a run that halts in this frame.
pub open spec fn spec_tick_result(run: SimulationView) -> Result<(), SimulationError> {
    if run.halted {
        Err(SimulationError::Halted)
    } else if spec_tick(run).halted {
        Err(SimulationError::NonFiniteState)
    } else {
        Ok(())
    }
}

impl Simulation {
    /// As long as the run has not halted, every body is fit.
    #[verifier::type_invariant]
    spec fn inv(self) -> bool {
        !self.halted ==> all_valid(self.bodies@)
    }

    /// Starts a run with the given bodies, or refuses them with the first
    /// defect found. A new run uses semi-implicit Euler at one day per frame.
    pub fn new(bodies: Vec<PhysObject>) -> (started: Result<Simulation, ConfigError>)
        ensures
            started is Ok <==> all_valid(bodies@),
            started matches Ok(simulation) ==> simulation@ == (SimulationView {
                bodies: bodies@,
                integrator: IntegrationAlgorithm::SymplecticEuler,
                iterations_per_frame: Scalar::one(),
                halted: false,
            }),
            started matches Err(error) ==> is_first_defect(bodies@, error),
    {
        match validate_bodies(bodies.as_slice()) {
            Err(error) => Err(error),
            Ok(()) => Ok(
                Simulation {
                    bodies,
                    integrator: IntegrationAlgorithm::SymplecticEuler,
                    iterations_per_frame: Scalar::one(),
                    halted: false,
                },
            ),
        }
    }

    /// The bodies as they stand after the last frame, in their fixed order.
    /// Unless the run has halted, every one of them is fit.
    pub fn bodies(&self) -> (bodies: &[PhysObject])
        ensures
            bodies@ == self@.bodies,
            !self@.halted ==> all_valid(bodies@),
    {
        proof {
            use_type_invariant(self);
        }
        self.bodies.as_slice()
    }

    /// The scheme in use.
    pub fn integrator(&self) -> (algorithm: IntegrationAlgorithm)
        ensures
            algorithm == self@.integrator,
    {
        self.integrator
    }

    /// The acceleration factor: simulated days per rendered frame.
    pub fn iterations_per_frame(&self) -> (factor: Scalar)
        ensures
            factor == self@.iterations_per_frame,
    {
        self.iterations_per_frame
    }

    /// Whether a frame has ended with bodies that were not all finite.
    pub fn is_halted(&self) -> (halted: bool)
        ensures
            halted == self@.halted,
    {
        self.halted
    }

    /// Selects the scheme of the frames to come. The bodies stay as they are.
    pub fn set_integrator(&mut self, algorithm: IntegrationAlgorithm)
        ensures
            final(self)@ == (SimulationView { integrator: algorithm, ..old(self)@ }),
    {
        proof {
            use_type_invariant(&*self);
        }
        self.integrator = algorithm;
    }

    /// Sets the acceleration factor of the frames to come, whatever it is:
    /// nothing is clamped. The bodies stay as they are.
    pub fn set_iterations_per_frame(&mut self, factor: Scalar)
        ensures
            final(self)@ == (SimulationView { iterations_per_frame: factor, ..old(self)@ }),
    {
        proof {
            use_type_invariant(&*self);
        }
        self.iterations_per_frame = factor;
    }

    /// Advances the run by one rendered frame, see [`spec_tick`].
    ///
    /// The bodies stay the same bodies, and unless the run halts they stay
    /// fit. Two bodies at one position make the first step of a frame fail,
    /// so a run with such bodies halts in any frame that takes a step.
    pub fn tick(&mut self) -> (done: Result<(), SimulationError>)
        ensures
            final(self)@ == spec_tick(old(self)@),
            done == spec_tick_result(old(self)@),
            same_bodies(old(self)@.bodies, final(self)@.bodies),
            !final(self)@.halted ==> all_valid(final(self)@.bodies),
            !old(self)@.halted && has_coincident_bodies(old(self)@.bodies) && spec_plan_frame(
                old(self)@.iterations_per_frame,
            ).steps > 0 ==> final(self)@.halted,
    {
        proof {
            use_type_invariant(&*self);
        }
        if self.halted {
            return Err(SimulationError::Halted);
        }
        let plan = plan_frame(self.iterations_per_frame);
        let mut bodies: Vec<PhysObject> = Vec::new();
        core::mem::swap(&mut self.bodies, &mut bodies);
        let ghost before = bodies@;
        let done = advance(bodies.as_mut_slice(), plan.dt, self.integrator, plan.steps);
        proof {
            lemma_valid_bodies_are_finite(before);
            lemma_advance_keeps_bodies(before, plan.dt, self.integrator, plan.steps as nat);
            lemma_survivors_are_finite(before, plan.dt, self.integrator, plan.steps as nat);
            if done is Ok {
                lemma_same_finite_bodies_are_valid(before, bodies@);
            }
        }
        self.halted = done.is_err();
        core::mem::swap(&mut self.bodies, &mut bodies);
        done
    }
}

} // verus!
