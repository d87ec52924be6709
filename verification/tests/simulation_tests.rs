use solar_system::integrator::IntegrationAlgorithm;
use solar_system::physics::PhysObject;
use solar_system::scalar::Scalar;
use solar_system::schedule::{
    days_per_second, plan_frame, seconds_per_day, whole_steps, MAX_STEPS,
};
use solar_system::simulation::{
    advance, bodies_are_finite, checked_step, Simulation, SimulationError,
};
use solar_system::validation::{defect, validate_bodies, BodyDefect, ConfigError};

const DAY: f64 = 86400.0;

fn scalar(value: f64) -> Scalar {
    Scalar::from_bits(value.to_bits())
}

fn value(scalar: Scalar) -> f64 {
    f64::from_bits(scalar.to_bits())
}

fn body(name: &str, pos: [f64; 2], vel: [f64; 2], mass: f64) -> PhysObject {
    PhysObject {
        body_name: String::from(name),
        pos: [scalar(pos[0]), scalar(pos[1])],
        vel: [scalar(vel[0]), scalar(vel[1])],
        mass: scalar(mass),
    }
}

fn earth_and_sun() -> Vec<PhysObject> {
    vec![
        body("Earth", [0.0, 1.495978707e11], [29.8e3, 0.0], 5.9722e24),
        body("Sun", [0.0, 0.0], [0.0, 0.0], 1.988416e30),
    ]
}

fn coincident() -> Vec<PhysObject> {
    vec![
        body("Earth", [0.0, 1.495978707e11], [29.8e3, 0.0], 5.9722e24),
        body("a", [1.0e9, 2.0e9], [10.0, 0.0], 1.0e24),
        body("b", [1.0e9, 2.0e9], [0.0, 10.0], 2.0e24),
    ]
}

fn assert_same(found: &[PhysObject], expected: &[PhysObject]) {
    assert_eq!(found.len(), expected.len());
    for (f, e) in found.iter().zip(expected.iter()) {
        assert_eq!(f.body_name, e.body_name);
        assert_eq!(f.mass.to_bits(), e.mass.to_bits());
        for axis in 0..2 {
            assert_eq!(f.pos[axis].to_bits(), e.pos[axis].to_bits());
            assert_eq!(f.vel[axis].to_bits(), e.vel[axis].to_bits());
        }
    }
}

fn expected_steps(factor: f64) -> u64 {
    let rounded = factor.round() as i64;
    if rounded < 0 {
        0
    } else {
        rounded as u64
    }
}

#[test]
fn a_fit_body_has_no_defect() {
    assert_eq!(defect(&body("ok", [1.0, -2.0], [0.0, 3.0], 5.0)), None);
    assert_eq!(defect(&body("light", [1.0, -2.0], [0.0, 3.0], 5.0e-324)), None);
}

#[test]
fn a_mass_must_be_greater_than_zero() {
    for mass in [0.0, -0.0, -1.0, f64::NEG_INFINITY, f64::NAN].iter() {
        let found = defect(&body("bad", [1.0, 2.0], [3.0, 4.0], *mass));
        assert_eq!(found, Some(BodyDefect::NonPositiveMass));
    }
    let found = defect(&body("worse", [f64::NAN, 2.0], [f64::NAN, 4.0], 0.0));
    assert_eq!(found, Some(BodyDefect::NonPositiveMass));
}

#[test]
fn a_position_must_be_finite() {
    for bad in [f64::INFINITY, f64::NEG_INFINITY, f64::NAN].iter() {
        let found = defect(&body("bad", [*bad, 2.0], [3.0, 4.0], 1.0));
        assert_eq!(found, Some(BodyDefect::NonFinitePosition));
        let found = defect(&body("bad", [1.0, *bad], [f64::NAN, 4.0], 1.0));
        assert_eq!(found, Some(BodyDefect::NonFinitePosition));
    }
}

#[test]
fn a_velocity_must_be_finite() {
    for bad in [f64::INFINITY, f64::NEG_INFINITY, f64::NAN].iter() {
        let found = defect(&body("bad", [1.0, 2.0], [*bad, 4.0], 1.0));
        assert_eq!(found, Some(BodyDefect::NonFiniteVelocity));
        let found = defect(&body("bad", [1.0, 2.0], [3.0, *bad], 1.0));
        assert_eq!(found, Some(BodyDefect::NonFiniteVelocity));
    }
}

#[test]
fn validation_names_the_first_unfit_body() {
    assert_eq!(validate_bodies(&earth_and_sun()), Ok(()));
    let none: [PhysObject; 0] = [];
    assert_eq!(validate_bodies(&none), Ok(()));
    let bodies = vec![
        body("fine", [1.0, 2.0], [3.0, 4.0], 1.0),
        body("fast", [1.0, 2.0], [f64::INFINITY, 4.0], 1.0),
        body("massless", [1.0, 2.0], [3.0, 4.0], 0.0),
    ];
    assert_eq!(
        validate_bodies(&bodies),
        Err(ConfigError { index: 1, defect: BodyDefect::NonFiniteVelocity })
    );
}

#[test]
fn a_run_starts_only_with_fit_bodies() {
    let bodies = vec![
        body("fine", [1.0, 2.0], [3.0, 4.0], 1.0),
        body("nowhere", [f64::NAN, 2.0], [3.0, 4.0], 1.0),
    ];
    match Simulation::new(bodies) {
        Ok(_) => panic!("a body without a position was accepted"),
        Err(error) => {
            assert_eq!(error, ConfigError { index: 1, defect: BodyDefect::NonFinitePosition })
        }
    }
    let bodies = vec![body("massless", [1.0, 2.0], [3.0, 4.0], -5.0)];
    match Simulation::new(bodies) {
        Ok(_) => panic!("a body of negative mass was accepted"),
        Err(error) => {
            assert_eq!(error, ConfigError { index: 0, defect: BodyDefect::NonPositiveMass })
        }
    }
}

#[test]
fn a_new_run_has_the_baseline_settings() {
    let simulation = Simulation::new(earth_and_sun()).unwrap();
    assert_eq!(simulation.integrator(), IntegrationAlgorithm::SymplecticEuler);
    assert_eq!(value(simulation.iterations_per_frame()), 1.0);
    assert!(!simulation.is_halted());
    assert_same(simulation.bodies(), &earth_and_sun());
}

#[test]
fn setters_change_one_setting_and_no_body() {
    let mut simulation = Simulation::new(earth_and_sun()).unwrap();
    simulation.set_integrator(IntegrationAlgorithm::Leapfrog);
    assert_eq!(simulation.integrator(), IntegrationAlgorithm::Leapfrog);
    assert_eq!(value(simulation.iterations_per_frame()), 1.0);
    simulation.set_iterations_per_frame(scalar(-3.25));
    assert_eq!(value(simulation.iterations_per_frame()), -3.25);
    assert_eq!(simulation.integrator(), IntegrationAlgorithm::Leapfrog);
    assert!(!simulation.is_halted());
    assert_same(simulation.bodies(), &earth_and_sun());
}

#[test]
fn whole_steps_round_half_away_from_zero() {
    assert_eq!(whole_steps(scalar(1.0)), 1);
    assert_eq!(whole_steps(scalar(1.4)), 1);
    assert_eq!(whole_steps(scalar(1.5)), 2);
    assert_eq!(whole_steps(scalar(2.5)), 3);
    assert_eq!(whole_steps(scalar(3.5)), 4);
    assert_eq!(whole_steps(scalar(0.5)), 1);
    assert_eq!(whole_steps(scalar(0.49999999999999994)), 0);
    assert_eq!(whole_steps(scalar(1000000000000000.5)), 1000000000000001);
    assert_eq!(whole_steps(scalar(4503599627370495.5)), 4503599627370496);
    assert_eq!(whole_steps(scalar(9007199254740992.0)), 9007199254740992);
    assert_eq!(whole_steps(scalar(1e18)), 1000000000000000000);
    assert_eq!(whole_steps(scalar(9.2e18)), 9200000000000000000);
}

#[test]
fn whole_steps_stay_between_zero_and_the_largest_count() {
    assert_eq!(MAX_STEPS, i64::MAX as u64);
    assert_eq!(whole_steps(scalar(9.3e18)), MAX_STEPS);
    assert_eq!(whole_steps(scalar(9223372036854775808.0)), MAX_STEPS);
    assert_eq!(whole_steps(scalar(1e300)), MAX_STEPS);
    assert_eq!(whole_steps(scalar(f64::INFINITY)), MAX_STEPS);
    assert_eq!(whole_steps(scalar(f64::NAN)), 0);
    assert_eq!(whole_steps(scalar(0.0)), 0);
    assert_eq!(whole_steps(scalar(-0.0)), 0);
    assert_eq!(whole_steps(scalar(5.0e-324)), 0);
    assert_eq!(whole_steps(scalar(-1.5)), 0);
    assert_eq!(whole_steps(scalar(-7.0)), 0);
    assert_eq!(whole_steps(scalar(f64::NEG_INFINITY)), 0);
}

#[test]
fn whole_steps_agree_with_the_hardware() {
    let mut samples = vec![
        0.25, 0.75, 0.9999999999999999, 1.0000000000000002, 1.4999999999999998, 7.5, 8.5, 1023.5,
        123456789.5, 2251799813685247.5, 2251799813685248.5, 4503599627370497.0, 4.6e18, 1e19,
        2.2250738585072014e-308, 1.7976931348623157e308,
    ];
    let mut x = 1.0e-3;
    while x < 1.0e20 {
        samples.push(x);
        samples.push(-x);
        x *= 1.37;
    }
    for sample in samples {
        assert_eq!(whole_steps(scalar(sample)), expected_steps(sample));
    }
}

#[test]
fn a_factor_below_one_is_one_short_step() {
    assert_eq!(value(seconds_per_day()), 86400.0);
    let plan = plan_frame(scalar(0.25));
    assert_eq!(plan.steps, 1);
    assert_eq!(value(plan.dt), 21600.0);
    let plan = plan_frame(scalar(0.9999999999999999));
    assert_eq!(plan.steps, 1);
    assert_eq!(value(plan.dt), 86400.0 * 0.9999999999999999);
    let plan = plan_frame(scalar(0.0));
    assert_eq!(plan.steps, 1);
    assert_eq!(value(plan.dt), 0.0);
    let plan = plan_frame(scalar(-2.0));
    assert_eq!(plan.steps, 1);
    assert_eq!(value(plan.dt), -172800.0);
}

#[test]
fn a_factor_from_one_on_is_whole_days() {
    let plan = plan_frame(scalar(1.0));
    assert_eq!(plan.steps, 1);
    assert_eq!(value(plan.dt), 86400.0);
    let plan = plan_frame(scalar(4.0));
    assert_eq!(plan.steps, 4);
    assert_eq!(value(plan.dt), 86400.0);
    let plan = plan_frame(scalar(2.5));
    assert_eq!(plan.steps, 3);
    assert_eq!(value(plan.dt), 86400.0);
    let plan = plan_frame(scalar(1.4));
    assert_eq!(plan.steps, 1);
    let plan = plan_frame(scalar(f64::NAN));
    assert_eq!(plan.steps, 0);
    assert_eq!(value(plan.dt), 86400.0);
}

#[test]
fn a_tick_takes_the_planned_steps() {
    let schemes = [
        IntegrationAlgorithm::Euler,
        IntegrationAlgorithm::SymplecticEuler,
        IntegrationAlgorithm::Leapfrog,
    ];
    for algorithm in schemes.iter() {
        let mut simulation = Simulation::new(earth_and_sun()).unwrap();
        simulation.set_integrator(*algorithm);
        simulation.set_iterations_per_frame(scalar(4.0));
        assert_eq!(simulation.tick(), Ok(()));
        let mut expected = earth_and_sun();
        for _ in 0..4 {
            algorithm.update_bodies(&mut expected, scalar(DAY));
        }
        assert_same(simulation.bodies(), &expected);
        assert!(!simulation.is_halted());
        assert_eq!(simulation.integrator(), *algorithm);
        assert_eq!(value(simulation.iterations_per_frame()), 4.0);
    }
}

#[test]
fn a_tick_below_one_takes_a_fraction_of_a_day() {
    let mut simulation = Simulation::new(earth_and_sun()).unwrap();
    simulation.set_iterations_per_frame(scalar(0.25));
    assert_eq!(simulation.tick(), Ok(()));
    let mut expected = earth_and_sun();
    IntegrationAlgorithm::SymplecticEuler.update_bodies(&mut expected, scalar(21600.0));
    assert_same(simulation.bodies(), &expected);
}

#[test]
fn the_default_tick_is_one_baseline_day() {
    let mut simulation = Simulation::new(earth_and_sun()).unwrap();
    assert_eq!(simulation.tick(), Ok(()));
    let bodies = simulation.bodies();
    assert_eq!(value(bodies[0].pos[0]), 2574720000.0);
    assert_eq!(value(bodies[0].pos[1]), 149553602727.2841);
    assert_eq!(value(bodies[0].vel[1]), -512.3607953230346);
    assert_eq!(value(bodies[1].pos[1]), 132.95869005980586);
}

#[test]
fn a_nan_factor_takes_no_step() {
    let mut simulation = Simulation::new(earth_and_sun()).unwrap();
    simulation.set_iterations_per_frame(scalar(f64::NAN));
    assert_eq!(simulation.tick(), Ok(()));
    assert_same(simulation.bodies(), &earth_and_sun());
    assert!(!simulation.is_halted());
}

#[test]
fn settings_take_effect_on_the_next_tick_only() {
    let mut simulation = Simulation::new(earth_and_sun()).unwrap();
    simulation.set_integrator(IntegrationAlgorithm::Leapfrog);
    simulation.set_iterations_per_frame(scalar(2.0));
    assert_eq!(simulation.tick(), Ok(()));
    let mut expected = earth_and_sun();
    for _ in 0..2 {
        IntegrationAlgorithm::Leapfrog.update_bodies(&mut expected, scalar(DAY));
    }
    simulation.set_integrator(IntegrationAlgorithm::Euler);
    simulation.set_iterations_per_frame(scalar(0.5));
    assert_same(simulation.bodies(), &expected);
    assert_eq!(simulation.tick(), Ok(()));
    IntegrationAlgorithm::Euler.update_bodies(&mut expected, scalar(43200.0));
    assert_same(simulation.bodies(), &expected);
}

#[test]
fn the_path_does_not_depend_on_how_frames_are_cut() {
    let mut whole = Simulation::new(earth_and_sun()).unwrap();
    whole.set_integrator(IntegrationAlgorithm::Leapfrog);
    whole.set_iterations_per_frame(scalar(8.0));
    assert_eq!(whole.tick(), Ok(()));
    let mut cut = Simulation::new(earth_and_sun()).unwrap();
    cut.set_integrator(IntegrationAlgorithm::Leapfrog);
    cut.set_iterations_per_frame(scalar(2.0));
    for _ in 0..4 {
        assert_eq!(cut.tick(), Ok(()));
    }
    assert_same(whole.bodies(), cut.bodies());
}

#[test]
fn finiteness_is_checked_on_every_component() {
    assert!(bodies_are_finite(&earth_and_sun()));
    let none: [PhysObject; 0] = [];
    assert!(bodies_are_finite(&none));
    for bad in [f64::INFINITY, f64::NEG_INFINITY, f64::NAN].iter() {
        let mut bodies = earth_and_sun();
        bodies[1].pos[0] = scalar(*bad);
        assert!(!bodies_are_finite(&bodies));
        let mut bodies = earth_and_sun();
        bodies[0].pos[1] = scalar(*bad);
        assert!(!bodies_are_finite(&bodies));
        let mut bodies = earth_and_sun();
        bodies[1].vel[0] = scalar(*bad);
        assert!(!bodies_are_finite(&bodies));
        let mut bodies = earth_and_sun();
        bodies[0].vel[1] = scalar(*bad);
        assert!(!bodies_are_finite(&bodies));
    }
    let mut bodies = earth_and_sun();
    bodies[0].mass = scalar(f64::INFINITY);
    assert!(bodies_are_finite(&bodies));
}

#[test]
fn a_checked_step_passes_on_a_sound_system() {
    let mut bodies = earth_and_sun();
    let done = checked_step(&mut bodies, scalar(DAY), IntegrationAlgorithm::Leapfrog);
    assert_eq!(done, Ok(()));
    let mut expected = earth_and_sun();
    IntegrationAlgorithm::Leapfrog.update_bodies(&mut expected, scalar(DAY));
    assert_same(&bodies, &expected);
}

#[test]
fn coincident_bodies_are_fatal() {
    let schemes = [
        IntegrationAlgorithm::Euler,
        IntegrationAlgorithm::SymplecticEuler,
        IntegrationAlgorithm::Leapfrog,
    ];
    for algorithm in schemes.iter() {
        let mut bodies = coincident();
        let done = checked_step(&mut bodies, scalar(DAY), *algorithm);
        assert_eq!(done, Err(SimulationError::NonFiniteState));
        assert!(!bodies_are_finite(&bodies));

        let mut simulation = Simulation::new(coincident()).unwrap();
        simulation.set_integrator(*algorithm);
        assert_eq!(simulation.tick(), Err(SimulationError::NonFiniteState));
        assert!(simulation.is_halted());
        assert!(!bodies_are_finite(simulation.bodies()));
        assert_eq!(simulation.bodies().len(), 3);
    }
}

#[test]
fn coincident_bodies_are_fatal_at_any_factor_that_steps() {
    for factor in [0.5, 0.0, -1.0, 1.0, 3.0].iter() {
        let mut simulation = Simulation::new(coincident()).unwrap();
        simulation.set_iterations_per_frame(scalar(*factor));
        assert_eq!(simulation.tick(), Err(SimulationError::NonFiniteState));
    }
}

#[test]
fn a_halted_run_stays_halted() {
    let mut simulation = Simulation::new(coincident()).unwrap();
    assert_eq!(simulation.tick(), Err(SimulationError::NonFiniteState));
    let after: Vec<PhysObject> = simulation.bodies().to_vec();
    assert_eq!(simulation.tick(), Err(SimulationError::Halted));
    assert_eq!(simulation.tick(), Err(SimulationError::Halted));
    assert!(simulation.is_halted());
    assert_eq!(simulation.bodies().len(), after.len());
    for (f, e) in simulation.bodies().iter().zip(after.iter()) {
        for axis in 0..2 {
            assert_eq!(f.pos[axis].to_bits(), e.pos[axis].to_bits());
            assert_eq!(f.vel[axis].to_bits(), e.vel[axis].to_bits());
        }
    }
}

#[test]
fn advancing_stops_at_the_first_failed_step() {
    let mut bodies = vec![
        body("left", [-1.0, 0.0], [1.0, 0.0], 1.0),
        body("right", [1.0, 0.0], [-1.0, 0.0], 1.0),
    ];
    let done = advance(&mut bodies, scalar(1.0), IntegrationAlgorithm::Euler, 5);
    assert_eq!(done, Err(SimulationError::NonFiniteState));
    let mut expected = vec![
        body("left", [-1.0, 0.0], [1.0, 0.0], 1.0),
        body("right", [1.0, 0.0], [-1.0, 0.0], 1.0),
    ];
    IntegrationAlgorithm::Euler.update_bodies(&mut expected, scalar(1.0));
    assert!(bodies_are_finite(&expected));
    assert_eq!(value(expected[0].pos[0]), 0.0);
    assert_eq!(value(expected[1].pos[0]), 0.0);
    IntegrationAlgorithm::Euler.update_bodies(&mut expected, scalar(1.0));
    assert!(!bodies_are_finite(&expected));
    for (f, e) in bodies.iter().zip(expected.iter()) {
        for axis in 0..2 {
            assert_eq!(f.pos[axis].to_bits(), e.pos[axis].to_bits());
            assert_eq!(value(f.vel[axis]).is_nan(), value(e.vel[axis]).is_nan());
        }
    }
}

#[test]
fn advancing_by_no_step_changes_nothing() {
    let mut bodies = coincident();
    let done = advance(&mut bodies, scalar(DAY), IntegrationAlgorithm::Leapfrog, 0);
    assert_eq!(done, Ok(()));
    assert_same(&bodies, &coincident());
}

#[test]
fn a_year_in_ticks_closes_the_orbit() {
    let mut simulation = Simulation::new(earth_and_sun()).unwrap();
    simulation.set_integrator(IntegrationAlgorithm::Leapfrog);
    simulation.set_iterations_per_frame(scalar(5.0));
    for _ in 0..73 {
        assert_eq!(simulation.tick(), Ok(()));
    }
    let bodies = simulation.bodies();
    let dx = value(bodies[0].pos[0]) - value(bodies[1].pos[0]);
    let dy = value(bodies[0].pos[1]) - value(bodies[1].pos[1]);
    let end = (dx * dx + dy * dy).sqrt();
    assert!((end - 1.495978707e11).abs() / 1.495978707e11 < 0.05);
}

#[test]
fn days_per_second_is_the_factor_times_the_frame_rate() {
    assert_eq!(value(days_per_second(scalar(1.0), 60)), 60.0);
    assert_eq!(value(days_per_second(scalar(0.25), 60)), 15.0);
    assert_eq!(value(days_per_second(scalar(8.0), 144)), 1152.0);
    assert_eq!(value(days_per_second(scalar(2.0), 0)), 0.0);
    assert_eq!(value(days_per_second(scalar(0.1), 59)), 0.1 * 59.0);
}
