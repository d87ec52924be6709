//! Newtonian gravity in the plane: point masses, the pairwise force model,
//! three fixed-step integrators and the driver that maps rendered frames to
//! integration steps.
//!
//! Numbers are IEEE-754 binary64 values carried by their bit patterns, so that
//! every contract in the crate is a statement about integers. A caller that
//! holds doubles converts at the boundary with `f64::to_bits` and
//! `f64::from_bits`.
//!
//! - [`scalar`]: the number type, its classification and its arithmetic.
//! - [`physics`]: bodies, the force between two of them, the impulses on all.
//! - [`integrator`]: explicit Euler, semi-implicit Euler and leapfrog.
//! - [`validation`]: what a body must satisfy before a run starts.
//! - [`schedule`]: from the acceleration factor to the steps of a frame.
//! - [`simulation`]: the driver of a run.
//! - [`controls`]: what the controls of a run decide.
//! - [`data_reader`]: from rows of the planetary dataset to bodies.
//! - [`screen`]: the camera and the map from metres to pixels.

pub mod controls;
pub mod data_reader;
pub mod integrator;
pub mod physics;
pub mod scalar;
pub mod schedule;
pub mod screen;
pub mod simulation;
pub mod validation;
