//! A grid-based fluid solver: density and velocity on a regular lattice,
//! advanced by diffusion, projection and backward advection.
//!
//! The solver is written over an abstract arithmetic ([`Scalar`]), so that
//! every contract can say exactly which value each cell takes without saying
//! how numbers round.
pub mod advect;
pub mod boundary;
pub mod cube;
pub mod element;
pub mod field;
pub mod lattice;
pub mod laws;
pub mod project;
pub mod relax;
pub mod scalar;

pub use advect::advect;
pub use boundary::set_boundries;
pub use cube::{fluid_pos, pos_fluid, CubeState, FluidCube, Rect, SizeError};
pub use element::{Axis, Element, Vec2};
pub use field::Field;
pub use lattice::Lattice;
pub use project::{divergence, project};
pub use relax::{diffuse, neighbours, relax};
pub use scalar::Scalar;
