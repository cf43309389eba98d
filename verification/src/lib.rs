//! A minimal 2-D kinetic-gas simulator.
//!
//! A fixed number of point particles move in a bounded rectangular arena,
//! bounce off the walls, and trade velocities when they pass within a fixed
//! interaction radius of one another. Positions and velocities are integer
//! coordinates; the interaction test compares squared distances, which keeps
//! every step of the update algorithm exact.

pub mod environment;
pub mod laws;
pub mod model;
pub mod particle;
pub mod vector;
