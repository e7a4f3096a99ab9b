//! Fixed-step simulation of linear state-space systems.
//!
//! A model is a linear system `x' = A x + B u`, `y = C x + D u`, set up entry
//! by entry or derived from a transfer function. A simulation advances it by
//! explicit Euler or classical Runge-Kutta steps and records every signal
//! after each step. The arithmetic is that of a scalar type which the caller
//! chooses; the contracts hold for each.
pub mod scalar;
pub mod whole;
pub mod text;
pub mod error;
pub mod linalg;
pub mod model;
pub mod state_space;
pub mod transfer;
pub mod printing;
pub mod simulator;

pub use error::{Field, ModelError};
pub use model::{Model, SolverType};
pub use scalar::Scalar;
pub use simulator::Simulator;
pub use state_space::SpaceStateModel;
pub use whole::Whole;
