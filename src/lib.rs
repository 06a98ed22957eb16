//! Closed-form updates of damped springs over arbitrary time steps.
//!
//! A [`SpringConfig`] is classified once into [`SpringParams`]; those and a
//! step give a [`SpringTimeStep`], which can be applied to any number of
//! [`Spring`]s or to a [`SpringCollection`]. Every value is owned by its
//! caller, and mutation goes through `&mut`, so no locking is involved.
pub mod collection;
pub mod config;
pub mod laws;
pub mod params;
pub mod scalar;
pub mod spring;
pub mod time_step;

pub use collection::{SpringCollection, SpringError};
pub use config::SpringConfig;
pub use params::SpringParams;
pub use scalar::Scalar;
pub use spring::Spring;
pub use time_step::SpringTimeStep;
