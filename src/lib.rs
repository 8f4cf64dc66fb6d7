//! Control layer for running an alternating-operator-ansatz optimization
//! against a sparse polynomial cost function on an external simulation engine.

pub mod aoa;
pub mod aqaoa;
pub mod driver;
pub mod error;
pub mod handle;
pub mod polynomial;
pub mod sample_set;
