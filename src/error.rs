use vstd::prelude::*;

verus! {

/// The typed failures of every operation of the library.
#[derive(Debug, Clone, PartialEq, Eq)]
pub enum AoaError {
    /// The device handle was released, or its context was lost.
    InvalidHandle,
    /// The lengths of betas, gammas and depth, or of keys and values, disagree.
    Shape,
    /// Fewer random numbers were supplied than the sampler consumes.
    Sample,
    /// The simulation engine reported a failure, described by the text.
    Simulation(String),
    /// No compatible device or context could be bound.
    Device(String),
}

impl AoaError {
    /// Wraps the failure text of the simulation engine.
    pub fn from_engine(text: String) -> (r: AoaError)
        ensures
            r == AoaError::Simulation(text),
    {
        AoaError::Simulation(text)
    }

    /// The text that describes the failure.
    pub open spec fn description(&self) -> Seq<char> {
        match self {
            AoaError::InvalidHandle => "invalid handle: released or context lost"@,
            AoaError::Shape => "shape mismatch between parameters and depth"@,
            AoaError::Sample => "too few random numbers for sampling"@,
            AoaError::Simulation(t) => t@,
            AoaError::Device(t) => t@,
        }
    }

    /// A short description of the failure.
    pub fn describe(&self) -> (r: String)
        ensures
            r@ == self.description(),
    {
        match self {
            AoaError::InvalidHandle => "invalid handle: released or context lost".to_owned(),
            AoaError::Shape => "shape mismatch between parameters and depth".to_owned(),
            AoaError::Sample => "too few random numbers for sampling".to_owned(),
            AoaError::Simulation(t) => t.clone(),
            AoaError::Device(t) => t.clone(),
        }
    }
}

} // verus!
