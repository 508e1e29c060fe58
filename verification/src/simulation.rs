//! What the rest of the application knows of the simulation.

use std::collections::VecDeque;
use vstd::prelude::*;

verus! {

/// What the simulation is doing.
#[derive(Clone, Copy, Debug, PartialEq, Eq, Structural)]
pub enum SimulationControllerStatus {
    Realtime,
    /// Frames of a fixed length, each of which is saved.
    RecordingWithFixedFrameLength,
    Paused,
}

/// What a solver reports of one run. The error is the bit pattern of a single-precision number.
#[derive(Clone, Copy, Debug, PartialEq, Eq, Structural)]
pub struct SolverStatisticSample {
    pub error_bits: u32,
    pub iteration_count: i32,
}

/// The configuration of a solver. The tolerated error is the bit pattern of a single-precision
/// number.
#[derive(Clone, Copy, Debug, PartialEq, Eq, Structural)]
pub struct SolverConfig {
    pub error_tolerance_bits: u32,
    pub max_num_iterations: i32,
    pub error_check_frequency: i32,
}

/// The configurations of the two pressure solvers.
#[derive(Clone, Copy, Debug, PartialEq, Eq, Structural)]
pub struct SolverConfigs {
    pub velocity: SolverConfig,
    pub density: SolverConfig,
}

impl SolverConfigs {
    /// One configuration for both solvers: the one for the density, which is the one that is
    /// edited.
    pub fn shared(self) -> (configs: SolverConfigs)
        ensures
            configs.density == self.density,
            configs.velocity == self.density,
    {
        SolverConfigs { velocity: self.density, density: self.density }
    }
}

/// The newest sample, which is the last one; zeros before there is any.
pub fn newest_sample(stats: &VecDeque<SolverStatisticSample>) -> (sample: SolverStatisticSample)
    ensures
        sample == (if stats@.len() == 0 {
            SolverStatisticSample { error_bits: 0, iteration_count: 0 }
        } else {
            stats@.last()
        }),
{
    let n: usize = stats.len();
    if n == 0 {
        SolverStatisticSample { error_bits: 0, iteration_count: 0 }
    } else {
        stats[n - 1]
    }
}

} // verus!
