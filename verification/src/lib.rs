use vstd::prelude::*;

pub mod cycles;
pub mod hex;
pub mod host;
pub mod input;
pub mod measurement;
pub mod perf;
pub mod runner;
pub mod walltime;

verus! {

/// Gas allowance handed to every execution context; effectively unlimited,
/// so that gas exhaustion never occurs as an artifact of the harness.
pub const GAS_ALLOWANCE: u64 = u64::MAX;

/// Gas consumed by one execution, derived as allowance minus remaining gas.
pub fn gas_consumed(gas_left: u64) -> (r: u64)
    ensures
        r == GAS_ALLOWANCE - gas_left,
        r <= GAS_ALLOWANCE,
{
    GAS_ALLOWANCE - gas_left
}

} // verus!
