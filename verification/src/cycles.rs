use vstd::prelude::*;

verus! {

/// The cycle-counter backend: one sample is the difference between two raw
/// readings of the CPU's timestamp counter. Taking a raw reading is an
/// architecture-specific intrinsic that the verifier does not admit, so the
/// caller takes the readings and this type turns a pair of them into an
/// elapsed count; it also carries the backend's identity.
pub struct Cycles;

impl Cycles {
    /// Elapsed cycles between the reading taken at `start` and the reading
    /// taken at `end` of the timed interval. The counter is monotonic, so
    /// the end reading is never below the start reading; the elapsed count
    /// is never negative.
    pub fn elapsed(&self, start_reading: u64, end_reading: u64) -> (r: u64)
        requires
            start_reading <= end_reading,
        ensures
            r == end_reading - start_reading,
    {
        end_reading - start_reading
    }

    /// Stable identifier of the cycle-counter backend.
    pub fn id(&self) -> (r: String)
        ensures
            r@ == "cpu_cycles"@,
    {
        "cpu_cycles".to_owned()
    }

    /// Human-readable name of the cycle-counter backend.
    pub fn name(&self) -> (r: String)
        ensures
            r@ == "CPU Cycles"@,
    {
        "CPU Cycles".to_owned()
    }

    /// Unit of cycle counts: an abstract count.
    pub fn unit(&self) -> (r: String)
        ensures
            r@ == "N"@,
    {
        "N".to_owned()
    }
}

} // verus!
