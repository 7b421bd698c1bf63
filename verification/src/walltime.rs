use vstd::prelude::*;

use crate::measurement::{MeasureError, Measurement};

verus! {

/// Declares `std::time::Instant` so that it can stand in signatures; values
/// of it are opaque to the verifier.
#[verifier::external_type_specification]
#[verifier::external_body]
pub struct ExInstant(std::time::Instant);

/// Relies on std::time::Instant::now: returns the current monotonic instant.
#[verifier::external_body]
fn instant_now() -> (r: std::time::Instant) {
    std::time::Instant::now()
}

/// Relies on std::time::Instant::elapsed: the time passed since `earlier`,
/// never negative (the clock is monotonic).
#[verifier::external_body]
fn elapsed_since(earlier: &std::time::Instant) -> (r: core::time::Duration) {
    earlier.elapsed()
}

/// Relies on core::time::Duration::as_nanos: the whole duration in
/// nanoseconds (narrowed into 64 bits; several centuries fit).
#[verifier::external_body]
fn duration_nanos(d: &core::time::Duration) -> (r: u64) {
    d.as_nanos() as u64
}

/// The wall-clock backend: measures elapsed real time per iteration, in
/// nanoseconds. Always available; never fails.
pub struct WallTime;

impl Measurement for WallTime {
    type Intermediate = std::time::Instant;

    open spec fn id_spec(&self) -> Seq<char> {
        "wall_time"@
    }

    open spec fn name_spec(&self) -> Seq<char> {
        "Wall Time"@
    }

    open spec fn unit_spec(&self) -> Seq<char> {
        "ns"@
    }

    open spec fn infallible(&self) -> bool {
        true
    }

    fn start(&mut self) -> (r: Result<std::time::Instant, MeasureError>) {
        Ok(instant_now())
    }

    fn end(&mut self, token: std::time::Instant) -> (r: Result<u64, MeasureError>) {
        Ok(duration_nanos(&elapsed_since(&token)))
    }

    fn id(&self) -> (r: String) {
        "wall_time".to_owned()
    }

    fn name(&self) -> (r: String) {
        "Wall Time".to_owned()
    }

    fn unit(&self) -> (r: String) {
        "ns".to_owned()
    }
}

} // verus!
