use vstd::prelude::*;

use crate::measurement::{MeasureError, Measurement};
use perfcnt::AbstractPerfCounter;

verus! {

/// Declares perfcnt's counter builder so that it can stand in signatures;
/// values of it are opaque to the verifier.
#[verifier::external_type_specification]
#[verifier::external_body]
pub struct ExPerfCounterBuilderLinux(perfcnt::linux::PerfCounterBuilderLinux);

/// Declares perfcnt's counter handle so that it can stand in signatures;
/// values of it are opaque to the verifier.
#[verifier::external_type_specification]
#[verifier::external_body]
pub struct ExPerfCounter(perfcnt::linux::PerfCounter);

/// Relies on perfcnt's PerfCounterBuilderLinux::for_pid: scopes the counter
/// under construction to the given process id.
#[verifier::external_body]
fn builder_for_pid(builder: &mut perfcnt::linux::PerfCounterBuilderLinux, pid: i32) {
    builder.for_pid(pid);
}

/// Relies on perfcnt's PerfCounterBuilderLinux::disable: the counter comes
/// up disabled and must be started explicitly.
#[verifier::external_body]
fn builder_disable(builder: &mut perfcnt::linux::PerfCounterBuilderLinux) {
    builder.disable();
}

/// Relies on perfcnt's PerfCounterBuilderLinux::finish: opens the OS
/// counter; fails when the OS refuses it.
#[verifier::external_body]
fn builder_finish(builder: &perfcnt::linux::PerfCounterBuilderLinux) -> (r: Option<
    perfcnt::PerfCounter,
>) {
    match builder.finish() {
        Ok(counter) => Some(counter),
        Err(_) => None,
    }
}

/// Relies on perfcnt's AbstractPerfCounter::start: arms the counter; true
/// exactly when the OS call succeeded.
#[verifier::external_body]
fn counter_start(counter: &perfcnt::PerfCounter) -> (r: bool) {
    counter.start().is_ok()
}

/// Relies on perfcnt's AbstractPerfCounter::stop: stops the counter; true
/// exactly when the OS call succeeded.
#[verifier::external_body]
fn counter_stop(counter: &perfcnt::PerfCounter) -> (r: bool) {
    counter.stop().is_ok()
}

/// Relies on perfcnt's AbstractPerfCounter::read: the counter's accumulated
/// value, a machine-dependent count.
#[verifier::external_body]
fn counter_read(counter: &mut perfcnt::PerfCounter) -> (r: Option<u64>) {
    match counter.read() {
        Ok(value) => Some(value),
        Err(_) => None,
    }
}

/// Relies on perfcnt's AbstractPerfCounter::reset: resets the accumulated
/// value to zero; true exactly when the OS call succeeded.
#[verifier::external_body]
fn counter_reset(counter: &perfcnt::PerfCounter) -> (r: bool) {
    counter.reset().is_ok()
}

/// The performance-counter backend: wraps one OS performance counter (task
/// clock, cache references or cache misses) scoped to the current process.
/// The handle is created once per backend instance and reused: each
/// iteration arms it, stops it, reads the accumulated value and resets it
/// to zero. The `armed` tag enforces the strict arm - sample order by
/// construction.
pub struct Perf {
    pub counter: perfcnt::PerfCounter,
    pub armed: bool,
    pub id: String,
    pub name: String,
    pub unit: String,
}

impl Perf {
    /// Construct the backend around a configured counter builder, scoped to
    /// the process `pid`, with the given identity. The counter is created
    /// once here, outside the per-iteration loop; an OS refusal is fatal to
    /// the run and yields no backend at all.
    pub fn new(
        builder: perfcnt::linux::PerfCounterBuilderLinux,
        pid: i32,
        id: String,
        name: String,
        unit: String,
    ) -> (r: Result<Perf, MeasureError>)
        ensures
            r matches Ok(p) ==> !p.armed && p.id@ == id@ && p.name@ == name@ && p.unit@ == unit@,
            r matches Err(e) ==> e == MeasureError::Resource,
    {
        let mut builder = builder;
        builder_for_pid(&mut builder, pid);
        builder_disable(&mut builder);
        match builder_finish(&builder) {
            Some(counter) => Ok(Perf { counter, armed: false, id, name, unit }),
            None => Err(MeasureError::Resource),
        }
    }

    /// Arm the counter for one iteration. From the idle state this fails
    /// only if the OS does; arming an already armed counter is refused
    /// without touching it.
    pub fn arm(&mut self) -> (r: Result<(), MeasureError>)
        ensures
            final(self).id@ == old(self).id@,
            final(self).name@ == old(self).name@,
            final(self).unit@ == old(self).unit@,
            r == Err::<(), MeasureError>(MeasureError::OutOfOrder) <==> old(self).armed,
            r matches Ok(_) ==> final(self).armed && !old(self).armed,
            r matches Err(_) ==> final(self).armed == old(self).armed,
            !old(self).armed && r is Err ==> r == Err::<(), MeasureError>(MeasureError::Resource),
    {
        if self.armed {
            return Err(MeasureError::OutOfOrder);
        }
        if counter_start(&self.counter) {
            self.armed = true;
            Ok(())
        } else {
            Err(MeasureError::Resource)
        }
    }

    /// Take one sample: stop the counter, read its accumulated value, and
    /// reset it to zero for the next iteration. On success the backend is
    /// back in its idle state, so iteration k+1 begins exactly as iteration
    /// 1 did; repetition alone never causes a failure.
    pub fn sample(&mut self) -> (r: Result<u64, MeasureError>)
        ensures
            final(self).id@ == old(self).id@,
            final(self).name@ == old(self).name@,
            final(self).unit@ == old(self).unit@,
            r == Err::<u64, MeasureError>(MeasureError::OutOfOrder) <==> !old(self).armed,
            old(self).armed && r is Err ==> r == Err::<u64, MeasureError>(MeasureError::Resource),
            r matches Err(_) ==> final(self).armed == old(self).armed,
            r matches Ok(_) ==> old(self).armed && !final(self).armed,
    {
        if !self.armed {
            return Err(MeasureError::OutOfOrder);
        }
        if !counter_stop(&self.counter) {
            return Err(MeasureError::Resource);
        }
        let value = match counter_read(&mut self.counter) {
            Some(value) => value,
            None => {
                return Err(MeasureError::Resource);
            },
        };
        if !counter_reset(&self.counter) {
            return Err(MeasureError::Resource);
        }
        self.armed = false;
        Ok(value)
    }
}

impl Measurement for Perf {
    type Intermediate = u8;

    open spec fn id_spec(&self) -> Seq<char> {
        self.id@
    }

    open spec fn name_spec(&self) -> Seq<char> {
        self.name@
    }

    open spec fn unit_spec(&self) -> Seq<char> {
        self.unit@
    }

    open spec fn infallible(&self) -> bool {
        false
    }

    fn start(&mut self) -> (r: Result<u8, MeasureError>) {
        match self.arm() {
            Ok(_) => Ok(0u8),
            Err(e) => Err(e),
        }
    }

    fn end(&mut self, _token: u8) -> (r: Result<u64, MeasureError>) {
        self.sample()
    }

    fn id(&self) -> (r: String) {
        self.id.clone()
    }

    fn name(&self) -> (r: String) {
        self.name.clone()
    }

    fn unit(&self) -> (r: String) {
        self.unit.clone()
    }
}

} // verus!
