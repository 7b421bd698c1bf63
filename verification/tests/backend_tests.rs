use evmbench::cycles::Cycles;
use evmbench::gas_consumed;
use evmbench::host::resolve_hostname;
use evmbench::measurement::{MeasureError, Measurement};
use evmbench::perf::Perf;
use evmbench::walltime::WallTime;
use evmbench::GAS_ALLOWANCE;
use perfcnt::linux::{PerfCounterBuilderLinux, SoftwareEventType};

#[test]
fn wall_time_identity() {
    let w = WallTime;
    assert_eq!(w.id(), "wall_time");
    assert_eq!(w.name(), "Wall Time");
    assert_eq!(w.unit(), "ns");
}

#[test]
fn wall_time_never_fails() {
    let mut w = WallTime;
    for _ in 0..3 {
        let token = w.start().unwrap();
        let value = w.end(token).unwrap();
        let _ = value;
    }
}

#[test]
fn cycles_identity() {
    let c = Cycles;
    assert_eq!(c.id(), "cpu_cycles");
    assert_eq!(c.name(), "CPU Cycles");
    assert_eq!(c.unit(), "N");
}

#[test]
fn cycles_elapsed_is_the_reading_difference() {
    assert_eq!(Cycles.elapsed(5, 12), 7);
    assert_eq!(Cycles.elapsed(7, 7), 0);
    assert_eq!(Cycles.elapsed(0, u64::MAX), u64::MAX);
}

#[test]
fn gas_consumed_is_allowance_minus_remaining() {
    assert_eq!(gas_consumed(GAS_ALLOWANCE), 0);
    assert_eq!(gas_consumed(GAS_ALLOWANCE - 21), 21);
    assert_eq!(gas_consumed(0), GAS_ALLOWANCE);
}

#[test]
fn hostname_falls_back_to_the_placeholder() {
    assert_eq!(resolve_hostname(None), "unkown");
    assert_eq!(resolve_hostname(Some(String::from("box"))), "box");
}

#[test]
fn perf_sample_without_arm_is_refused() {
    let builder = PerfCounterBuilderLinux::from_software_event(SoftwareEventType::TaskClock);
    match Perf::new(
        builder,
        0,
        String::from("task_clock"),
        String::from("Task Clock"),
        String::from("ns"),
    ) {
        Ok(mut p) => {
            assert_eq!(p.sample(), Err(MeasureError::OutOfOrder));
            assert_eq!(p.id(), "task_clock");
            assert_eq!(p.name(), "Task Clock");
            assert_eq!(p.unit(), "ns");
        },
        // The OS may refuse performance counters altogether; creation
        // failure is then the expected fatal outcome.
        Err(e) => assert_eq!(e, MeasureError::Resource),
    }
}

#[test]
fn perf_arm_and_sample_return_to_idle_each_iteration() {
    let builder = PerfCounterBuilderLinux::from_software_event(SoftwareEventType::TaskClock);
    match Perf::new(
        builder,
        0,
        String::from("task_clock"),
        String::from("Task Clock"),
        String::from("ns"),
    ) {
        Ok(mut p) => {
            for _ in 0..3 {
                match p.arm() {
                    Ok(()) => {
                        // Arming twice in a row is refused by construction.
                        assert_eq!(p.arm(), Err(MeasureError::OutOfOrder));
                        match p.sample() {
                            Ok(_value) => {},
                            Err(e) => {
                                assert_eq!(e, MeasureError::Resource);
                                return;
                            },
                        }
                    },
                    Err(e) => {
                        assert_eq!(e, MeasureError::Resource);
                        return;
                    },
                }
            }
        },
        Err(e) => assert_eq!(e, MeasureError::Resource),
    }
}
