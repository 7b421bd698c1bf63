use evmbench::cycles::Cycles;
use evmbench::input::Run;
use evmbench::measurement::Measurement;
use evmbench::runner::{ExecOutcome, ResultRecord, RunError, Runner};
use evmbench::walltime::WallTime;
use evmbench::GAS_ALLOWANCE;

/// Drives a full benchmark run of a Measurement backend with a fake engine
/// that always succeeds and always leaves the same amount of gas.
fn drive<M: Measurement>(code: &[u8], iterations: u64, backend: M, gas_left: u64) -> ResultRecord {
    let mut backend = backend;
    let mut runner = Runner::new(code.to_vec(), iterations);
    while !runner.complete() {
        let (ctx, token) = runner.begin_iteration(&mut backend).unwrap();
        assert_eq!(ctx.code, code);
        assert_eq!(ctx.gas_allowance, GAS_ALLOWANCE);
        assert_eq!(ctx.address.len(), 20);
        let outcome = ExecOutcome::Known { gas_left };
        runner.finish_iteration(&mut backend, token, Ok(outcome)).unwrap();
    }
    runner.finish(&backend, String::from("testhost"))
}

/// Drives a full benchmark run of the cycle-counter backend, with counter
/// readings advanced by the test in place of the hardware register, against
/// the same fake engine.
fn drive_cycles(code: &[u8], iterations: u64, gas_left: u64) -> ResultRecord {
    let mut now: u64 = 0;
    let mut runner = Runner::new(code.to_vec(), iterations);
    while let Some(ctx) = runner.next_context() {
        assert_eq!(ctx.code, code);
        now += 1;
        let start_reading = now;
        // the engine would run the context here
        now += 5;
        let value = Cycles.elapsed(start_reading, now);
        runner.record(value, gas_left);
    }
    ResultRecord {
        id: Cycles.id(),
        name: Cycles.name(),
        unit: Cycles.unit(),
        hostname: String::from("testhost"),
        values: runner.values,
        gas: runner.gas,
    }
}

#[test]
fn zero_iterations_yield_an_empty_record_and_no_execution() {
    let runner = Runner::new(vec![0x60, 0x01], 0);
    assert!(runner.complete());
    assert!(runner.next_context().is_none());
    let rec = runner.finish(&WallTime, String::from("testhost"));
    assert!(rec.values.is_empty());
    assert!(rec.gas.is_empty());
    assert_eq!(rec.id, "wall_time");
    assert_eq!(rec.hostname, "testhost");
}

#[test]
fn run_produces_one_sample_per_iteration() {
    for n in [1u64, 2, 7] {
        let rec = drive(&[0x00], n, WallTime, GAS_ALLOWANCE - 3);
        assert_eq!(rec.values.len(), n as usize);
        assert_eq!(rec.gas.len(), n as usize);
    }
}

#[test]
fn three_iteration_run_gives_two_aligned_records() {
    let run = Run::from_parts(Some(3), Some(String::from("0x600160010100"))).unwrap();
    let code = run.code_bytes().unwrap();
    assert_eq!(code, vec![0x60, 0x01, 0x60, 0x01, 0x01, 0x00]);
    let gas_left = GAS_ALLOWANCE - 21;
    let records = vec![
        drive(&code, run.iterations, WallTime, gas_left),
        drive_cycles(&code, run.iterations, gas_left),
    ];
    for rec in &records {
        assert_eq!(rec.values.len(), 3);
        assert_eq!(rec.gas.len(), 3);
        assert_eq!(rec.gas, vec![21, 21, 21]);
    }
    assert_eq!(records[0].id, "wall_time");
    assert_eq!(records[0].name, "Wall Time");
    assert_eq!(records[0].unit, "ns");
    assert_eq!(records[1].id, "cpu_cycles");
    assert_eq!(records[1].name, "CPU Cycles");
    assert_eq!(records[1].unit, "N");
}

#[test]
fn gas_consumed_never_exceeds_the_allowance() {
    let rec = drive(&[0x00], 5, WallTime, 0);
    for g in &rec.gas {
        assert!(*g <= GAS_ALLOWANCE);
    }
    assert_eq!(rec.gas, vec![GAS_ALLOWANCE; 5]);
}

#[test]
fn needs_return_outcome_reports_gas_the_same_way() {
    let mut backend = WallTime;
    let mut runner = Runner::new(vec![0x00], 1);
    let (_ctx, token) = runner.begin_iteration(&mut backend).unwrap();
    let outcome = ExecOutcome::NeedsReturn { gas_left: GAS_ALLOWANCE - 9 };
    runner.finish_iteration(&mut backend, token, Ok(outcome)).unwrap();
    assert_eq!(runner.gas, vec![9]);
}

#[test]
fn engine_failure_aborts_with_nothing_recorded() {
    let mut backend = WallTime;
    let mut runner = Runner::new(vec![0x00], 1);
    let (_ctx, token) = runner.begin_iteration(&mut backend).unwrap();
    let r = runner.finish_iteration(&mut backend, token, Err(String::from("bad instruction")));
    assert!(matches!(r, Err(RunError::Execution(_))));
    assert!(runner.values.is_empty());
    assert!(runner.gas.is_empty());
    assert!(!runner.complete());
}

#[test]
fn rerunning_the_same_backend_never_fails_from_repetition() {
    let mut backend = WallTime;
    for _ in 0..2 {
        let mut runner = Runner::new(vec![0x00], 4);
        while !runner.complete() {
            let (_ctx, token) = runner.begin_iteration(&mut backend).unwrap();
            let outcome = ExecOutcome::Known { gas_left: GAS_ALLOWANCE };
            runner.finish_iteration(&mut backend, token, Ok(outcome)).unwrap();
        }
        assert_eq!(runner.values.len(), 4);
    }
}

#[test]
fn fabricated_cycle_readings_give_exact_values() {
    let rec = drive_cycles(&[0x00], 3, GAS_ALLOWANCE);
    assert_eq!(rec.values, vec![5, 5, 5]);
    assert_eq!(rec.gas, vec![0, 0, 0]);
}
