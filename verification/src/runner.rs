use vstd::prelude::*;

use crate::measurement::{MeasureError, Measurement};
use crate::GAS_ALLOWANCE;

verus! {

/// The fixed synthetic address the benchmarked bytecode runs at.
pub open spec fn synthetic_address() -> Seq<u8> {
    seq![
        0x4fu8,
        0x20,
        0x45,
        0xb7,
        0xfa,
        0xef,
        0xb0,
        0x0a,
        0x23,
        0x0f,
        0x91,
        0x05,
        0x05,
        0xdb,
        0x1a,
        0x09,
        0xc2,
        0x79,
        0x0f,
        0xc4,
    ]
}

/// The fixed synthetic address as bytes.
pub fn synthetic_address_bytes() -> (r: Vec<u8>)
    ensures
        r@ == synthetic_address(),
{
    let v: Vec<u8> = vec![
        0x4f,
        0x20,
        0x45,
        0xb7,
        0xfa,
        0xef,
        0xb0,
        0x0a,
        0x23,
        0x0f,
        0x91,
        0x05,
        0x05,
        0xdb,
        0x1a,
        0x09,
        0xc2,
        0x79,
        0x0f,
        0xc4,
    ];
    proof {
        assert(v@ =~= synthetic_address());
    }
    v
}

/// One fresh per-iteration execution context handed to the external
/// execution engine: the bytecode, the fixed synthetic target address, and
/// an effectively unbounded gas allowance. Never reused across iterations.
pub struct ExecContext {
    pub code: Vec<u8>,
    pub address: Vec<u8>,
    pub gas_allowance: u64,
}

/// A successful outcome of the execution engine. The engine reports the
/// remaining gas either plainly or together with a requirement to supply
/// return data; the harness reads only the remaining gas from both shapes.
#[derive(Clone, Copy, Debug, PartialEq, Eq, Structural)]
pub enum ExecOutcome {
    /// Plain remaining gas.
    Known { gas_left: u64 },
    /// Remaining gas accompanying a return-data requirement.
    NeedsReturn { gas_left: u64 },
}

/// The remaining gas that an outcome reports, whatever its shape.
pub open spec fn outcome_gas_left(o: ExecOutcome) -> u64 {
    match o {
        ExecOutcome::Known { gas_left } => gas_left,
        ExecOutcome::NeedsReturn { gas_left } => gas_left,
    }
}

/// The remaining gas that `o` reports, whatever its shape.
pub fn gas_left_of(o: &ExecOutcome) -> (r: u64)
    ensures
        r == outcome_gas_left(*o),
{
    match o {
        ExecOutcome::Known { gas_left } => *gas_left,
        ExecOutcome::NeedsReturn { gas_left } => *gas_left,
    }
}

/// Why a benchmark run aborted. Every variant is fatal to the whole run:
/// no sample is skipped and no sentinel value is substituted.
#[derive(Clone, Debug)]
pub enum RunError {
    /// The execution engine reported a failure.
    Execution(String),
    /// A measurement backend failed to deliver a sample.
    Measurement(MeasureError),
}

/// The output of one full backend run: the backend's identity, the host
/// machine's name, and the index-aligned sequences of measurement values
/// and gas-consumed values. Immutable once assembled.
pub struct ResultRecord {
    pub id: String,
    pub name: String,
    pub unit: String,
    pub hostname: String,
    pub values: Vec<u64>,
    pub gas: Vec<u64>,
}

/// The benchmark runner for one backend: it hands out a fresh execution
/// context per iteration, brackets the engine invocation with the backend's
/// `start` and `end`, and records the per-iteration measurement value and
/// gas-consumed value. The engine invocation itself is the caller's: the
/// runner gives out the context, the caller executes it and hands back the
/// outcome.
pub struct Runner {
    pub code: Vec<u8>,
    pub iterations: u64,
    pub values: Vec<u64>,
    pub gas: Vec<u64>,
}

impl Runner {
    /// The runner's invariant: the two sequences stay index-aligned, never
    /// grow past the requested iteration count, and every recorded gas
    /// value is within the allowance.
    pub open spec fn wf(&self) -> bool {
        &&& self.values@.len() == self.gas@.len()
        &&& self.values@.len() <= self.iterations
        &&& forall|i: int| 0 <= i < self.gas@.len() ==> self.gas@[i] <= GAS_ALLOWANCE
    }

    /// How many iterations have been recorded so far.
    pub open spec fn done(&self) -> nat {
        self.values@.len()
    }

    /// Have all requested iterations been recorded?
    pub open spec fn is_complete(&self) -> bool {
        self.done() == self.iterations
    }

    /// A fresh runner for the given bytecode and iteration count, with
    /// nothing recorded yet.
    pub fn new(code: Vec<u8>, iterations: u64) -> (r: Runner)
        ensures
            r.wf(),
            r.code@ == code@,
            r.iterations == iterations,
            r.done() == 0,
    {
        Runner { code, iterations, values: Vec::new(), gas: Vec::new() }
    }

    /// Has the runner recorded all requested iterations?
    pub fn complete(&self) -> (r: bool)
        ensures
            r == self.is_complete(),
    {
        self.values.len() as u64 == self.iterations
    }

    /// A fresh execution context for the next iteration, or nothing once
    /// all iterations are recorded. Each context carries the same bytecode,
    /// the fixed synthetic address, and the full gas allowance; no context
    /// is ever handed out twice.
    pub fn next_context(&self) -> (r: Option<ExecContext>)
        requires
            self.wf(),
        ensures
            r is None <==> self.is_complete(),
            r matches Some(c) ==> c.code@ == self.code@ && c.address@ == synthetic_address()
                && c.gas_allowance == GAS_ALLOWANCE,
    {
        if (self.values.len() as u64) < self.iterations {
            Some(
                ExecContext {
                    code: self.code.clone(),
                    address: synthetic_address_bytes(),
                    gas_allowance: GAS_ALLOWANCE,
                },
            )
        } else {
            None
        }
    }

    /// Record one iteration: the measured value and the remaining gas the
    /// engine reported. Gas consumed is derived as allowance minus
    /// remaining gas and never exceeds the allowance.
    pub fn record(&mut self, value: u64, gas_left: u64)
        requires
            old(self).wf(),
            !old(self).is_complete(),
        ensures
            final(self).wf(),
            final(self).code@ == old(self).code@,
            final(self).iterations == old(self).iterations,
            final(self).values@ == old(self).values@.push(value),
            final(self).gas@ == old(self).gas@.push((GAS_ALLOWANCE - gas_left) as u64),
    {
        let used = crate::gas_consumed(gas_left);
        self.values.push(value);
        self.gas.push(used);
    }

    /// Begin one iteration: build the fresh execution context, then start
    /// the backend's timed interval — in that order, so that context
    /// construction stays outside the measured window.
    pub fn begin_iteration<M: Measurement>(&self, backend: &mut M) -> (r: Result<
        (ExecContext, M::Intermediate),
        MeasureError,
    >)
        requires
            self.wf(),
            !self.is_complete(),
        ensures
            old(backend).infallible() ==> r matches Ok(_),
            final(backend).infallible() == old(backend).infallible(),
            final(backend).id_spec() == old(backend).id_spec(),
            final(backend).name_spec() == old(backend).name_spec(),
            final(backend).unit_spec() == old(backend).unit_spec(),
            r matches Ok(p) ==> p.0.code@ == self.code@ && p.0.address@ == synthetic_address()
                && p.0.gas_allowance == GAS_ALLOWANCE,
    {
        let ctx = match self.next_context() {
            Some(c) => c,
            // the runner is not complete, so a context is always handed out
            None => vstd::pervasive::unreached(),
        };
        match backend.start() {
            Ok(token) => Ok((ctx, token)),
            Err(e) => Err(e),
        }
    }

    /// End one iteration: close the backend's timed interval first — so the
    /// window brackets the engine invocation as tightly as possible — then
    /// inspect the engine's outcome and record the sample. Any engine
    /// failure or measurement failure aborts the run with nothing recorded
    /// for this iteration.
    pub fn finish_iteration<M: Measurement>(
        &mut self,
        backend: &mut M,
        token: M::Intermediate,
        execution: Result<ExecOutcome, String>,
    ) -> (r: Result<(), RunError>)
        requires
            old(self).wf(),
            !old(self).is_complete(),
        ensures
            final(self).wf(),
            final(self).code@ == old(self).code@,
            final(self).iterations == old(self).iterations,
            final(backend).infallible() == old(backend).infallible(),
            final(backend).id_spec() == old(backend).id_spec(),
            final(backend).name_spec() == old(backend).name_spec(),
            final(backend).unit_spec() == old(backend).unit_spec(),
            r matches Ok(p) ==> execution matches Ok(out) && final(self).done() == old(self).done()
                + 1 && old(self).values@.is_prefix_of(final(self).values@) && final(self).gas@
                == old(self).gas@.push((GAS_ALLOWANCE - outcome_gas_left(out)) as u64),
            r matches Err(e) ==> final(self).values@ == old(self).values@ && final(self).gas@
                == old(self).gas@,
            execution matches Err(m) ==> r matches Err(e) && e matches RunError::Execution(msg)
                && msg@ == m@,
            execution is Ok ==> (r matches Err(e) ==> e matches RunError::Measurement(_)),
            execution is Ok && old(backend).infallible() ==> r matches Ok(_),
    {
        let measured = backend.end(token);
        let outcome = match execution {
            Ok(out) => out,
            Err(message) => {
                return Err(RunError::Execution(message));
            },
        };
        let value = match measured {
            Ok(v) => v,
            Err(e) => {
                return Err(RunError::Measurement(e));
            },
        };
        self.record(value, gas_left_of(&outcome));
        Ok(())
    }

    /// Assemble the immutable result record of a complete run: the
    /// backend's identity, the host name, and the two index-aligned
    /// sequences, each one entry per iteration.
    pub fn finish<M: Measurement>(self, backend: &M, hostname: String) -> (r: ResultRecord)
        requires
            self.wf(),
            self.is_complete(),
        ensures
            r.id@ == backend.id_spec(),
            r.name@ == backend.name_spec(),
            r.unit@ == backend.unit_spec(),
            r.hostname == hostname,
            r.values@ == self.values@,
            r.gas@ == self.gas@,
            r.values@.len() == self.iterations,
            r.gas@.len() == self.iterations,
    {
        ResultRecord {
            id: backend.id(),
            name: backend.name(),
            unit: backend.unit(),
            hostname,
            values: self.values,
            gas: self.gas,
        }
    }
}

/// With an iteration count of zero, a fresh runner is already complete: no
/// execution context is ever handed out — so no engine invocation occurs —
/// and both sequences of its record stay empty.
pub proof fn lemma_zero_iterations_empty(r: Runner)
    requires
        r.wf(),
        r.iterations == 0,
    ensures
        r.is_complete(),
        r.values@.len() == 0,
        r.gas@.len() == 0,
{
}

/// A complete run holds index-aligned value and gas sequences of exactly
/// `iterations` entries each.
pub proof fn lemma_complete_run_lengths(r: Runner)
    requires
        r.wf(),
        r.is_complete(),
    ensures
        r.values@.len() == r.iterations,
        r.gas@.len() == r.iterations,
{
}

/// Every recorded gas value is a non-negative integer no greater than the
/// configured allowance.
pub proof fn lemma_gas_within_allowance(r: Runner, i: int)
    requires
        r.wf(),
        0 <= i < r.gas@.len(),
    ensures
        0 <= r.gas@[i] <= GAS_ALLOWANCE,
{
}

/// Every recorded measurement value is non-negative, on every run.
pub proof fn lemma_values_non_negative(r: Runner, i: int)
    requires
        0 <= i < r.values@.len(),
    ensures
        r.values@[i] >= 0,
{
}

} // verus!
