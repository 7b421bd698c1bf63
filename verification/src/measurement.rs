use vstd::prelude::*;

verus! {

/// Why a measurement backend could not deliver a sample.
#[derive(Clone, Copy, Debug, PartialEq, Eq, Structural)]
pub enum MeasureError {
    /// The underlying resource (an OS performance counter) failed or is
    /// unavailable. Fatal to the whole benchmark run.
    Resource,
    /// The backend was driven out of its start/end order: `end` without a
    /// matching `start`, or `start` twice in a row.
    OutOfOrder,
}

/// One measurement backend: how to begin and end a timed interval around a
/// single execution of the bytecode, and how to identify itself.
///
/// `start` produces an opaque intermediate token (an instant, a raw counter
/// reading, a placeholder) that the matching `end` consumes; a token is
/// scoped to one start/end pairing and is never reused across iterations.
/// A broken backend reports an error rather than a zero or sentinel value.
pub trait Measurement: Sized {
    type Intermediate;

    /// Stable machine-readable identifier of the backend.
    spec fn id_spec(&self) -> Seq<char>;

    /// Human-readable label of the backend.
    spec fn name_spec(&self) -> Seq<char>;

    /// SI-style unit of the reported values.
    spec fn unit_spec(&self) -> Seq<char>;

    /// Whether this backend can never fail to deliver a sample.
    spec fn infallible(&self) -> bool;

    /// Begin a timed interval.
    fn start(&mut self) -> (r: Result<Self::Intermediate, MeasureError>)
        ensures
            old(self).infallible() ==> r matches Ok(_),
            final(self).infallible() == old(self).infallible(),
            final(self).id_spec() == old(self).id_spec(),
            final(self).name_spec() == old(self).name_spec(),
            final(self).unit_spec() == old(self).unit_spec(),
    ;

    /// End the timed interval begun by the immediately preceding `start`,
    /// consuming its token, and report the measured value.
    fn end(&mut self, token: Self::Intermediate) -> (r: Result<u64, MeasureError>)
        ensures
            old(self).infallible() ==> r matches Ok(_),
            final(self).infallible() == old(self).infallible(),
            final(self).id_spec() == old(self).id_spec(),
            final(self).name_spec() == old(self).name_spec(),
            final(self).unit_spec() == old(self).unit_spec(),
    ;

    /// The backend's stable identifier.
    fn id(&self) -> (r: String)
        ensures
            r@ == self.id_spec(),
    ;

    /// The backend's human-readable name.
    fn name(&self) -> (r: String)
        ensures
            r@ == self.name_spec(),
    ;

    /// The unit of the backend's values.
    fn unit(&self) -> (r: String)
        ensures
            r@ == self.unit_spec(),
    ;
}

} // verus!
