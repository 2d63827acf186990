use vstd::prelude::*;
use crate::relay::{TransferState, MAX_DECLARED_BYTES};

verus! {

/// The text that `bytesize` gives for a byte count in binary units (KiB, MiB, ...).
pub uninterp spec fn binary_size_text(bytes: u64) -> Seq<char>;

/// Relies on `bytesize::to_string` with binary prefixes: the text depends on the count alone.
#[verifier::external_body]
fn size_text(bytes: u64) -> (r: String)
    ensures
        r@ == binary_size_text(bytes),
{
    bytesize::to_string(bytes, true)
}

/// What one progress render shows.
#[derive(Debug, Clone, Copy, PartialEq, Eq, Structural)]
pub struct ProgressSnapshot {
    pub transferred: u64,
    pub declared: u64,
    pub timestamp_ms: u64,
}

/// The share delivered, in hundredths of a percent, rounded down.
pub open spec fn hundredths_of(transferred: u64, declared: u64) -> int {
    (transferred as int * 10000) / declared as int
}

impl ProgressSnapshot {
    /// The counter of a well-formed transfer as seen at `now_ms`.
    pub fn of(state: &TransferState, now_ms: u64) -> (r: ProgressSnapshot)
        requires
            state.wf(),
        ensures
            r.transferred == state.transferred,
            r.declared == state.declared,
            r.timestamp_ms == now_ms,
            r.wf(),
    {
        ProgressSnapshot { transferred: state.transferred, declared: state.declared, timestamp_ms: now_ms }
    }

    pub open spec fn wf(&self) -> bool {
        0 < self.declared <= MAX_DECLARED_BYTES && self.transferred <= self.declared
    }

    /// The share delivered, in hundredths of a percent: 10000 once all is delivered.
    pub fn percent_hundredths(&self) -> (r: u64)
        requires
            self.wf(),
        ensures
            r == hundredths_of(self.transferred, self.declared),
            r <= 10000,
    {
        proof {
            assert(self.transferred as int * 10000 <= self.declared as int * 10000) by (nonlinear_arith)
                requires self.transferred <= self.declared;
            assert((self.transferred as int * 10000) / self.declared as int <= 10000) by (nonlinear_arith)
                requires
                    self.transferred as int * 10000 <= self.declared as int * 10000,
                    self.declared > 0;
        }
        self.transferred * 10000 / self.declared
    }

    /// The delivered and the declared byte counts, as text.
    pub fn size_texts(&self) -> (r: (String, String))
        ensures
            r.0@ == binary_size_text(self.transferred),
            r.1@ == binary_size_text(self.declared),
    {
        (size_text(self.transferred), size_text(self.declared))
    }
}

} // verus!
