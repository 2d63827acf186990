use vstd::prelude::*;

verus! {

/// The largest declared length a transfer may have: 2 GiB.
pub const MAX_DECLARED_BYTES: u64 = 2 * 1024 * 1024 * 1024;

/// Why a declared length is refused before any byte moves.
#[derive(Debug, Clone, Copy, PartialEq, Eq, Structural)]
pub enum PolicyViolation {
    Empty,
    TooLarge,
}

/// Where a relay stands.
#[derive(Debug, Clone, Copy, PartialEq, Eq, Structural)]
pub enum Status {
    Streaming,
    Completed,
    Cancelled,
    Failed,
}

/// What the relay observes between two decisions.
#[derive(Debug, Clone, Copy, PartialEq, Eq, Structural)]
pub enum RelayEvent {
    /// A chunk of this many bytes was written to the sink.
    Written(u64),
    /// The source has no more bytes.
    SourceEnd,
    /// The cancellation signal was seen at a chunk boundary.
    CancelSignal,
    /// Reading the source or writing the sink failed.
    Error,
}

/// The byte counter and status of one transfer.
#[derive(Debug, Clone, Copy, PartialEq, Eq, Structural)]
pub struct TransferState {
    pub declared: u64,
    pub transferred: u64,
    pub status: Status,
}

/// The verdict on a declared length: neither empty nor over the ceiling.
pub open spec fn policy_of(declared: u64) -> Result<(), PolicyViolation> {
    if declared == 0 {
        Err(PolicyViolation::Empty)
    } else if declared > MAX_DECLARED_BYTES {
        Err(PolicyViolation::TooLarge)
    } else {
        Ok(())
    }
}

pub open spec fn is_terminal(s: Status) -> bool {
    s != Status::Streaming
}

/// One decision of the relay. A terminal state never changes; a write never takes the
/// counter past the declared length (such a source fails instead); the source may end
/// only once the declared length has been delivered.
pub open spec fn step_spec(s: TransferState, ev: RelayEvent) -> TransferState {
    if is_terminal(s.status) {
        s
    } else {
        match ev {
            RelayEvent::Written(n) => {
                if n <= s.declared - s.transferred {
                    TransferState { transferred: (s.transferred + n) as u64, ..s }
                } else {
                    TransferState { status: Status::Failed, ..s }
                }
            },
            RelayEvent::SourceEnd => {
                if s.transferred == s.declared {
                    TransferState { status: Status::Completed, ..s }
                } else {
                    TransferState { status: Status::Failed, ..s }
                }
            },
            RelayEvent::CancelSignal => TransferState { status: Status::Cancelled, ..s },
            RelayEvent::Error => TransferState { status: Status::Failed, ..s },
        }
    }
}

/// The state after a whole sequence of events.
pub open spec fn run_spec(s: TransferState, evs: Seq<RelayEvent>) -> TransferState
    decreases evs.len(),
{
    if evs.len() == 0 {
        s
    } else {
        run_spec(step_spec(s, evs[0]), evs.drop_first())
    }
}

/// Rejects an empty or over-limit declared length.
pub fn check_declared(declared: u64) -> (r: Result<(), PolicyViolation>)
    ensures
        r == policy_of(declared),
{
    if declared == 0 {
        Err(PolicyViolation::Empty)
    } else if declared > MAX_DECLARED_BYTES {
        Err(PolicyViolation::TooLarge)
    } else {
        Ok(())
    }
}

impl TransferState {
    /// The counter never passes the declared length, which is within policy.
    pub open spec fn wf(&self) -> bool {
        &&& policy_of(self.declared) is Ok
        &&& self.transferred <= self.declared
    }

    /// A transfer of `declared` bytes, streaming with nothing delivered yet; refused where
    /// the length is empty or over the ceiling.
    pub fn start(declared: u64) -> (r: Result<TransferState, PolicyViolation>)
        ensures
            match r {
                Ok(s) => policy_of(declared) is Ok && s.wf() && s == (TransferState {
                    declared,
                    transferred: 0,
                    status: Status::Streaming,
                }),
                Err(e) => policy_of(declared) == Err::<(), PolicyViolation>(e),
            },
    {
        match check_declared(declared) {
            Ok(()) => Ok(TransferState { declared, transferred: 0, status: Status::Streaming }),
            Err(e) => Err(e),
        }
    }

    /// Applies one event and returns the status after it.
    pub fn step(&mut self, ev: RelayEvent) -> (r: Status)
        requires
            old(self).wf(),
        ensures
            *final(self) == step_spec(*old(self), ev),
            final(self).wf(),
            r == final(self).status,
    {
        if self.status != Status::Streaming {
            return self.status;
        }
        match ev {
            RelayEvent::Written(n) => {
                if n <= self.declared - self.transferred {
                    self.transferred = self.transferred + n;
                } else {
                    self.status = Status::Failed;
                }
            },
            RelayEvent::SourceEnd => {
                if self.transferred == self.declared {
                    self.status = Status::Completed;
                } else {
                    self.status = Status::Failed;
                }
            },
            RelayEvent::CancelSignal => {
                self.status = Status::Cancelled;
            },
            RelayEvent::Error => {
                self.status = Status::Failed;
            },
        }
        self.status
    }

    pub fn is_streaming(&self) -> (r: bool)
        ensures
            r == (self.status == Status::Streaming),
    {
        self.status == Status::Streaming
    }
}

/// Every step keeps the counter within the declared length.
pub proof fn lemma_step_within_declared(s: TransferState, ev: RelayEvent)
    requires
        s.wf(),
    ensures
        step_spec(s, ev).wf(),
        step_spec(s, ev).transferred <= step_spec(s, ev).declared,
{
}

/// At every point of a run the counter is within the declared length.
pub proof fn lemma_run_within_declared(s: TransferState, evs: Seq<RelayEvent>)
    requires
        s.wf(),
    ensures
        run_spec(s, evs).wf(),
        run_spec(s, evs).transferred <= run_spec(s, evs).declared,
    decreases evs.len(),
{
    if evs.len() > 0 {
        lemma_run_within_declared(step_spec(s, evs[0]), evs.drop_first());
    }
}

/// A terminal status is never left, whatever comes after it.
pub proof fn lemma_terminal_is_final(s: TransferState, evs: Seq<RelayEvent>)
    requires
        is_terminal(s.status),
    ensures
        run_spec(s, evs) == s,
    decreases evs.len(),
{
    if evs.len() > 0 {
        lemma_terminal_is_final(step_spec(s, evs[0]), evs.drop_first());
    }
}

/// A cancellation seen while streaming halts the relay at that boundary: no further byte is
/// counted and the transfer never completes.
pub proof fn lemma_cancel_halts(s: TransferState, evs: Seq<RelayEvent>)
    requires
        s.status == Status::Streaming,
    ensures
        run_spec(step_spec(s, RelayEvent::CancelSignal), evs).status == Status::Cancelled,
        run_spec(step_spec(s, RelayEvent::CancelSignal), evs).transferred == s.transferred,
{
    lemma_terminal_is_final(step_spec(s, RelayEvent::CancelSignal), evs);
}

} // verus!
