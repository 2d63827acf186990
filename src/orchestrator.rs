use vstd::prelude::*;
use crate::coordinator::{acquire_spec, release_spec, Acquire, Coordinator};
use crate::relay::{lemma_cancel_halts, policy_of, run_spec, step_spec, PolicyViolation, RelayEvent, Status, TransferState};
use crate::coordinator::LeaseView;
use crate::reporter::Reporter;

verus! {

/// Where a transfer request stands.
#[derive(Debug, Clone, Copy, PartialEq, Eq, Structural)]
pub enum Phase {
    Idle,
    Negotiating,
    Streaming,
    Completed,
    Cancelled,
    Failed,
    Rejected,
    Busy,
}

/// The final status a chat sees once its transfer ends.
#[derive(Debug, Clone, Copy, PartialEq, Eq, Structural)]
pub enum FinalNotice {
    Completed,
    Cancelled,
    Failed,
}

/// The declared length read from the headers: absent means zero.
pub open spec fn declared_of(content_length: Option<u64>) -> u64 {
    match content_length {
        Some(n) => n,
        None => 0,
    }
}

pub open spec fn notice_of(s: Status) -> FinalNotice {
    match s {
        Status::Completed => FinalNotice::Completed,
        Status::Cancelled => FinalNotice::Cancelled,
        _ => FinalNotice::Failed,
    }
}

/// Takes the chat for `owner`: negotiation starts only where the chat was free.
pub fn begin(coord: &mut Coordinator, chat: i64, owner: i64) -> (r: Phase)
    ensures
        (final(coord)@, if r == Phase::Negotiating { Acquire::Granted } else { Acquire::Busy })
            == acquire_spec(old(coord)@, chat, owner),
        r == Phase::Negotiating || r == Phase::Busy,
{
    match coord.acquire(chat, owner) {
        Acquire::Granted => Phase::Negotiating,
        Acquire::Busy => Phase::Busy,
    }
}

/// Checks the length the source declared. A refused length releases the chat's lease at
/// once, before any byte is read; an accepted one starts the relay with nothing delivered.
pub fn negotiate(coord: &mut Coordinator, chat: i64, content_length: Option<u64>) -> (r: Result<TransferState, PolicyViolation>)
    ensures
        match r {
            Ok(s) => {
                &&& policy_of(declared_of(content_length)) is Ok
                &&& s.wf()
                &&& s == (TransferState { declared: declared_of(content_length), transferred: 0, status: Status::Streaming })
                &&& final(coord)@ == old(coord)@
            },
            Err(e) => {
                &&& policy_of(declared_of(content_length)) == Err::<(), PolicyViolation>(e)
                &&& final(coord)@ == release_spec(old(coord)@, chat)
            },
        },
{
    let declared: u64 = match content_length {
        Some(n) => n,
        None => 0,
    };
    let r = TransferState::start(declared);
    if r.is_err() {
        coord.release(chat);
    }
    r
}

/// Ends a transfer that reached a terminal status: the reporter stops first, then the lease
/// is released, and the notice that matches the status is what the chat sees last.
pub fn conclude(coord: &mut Coordinator, reporter: &mut Reporter, chat: i64, state: &TransferState) -> (r: FinalNotice)
    requires
        state.status != Status::Streaming,
    ensures
        final(coord)@ == release_spec(old(coord)@, chat),
        !final(coord)@.contains_key(chat),
        final(reporter).stopped,
        r == notice_of(state.status),
{
    reporter.stop();
    coord.release(chat);
    match state.status {
        Status::Completed => FinalNotice::Completed,
        Status::Cancelled => FinalNotice::Cancelled,
        _ => FinalNotice::Failed,
    }
}

/// A cancellation seen mid-stream ends the transfer as cancelled whatever the source does
/// afterwards: the chat is told of the cancellation, never of a completion, and its lease is
/// released so that the next request is granted.
pub proof fn lemma_cancel_mid_stream(s: TransferState, evs: Seq<RelayEvent>, m: Map<i64, LeaseView>, chat: i64, next_owner: i64)
    requires
        s.status == Status::Streaming,
    ensures
        notice_of(run_spec(step_spec(s, RelayEvent::CancelSignal), evs).status) == FinalNotice::Cancelled,
        !release_spec(m, chat).contains_key(chat),
        acquire_spec(release_spec(m, chat), chat, next_owner).1 == Acquire::Granted,
{
    lemma_cancel_halts(s, evs);
}

} // verus!
