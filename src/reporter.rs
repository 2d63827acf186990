use vstd::prelude::*;

verus! {

/// The shortest time between two progress renders, in milliseconds.
pub const PROGRESS_INTERVAL_MS: u64 = 3000;

/// The throttle of progress renders for one transfer.
#[derive(Debug, Clone, Copy, PartialEq, Eq, Structural)]
pub struct Reporter {
    /// When the last render was emitted.
    pub last_emit_ms: Option<u64>,
    /// A render was emitted and has not finished yet.
    pub outstanding: bool,
    /// The transfer left streaming: nothing more is rendered.
    pub stopped: bool,
}

/// Whether a tick at `now_ms` emits: the reporter still runs, the transfer streams, no render
/// is outstanding, and a full interval passed since the last one.
pub open spec fn emits(r: Reporter, now_ms: u64, streaming: bool) -> bool {
    &&& !r.stopped
    &&& streaming
    &&& !r.outstanding
    &&& match r.last_emit_ms {
        None => true,
        Some(last) => now_ms >= last + PROGRESS_INTERVAL_MS,
    }
}

/// A tick: an emitted render records its time and is outstanding; a tick after the transfer
/// left streaming stops the reporter for good.
pub open spec fn tick_spec(r: Reporter, now_ms: u64, streaming: bool) -> (Reporter, bool) {
    if emits(r, now_ms, streaming) {
        (Reporter { last_emit_ms: Some(now_ms), outstanding: true, stopped: false }, true)
    } else if !streaming {
        (Reporter { stopped: true, ..r }, false)
    } else {
        (r, false)
    }
}

/// A finished render frees the slot for the next one.
pub open spec fn done_spec(r: Reporter) -> Reporter {
    Reporter { outstanding: false, ..r }
}

impl Reporter {
    /// A reporter that has rendered nothing yet.
    pub fn new() -> (r: Reporter)
        ensures
            r == (Reporter { last_emit_ms: None, outstanding: false, stopped: false }),
    {
        Reporter { last_emit_ms: None, outstanding: false, stopped: false }
    }

    /// Decides at `now_ms` whether to render the current progress.
    pub fn tick(&mut self, now_ms: u64, streaming: bool) -> (r: bool)
        ensures
            (*final(self), r) == tick_spec(*old(self), now_ms, streaming),
    {
        let due = match self.last_emit_ms {
            None => true,
            Some(last) => now_ms >= last && now_ms - last >= PROGRESS_INTERVAL_MS,
        };
        if !self.stopped && streaming && !self.outstanding && due {
            self.last_emit_ms = Some(now_ms);
            self.outstanding = true;
            true
        } else {
            if !streaming {
                self.stopped = true;
            }
            false
        }
    }

    /// Records that the outstanding render finished.
    pub fn render_done(&mut self)
        ensures
            *final(self) == done_spec(*old(self)),
    {
        self.outstanding = false;
    }

    /// Stops the reporter before the final status is written.
    pub fn stop(&mut self)
        ensures
            *final(self) == (Reporter { stopped: true, ..*old(self) }),
    {
        self.stopped = true;
    }
}

/// Two renders, with the first one finished in between, are at least one interval apart.
pub proof fn lemma_one_render_per_interval(r: Reporter, t1: u64, s1: bool, t2: u64, s2: bool)
    ensures
        ({
            let (r1, e1) = tick_spec(r, t1, s1);
            let (_, e2) = tick_spec(done_spec(r1), t2, s2);
            e1 && e2 ==> t2 >= t1 + PROGRESS_INTERVAL_MS
        }),
{
}

/// While a render is outstanding no other one is emitted.
pub proof fn lemma_no_overlap(r: Reporter, t: u64, s: bool)
    requires
        r.outstanding,
    ensures
        !tick_spec(r, t, s).1,
{
}

/// Once the transfer has left streaming, no tick renders again.
pub proof fn lemma_silent_after_streaming(r: Reporter, t1: u64, t2: u64, s2: bool)
    ensures
        ({
            let (r1, e1) = tick_spec(r, t1, false);
            let (r2, e2) = tick_spec(r1, t2, s2);
            !e1 && !e2 && r2.stopped && !tick_spec(done_spec(r2), t2, s2).1
        }),
{
}

/// A stopped reporter stays silent and stopped.
pub proof fn lemma_stopped_is_silent(r: Reporter, t: u64, s: bool)
    requires
        r.stopped,
    ensures
        !tick_spec(r, t, s).1,
        tick_spec(r, t, s).0.stopped,
        !tick_spec(done_spec(r), t, s).1,
{
}

} // verus!
