use vstd::prelude::*;

verus! {

/// No run has started.
pub const INCOMPLETE: u8 = 0x00;

/// A run has been claimed and not yet finished.
pub const RUNNING: u8 = 0x01;

/// A run finished normally; terminal.
pub const COMPLETE: u8 = 0x02;

/// A run failed part way; terminal.
pub const PANICKED: u8 = 0x03;

/// Whether a call that finds the barrier in `status` runs its operation.
pub open spec fn runs(status: u8) -> bool {
    status == INCOMPLETE
}

/// Whether a call that finds the barrier in `status` must fail loudly.
pub open spec fn fails_loudly(status: u8) -> bool {
    status == PANICKED
}

/// The status after one call that found the barrier in `status`; `ok` tells
/// whether the operation, if it ran, finished normally.
pub open spec fn after_call(status: u8, ok: bool) -> u8 {
    if runs(status) {
        if ok { COMPLETE } else { PANICKED }
    } else {
        status
    }
}

/// The status after a series of calls, the i-th of which finishes normally
/// if it runs exactly when `outcomes[i]` holds.
pub open spec fn after_calls(status: u8, outcomes: Seq<bool>) -> u8
    decreases outcomes.len(),
{
    if outcomes.len() == 0 {
        status
    } else {
        after_calls(after_call(status, outcomes[0]), outcomes.drop_first())
    }
}

/// How many calls of a series run their operation.
pub open spec fn runs_in(status: u8, outcomes: Seq<bool>) -> nat
    decreases outcomes.len(),
{
    if outcomes.len() == 0 {
        0
    } else {
        (if runs(status) { 1nat } else { 0nat })
            + runs_in(after_call(status, outcomes[0]), outcomes.drop_first())
    }
}

/// One-time execution barrier.
///
/// The status moves Incomplete -> Running -> Complete or Panicked, and
/// only the caller that claimed the run moves it on.
pub struct Once {
    status: u8,
}

/// Scope-exit sentinel of a claimed run.  It is created armed and, unless
/// disarmed once the operation has finished normally, its release marks the
/// barrier as panicked.
pub struct Finish {
    armed: bool,
}

impl Finish {
    pub closed spec fn is_armed(&self) -> bool {
        self.armed
    }

    /// The operation finished normally: release will complete the barrier.
    pub fn disarm(&mut self)
        ensures
            !final(self).is_armed(),
    {
        self.armed = false;
    }

    /// Ends the run: completes the barrier if disarmed, poisons it otherwise.
    pub fn release(self, once: &mut Once)
        requires
            old(once).status() == RUNNING,
        ensures
            final(once).status() == if self.is_armed() { PANICKED } else { COMPLETE },
    {
        if self.armed {
            once.status = PANICKED;
        } else {
            once.status = COMPLETE;
        }
    }
}

impl Once {
    pub closed spec fn status(&self) -> u8 {
        self.status
    }

    /// The status is one of the four codes.
    pub open spec fn wf(&self) -> bool {
        self.status() <= PANICKED
    }

    pub fn new() -> (r: Self)
        ensures
            r.wf(),
            r.status() == INCOMPLETE,
    {
        Once { status: INCOMPLETE }
    }

    pub fn is_completed(&self) -> (r: bool)
        ensures
            r == (self.status() == COMPLETE),
    {
        self.status == COMPLETE
    }

    /// Whether a failed run poisoned the barrier.
    pub fn is_poisoned(&self) -> (r: bool)
        ensures
            r == fails_loudly(self.status()),
    {
        self.status == PANICKED
    }

    /// Tries to claim the run: moves the status from Incomplete to Running
    /// and hands out an armed sentinel, or reports the status found.
    pub(crate) fn begin(&mut self) -> (r: Result<Finish, u8>)
        requires
            old(self).wf(),
        ensures
            final(self).wf(),
            r is Ok <==> runs(old(self).status()),
            r is Ok ==> final(self).status() == RUNNING && r->Ok_0.is_armed(),
            r is Err ==> r->Err_0 == old(self).status() && *final(self) == *old(self),
    {
        if self.status == INCOMPLETE {
            self.status = RUNNING;
            Ok(Finish { armed: true })
        } else {
            Err(self.status)
        }
    }

    /// Waits for a run in progress to end.  A run in progress could never
    /// end while this caller waits, and a panicked barrier fails loudly, so
    /// neither is allowed here.  Returns `Ok` on a complete barrier and
    /// `Err(INCOMPLETE)` when no run has started.
    pub fn poll(&self) -> (r: Result<(), u8>)
        requires
            self.wf(),
            self.status() != RUNNING,
            !fails_loudly(self.status()),
        ensures
            r is Ok <==> self.status() == COMPLETE,
            r is Err ==> r->Err_0 == INCOMPLETE,
    {
        if self.status == COMPLETE {
            Ok(())
        } else if self.status == INCOMPLETE {
            Err(INCOMPLETE)
        } else {
            unreached()
        }
    }

    /// Runs `f` unless the barrier is complete.  The winner's sentinel marks the
    /// barrier panicked when `f` fails and complete when it succeeds; the
    /// failure is handed back.
    pub fn call<E, F: FnOnce() -> Result<(), E>>(&mut self, f: F) -> (r: Result<(), E>)
        requires
            old(self).wf(),
            old(self).status() != RUNNING,
            !fails_loudly(old(self).status()),
            runs(old(self).status()) ==> f.requires(()),
        ensures
            final(self).wf(),
            final(self).status() == after_call(old(self).status(), r is Ok),
            !runs(final(self).status()),
            runs(old(self).status()) ==> f.ensures((), r),
            !runs(old(self).status()) ==> r is Ok,
    {
        match self.begin() {
            Ok(mut finish) => {
                let res = f();
                if res.is_ok() {
                    finish.disarm();
                }
                finish.release(self);
                res
            },
            Err(status) => {
                if status == COMPLETE {
                    Ok(())
                } else {
                    unreached()
                }
            },
        }
    }

    /// Runs `f` if and only if no call has run an operation on this barrier
    /// yet; afterwards the barrier is complete.
    pub fn call_once<F: FnOnce()>(&mut self, f: F)
        requires
            old(self).wf(),
            old(self).status() != RUNNING,
            !fails_loudly(old(self).status()),
            runs(old(self).status()) ==> f.requires(()),
        ensures
            final(self).wf(),
            final(self).status() == after_call(old(self).status(), true),
            final(self).status() == COMPLETE,
            !runs(final(self).status()),
            runs(old(self).status()) ==> f.ensures((), ()),
    {
        if !self.is_completed() {
            let run = move || -> (r: Result<(), ()>)
                requires
                    f.requires(()),
                ensures
                    r is Ok,
                    f.ensures((), ()),
                {
                    f();
                    Ok(())
                };
            let _ = self.call(run);
        }
    }
}

/// Exactly once: over any series of calls on a fresh barrier, as `new`
/// makes it, the operation runs at most once, and exactly once if any call
/// was made.  Each call moves the status by `after_call` and runs its
/// operation only where `runs` holds, as `call` and `call_once` ensure.
pub proof fn lemma_runs_exactly_once(o: &Once, outcomes: Seq<bool>)
    requires
        o.status() == INCOMPLETE,
    ensures
        runs_in(o.status(), outcomes) == if outcomes.len() == 0 { 0nat } else { 1nat },
{
    if outcomes.len() > 0 {
        let s1 = after_call(INCOMPLETE, outcomes[0]);
        lemma_terminal_stays(s1, outcomes.drop_first());
    }
}

/// Once a barrier has left Incomplete no further call runs an operation and the
/// status never changes again.
proof fn lemma_terminal_stays(status: u8, outcomes: Seq<bool>)
    requires
        !runs(status),
    ensures
        runs_in(status, outcomes) == 0,
        after_calls(status, outcomes) == status,
    decreases outcomes.len(),
{
    if outcomes.len() > 0 {
        lemma_terminal_stays(after_call(status, outcomes[0]), outcomes.drop_first());
    }
}

/// Poison propagates: after a run that fails, every later call finds the
/// barrier panicked and fails loudly, and the barrier never completes.
pub proof fn lemma_poison_propagates(later: Seq<bool>)
    ensures
        forall|i: int|
            0 <= i <= later.len() ==> #[trigger] after_calls(
                after_call(INCOMPLETE, false),
                later.take(i),
            ) == PANICKED,
        forall|i: int|
            0 <= i <= later.len() ==> fails_loudly(
                #[trigger] after_calls(after_call(INCOMPLETE, false), later.take(i)),
            ),
{
    assert forall|i: int| 0 <= i <= later.len() implies #[trigger] after_calls(
        after_call(INCOMPLETE, false),
        later.take(i),
    ) == PANICKED by {
        lemma_terminal_stays(PANICKED, later.take(i));
    }
}

} // verus!
