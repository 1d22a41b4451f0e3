use vstd::prelude::*;

verus! {

/// How the last build ended.
#[derive(Clone, Copy, Debug, PartialEq, Eq, Structural)]
pub enum BuildOutcome {
    Success,
    Failure,
}

/// Where a session stands.
#[derive(Clone, Copy, Debug, PartialEq, Eq, Structural)]
pub enum Phase {
    /// Nothing has happened yet.
    Created,
    /// Waiting for the file watcher to be set up.
    Subscribing,
    /// Watching, with no build running.
    Idle,
    /// A build is running.
    Building,
    /// The session is over.
    Done,
}

/// What happened, as far as the session's decisions go.
#[derive(Clone, Copy, Debug, PartialEq, Eq, Structural)]
pub enum Signal {
    Start,
    WatchReady,
    WatchFailed,
    Changed,
    BuildSucceeded,
    BuildFailed,
    Cancelled,
}

/// Why a session ended.
#[derive(Clone, Copy, Debug, PartialEq, Eq, Structural)]
pub enum StopReason {
    Completed,
    BuildFailed,
    WatchSetupFailed,
}

/// What the caller does next.
#[derive(Clone, Copy, Debug, PartialEq, Eq, Structural)]
pub enum Decision {
    /// Ask the file watcher for the session's paths.
    Subscribe,
    /// Run one build.
    Build,
    /// Wait for the next event.
    Wait,
    /// End the session.
    Stop(StopReason),
}

/// State of a single build or of a watch session. At most one build runs at
/// a time; changes that arrive during a build are remembered as one pending
/// rebuild.
#[derive(Clone, Copy, Debug, PartialEq, Eq)]
pub struct SessionState {
    pub watch: bool,
    pub phase: Phase,
    /// A change arrived while the current build was running.
    pub pending: bool,
    /// Cancellation arrived while the current build was running.
    pub cancelled: bool,
    pub last_outcome: Option<BuildOutcome>,
}

pub open spec fn is_finish(sig: Signal) -> bool {
    sig == Signal::BuildSucceeded || sig == Signal::BuildFailed
}

impl SessionState {
    pub open spec fn initial(watch: bool) -> SessionState {
        SessionState {
            watch,
            phase: Phase::Created,
            pending: false,
            cancelled: false,
            last_outcome: None,
        }
    }

    pub open spec fn in_progress(self) -> bool {
        self.phase == Phase::Building
    }

    /// The session's transition: the next state and the decision taken.
    pub open spec fn next(self, sig: Signal) -> (SessionState, Decision) {
        if self.phase == Phase::Done {
            (self, Decision::Wait)
        } else if sig == Signal::Cancelled {
            if self.phase == Phase::Building {
                (SessionState { cancelled: true, pending: false, ..self }, Decision::Wait)
            } else {
                (SessionState { phase: Phase::Done, ..self }, Decision::Stop(StopReason::Completed))
            }
        } else {
            match (self.phase, sig) {
                (Phase::Created, Signal::Start) => if self.watch {
                    (SessionState { phase: Phase::Subscribing, ..self }, Decision::Subscribe)
                } else {
                    (SessionState { phase: Phase::Building, ..self }, Decision::Build)
                },
                (Phase::Subscribing, Signal::WatchReady) => (
                    SessionState { phase: Phase::Building, ..self },
                    Decision::Build,
                ),
                (Phase::Subscribing, Signal::WatchFailed) => (
                    SessionState { phase: Phase::Done, ..self },
                    Decision::Stop(StopReason::WatchSetupFailed),
                ),
                (Phase::Idle, Signal::Changed) => (
                    SessionState { phase: Phase::Building, ..self },
                    Decision::Build,
                ),
                (Phase::Building, Signal::Changed) => (
                    SessionState { pending: true, ..self },
                    Decision::Wait,
                ),
                (Phase::Building, Signal::BuildSucceeded) => self.finish(BuildOutcome::Success),
                (Phase::Building, Signal::BuildFailed) => self.finish(BuildOutcome::Failure),
                _ => (self, Decision::Wait),
            }
        }
    }

    /// The running build has ended with `outcome`.
    pub open spec fn finish(self, outcome: BuildOutcome) -> (SessionState, Decision) {
        let s = SessionState { last_outcome: Some(outcome), ..self };
        if !self.watch {
            let reason = if outcome == BuildOutcome::Failure {
                StopReason::BuildFailed
            } else {
                StopReason::Completed
            };
            (SessionState { phase: Phase::Done, ..s }, Decision::Stop(reason))
        } else if self.cancelled {
            (SessionState { phase: Phase::Done, ..s }, Decision::Stop(StopReason::Completed))
        } else if self.pending {
            (SessionState { pending: false, ..s }, Decision::Build)
        } else {
            (SessionState { phase: Phase::Idle, ..s }, Decision::Wait)
        }
    }

    /// A new session, in watch mode or for a single build.
    pub fn new(watch: bool) -> (r: SessionState)
        ensures
            r == SessionState::initial(watch),
    {
        SessionState {
            watch,
            phase: Phase::Created,
            pending: false,
            cancelled: false,
            last_outcome: None,
        }
    }

    fn finish_build(&mut self, outcome: BuildOutcome) -> (r: Decision)
        ensures
            (*final(self), r) == old(self).finish(outcome),
    {
        self.last_outcome = Some(outcome);
        if !self.watch {
            self.phase = Phase::Done;
            if outcome == BuildOutcome::Failure {
                Decision::Stop(StopReason::BuildFailed)
            } else {
                Decision::Stop(StopReason::Completed)
            }
        } else if self.cancelled {
            self.phase = Phase::Done;
            Decision::Stop(StopReason::Completed)
        } else if self.pending {
            self.pending = false;
            Decision::Build
        } else {
            self.phase = Phase::Idle;
            Decision::Wait
        }
    }

    /// Takes `sig` into account and says what to do next.
    pub fn step(&mut self, sig: Signal) -> (r: Decision)
        ensures
            (*final(self), r) == old(self).next(sig),
    {
        if self.phase == Phase::Done {
            return Decision::Wait;
        }
        if sig == Signal::Cancelled {
            if self.phase == Phase::Building {
                self.cancelled = true;
                self.pending = false;
                return Decision::Wait;
            } else {
                self.phase = Phase::Done;
                return Decision::Stop(StopReason::Completed);
            }
        }
        match (self.phase, sig) {
            (Phase::Created, Signal::Start) => {
                if self.watch {
                    self.phase = Phase::Subscribing;
                    Decision::Subscribe
                } else {
                    self.phase = Phase::Building;
                    Decision::Build
                }
            },
            (Phase::Subscribing, Signal::WatchReady) => {
                self.phase = Phase::Building;
                Decision::Build
            },
            (Phase::Subscribing, Signal::WatchFailed) => {
                self.phase = Phase::Done;
                Decision::Stop(StopReason::WatchSetupFailed)
            },
            (Phase::Idle, Signal::Changed) => {
                self.phase = Phase::Building;
                Decision::Build
            },
            (Phase::Building, Signal::Changed) => {
                self.pending = true;
                Decision::Wait
            },
            (Phase::Building, Signal::BuildSucceeded) => self.finish_build(BuildOutcome::Success),
            (Phase::Building, Signal::BuildFailed) => self.finish_build(BuildOutcome::Failure),
            _ => Decision::Wait,
        }
    }
}

/// The session after the signals `sigs`, one after the other, and the
/// number of builds that it started on the way.
pub open spec fn run(s: SessionState, sigs: Seq<Signal>) -> (SessionState, nat)
    decreases sigs.len(),
{
    if sigs.len() == 0 {
        (s, 0)
    } else {
        let (t, d) = s.next(sigs[0]);
        let (u, n) = run(t, sigs.drop_first());
        (u, if d == Decision::Build { n + 1 } else { n })
    }
}

/// `n` change notifications in a row.
pub open spec fn changes(n: nat) -> Seq<Signal> {
    Seq::new(n, |i: int| Signal::Changed)
}

proof fn run_concat(s: SessionState, a: Seq<Signal>, b: Seq<Signal>)
    ensures
        run(s, a + b) == (run(run(s, a).0, b).0, run(s, a).1 + run(run(s, a).0, b).1),
    decreases a.len(),
{
    if a.len() > 0 {
        let t = s.next(a[0]).0;
        assert((a + b).drop_first() =~= a.drop_first() + b);
        run_concat(t, a.drop_first(), b);
    } else {
        assert(a + b =~= b);
    }
}

/// Changes that arrive while a build runs start nothing: together they
/// leave a single pending rebuild.
pub proof fn changes_during_build_coalesce(s: SessionState, n: nat)
    requires
        s.watch,
        s.phase == Phase::Building,
        !s.cancelled,
    ensures
        run(s, changes(n)) == (SessionState { pending: s.pending || n > 0, ..s }, 0nat),
    decreases n,
{
    if n > 0 {
        let t = s.next(Signal::Changed).0;
        assert(changes(n).drop_first() =~= changes((n - 1) as nat));
        changes_during_build_coalesce(t, (n - 1) as nat);
    }
}

/// However many changes arrive while a build runs, at most one rebuild
/// follows it; once that one has ended too, the session is back to
/// watching with nothing pending.
pub proof fn rebuilds_coalesce(s: SessionState, n: nat, first: Signal, second: Signal)
    requires
        s.watch,
        s.phase == Phase::Building,
        !s.cancelled,
        is_finish(first),
        is_finish(second),
    ensures
        run(s, changes(n).push(first).push(second)).1 == (if s.pending || n > 0 {
            1nat
        } else {
            0nat
        }),
        run(s, changes(n).push(first).push(second)).0.phase == Phase::Idle,
        !run(s, changes(n).push(first).push(second)).0.pending,
{
    reveal_with_fuel(run, 3);
    let tail = seq![first, second];
    assert(changes(n).push(first).push(second) =~= changes(n) + tail);
    run_concat(s, changes(n), tail);
    changes_during_build_coalesce(s, n);
    let t = SessionState { pending: s.pending || n > 0, ..s };
    let u = t.next(first).0;
    assert(tail.drop_first() =~= seq![second]);
    assert(seq![second].drop_first() =~= Seq::<Signal>::empty());
}

/// A build is started only when none is running, or just as the running one
/// has ended: no two builds overlap.
pub proof fn builds_never_overlap(s: SessionState, sig: Signal)
    ensures
        s.next(sig).1 == Decision::Build ==> (s.phase != Phase::Building || is_finish(sig))
            && s.next(sig).0.phase == Phase::Building,
{
}

/// In watch mode a failed build is recorded and the session goes on
/// watching; a single build that fails ends the session with that failure.
pub proof fn failed_build_outcome(s: SessionState)
    requires
        s.phase == Phase::Building,
    ensures
        s.next(Signal::BuildFailed).0.last_outcome == Some(BuildOutcome::Failure),
        s.watch && !s.cancelled ==> s.next(Signal::BuildFailed).0.phase != Phase::Done
            && !(s.next(Signal::BuildFailed).1 is Stop),
        !s.watch ==> s.next(Signal::BuildFailed).1 == Decision::Stop(StopReason::BuildFailed),
{
}

} // verus!
