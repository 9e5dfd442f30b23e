//! The execution controller: one fuzzing iteration, step by step.
//!
//! An iteration has six steps in a fixed order: reset the status signal to
//! `Unknown`, deliver the input, run the target, read and classify the status
//! signal, restore the baseline snapshot, hand the verdict to the fuzz loop.
//! Running the target and restoring the snapshot are blocking calls into the
//! virtualization engine, which the caller makes. The controller decides
//! everything around them and refuses a step that comes out of order.
//! [`ExecutionController::run_iteration`] takes all six steps at once, with
//! the two calls handed in as closures; the other methods take them one by
//! one, for a caller that has to return to its own loop in between.
//!
//! ```text
//!  Starting --restored--> Ready --begin_iteration--> Running
//!                           ^                           |
//!                           |                      complete_run
//!                           |                           v
//!                           +-------restored------- Restoring
//! ```

use vstd::prelude::*;
use crate::channel::{ChannelView, InputBuffer};
use crate::snapshot::SnapshotHandle;
use crate::status::{Classification, Diagnostic, Reading, RestoreTier, StatusSignal, Verdict};

verus! {

/// Where a controller stands in the cycle of iterations.
#[derive(Clone, Copy, Debug, PartialEq, Eq, Structural)]
pub enum Phase {
    /// Created; the baseline snapshot has not been loaded yet.
    Starting,
    /// The target is at its baseline; the next iteration may begin.
    Ready,
    /// The status signal is reset and the input delivered; the target runs.
    Running,
    /// The run is classified; the restore it calls for is under way.
    Restoring(Classification),
}

/// How the engine's run primitive ended, as the caller observed it.
#[derive(Clone, Copy, Debug, PartialEq, Eq, Structural)]
pub enum RunOutcome {
    /// The run returned; the status signal held this integer afterwards.
    Returned(u32),
    /// The caller's wall-clock bound expired before the run returned.
    TimedOut,
}

/// A step was asked for in a phase that does not allow it.
#[derive(Clone, Copy, Debug, PartialEq, Eq, Structural)]
pub struct SequenceError {
    /// The phase in which the controller was, and still is.
    pub found: Phase,
}

/// What one iteration came to.
#[derive(Clone, Copy, Debug, PartialEq, Eq, Structural)]
pub struct IterationReport {
    /// How the run ended.
    pub outcome: RunOutcome,
    /// What the harness decided from it. Its verdict is the iteration's.
    pub classification: Classification,
}

impl RunOutcome {
    /// The classification of a run that ended this way. A run that returned
    /// is classified by the status signal; one that timed out is a timeout,
    /// whatever the status signal holds.
    pub open spec fn classification(self) -> Classification {
        match self {
            RunOutcome::Returned(raw) => Classification::of_raw(raw),
            RunOutcome::TimedOut => Classification::spec_forced_timeout(),
        }
    }
}

/// The state of a controller.
pub struct ControllerView {
    /// The input channel.
    pub channel: ChannelView,
    /// The status signal's field: the integer that was last written to it.
    pub status: u32,
    /// Name of the baseline snapshot.
    pub baseline: Seq<char>,
    /// The phase.
    pub phase: Phase,
}

impl ControllerView {
    /// What holds of every controller: the channel is well formed, and while
    /// the target runs the harness's copy of the status signal is `Unknown`.
    pub open spec fn wf(self) -> bool {
        &&& self.channel.wf()
        &&& self.phase == Phase::Running ==> self.status == StatusSignal::Unknown.spec_code()
    }

    /// Whether the target is known to be at its baseline snapshot.
    pub open spec fn at_baseline(self) -> bool {
        self.phase == Phase::Ready
    }

    /// The state after an iteration began with `input`: the status signal is
    /// reset and the input delivered. `None` where the phase does not allow it.
    pub open spec fn begin(self, input: Seq<u8>) -> Option<ControllerView> {
        if self.phase == Phase::Ready {
            Some(
                ControllerView {
                    channel: self.channel.deliver(input),
                    status: StatusSignal::Unknown.spec_code(),
                    phase: Phase::Running,
                    ..self
                },
            )
        } else {
            None
        }
    }

    /// The state after the run ended with `outcome` and was classified. A
    /// status that was read is kept in the status field. `None` where the phase
    /// does not allow it.
    pub open spec fn complete(self, outcome: RunOutcome) -> Option<ControllerView> {
        if self.phase == Phase::Running {
            Some(
                ControllerView {
                    status: match outcome {
                        RunOutcome::Returned(raw) => raw,
                        RunOutcome::TimedOut => self.status,
                    },
                    phase: Phase::Restoring(outcome.classification()),
                    ..self
                },
            )
        } else {
            None
        }
    }

    /// The state after the engine restored the baseline, with the verdict that
    /// is then handed out. The first load of the baseline ends no iteration
    /// and hands out no verdict. `None` where the phase does not allow it.
    pub open spec fn restore(self) -> Option<(ControllerView, Option<Verdict>)> {
        match self.phase {
            Phase::Starting => Some((ControllerView { phase: Phase::Ready, ..self }, None)),
            Phase::Restoring(c) => Some(
                (ControllerView { phase: Phase::Ready, ..self }, Some(c.verdict)),
            ),
            _ => None,
        }
    }
}

impl ControllerView {
    /// The state after a whole iteration on `input` whose run ended with
    /// `outcome`: the channel holds the input, the status field holds what was
    /// read (`Unknown` where nothing was read), and the target is back at its
    /// baseline.
    pub open spec fn iterate(self, input: Seq<u8>, outcome: RunOutcome) -> ControllerView {
        ControllerView {
            channel: self.channel.deliver(input),
            status: match outcome {
                RunOutcome::Returned(raw) => raw,
                RunOutcome::TimedOut => StatusSignal::Unknown.spec_code(),
            },
            phase: Phase::Ready,
            ..self
        }
    }
}

/// Drives the iterations of one worker.
#[derive(Debug)]
pub struct ExecutionController {
    channel: InputBuffer,
    status: u32,
    baseline: SnapshotHandle,
    phase: Phase,
}

impl View for ExecutionController {
    type V = ControllerView;

    closed spec fn view(&self) -> ControllerView {
        ControllerView {
            channel: self.channel@,
            status: self.status,
            baseline: self.baseline@,
            phase: self.phase,
        }
    }
}

impl ExecutionController {
    /// A controller for the snapshot `baseline`, with an empty channel of
    /// `capacity` bytes. The baseline has yet to be loaded.
    pub fn new(capacity: usize, baseline: SnapshotHandle) -> (controller: ExecutionController)
        ensures
            controller@.wf(),
            controller@.phase == Phase::Starting,
            controller@.status == StatusSignal::Unknown.spec_code(),
            controller@.baseline == baseline@,
            controller@.channel.len == 0,
            controller@.channel.region == Seq::new(capacity as nat, |i: int| 0u8),
    {
        ExecutionController {
            channel: InputBuffer::new(capacity),
            status: StatusSignal::Unknown.code(),
            baseline,
            phase: Phase::Starting,
        }
    }

    /// The phase.
    pub fn phase(&self) -> (phase: Phase)
        ensures
            phase == self@.phase,
    {
        self.phase
    }

    /// Whether the target is known to be at its baseline snapshot. Where it
    /// is not, a restore is due before the worker may stop.
    pub fn at_baseline(&self) -> (clean: bool)
        ensures
            clean == self@.at_baseline(),
    {
        match self.phase {
            Phase::Ready => true,
            _ => false,
        }
    }

    /// The input channel, for the caller to show to the target.
    pub fn channel(&self) -> (channel: &InputBuffer)
        ensures
            channel@ == self@.channel,
    {
        &self.channel
    }

    /// The integer in the status field, for the caller to show to the target.
    pub fn status_code(&self) -> (raw: u32)
        ensures
            raw == self@.status,
    {
        self.status
    }

    /// The status field as a reading.
    pub fn status(&self) -> (reading: Reading)
        ensures
            reading == Reading::spec_of_raw(self@.status),
    {
        Reading::of_raw(self.status)
    }

    /// The baseline snapshot.
    pub fn baseline(&self) -> (baseline: &SnapshotHandle)
        ensures
            baseline@ == self@.baseline,
    {
        &self.baseline
    }

    /// The start of an iteration: resets the status signal to `Unknown`
    /// and delivers `input`. Afterwards the caller runs the target.
    ///
    /// Allowed in phase `Ready` only. In any other phase nothing changes and
    /// the error names the phase.
    pub fn begin_iteration(&mut self, input: &[u8]) -> (started: Result<(), SequenceError>)
        ensures
            old(self)@.wf() || started is Ok ==> final(self)@.wf(),
            match old(self)@.begin(input@) {
                Some(next) => started is Ok && final(self)@ == next,
                None => started == Err::<(), SequenceError>(SequenceError { found: old(self)@.phase })
                    && final(self)@ == old(self)@,
            },
            started is Ok ==> final(self)@.status == StatusSignal::Unknown.spec_code(),
    {
        proof {
            use_type_invariant(&self.channel);
        }
        match self.phase {
            Phase::Ready => {
                self.status = StatusSignal::Unknown.code();
                self.channel.deliver(input);
                self.phase = Phase::Running;
                Ok(())
            },
            found => Err(SequenceError { found }),
        }
    }

    /// The middle of an iteration: takes what the caller observed of the run,
    /// classifies it and returns the classification. Afterwards the caller
    /// reports the diagnostic, if there is one, and restores the baseline.
    ///
    /// Allowed in phase `Running` only. In any other phase nothing changes and
    /// the error names the phase.
    pub fn complete_run(&mut self, outcome: RunOutcome) -> (classified: Result<
        Classification,
        SequenceError,
    >)
        ensures
            old(self)@.wf() || classified is Ok ==> final(self)@.wf(),
            match old(self)@.complete(outcome) {
                Some(next) => classified == Ok::<Classification, SequenceError>(
                    outcome.classification(),
                ) && final(self)@ == next,
                None => classified == Err::<Classification, SequenceError>(
                    SequenceError { found: old(self)@.phase },
                ) && final(self)@ == old(self)@,
            },
    {
        proof {
            use_type_invariant(&self.channel);
        }
        match self.phase {
            Phase::Running => {
                let classification = match outcome {
                    RunOutcome::Returned(raw) => {
                        self.status = raw;
                        crate::status::classify(raw)
                    },
                    RunOutcome::TimedOut => Classification::forced_timeout(),
                };
                self.phase = Phase::Restoring(classification);
                Ok(classification)
            },
            found => Err(SequenceError { found }),
        }
    }

    /// The end of an iteration: takes note that the engine restored the
    /// baseline snapshot and hands out the verdict of the iteration that this
    /// ends. After the first load of the baseline there is no such iteration,
    /// and the result is `None`.
    ///
    /// Allowed in the phases `Starting` and `Restoring` only. In any other
    /// phase nothing changes and the error names the phase.
    pub fn restored(&mut self) -> (verdict: Result<Option<Verdict>, SequenceError>)
        ensures
            old(self)@.wf() || verdict is Ok ==> final(self)@.wf(),
            match old(self)@.restore() {
                Some((next, handed)) => verdict == Ok::<Option<Verdict>, SequenceError>(handed)
                    && final(self)@ == next,
                None => verdict == Err::<Option<Verdict>, SequenceError>(
                    SequenceError { found: old(self)@.phase },
                ) && final(self)@ == old(self)@,
            },
            verdict is Ok ==> final(self)@.at_baseline(),
    {
        proof {
            use_type_invariant(&self.channel);
        }
        match self.phase {
            Phase::Starting => {
                self.phase = Phase::Ready;
                Ok(None)
            },
            Phase::Restoring(classification) => {
                self.phase = Phase::Ready;
                Ok(Some(classification.verdict))
            },
            found => Err(SequenceError { found }),
        }
    }

    /// One whole iteration on `input`, all six steps in their order.
    ///
    /// The two blocking calls into the engine are the caller's: `run` shows
    /// the channel and the status field to the target, runs it and says how
    /// the run ended; `load_snapshot` reloads the snapshot of the given name.
    /// `run` is called once, after the status signal was reset and the input
    /// delivered; `load_snapshot` is called once after it, with the name of the
    /// baseline, whatever `run` said.
    ///
    /// Allowed in phase `Ready` only. In any other phase neither of the two is
    /// called, nothing changes, and the error names the phase.
    pub fn run_iteration<R, L>(&mut self, input: &[u8], run: R, load_snapshot: L) -> (report: Result<
        IterationReport,
        SequenceError,
    >) where R: FnOnce(&InputBuffer, u32) -> RunOutcome, L: FnOnce(&str, RestoreTier) -> ()
        requires
            forall|channel: &InputBuffer, status: u32| run.requires((channel, status)),
            forall|name: &str, tier: RestoreTier| load_snapshot.requires((name, tier)),
        ensures
            old(self)@.wf() || report is Ok ==> final(self)@.wf(),
            old(self)@.phase != Phase::Ready ==> report == Err::<IterationReport, SequenceError>(
                SequenceError { found: old(self)@.phase },
            ) && final(self)@ == old(self)@,
            old(self)@.phase == Phase::Ready ==> (report matches Ok(r) && {
                &&& r.classification == r.outcome.classification()
                &&& final(self)@ == old(self)@.iterate(input@, r.outcome)
                &&& final(self)@.at_baseline()
                &&& exists|shown: InputBuffer|
                    shown@ == old(self)@.channel.deliver(input@) && #[trigger] run.ensures(
                        (&shown, StatusSignal::Unknown.spec_code()),
                        r.outcome,
                    )
                &&& exists|name: &str|
                    name@ == old(self)@.baseline && #[trigger] load_snapshot.ensures(
                        (name, r.classification.restore),
                        (),
                    )
            }),
    {
        match self.begin_iteration(input) {
            Ok(()) => {},
            Err(e) => {
                return Err(e);
            },
        }
        let ghost shown = self.channel;
        let outcome = run(&self.channel, self.status);
        assert(run.ensures((&shown, StatusSignal::Unknown.spec_code()), outcome));
        let classification = match self.complete_run(outcome) {
            Ok(classification) => classification,
            Err(e) => {
                return Err(e);
            },
        };
        let name = self.baseline.name();
        load_snapshot(name, classification.restore);
        assert(load_snapshot.ensures((name, classification.restore), ()));
        match self.restored() {
            Ok(_) => Ok(IterationReport { outcome, classification }),
            Err(e) => Err(e),
        }
    }
}

/// The three steps of an iteration, taken in order from a ready controller,
/// all succeed. While the target runs the status signal is `Unknown`,
/// whatever it held before; the verdict is handed out by the last step only,
/// together with the return to the baseline; and the state at the end is what
/// [`ControllerView::iterate`] says.
pub proof fn law_iteration_steps(start: ControllerView, input: Seq<u8>, outcome: RunOutcome)
    requires
        start.phase == Phase::Ready,
    ensures
        start.begin(input) matches Some(running) && {
            &&& running.phase == Phase::Running
            &&& running.status == StatusSignal::Unknown.spec_code()
            &&& running.channel == start.channel.deliver(input)
            &&& !running.at_baseline()
            &&& running.complete(outcome) matches Some(restoring) && {
                &&& restoring.phase == Phase::Restoring(outcome.classification())
                &&& !restoring.at_baseline()
                &&& restoring.restore() == Some(
                    (start.iterate(input, outcome), Some(outcome.classification().verdict)),
                )
            }
        },
        start.iterate(input, outcome).at_baseline(),
{
}

/// The verdict of an iteration whose run returned with a signal of the
/// protocol: `Completed`, `Timeout` and `Crash` give `Normal`, `Timeout` and
/// `Crash`; `Unknown` and `GuestFault` give `Normal`, each with a diagnostic
/// of its own, and only `GuestFault` is followed by the corrective restore.
pub proof fn law_verdict_follows_signal(signal: StatusSignal)
    ensures
        RunOutcome::Returned(signal.spec_code()).classification() == Classification::of(
            Reading::Reported(signal),
        ),
        ({
            let c = RunOutcome::Returned(signal.spec_code()).classification();
            &&& signal == StatusSignal::Completed ==> c.verdict == Verdict::Normal && c.diagnostic
                is None
            &&& signal == StatusSignal::Timeout ==> c.verdict == Verdict::Timeout && c.diagnostic
                is None
            &&& signal == StatusSignal::Crash ==> c.verdict == Verdict::Crash && c.diagnostic
                is None
            &&& signal == StatusSignal::Unknown ==> c.verdict == Verdict::Normal && c.diagnostic
                == Some(Diagnostic::StatusNotSet)
            &&& signal == StatusSignal::GuestFault ==> c.verdict == Verdict::Normal
                && c.diagnostic == Some(Diagnostic::GuestFault)
            &&& c.restore == RestoreTier::Corrective <==> signal == StatusSignal::GuestFault
        }),
{
}

/// A run that the caller's timeout cut short is a timeout followed by the
/// standard restore, whatever the status signal holds.
pub proof fn law_timed_out_run(start: ControllerView, input: Seq<u8>)
    requires
        start.phase == Phase::Ready,
    ensures
        RunOutcome::TimedOut.classification().verdict == Verdict::Timeout,
        RunOutcome::TimedOut.classification().restore == RestoreTier::Standard,
        start.iterate(input, RunOutcome::TimedOut).at_baseline(),
{
}

/// Every step keeps a controller well formed: in each state that the steps
/// can reach, the status signal is `Unknown` while the target runs.
pub proof fn law_steps_keep_wf(state: ControllerView, input: Seq<u8>, outcome: RunOutcome)
    requires
        state.wf(),
    ensures
        state.begin(input) matches Some(next) ==> next.wf(),
        state.complete(outcome) matches Some(next) ==> next.wf(),
        state.restore() matches Some((next, _)) ==> next.wf(),
{
}

/// Each phase allows exactly one kind of step: an iteration begins only when
/// the target is at its baseline, a run ends only while the target runs, and
/// a restore is taken note of only when one is due.
pub proof fn law_steps_come_in_order(state: ControllerView, input: Seq<u8>, outcome: RunOutcome)
    ensures
        state.begin(input) is Some <==> state.phase == Phase::Ready,
        state.complete(outcome) is Some <==> state.phase == Phase::Running,
        state.restore() is Some <==> (state.phase == Phase::Starting || state.phase is Restoring),
        state.restore() matches Some((next, _)) ==> next.at_baseline(),
        state.restore() matches Some((_, Some(verdict))) ==> state.phase matches Phase::Restoring(c)
            && c.verdict == verdict,
{
}

} // verus!
