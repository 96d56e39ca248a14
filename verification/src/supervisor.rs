//! A verified model of the process supervisor.
//!
//! One supervised OpenVPN process is driven by a background task that races
//! the process's own exit against a one-shot shutdown request, and on a
//! request runs a two-phase protocol: close the child's input pipe (the
//! binary takes that as graceful shutdown), wait up to the grace timeout,
//! and only then kill forcefully, always finishing with an unconditional
//! wait so no zombie is left.
//!
//! The decisions of that task are the pure transition function `spec_step_*`
//! and its executable form `Supervisor::step`: from the current phase and an
//! observed event they give the next phase and the ordered actions the
//! runner must perform. The runner itself (pipe handling, the actual waits
//! and the kill) is outside this model; it feeds every outcome back as the
//! next event.

use vstd::prelude::*;

verus! {

/// The exit of the child process: its status code, or none when it was
/// terminated by a signal.
#[derive(Clone, Copy, PartialEq, Eq, Debug)]
pub struct ExitStatus {
    pub code: Option<i32>,
}

/// An operating-system failure observing or terminating the child.
#[derive(Clone, Copy, PartialEq, Eq, Debug)]
pub struct IoError {
    pub code: i32,
}

/// The phase of the supervising task.
#[derive(Clone, Copy, PartialEq, Eq, Debug)]
pub enum Phase {
    /// The process runs; its exit races against a shutdown signal.
    Running,
    /// A shutdown with a grace timeout (milliseconds) was received and the
    /// input pipe was closed; exit is awaited up to the timeout.
    Grace(u64),
    /// A forced kill was issued, because the grace timeout elapsed or
    /// because the signal channel was dropped without one. Its failure is
    /// non-fatal: the unconditional wait that follows decides what `wait`
    /// returns.
    Killing,
    /// Waiting unconditionally for the process to be reaped.
    FinalWait,
    /// The task finished; `wait` returns this result, every time.
    Done(Result<ExitStatus, IoError>),
}

/// An occurrence the supervising task reacts to.
#[derive(Clone, Copy, PartialEq, Eq, Debug)]
pub enum Event {
    /// The process exited on its own before any shutdown signal.
    ExitedEarly(Result<ExitStatus, IoError>),
    /// The shutdown channel fired with a grace timeout in milliseconds, or
    /// was dropped without one.
    Signal(Option<u64>),
    /// The bounded grace wait finished: the process exited within the
    /// timeout (`true`), or the timeout elapsed first (`false`).
    GraceDone(bool),
    /// The forced kill finished, with its failure if any; a failure is
    /// non-fatal, the final wait still decides.
    KillDone(Option<IoError>),
    /// The final unconditional wait finished.
    FinalDone(Result<ExitStatus, IoError>),
}

/// An action the runner must perform, in the order given, after a step.
#[derive(Clone, Copy, PartialEq, Eq, Debug)]
pub enum Action {
    /// Close the child's input pipe, exactly once; the binary takes this as
    /// the graceful-shutdown signal.
    CloseStdin,
    /// Await the process's exit, bounded by the grace timeout in
    /// milliseconds.
    WaitGrace(u64),
    /// Kill the process forcefully.
    Kill,
    /// Await the process's exit unconditionally.
    WaitForExit,
}

/// Whether `e` can occur in phase `p`.
pub open spec fn spec_admissible(p: Phase, e: Event) -> bool {
    match (p, e) {
        (Phase::Running, Event::ExitedEarly(_)) => true,
        (Phase::Running, Event::Signal(_)) => true,
        (Phase::Grace(_), Event::GraceDone(_)) => true,
        (Phase::Killing, Event::KillDone(_)) => true,
        (Phase::FinalWait, Event::FinalDone(_)) => true,
        _ => false,
    }
}

/// The phase after reacting to `e` in phase `p`; an event that cannot occur
/// in `p` changes nothing.
pub open spec fn spec_step_phase(p: Phase, e: Event) -> Phase {
    match (p, e) {
        (Phase::Running, Event::ExitedEarly(r)) => Phase::Done(r),
        (Phase::Running, Event::Signal(Some(t))) => Phase::Grace(t),
        (Phase::Running, Event::Signal(None)) => Phase::Killing,
        (Phase::Grace(_), Event::GraceDone(true)) => Phase::FinalWait,
        (Phase::Grace(_), Event::GraceDone(false)) => Phase::Killing,
        (Phase::Killing, Event::KillDone(_)) => Phase::FinalWait,
        (Phase::FinalWait, Event::FinalDone(r)) => Phase::Done(r),
        _ => p,
    }
}

/// The actions performed while reacting to `e` in phase `p`, in order. The
/// input pipe is closed before anything else of the shutdown path; a kill is
/// issued only after the grace timeout elapsed or when no timeout was given;
/// every kill, failed or not, is followed by the unconditional wait whose
/// outcome the caller receives.
pub open spec fn spec_step_actions(p: Phase, e: Event) -> Seq<Action> {
    match (p, e) {
        (Phase::Running, Event::Signal(Some(t))) => seq![
            Action::CloseStdin,
            Action::WaitGrace(t),
        ],
        (Phase::Running, Event::Signal(None)) => seq![Action::CloseStdin, Action::Kill],
        (Phase::Grace(_), Event::GraceDone(true)) => seq![Action::WaitForExit],
        (Phase::Grace(_), Event::GraceDone(false)) => seq![Action::Kill],
        (Phase::Killing, Event::KillDone(_)) => seq![Action::WaitForExit],
        _ => seq![],
    }
}

/// The result `wait` observes in phase `p`, if the task has finished.
pub open spec fn spec_wait_result(p: Phase) -> Option<Result<ExitStatus, IoError>> {
    match p {
        Phase::Done(r) => Some(r),
        _ => None,
    }
}

/// The caller-facing model of one supervised process: whether the one-shot
/// shutdown request was already consumed, and the phase of the background
/// task.
pub struct Supervisor {
    pub phase: Phase,
    pub shutdown_requested: bool,
}

impl Supervisor {
    /// The model of a process that was just spawned.
    pub fn new() -> (r: Supervisor)
        ensures
            r.phase == Phase::Running,
            !r.shutdown_requested,
    {
        Supervisor { phase: Phase::Running, shutdown_requested: false }
    }

    /// Begins shutdown without waiting for it: returns the grace timeout to
    /// send through the one-shot channel the first time, and nothing on
    /// every later call — the request is idempotent because the channel is
    /// consumed exactly once.
    pub fn request_shutdown(&mut self, timeout_ms: u64) -> (send: Option<u64>)
        ensures
            final(self).phase == old(self).phase,
            final(self).shutdown_requested,
            old(self).shutdown_requested ==> send is None,
            !old(self).shutdown_requested ==> send == Some(timeout_ms),
    {
        if self.shutdown_requested {
            None
        } else {
            self.shutdown_requested = true;
            Some(timeout_ms)
        }
    }

    /// One transition of the background task: reacts to `event` and returns
    /// the actions the runner must perform, in order. An event that cannot
    /// occur in the current phase changes nothing and demands nothing.
    pub fn step(&mut self, event: Event) -> (actions: Vec<Action>)
        ensures
            final(self).phase == spec_step_phase(old(self).phase, event),
            final(self).shutdown_requested == old(self).shutdown_requested,
            actions@ == spec_step_actions(old(self).phase, event),
    {
        let ghost p0 = self.phase;
        let mut actions: Vec<Action> = Vec::new();
        match (self.phase, event) {
            (Phase::Running, Event::ExitedEarly(r)) => {
                self.phase = Phase::Done(r);
            }
            (Phase::Running, Event::Signal(Some(t))) => {
                self.phase = Phase::Grace(t);
                actions.push(Action::CloseStdin);
                actions.push(Action::WaitGrace(t));
            }
            (Phase::Running, Event::Signal(None)) => {
                self.phase = Phase::Killing;
                actions.push(Action::CloseStdin);
                actions.push(Action::Kill);
            }
            (Phase::Grace(_), Event::GraceDone(true)) => {
                self.phase = Phase::FinalWait;
                actions.push(Action::WaitForExit);
            }
            (Phase::Grace(_), Event::GraceDone(false)) => {
                self.phase = Phase::Killing;
                actions.push(Action::Kill);
            }
            (Phase::Killing, Event::KillDone(_)) => {
                self.phase = Phase::FinalWait;
                actions.push(Action::WaitForExit);
            }
            (Phase::FinalWait, Event::FinalDone(r)) => {
                self.phase = Phase::Done(r);
            }
            _ => {}
        }
        proof {
            assert(actions@ =~= spec_step_actions(p0, event));
        }
        actions
    }

    /// The exit result, once the background task has finished; a pure
    /// function of the phase, so repeated calls return the same value.
    pub fn wait_result(&self) -> (r: Option<Result<ExitStatus, IoError>>)
        ensures
            r == spec_wait_result(self.phase),
    {
        match self.phase {
            Phase::Done(r) => Some(r),
            _ => None,
        }
    }
}

/// Once the task has finished, no event moves it: the phase, and with it the
/// result `wait` observes, stays the same and no further action is demanded.
/// Together with `wait_result` being a pure function of the phase, calling
/// `wait` any number of times after exit yields the identical status.
pub proof fn lemma_wait_idempotent(r: Result<ExitStatus, IoError>, e: Event)
    ensures
        spec_step_phase(Phase::Done(r), e) == Phase::Done(r),
        spec_step_actions(Phase::Done(r), e) == Seq::<Action>::empty(),
        spec_wait_result(spec_step_phase(Phase::Done(r), e)) == Some(r),
{
    assert(spec_step_actions(Phase::Done(r), e) =~= Seq::<Action>::empty());
}

/// How far a phase is from the terminal one.
pub open spec fn spec_phase_rank(p: Phase) -> nat {
    match p {
        Phase::Running => 4,
        Phase::Grace(_) => 3,
        Phase::Killing => 2,
        Phase::FinalWait => 1,
        Phase::Done(_) => 0,
    }
}

/// Every admissible event brings the task strictly closer to the terminal
/// phase: a run can react to at most four events before `wait` has its
/// result, so a shutdown request is always answered.
pub proof fn lemma_step_progress(p: Phase, e: Event)
    requires
        spec_admissible(p, e),
    ensures
        spec_phase_rank(spec_step_phase(p, e)) < spec_phase_rank(p),
{
}

/// In no phase before the terminal one is the task stuck: some admissible
/// event exists, because the runner is always awaiting at least one of the
/// process's exit, the shutdown channel, the grace timeout, the kill or the
/// final wait.
pub proof fn lemma_no_deadlock(p: Phase)
    requires
        !(p is Done),
    ensures
        exists|e: Event| spec_admissible(p, e),
{
    match p {
        Phase::Running => {
            assert(spec_admissible(p, Event::Signal(None)));
        }
        Phase::Grace(_) => {
            assert(spec_admissible(p, Event::GraceDone(true)));
        }
        Phase::Killing => {
            assert(spec_admissible(p, Event::KillDone(None)));
        }
        Phase::FinalWait => {
            assert(spec_admissible(p, Event::FinalDone(Ok(ExitStatus { code: None }))));
        }
        Phase::Done(_) => {
        }
    }
}

/// Whether, starting from `p`, each event of `evs` is admissible in the
/// phase it meets.
pub open spec fn spec_all_admissible(p: Phase, evs: Seq<Event>) -> bool
    decreases evs.len(),
{
    evs.len() == 0 || (spec_admissible(p, evs[0]) && spec_all_admissible(
        spec_step_phase(p, evs[0]),
        evs.drop_first(),
    ))
}

/// No run goes on forever: from phase `p` at most `spec_phase_rank(p)`
/// admissible events can occur, so a freshly spawned process is supervised
/// through at most four events before the task is done and `wait` returns.
pub proof fn lemma_run_bounded(p: Phase, evs: Seq<Event>)
    requires
        spec_all_admissible(p, evs),
    ensures
        evs.len() <= spec_phase_rank(p),
    decreases evs.len(),
{
    if evs.len() > 0 {
        lemma_step_progress(p, evs[0]);
        lemma_run_bounded(spec_step_phase(p, evs[0]), evs.drop_first());
    }
}

/// The actions of a whole run: from phase `p`, reacting to the events of
/// `evs` in order.
pub open spec fn spec_run_actions(p: Phase, evs: Seq<Event>) -> Seq<Action>
    decreases evs.len(),
{
    if evs.len() == 0 {
        Seq::empty()
    } else {
        spec_step_actions(p, evs[0]) + spec_run_actions(spec_step_phase(p, evs[0]), evs.drop_first())
    }
}

/// Every forced kill in `acts` comes after a close of the input pipe.
pub open spec fn spec_kills_preceded_by_close(acts: Seq<Action>) -> bool {
    forall|i: int|
        0 <= i < acts.len() && acts[i] == Action::Kill ==> exists|j: int|
            0 <= j < i && acts[j] == Action::CloseStdin
}

/// A finished task reacts to nothing: a run from the terminal phase performs
/// no action at all.
pub proof fn lemma_done_inert(r: Result<ExitStatus, IoError>, evs: Seq<Event>)
    ensures
        spec_run_actions(Phase::Done(r), evs) == Seq::<Action>::empty(),
    decreases evs.len(),
{
    if evs.len() > 0 {
        lemma_done_inert(r, evs.drop_first());
        assert(spec_run_actions(Phase::Done(r), evs) =~= Seq::<Action>::empty());
    }
}

/// In every run of a freshly spawned process, the child's input pipe is
/// closed before any forced kill: the graceful signal always comes first.
pub proof fn lemma_close_precedes_kill(evs: Seq<Event>)
    ensures
        spec_kills_preceded_by_close(spec_run_actions(Phase::Running, evs)),
    decreases evs.len(),
{
    if evs.len() > 0 {
        let e0 = evs[0];
        let rest = evs.drop_first();
        let acts = spec_run_actions(Phase::Running, evs);
        match e0 {
            Event::ExitedEarly(r) => {
                lemma_done_inert(r, rest);
                assert(acts =~= Seq::<Action>::empty());
            }
            Event::Signal(_) => {
                assert(acts[0] == Action::CloseStdin);
                assert forall|i: int| 0 <= i < acts.len() && acts[i] == Action::Kill implies exists|
                    j: int,
                |
                    0 <= j < i && acts[j] == Action::CloseStdin by {
                    assert(i != 0);
                    assert(0 <= 0 < i && acts[0] == Action::CloseStdin);
                };
            }
            _ => {
                lemma_close_precedes_kill(rest);
                assert(acts =~= spec_run_actions(Phase::Running, rest));
            }
        }
    }
}

/// A forced kill is always awaited: right after a step that killed, the next
/// admissible event demands the unconditional wait whose outcome the caller
/// receives — whether or not the kill itself failed, its failure being
/// non-fatal to the wait.
pub proof fn lemma_kill_awaited(p: Phase, e1: Event, e2: Event)
    requires
        spec_admissible(p, e1),
        spec_step_actions(p, e1).contains(Action::Kill),
        spec_admissible(spec_step_phase(p, e1), e2),
    ensures
        spec_step_actions(spec_step_phase(p, e1), e2).contains(Action::WaitForExit),
{
    let q = spec_step_phase(p, e1);
    assert(q is Killing);
    assert(spec_step_actions(q, e2)[0] == Action::WaitForExit);
}

} // verus!
