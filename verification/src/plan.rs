//! Launch plans: the processes a launcher starts, in order, and the machine
//! that hands them out one by one and decides, from how each went, what to
//! do next.
use vstd::prelude::*;
use crate::config::Platform;
use crate::text::{concat3, strs};

verus! {

/// How a process is run.
#[derive(Debug, Clone, Copy, PartialEq, Eq)]
pub enum RunMode {
    /// Started and left running; a failure to start stops the launch.
    Detached,
    /// Started and waited for; a failure to start or to wait stops the launch.
    Awaited,
    /// Run to completion with its output captured; any failure is ignored.
    Ignored,
}

/// How the error of a failed process is reported.
#[derive(Debug, PartialEq, Eq)]
pub enum Failure {
    /// The operating system's error text as it is.
    Raw,
    /// The operating system's error text between `before` and `after`.
    Framed { before: String, after: String },
}

pub enum FailureSpec {
    Raw,
    Framed(Seq<char>, Seq<char>),
}

impl View for Failure {
    type V = FailureSpec;

    open spec fn view(&self) -> FailureSpec {
        match self {
            Failure::Raw => FailureSpec::Raw,
            Failure::Framed { before, after } => FailureSpec::Framed(before@, after@),
        }
    }
}

/// One process to start: program, arguments and how it is run.
#[derive(Debug, PartialEq, Eq)]
pub struct ProcessCall {
    pub program: String,
    pub args: Vec<String>,
    pub mode: RunMode,
    pub failure: Failure,
    /// Start the process without a console window (Windows only).
    pub hidden_console: bool,
}

pub struct CallSpec {
    pub program: Seq<char>,
    pub args: Seq<Seq<char>>,
    pub mode: RunMode,
    pub failure: FailureSpec,
    pub hidden_console: bool,
}

impl View for ProcessCall {
    type V = CallSpec;

    open spec fn view(&self) -> CallSpec {
        CallSpec {
            program: self.program@,
            args: strs(self.args@),
            mode: self.mode,
            failure: self.failure@,
            hidden_console: self.hidden_console,
        }
    }
}

/// A visible process call with the given program, arguments, mode and failure report.
pub open spec fn call_spec(
    program: Seq<char>,
    args: Seq<Seq<char>>,
    mode: RunMode,
    failure: FailureSpec,
) -> CallSpec {
    CallSpec { program, args, mode, failure, hidden_console: false }
}

/// The calls of `v`, seen through their views.
pub open spec fn calls(v: Seq<ProcessCall>) -> Seq<CallSpec> {
    v.map_values(|c: ProcessCall| c@)
}

/// The message reported when a call fails with the operating system error `err`.
pub open spec fn failure_message(f: FailureSpec, err: Seq<char>) -> Seq<char> {
    match f {
        FailureSpec::Raw => err,
        FailureSpec::Framed(before, after) => before + err + after,
    }
}

pub fn process_call(
    program: String,
    args: Vec<String>,
    mode: RunMode,
    failure: Failure,
) -> (r: ProcessCall)
    ensures
        r@ == call_spec(program@, strs(args@), mode, failure@),
{
    ProcessCall { program, args, mode, failure, hidden_console: false }
}

pub fn framed(before: &str, after: &str) -> (r: Failure)
    ensures
        r@ == FailureSpec::Framed(before@, after@),
{
    Failure::Framed { before: String::from_str(before), after: String::from_str(after) }
}

/// Appends `c` to the plan `v`.
pub fn push_call(v: &mut Vec<ProcessCall>, c: ProcessCall)
    ensures
        calls(final(v)@) == calls(old(v)@).push(c@),
{
    v.push(c);
    assert(calls(v@) =~= calls(old(v)@).push(v@.last()@));
}

/// Appends the calls of `w` to the plan `v`, in order.
pub fn append_calls(v: &mut Vec<ProcessCall>, w: Vec<ProcessCall>)
    ensures
        calls(final(v)@) == calls(old(v)@) + calls(w@),
{
    let ghost w0 = w@;
    let mut w = w;
    let n = w.len();
    let mut i: usize = 0;
    while i < n
        invariant
            n == w0.len(),
            i <= n,
            w@ == w0.skip(i as int),
            calls(v@) == calls(old(v)@) + calls(w0.take(i as int)),
        decreases n - i,
    {
        let c = w.remove(0);
        assert(c == w0[i as int]);
        assert(w@ =~= w0.skip(i + 1));
        push_call(v, c);
        assert(calls(w0.take(i + 1)) =~= calls(w0.take(i as int)).push(c@));
        i = i + 1;
    }
    assert(w0.take(n as int) =~= w0);
}

/// The environment a launch is planned in.
pub struct LaunchEnv {
    pub platform: Platform,
    /// The user's home directory, if one is known.
    pub home: Option<String>,
    /// The shell that panes run when the plan needs one.
    pub shell: String,
}

// ──────────────────────────── launch plans ─────────────────────────────────

/// What a launcher asks for: the calls to make, or the reason it refuses.
pub type Attempt = Result<Vec<ProcessCall>, String>;

pub type AttemptSpec = Result<Seq<CallSpec>, Seq<char>>;

pub open spec fn attempt_view(a: Attempt) -> AttemptSpec {
    match a {
        Ok(v) => Ok(calls(v@)),
        Err(m) => Err(m@),
    }
}

/// A launch: one attempt, and possibly a second one that is made when the
/// first is refused or one of its calls fails.
pub struct LaunchPlan {
    pub attempt: Attempt,
    pub fallback: Option<Attempt>,
}

pub struct PlanSpec {
    pub attempt: AttemptSpec,
    pub fallback: Option<AttemptSpec>,
}

impl View for LaunchPlan {
    type V = PlanSpec;

    open spec fn view(&self) -> PlanSpec {
        PlanSpec {
            attempt: attempt_view(self.attempt),
            fallback: match self.fallback {
                Some(a) => Some(attempt_view(a)),
                None => None,
            },
        }
    }
}

// ───────────────────────────── execution ───────────────────────────────────

/// What the launcher asks of whoever runs it.
#[derive(Debug, PartialEq, Eq)]
pub enum Action {
    /// Run this process and report how it went.
    Run(ProcessCall),
    /// The launch is over, with this result.
    Finish(Result<(), String>),
}

pub enum ActionSpec {
    Run(CallSpec),
    Finish(Result<(), Seq<char>>),
}

impl View for Action {
    type V = ActionSpec;

    open spec fn view(&self) -> ActionSpec {
        match self {
            Action::Run(c) => ActionSpec::Run(c@),
            Action::Finish(Ok(())) => ActionSpec::Finish(Ok(())),
            Action::Finish(Err(m)) => ActionSpec::Finish(Err(m@)),
        }
    }
}

pub struct ExecState {
    /// Calls of the current attempt not yet handed out, in order.
    pub pending: Seq<CallSpec>,
    /// The mode and failure report of the call handed out last, until its outcome is known.
    pub current: Option<(RunMode, FailureSpec)>,
    pub fallback: Option<AttemptSpec>,
    pub finished: Option<Result<(), Seq<char>>>,
}

/// The state in which an attempt begins; a refused attempt gives way to the
/// fallback if there is one, and otherwise ends the launch with its reason.
pub open spec fn enter_spec(attempt: AttemptSpec, fallback: Option<AttemptSpec>) -> ExecState {
    match attempt {
        Ok(steps) => ExecState { pending: steps, current: None, fallback, finished: None },
        Err(m) => match fallback {
            Some(Ok(steps)) => ExecState {
                pending: steps,
                current: None,
                fallback: None,
                finished: None,
            },
            Some(Err(m2)) => ExecState {
                pending: Seq::empty(),
                current: None,
                fallback: None,
                finished: Some(Err(m2)),
            },
            None => ExecState {
                pending: Seq::empty(),
                current: None,
                fallback: None,
                finished: Some(Err(m)),
            },
        },
    }
}

pub open spec fn start_spec(plan: PlanSpec) -> ExecState {
    enter_spec(plan.attempt, plan.fallback)
}

/// The next action and the state after it is handed out.
pub open spec fn next_spec(s: ExecState) -> (ExecState, ActionSpec) {
    match s.finished {
        Some(r) => (s, ActionSpec::Finish(r)),
        None => if s.pending.len() == 0 {
            (ExecState { finished: Some(Ok(())), current: None, ..s }, ActionSpec::Finish(Ok(())))
        } else {
            (
                ExecState {
                    pending: s.pending.drop_first(),
                    current: Some((s.pending[0].mode, s.pending[0].failure)),
                    ..s
                },
                ActionSpec::Run(s.pending[0]),
            )
        },
    }
}

/// The state after the outcome of the call handed out last is reported.
pub open spec fn record_spec(s: ExecState, outcome: Result<(), Seq<char>>) -> ExecState {
    match s.current {
        None => s,
        Some((mode, failure)) => match outcome {
            Ok(()) => ExecState { current: None, ..s },
            Err(e) => if mode == RunMode::Ignored {
                ExecState { current: None, ..s }
            } else {
                match s.fallback {
                    Some(f) => enter_spec(f, None),
                    None => ExecState {
                        pending: Seq::empty(),
                        current: None,
                        fallback: None,
                        finished: Some(Err(failure_message(failure, e))),
                    },
                }
            },
        },
    }
}

/// Runs a launch plan step by step: `next_action` hands out the next process
/// to run, `record` takes back how it went.
pub struct Execution {
    pending: Vec<ProcessCall>,
    current: Option<(RunMode, Failure)>,
    fallback: Option<Attempt>,
    finished: Option<Result<(), String>>,
}

pub open spec fn opt_attempt_view(a: Option<Attempt>) -> Option<AttemptSpec> {
    match a {
        Some(x) => Some(attempt_view(x)),
        None => None,
    }
}

pub open spec fn result_view(r: Result<(), String>) -> Result<(), Seq<char>> {
    match r {
        Ok(()) => Ok(()),
        Err(m) => Err(m@),
    }
}

impl View for Execution {
    type V = ExecState;

    closed spec fn view(&self) -> ExecState {
        ExecState {
            pending: calls(self.pending@),
            current: match self.current {
                Some((m, f)) => Some((m, f@)),
                None => None,
            },
            fallback: opt_attempt_view(self.fallback),
            finished: match self.finished {
                Some(r) => Some(result_view(r)),
                None => None,
            },
        }
    }
}

impl Execution {
    fn enter(attempt: Attempt, fallback: Option<Attempt>) -> (r: Execution)
        ensures
            r@ == enter_spec(attempt_view(attempt), opt_attempt_view(fallback)),
    {
        match attempt {
            Ok(steps) => Execution { pending: steps, current: None, fallback, finished: None },
            Err(m) => match fallback {
                Some(Ok(steps)) => Execution {
                    pending: steps,
                    current: None,
                    fallback: None,
                    finished: None,
                },
                Some(Err(m2)) => {
                    let r = Execution {
                        pending: Vec::new(),
                        current: None,
                        fallback: None,
                        finished: Some(Err(m2)),
                    };
                    assert(calls(r.pending@) =~= Seq::<CallSpec>::empty());
                    r
                },
                None => {
                    let r = Execution {
                        pending: Vec::new(),
                        current: None,
                        fallback: None,
                        finished: Some(Err(m)),
                    };
                    assert(calls(r.pending@) =~= Seq::<CallSpec>::empty());
                    r
                },
            },
        }
    }

    /// Begins running `plan`.
    pub fn start(plan: LaunchPlan) -> (r: Execution)
        ensures
            r@ == start_spec(plan@),
    {
        Execution::enter(plan.attempt, plan.fallback)
    }

    /// The next thing to do: run a process, or finish with a result.
    pub fn next_action(&mut self) -> (a: Action)
        ensures
            (final(self)@, a@) == next_spec(old(self)@),
    {
        match &self.finished {
            Some(Ok(())) => {
                return Action::Finish(Ok(()));
            },
            Some(Err(m)) => {
                return Action::Finish(Err(m.clone()));
            },
            None => {},
        }
        if self.pending.len() == 0 {
            self.finished = Some(Ok(()));
            self.current = None;
            return Action::Finish(Ok(()));
        }
        let ghost old_pending = self.pending@;
        let c = self.pending.remove(0);
        assert(calls(self.pending@) =~= calls(old_pending).drop_first());
        let failure_copy = match &c.failure {
            Failure::Raw => Failure::Raw,
            Failure::Framed { before, after } => Failure::Framed {
                before: before.clone(),
                after: after.clone(),
            },
        };
        self.current = Some((c.mode, failure_copy));
        Action::Run(c)
    }

    /// Takes back how the process handed out last went: `Ok(())`, or the
    /// operating system's error text.
    pub fn record(&mut self, outcome: Result<(), String>)
        ensures
            final(self)@ == record_spec(old(self)@, result_view(outcome)),
    {
        let current = self.current.take();
        match current {
            None => {},
            Some((mode, failure)) => match outcome {
                Ok(()) => {},
                Err(e) => {
                    let ignored = match mode {
                        RunMode::Ignored => true,
                        _ => false,
                    };
                    if !ignored {
                        let fallback = self.fallback.take();
                        match fallback {
                            Some(f) => {
                                *self = Execution::enter(f, None);
                            },
                            None => {
                                let msg = match failure {
                                    Failure::Raw => e,
                                    Failure::Framed { before, after } => concat3(
                                        before.as_str(),
                                        e.as_str(),
                                        after.as_str(),
                                    ),
                                };
                                self.pending = Vec::new();
                                self.finished = Some(Err(msg));
                                assert(calls(self.pending@) =~= Seq::<CallSpec>::empty());
                            },
                        }
                    }
                },
            },
        }
    }
}

// ──────────────────────────────── laws ─────────────────────────────────────

/// The state after `k` calls were handed out and each reported success.
pub open spec fn after_successes(s: ExecState, k: nat) -> ExecState
    decreases k,
{
    if k == 0 {
        s
    } else {
        after_successes(record_spec(next_spec(s).0, Ok(())), (k - 1) as nat)
    }
}

/// The calls handed out during `k` successful steps from `s`.
pub open spec fn handed_out(s: ExecState, k: nat) -> Seq<CallSpec>
    decreases k,
{
    if k == 0 {
        Seq::empty()
    } else {
        match next_spec(s).1 {
            ActionSpec::Run(c) => seq![c] + handed_out(
                record_spec(next_spec(s).0, Ok(())),
                (k - 1) as nat,
            ),
            ActionSpec::Finish(_) => Seq::empty(),
        }
    }
}

proof fn lemma_successes_hand_out_pending(s: ExecState)
    requires
        s.finished is None,
        s.current is None,
    ensures
        handed_out(s, s.pending.len()) == s.pending,
        after_successes(s, s.pending.len()).pending.len() == 0,
        after_successes(s, s.pending.len()).finished is None,
        after_successes(s, s.pending.len()).current is None,
    decreases s.pending.len(),
{
    if s.pending.len() > 0 {
        let t = record_spec(next_spec(s).0, Ok(()));
        assert(t.pending == s.pending.drop_first());
        lemma_successes_hand_out_pending(t);
        assert(handed_out(s, s.pending.len()) =~= seq![s.pending[0]] + t.pending);
    }
}

/// When every call of an accepted attempt succeeds, the calls are run
/// exactly in the planned order and the launch then finishes successfully.
pub proof fn successful_attempt_runs_every_call(plan: PlanSpec)
    requires
        plan.attempt is Ok,
    ensures
        ({
            let s = start_spec(plan);
            let n = plan.attempt->Ok_0.len();
            &&& handed_out(s, n) == plan.attempt->Ok_0
            &&& next_spec(after_successes(s, n)).1 == ActionSpec::Finish(Ok(()))
        }),
{
    let s = start_spec(plan);
    lemma_successes_hand_out_pending(s);
}

/// A failed call that is not ignored ends the attempt: the fallback attempt
/// begins if there is one, and otherwise the launch finishes with the
/// call's failure message; an ignored call's failure changes nothing else.
pub proof fn failed_call_ends_attempt(s: ExecState, err: Seq<char>)
    requires
        s.current is Some,
        s.finished is None,
    ensures
        ({
            let (mode, failure) = s.current->Some_0;
            let t = record_spec(s, Err(err));
            &&& mode == RunMode::Ignored ==> t.pending == s.pending && t.fallback == s.fallback
                && t.finished is None
            &&& mode != RunMode::Ignored && s.fallback is None ==> t.finished == Some(
                Err::<(), Seq<char>>(failure_message(failure, err)),
            ) && next_spec(t).1 == ActionSpec::Finish(Err(failure_message(failure, err)))
            &&& mode != RunMode::Ignored && s.fallback is Some ==> t == enter_spec(
                s.fallback->Some_0,
                None,
            )
        }),
{
}

/// Once finished, a launch stays finished with the same result.
pub proof fn finished_is_final(s: ExecState, outcome: Result<(), Seq<char>>)
    requires
        s.finished is Some,
        s.current is None,
    ensures
        next_spec(s).0 == s,
        record_spec(s, outcome) == s,
        next_spec(s).1 == ActionSpec::Finish(s.finished->Some_0),
{
}

/// A refused attempt gives way to the fallback: an accepted fallback's calls
/// are handed out next (with no further fallback), a refused fallback ends
/// the launch with its own reason, and with no fallback the launch ends with
/// the attempt's reason. An accepted attempt keeps the fallback for later.
pub proof fn refused_attempt_gives_way_to_fallback(plan: PlanSpec)
    ensures
        ({
            let s = start_spec(plan);
            &&& plan.attempt is Ok ==> s.pending == plan.attempt->Ok_0 && s.fallback == plan.fallback
                && s.finished is None && s.current is None
            &&& (plan.attempt is Err && plan.fallback matches Some(Ok(steps))) ==> s.pending
                == plan.fallback->Some_0->Ok_0 && s.fallback is None && s.finished is None
            &&& (plan.attempt is Err && plan.fallback matches Some(Err(m))) ==> next_spec(s).1
                == ActionSpec::Finish(Err(plan.fallback->Some_0->Err_0))
            &&& (plan.attempt is Err && plan.fallback is None) ==> next_spec(s).1 == ActionSpec::Finish(
                Err(plan.attempt->Err_0),
            )
        }),
{
}

/// How a failure is reported: as the error itself, or framed by the text
/// before and after it.
pub proof fn failure_reports(before: Seq<char>, after: Seq<char>, err: Seq<char>)
    ensures
        failure_message(FailureSpec::Raw, err) == err,
        failure_message(FailureSpec::Framed(before, after), err) == before + err + after,
{
}

} // verus!
