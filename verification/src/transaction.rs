use crate::plan::has_wrap_step;
use crate::plan::plan_view;
use crate::plan::wrap_steps;
use crate::plan::InvocationView;
use crate::plan::Step;
use crate::plan::StepView;
use crate::plan::WrapAccounts;
use vstd::prelude::*;

verus! {

/// Where a transaction stands.
#[derive(Clone, Copy, Debug, PartialEq, Eq, Structural)]
pub enum Phase {
    /// A step is waiting to be performed.
    Running,
    /// Every step succeeded: the effects of all of them stand.
    Committed,
    /// A step failed: the effects of none of them stand.
    Aborted,
}

/// The state of a transaction as contracts see it.
pub struct Progress {
    /// The steps, in the order they are performed.
    pub plan: Seq<StepView>,
    /// How many steps have succeeded.
    pub cursor: int,
    pub phase: Phase,
}

impl Progress {
    /// A transaction before its first step. One without steps has nothing
    /// left to do.
    pub open spec fn start(plan: Seq<StepView>) -> Progress {
        Progress {
            plan,
            cursor: 0,
            phase: if plan.len() == 0 {
                Phase::Committed
            } else {
                Phase::Running
            },
        }
    }

    pub open spec fn well_formed(self) -> bool {
        &&& 0 <= self.cursor <= self.plan.len()
        &&& self.phase is Running ==> self.cursor < self.plan.len()
        &&& self.phase is Committed ==> self.cursor == self.plan.len()
    }

    /// The step to perform now, if the transaction is still running.
    pub open spec fn current(self) -> Option<StepView> {
        if self.phase is Running {
            Some(self.plan[self.cursor])
        } else {
            None
        }
    }

    /// The state after the current step reported success or failure. A
    /// failure ends the transaction; a finished transaction stays as it is.
    pub open spec fn after(self, succeeded: bool) -> Progress {
        if !(self.phase is Running) {
            self
        } else if !succeeded {
            Progress { phase: Phase::Aborted, ..self }
        } else if self.cursor + 1 < self.plan.len() {
            Progress { cursor: self.cursor + 1, ..self }
        } else {
            Progress { cursor: self.cursor + 1, phase: Phase::Committed, ..self }
        }
    }

    /// The state after a sequence of reports, taken in order.
    pub open spec fn run(self, outcomes: Seq<bool>) -> Progress
        decreases outcomes.len(),
    {
        if outcomes.len() == 0 {
            self
        } else {
            self.after(outcomes[0]).run(outcomes.drop_first())
        }
    }

    /// The steps whose effects stand once the transaction has ended: all of
    /// them after a commit, none otherwise.
    pub open spec fn kept(self) -> Seq<StepView> {
        if self.phase is Committed {
            self.plan
        } else {
            Seq::empty()
        }
    }
}

/// Drives the steps of one transaction in order. The caller performs the
/// current step and reports how it went; the first failure ends the
/// transaction and is handed back as it came.
pub struct Transaction {
    steps: Vec<Step>,
    cursor: usize,
    aborted: bool,
}

impl View for Transaction {
    type V = Progress;

    closed spec fn view(&self) -> Progress {
        Progress {
            plan: plan_view(self.steps@),
            cursor: self.cursor as int,
            phase: if self.aborted {
                Phase::Aborted
            } else if self.cursor < self.steps.len() {
                Phase::Running
            } else {
                Phase::Committed
            },
        }
    }
}

impl Transaction {
    #[verifier::type_invariant]
    spec fn consistent(&self) -> bool {
        &&& self.cursor <= self.steps.len()
        &&& self.aborted ==> self.cursor < self.steps.len()
    }

    /// Starts a transaction on the given steps.
    pub fn begin(steps: Vec<Step>) -> (r: Transaction)
        ensures
            r@ == Progress::start(plan_view(steps@)),
            r@.well_formed(),
    {
        Transaction { steps, cursor: 0, aborted: false }
    }

    /// Where the transaction stands.
    pub fn phase(&self) -> (r: Phase)
        ensures
            r == self@.phase,
    {
        if self.aborted {
            Phase::Aborted
        } else if self.cursor < self.steps.len() {
            Phase::Running
        } else {
            Phase::Committed
        }
    }

    /// How many steps have succeeded.
    pub fn completed(&self) -> (r: usize)
        ensures
            r == self@.cursor,
    {
        self.cursor
    }

    /// The step to perform now, or `None` once the transaction has ended.
    pub fn current(&self) -> (r: Option<&Step>)
        ensures
            self@.well_formed(),
            match r {
                Some(step) => self@.current() == Some(step@),
                None => self@.current() is None,
            },
    {
        proof {
            use_type_invariant(self);
        }
        if !self.aborted && self.cursor < self.steps.len() {
            Some(&self.steps[self.cursor])
        } else {
            None
        }
    }

    /// Takes the outcome of the current step and hands it back unchanged.
    pub fn report<E>(&mut self, outcome: Result<(), E>) -> (r: Result<(), E>)
        ensures
            r == outcome,
            final(self)@ == old(self)@.after(outcome is Ok),
            final(self)@.well_formed(),
    {
        proof {
            use_type_invariant(&*self);
        }
        if !self.aborted && self.cursor < self.steps.len() {
            if outcome.is_ok() {
                self.cursor = self.cursor + 1;
            } else {
                self.aborted = true;
            }
        }
        outcome
    }
}

/// Whether the first `count` reports (or all, if there are fewer) are
/// successes.
pub open spec fn all_succeeded(outcomes: Seq<bool>, count: int) -> bool {
    forall|i: int| 0 <= i < outcomes.len() && i < count ==> outcomes[i]
}

/// From a running state, the reports on the steps that remain decide the
/// end: a failure among them aborts, successes for all of them commit, and
/// with fewer reports than steps, all of them successes, the transaction is
/// still running.
pub proof fn lemma_run_from(p: Progress, outcomes: Seq<bool>)
    requires
        p.well_formed(),
        p.phase is Running,
    ensures
        p.run(outcomes).plan == p.plan,
        p.run(outcomes).well_formed(),
        !all_succeeded(outcomes, p.plan.len() - p.cursor) ==> p.run(outcomes).phase is Aborted,
        all_succeeded(outcomes, p.plan.len() - p.cursor) && outcomes.len() >= p.plan.len()
            - p.cursor ==> p.run(outcomes).phase is Committed,
        all_succeeded(outcomes, p.plan.len() - p.cursor) && outcomes.len() < p.plan.len()
            - p.cursor ==> p.run(outcomes).phase is Running && p.run(outcomes).cursor == p.cursor
            + outcomes.len(),
    decreases outcomes.len(),
{
    let remaining = p.plan.len() - p.cursor;
    if outcomes.len() > 0 {
        let next = p.after(outcomes[0]);
        let rest = outcomes.drop_first();
        if next.phase is Running {
            lemma_run_from(next, rest);
            assert(all_succeeded(outcomes, remaining) <==> all_succeeded(rest, remaining - 1)) by {
                if all_succeeded(outcomes, remaining) {
                    assert forall|i: int|
                        0 <= i < rest.len() && i < remaining - 1 implies rest[i] by {
                        assert(rest[i] == outcomes[i + 1]);
                    }
                }
                if all_succeeded(rest, remaining - 1) {
                    assert forall|i: int|
                        0 <= i < outcomes.len() && i < remaining implies outcomes[i] by {
                        if i > 0 {
                            assert(outcomes[i] == rest[i - 1]);
                        }
                    }
                }
            }
        } else {
            lemma_finished_stays(next, rest);
            if outcomes[0] {
                assert(remaining == 1);
            } else {
                assert(!all_succeeded(outcomes, remaining));
            }
        }
    }
}

/// A transaction that has ended takes no further step and changes no more,
/// whatever is reported to it.
pub proof fn lemma_finished_stays(p: Progress, outcomes: Seq<bool>)
    requires
        !(p.phase is Running),
    ensures
        p.run(outcomes) == p,
        p.run(outcomes).current() is None,
    decreases outcomes.len(),
{
    if outcomes.len() > 0 {
        lemma_finished_stays(p, outcomes.drop_first());
    }
}

/// All or nothing: whatever the steps report, the effects that stand are
/// those of every step or of none, and they are those of every step exactly
/// when each step was reported and succeeded.
pub proof fn lemma_all_or_nothing(plan: Seq<StepView>, outcomes: Seq<bool>)
    ensures
        ({
            let end = Progress::start(plan).run(outcomes);
            &&& end.kept() == plan || end.kept() == Seq::<StepView>::empty()
            &&& end.phase is Committed <==> outcomes.len() >= plan.len() && all_succeeded(
                outcomes,
                plan.len() as int,
            )
            &&& end.phase is Aborted <==> !all_succeeded(outcomes, plan.len() as int)
        }),
{
    let p = Progress::start(plan);
    if plan.len() == 0 {
        lemma_finished_stays(p, outcomes);
    } else {
        lemma_run_from(p, outcomes);
    }
}

/// A failure of any step, the delegated call among them, leaves nothing
/// behind: if step `failed` reports a failure after successes of all steps
/// before it, the transaction is aborted, no effect stands, and there is no
/// further step to perform.
pub proof fn lemma_failure_keeps_nothing(plan: Seq<StepView>, outcomes: Seq<bool>, failed: int)
    requires
        0 <= failed < plan.len(),
        failed < outcomes.len(),
        !outcomes[failed],
    ensures
        Progress::start(plan).run(outcomes).phase is Aborted,
        Progress::start(plan).run(outcomes).kept() == Seq::<StepView>::empty(),
        Progress::start(plan).run(outcomes).current() is None,
{
    lemma_run_from(Progress::start(plan), outcomes);
}

/// Where the delegated call of a plan with a wrap fails, nothing of the wrap
/// stands: the transaction is aborted and neither the transfer nor the sync
/// is among the effects that are kept.
pub proof fn lemma_failed_delegation_undoes_wrap(
    wrap: WrapAccounts,
    lamports: u64,
    invocation: InvocationView,
    outcomes: Seq<bool>,
)
    requires
        outcomes.len() >= 3,
        !outcomes[2],
    ensures
        ({
            let plan = wrap_steps(wrap, lamports).push(StepView::Delegate(invocation));
            let end = Progress::start(plan).run(outcomes);
            &&& end.phase is Aborted
            &&& !has_wrap_step(end.kept())
        }),
{
    let plan = wrap_steps(wrap, lamports).push(StepView::Delegate(invocation));
    lemma_failure_keeps_nothing(plan, outcomes, 2);
}

} // verus!
