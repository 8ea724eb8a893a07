//! Running a plan of SDK calls, one call at a time.
//!
//! Every checked call must return success: the first one that does not stops the
//! plan, and no later call is made (the application treats such a status as a
//! failed assertion). The status of an unchecked call is ignored.
use vstd::prelude::*;
use crate::NRF_SUCCESS;
use crate::sdk::{Action, SdkCall, Step};

verus! {

/// Where a run of a plan stands.
pub struct RunState {
    pub plan: Seq<Step>,
    /// Number of calls that completed without stopping the plan.
    pub done: nat,
    /// The checked call that failed, and the status it returned.
    pub fault: Option<(SdkCall, u32)>,
}

/// A run of `plan` before its first call.
pub open spec fn run_start(plan: Seq<Step>) -> RunState {
    RunState { plan, done: 0, fault: None }
}

/// What a run asks for next.
pub open spec fn run_action(s: RunState) -> Action {
    match s.fault {
        Some(f) => Action::Halt { call: f.0, status: f.1 },
        None => if s.done < s.plan.len() {
            Action::Call(s.plan[s.done as int].call)
        } else {
            Action::Finished
        },
    }
}

/// A run after the pending call returned `status`.
pub open spec fn run_complete(s: RunState, status: u32) -> RunState {
    if s.fault is Some || s.done >= s.plan.len() {
        s
    } else if s.plan[s.done as int].checked && status != NRF_SUCCESS {
        RunState { fault: Some((s.plan[s.done as int].call, status)), ..s }
    } else {
        RunState { done: s.done + 1, ..s }
    }
}

/// A run after its pending calls returned `statuses`, in order.
pub open spec fn run_all(s: RunState, statuses: Seq<u32>) -> RunState
    decreases statuses.len(),
{
    if statuses.len() == 0 {
        s
    } else {
        run_all(run_complete(s, statuses[0]), statuses.drop_first())
    }
}

/// `n` success codes.
pub open spec fn successes(n: nat) -> Seq<u32> {
    Seq::new(n, |i: int| NRF_SUCCESS)
}

/// Runs a plan of calls, one call at a time.
pub struct Procedure {
    plan: Vec<Step>,
    done: usize,
    fault: Option<(SdkCall, u32)>,
}

impl View for Procedure {
    type V = RunState;

    closed spec fn view(&self) -> RunState {
        RunState { plan: self.plan@, done: self.done as nat, fault: self.fault }
    }
}

impl Procedure {
    /// A procedure that has made none of the calls of `plan` yet.
    pub fn new(plan: Vec<Step>) -> (p: Procedure)
        ensures
            p@ == run_start(plan@),
    {
        Procedure { plan, done: 0, fault: None }
    }

    /// What the procedure asks for now.
    pub fn pending(&self) -> (a: Action)
        ensures
            a == run_action(self@),
    {
        match self.fault {
            Some(f) => Action::Halt { call: f.0, status: f.1 },
            None => if self.done < self.plan.len() {
                Action::Call(self.plan[self.done].call)
            } else {
                Action::Finished
            },
        }
    }

    /// Records the status code returned by the pending call, and says what comes next.
    /// Once the plan is finished or halted, further reports change nothing.
    pub fn complete(&mut self, status: u32) -> (a: Action)
        ensures
            final(self)@ == run_complete(old(self)@, status),
            a == run_action(final(self)@),
    {
        if self.fault.is_none() && self.done < self.plan.len() {
            let step: Step = self.plan[self.done];
            if step.checked && status != NRF_SUCCESS {
                self.fault = Some((step.call, status));
            } else {
                self.done = self.done + 1;
            }
        }
        self.pending()
    }
}

/// A run that meets only success codes makes the calls of its plan in order, one
/// per report, and then finishes.
pub proof fn law_success_runs_whole_plan(plan: Seq<Step>)
    ensures
        forall|i: nat| i < plan.len() ==>
            #[trigger] run_action(run_all(run_start(plan), successes(i)))
                == Action::Call(plan[i as int].call),
        run_all(run_start(plan), successes(plan.len())) == (RunState {
            plan,
            done: plan.len(),
            fault: None,
        }),
        run_action(run_all(run_start(plan), successes(plan.len()))) == Action::Finished,
{
    assert forall|i: nat| i <= plan.len() implies run_all(run_start(plan), successes(i))
        == (RunState { plan, done: i, fault: None }) by {
        lemma_successes_advance(run_start(plan), i);
    }
    assert forall|i: nat| i < plan.len() implies
        #[trigger] run_action(run_all(run_start(plan), successes(i)))
            == Action::Call(plan[i as int].call) by {
        lemma_successes_advance(run_start(plan), i);
    }
    lemma_successes_advance(run_start(plan), plan.len());
}

/// From a run without fault, `n` success codes advance it by `n` calls, as long as
/// the plan has that many left.
pub proof fn lemma_successes_advance(s: RunState, n: nat)
    requires
        s.fault is None,
        s.done + n <= s.plan.len(),
    ensures
        run_all(s, successes(n)) == (RunState { done: s.done + n, ..s }),
    decreases n,
{
    if n == 0 {
        assert(run_all(s, successes(0)) == s);
    } else {
        let t = run_complete(s, NRF_SUCCESS);
        assert(t == RunState { done: s.done + 1, ..s });
        assert(successes(n).drop_first() =~= successes((n - 1) as nat));
        lemma_successes_advance(t, (n - 1) as nat);
    }
}

/// A halted run stays halted, with the same call and status, whatever is reported
/// afterwards: no later call is asked for.
pub proof fn law_halt_is_final(s: RunState, statuses: Seq<u32>)
    requires
        s.fault is Some,
    ensures
        run_all(s, statuses) == s,
        run_action(run_all(s, statuses)) == (Action::Halt { call: s.fault.unwrap().0, status: s.fault.unwrap().1 }),
    decreases statuses.len(),
{
    if statuses.len() > 0 {
        law_halt_is_final(run_complete(s, statuses[0]), statuses.drop_first());
    }
}

/// A finished run stays finished, whatever is reported afterwards.
pub proof fn law_finished_is_final(s: RunState, statuses: Seq<u32>)
    requires
        run_action(s) == Action::Finished,
    ensures
        run_all(s, statuses) == s,
    decreases statuses.len(),
{
    if statuses.len() > 0 {
        law_finished_is_final(run_complete(s, statuses[0]), statuses.drop_first());
    }
}

/// A checked call that returns a status other than success halts the run with that
/// call and that status.
pub proof fn law_failed_check_halts(s: RunState, status: u32)
    requires
        s.fault is None,
        s.done < s.plan.len(),
        s.plan[s.done as int].checked,
        status != NRF_SUCCESS,
    ensures
        run_action(run_complete(s, status)) == (Action::Halt {
            call: s.plan[s.done as int].call,
            status,
        }),
{
}

/// The status of an unchecked call is ignored: any status moves the run on as
/// success does.
pub proof fn law_unchecked_status_ignored(s: RunState, status: u32)
    requires
        s.fault is None,
        s.done < s.plan.len(),
        !s.plan[s.done as int].checked,
    ensures
        run_complete(s, status) == run_complete(s, NRF_SUCCESS),
        run_complete(s, status).done == s.done + 1,
{
}

} // verus!
