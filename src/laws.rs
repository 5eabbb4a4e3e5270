//! What holds of every drive of every plan.
use vstd::prelude::*;
use crate::orchestrator::{
    copy_args, initial_phase, next_state, step_for, stop_args, strings_view, Phase, Step,
};
use crate::plan::{environment_id, plan_ids, plan_runs, TestOutline, TestSpecification};

verus! {

/// The number of runs of a plan.
pub open spec fn run_count(o: TestOutline) -> int {
    plan_runs(o.test_spec@).len() as int
}

/// The actions a drive owes, from run `k` in `phase` on, as the outcomes
/// `oks` of those actions come in.
pub open spec fn trace(o: TestOutline, k: int, phase: Phase, oks: Seq<bool>) -> Seq<Step>
    decreases oks.len(),
{
    if oks.len() == 0 {
        seq![step_for(o, k, phase)]
    } else {
        let next = next_state(run_count(o), k, phase, oks[0]);
        seq![step_for(o, k, phase)] + trace(o, next.0, next.1, oks.drop_first())
    }
}

/// The state a drive reaches from run `k` in `phase` after the outcomes `oks`.
pub open spec fn state_after(o: TestOutline, k: int, phase: Phase, oks: Seq<bool>) -> (int, Phase)
    decreases oks.len(),
{
    if oks.len() == 0 {
        (k, phase)
    } else {
        let next = next_state(run_count(o), k, phase, oks[0]);
        state_after(o, next.0, next.1, oks.drop_first())
    }
}

/// `len` outcomes, each a success.
pub open spec fn all_succeed(len: nat) -> Seq<bool> {
    Seq::new(len, |i: int| true)
}

/// The full lifecycle of run `k`: copy, start, settle, push, exec, stop,
/// after its configuration is written.
pub open spec fn run_steps(o: TestOutline, k: int) -> Seq<Step> {
    seq![
        step_for(o, k, Phase::Configure),
        step_for(o, k, Phase::Copy),
        step_for(o, k, Phase::Start),
        step_for(o, k, Phase::Settle),
        step_for(o, k, Phase::Push),
        step_for(o, k, Phase::Exec),
        step_for(o, k, Phase::Stop),
    ]
}

/// The lifecycles of runs `k` and onwards, one after the other.
pub open spec fn runs_steps_from(o: TestOutline, k: int) -> Seq<Step>
    decreases run_count(o) - k,
{
    if k >= run_count(o) {
        Seq::empty()
    } else {
        run_steps(o, k) + runs_steps_from(o, k + 1)
    }
}

proof fn lemma_trace_split(o: TestOutline, k: int, phase: Phase, a: Seq<bool>, b: Seq<bool>)
    ensures
        trace(o, k, phase, a + b) == trace(o, k, phase, a).drop_last() + trace(
            o,
            state_after(o, k, phase, a).0,
            state_after(o, k, phase, a).1,
            b,
        ),
    decreases a.len(),
{
    if a.len() == 0 {
        assert(a + b =~= b);
    } else {
        let next = next_state(run_count(o), k, phase, a[0]);
        assert((a + b).drop_first() =~= a.drop_first() + b);
        lemma_trace_split(o, next.0, next.1, a.drop_first(), b);
        assert((a + b)[0] == a[0]);
    }
}

proof fn lemma_one_run(o: TestOutline, k: int)
    requires
        0 <= k < run_count(o),
    ensures
        trace(o, k, Phase::Configure, all_succeed(7)).drop_last() == run_steps(o, k),
        state_after(o, k, Phase::Configure, all_succeed(7)) == (
            k + 1,
            if k + 1 < run_count(o) { Phase::Configure } else { Phase::Finished },
        ),
{
    reveal_with_fuel(trace, 8);
    reveal_with_fuel(state_after, 8);
    let s = all_succeed(7);
    assert(s.drop_first() =~= all_succeed(6));
    assert(all_succeed(6).drop_first() =~= all_succeed(5));
    assert(all_succeed(5).drop_first() =~= all_succeed(4));
    assert(all_succeed(4).drop_first() =~= all_succeed(3));
    assert(all_succeed(3).drop_first() =~= all_succeed(2));
    assert(all_succeed(2).drop_first() =~= all_succeed(1));
    assert(all_succeed(1).drop_first() =~= all_succeed(0));
    assert(trace(o, k, Phase::Configure, all_succeed(7)).drop_last() =~= run_steps(o, k));
}

proof fn lemma_runs_from(o: TestOutline, k: int)
    requires
        0 <= k <= run_count(o),
    ensures
        trace(
            o,
            k,
            if k < run_count(o) { Phase::Configure } else { Phase::Finished },
            all_succeed((7 * (run_count(o) - k)) as nat),
        ) == runs_steps_from(o, k) + seq![Step::Finished],
    decreases run_count(o) - k,
{
    let n = run_count(o);
    if k == n {
        assert(runs_steps_from(o, k) + seq![Step::Finished] =~= seq![Step::Finished]);
    } else {
        lemma_runs_from(o, k + 1);
        lemma_one_run(o, k);
        let rest = all_succeed((7 * (n - k - 1)) as nat);
        assert(all_succeed((7 * (n - k)) as nat) =~= all_succeed(7) + rest);
        lemma_trace_split(o, k, Phase::Configure, all_succeed(7), rest);
        assert(run_steps(o, k) + (runs_steps_from(o, k + 1) + seq![Step::Finished])
            =~= runs_steps_from(o, k) + seq![Step::Finished]);
    }
}

/// When every action succeeds, a drive of a plan goes through each run's
/// whole lifecycle (configure, copy, start, settle, push, exec, stop), run
/// after run in plan order, and then finishes: no run's copy comes before the
/// previous run's stop.
pub proof fn lemma_plan_lifecycle(o: TestOutline)
    ensures
        trace(o, 0, initial_phase(run_count(o)), all_succeed((7 * run_count(o)) as nat))
            == runs_steps_from(o, 0) + seq![Step::Finished],
{
    lemma_runs_from(o, 0);
}

/// Run `k` of a drive provisions, and later stops, the `k`-th environment
/// identifier of the plan: test by test, each test's runs in index order.
pub proof fn lemma_runs_target_plan_ids(o: TestOutline, k: int)
    requires
        0 <= k < run_count(o),
    ensures
        step_for(o, k, Phase::Copy) == Step::Tool(copy_args(
            o.source_container@,
            strings_view(o.container_profiles),
            plan_ids(o.test_spec@)[k],
        )),
        step_for(o, k, Phase::Stop) == Step::Tool(stop_args(plan_ids(o.test_spec@)[k])),
{
}

proof fn lemma_aborted_stays(o: TestOutline, k: int, oks: Seq<bool>)
    ensures
        trace(o, k, Phase::Aborted, oks) == Seq::new(oks.len() + 1, |i: int| Step::Aborted),
    decreases oks.len(),
{
    if oks.len() > 0 {
        lemma_aborted_stays(o, k, oks.drop_first());
    }
    assert(trace(o, k, Phase::Aborted, oks) =~= Seq::new(oks.len() + 1, |i: int| Step::Aborted));
}

/// A failed execution of the test command changes nothing in the drive: the
/// run is still stopped next, and everything after goes as if it had
/// succeeded.
pub proof fn lemma_exec_failure_isolated(o: TestOutline, k: int, rest: Seq<bool>)
    ensures
        trace(o, k, Phase::Exec, seq![false] + rest) == trace(o, k, Phase::Exec, seq![true] + rest),
        trace(o, k, Phase::Exec, seq![false] + rest)[1] == step_for(o, k, Phase::Stop),
{
    assert((seq![false] + rest).drop_first() =~= rest);
    assert((seq![true] + rest).drop_first() =~= rest);
    let tail = trace(o, k, Phase::Stop, rest);
    assert(tail[0] == step_for(o, k, Phase::Stop));
    assert(trace(o, k, Phase::Exec, seq![false] + rest) == seq![step_for(o, k, Phase::Exec)] + tail);
}

/// A failure to write the configuration, or of copy, start, push or stop,
/// ends the drive: whatever comes in afterwards, nothing but the abort is
/// owed, so no later push, exec or copy of any run.
pub proof fn lemma_fatal_failure_halts(o: TestOutline, k: int, phase: Phase, rest: Seq<bool>)
    requires
        phase == Phase::Configure || phase == Phase::Copy || phase == Phase::Start
            || phase == Phase::Push || phase == Phase::Stop,
    ensures
        trace(o, k, phase, seq![false] + rest) == seq![step_for(o, k, phase)] + Seq::new(
            rest.len() + 1,
            |i: int| Step::Aborted,
        ),
{
    assert((seq![false] + rest).drop_first() =~= rest);
    lemma_aborted_stays(o, k, rest);
}

proof fn lemma_plan_runs_concat(a: Seq<TestSpecification>, b: Seq<TestSpecification>)
    ensures
        plan_runs(a + b) == plan_runs(a) + plan_runs(b),
    decreases b.len(),
{
    if b.len() == 0 {
        assert(a + b =~= a);
        assert(plan_runs(a) + plan_runs(b) =~= plan_runs(a));
    } else {
        lemma_plan_runs_concat(a, b.drop_last());
        assert((a + b).drop_last() =~= a + b.drop_last());
        assert((a + b).last() == b.last());
        assert(plan_runs(a + b) =~= plan_runs(a) + plan_runs(b));
    }
}

/// The environment identifiers of a plan are those of its first tests
/// followed by those of the remaining ones.
pub proof fn lemma_plan_ids_concat(a: Seq<TestSpecification>, b: Seq<TestSpecification>)
    ensures
        plan_ids(a + b) == plan_ids(a) + plan_ids(b),
{
    lemma_plan_runs_concat(a, b);
    assert(plan_ids(a + b) =~= plan_ids(a) + plan_ids(b));
}

/// The environment identifiers of one test are `name-0` up to
/// `name-(runs - 1)`, in that order.
pub proof fn lemma_plan_ids_single(t: TestSpecification)
    ensures
        plan_ids(seq![t]) == Seq::new(
            t.nr_of_test_runs as nat,
            |i: int| environment_id(t.name@, i as nat),
        ),
{
    assert(seq![t].drop_last() =~= Seq::<TestSpecification>::empty());
    assert(plan_runs(seq![t].drop_last()) =~= Seq::<crate::plan::RunInstance>::empty());
    assert(plan_runs(seq![t]) =~= crate::plan::spec_runs(t));
    assert(plan_ids(seq![t]) =~= Seq::new(
        t.nr_of_test_runs as nat,
        |i: int| environment_id(t.name@, i as nat),
    ));
}

} // verus!
