//! What holds of every run, whatever the pool program answers.
use vstd::prelude::*;

use crate::authority::{owner_seeds, Authority};
use crate::graduation::{issued, run, GraduationState, Stage, StepFailure};
use crate::plan::{plan, step_at, step_count, Call, GraduateParams, Step};

verus! {

/// Each call of the plan performs the step of its position, and the step of
/// position `i` has index `i`.
pub proof fn lemma_plan_steps(p: GraduateParams, a: Authority, lock: bool)
    ensures
        plan(p, a, lock).len() == step_count(lock),
        forall|i: int|
            0 <= i < plan(p, a, lock).len() ==> {
                &&& #[trigger] plan(p, a, lock)[i].step() == step_at(i)
                &&& step_at(i).index() == i
            },
{
}

/// A state reached from the start keeps its parameters and stays
/// well-formed, and the calls made so far are the first calls of the plan.
pub proof fn lemma_run_follows_plan<E>(
    p: GraduateParams,
    a: Authority,
    lock: bool,
    outcomes: Seq<Result<(), E>>,
)
    ensures
        ({
            let s0 = GraduationState::<E>::init(p, a, lock);
            let r = run(s0, outcomes);
            &&& r.params == p
            &&& r.authority == a
            &&& r.lock == lock
            &&& r.wf()
            &&& issued(s0, outcomes) =~= plan(p, a, lock).take(r.attempted() as int)
        }),
    decreases outcomes.len(),
{
    if outcomes.len() > 0 {
        lemma_run_follows_plan(p, a, lock, outcomes.drop_last());
    }
}

/// Calls are made in the order of the steps, each at most once and none out
/// of turn: the pool first, then the lower and the upper tick array, then the
/// position, then the liquidity, and the lock last. Whatever the pool program
/// answers, the calls made are the first calls of the plan.
pub proof fn lemma_calls_in_order<E>(
    p: GraduateParams,
    a: Authority,
    lock: bool,
    outcomes: Seq<Result<(), E>>,
)
    ensures
        ({
            let calls = issued(GraduationState::<E>::init(p, a, lock), outcomes);
            &&& calls.len() <= step_count(lock)
            &&& forall|i: int|
                0 <= i < calls.len() ==> #[trigger] calls[i] == plan(p, a, lock)[i]
                    && calls[i].step().index() == i
            &&& forall|i: int, j: int|
                0 <= i < j < calls.len() ==> #[trigger] calls[i].step().index()
                    < #[trigger] calls[j].step().index()
        }),
{
    lemma_run_follows_plan(p, a, lock, outcomes);
    lemma_plan_steps(p, a, lock);
}

/// While every call succeeds, the run counts them and goes on.
pub proof fn lemma_successes_advance<E>(
    p: GraduateParams,
    a: Authority,
    lock: bool,
    outcomes: Seq<Result<(), E>>,
)
    requires
        outcomes.len() <= step_count(lock),
        (forall|j: int| 0 <= j < outcomes.len() ==> #[trigger] outcomes[j] is Ok),
    ensures
        run(GraduationState::<E>::init(p, a, lock), outcomes) == (GraduationState::<E> {
            completed: outcomes.len(),
            ..GraduationState::<E>::init(p, a, lock)
        }),
    decreases outcomes.len(),
{
    if outcomes.len() > 0 {
        let before = outcomes.drop_last();
        assert forall|j: int| 0 <= j < before.len() implies #[trigger] before[j] is Ok by {
            assert(before[j] == outcomes[j]);
        }
        lemma_successes_advance(p, a, lock, before);
    }
}

/// Once a run has finished, later outcomes change nothing and no further
/// call is made.
pub proof fn lemma_finished_run_stays<E>(
    p: GraduateParams,
    a: Authority,
    lock: bool,
    outcomes: Seq<Result<(), E>>,
    n: nat,
)
    requires
        n <= outcomes.len(),
        !run(GraduationState::<E>::init(p, a, lock), outcomes.take(n as int)).is_running(),
    ensures
        run(GraduationState::<E>::init(p, a, lock), outcomes) == run(
            GraduationState::<E>::init(p, a, lock),
            outcomes.take(n as int),
        ),
        issued(GraduationState::<E>::init(p, a, lock), outcomes) == issued(
            GraduationState::<E>::init(p, a, lock),
            outcomes.take(n as int),
        ),
    decreases outcomes.len(),
{
    if outcomes.len() > n {
        let before = outcomes.drop_last();
        assert(before.take(n as int) =~= outcomes.take(n as int));
        lemma_finished_run_stays(p, a, lock, before, n);
    } else {
        assert(outcomes.take(n as int) =~= outcomes);
    }
}

/// All or nothing: when the call of step `k` is the first to fail, the run
/// aborts with that step and its reason, and no later step is attempted.
pub proof fn lemma_first_failure_aborts<E>(
    p: GraduateParams,
    a: Authority,
    lock: bool,
    outcomes: Seq<Result<(), E>>,
    k: nat,
)
    requires
        k < step_count(lock),
        k < outcomes.len(),
        (forall|j: int| 0 <= j < k ==> #[trigger] outcomes[j] is Ok),
        (outcomes[k as int] is Err),
    ensures
        ({
            let s0 = GraduationState::<E>::init(p, a, lock);
            let r = run(s0, outcomes);
            &&& r.result() == Some(
                Err::<(), StepFailure<E>>(
                    StepFailure { step: step_at(k as int), reason: outcomes[k as int]->Err_0 },
                ),
            )
            &&& r.stage() == Stage::Aborted(step_at(k as int))
            &&& !r.is_running()
            &&& issued(s0, outcomes) =~= plan(p, a, lock).take(k + 1int)
        }),
{
    let s0 = GraduationState::<E>::init(p, a, lock);
    let ok = outcomes.take(k as int);
    assert forall|j: int| 0 <= j < ok.len() implies #[trigger] ok[j] is Ok by {
        assert(ok[j] == outcomes[j]);
    }
    lemma_successes_advance(p, a, lock, ok);
    let upto = outcomes.take(k + 1int);
    assert(upto.drop_last() =~= ok);
    assert(upto.last() == outcomes[k as int]);
    lemma_run_follows_plan(p, a, lock, upto);
    lemma_finished_run_stays(p, a, lock, outcomes, (k + 1) as nat);
}

/// When every call succeeds, the run makes every call of the plan and ends
/// in success; with the lock, the position ends locked.
pub proof fn lemma_all_succeed<E>(
    p: GraduateParams,
    a: Authority,
    lock: bool,
    outcomes: Seq<Result<(), E>>,
)
    requires
        outcomes.len() >= step_count(lock),
        (forall|j: int| 0 <= j < step_count(lock) ==> #[trigger] outcomes[j] is Ok),
    ensures
        ({
            let s0 = GraduationState::<E>::init(p, a, lock);
            let r = run(s0, outcomes);
            &&& r.result() == Some(Ok::<(), StepFailure<E>>(()))
            &&& lock ==> r.stage() == Stage::Locked
            &&& !lock ==> r.stage() == Stage::LiquidityAdded
            &&& issued(s0, outcomes) =~= plan(p, a, lock)
        }),
{
    let n = step_count(lock);
    let ok = outcomes.take(n as int);
    assert forall|j: int| 0 <= j < ok.len() implies #[trigger] ok[j] is Ok by {
        assert(ok[j] == outcomes[j]);
    }
    lemma_successes_advance(p, a, lock, ok);
    lemma_run_follows_plan(p, a, lock, ok);
    lemma_finished_run_stays(p, a, lock, outcomes, n);
}

/// The two calls that need the owner's signature, adding liquidity and
/// locking, carry the same authority, so they present the same seeds: the
/// one label and the one bump. No other call carries a signer, and the
/// position is opened for that authority, not for the funder.
pub proof fn lemma_authority_reused(p: GraduateParams, a: Authority)
    ensures
        ({
            let calls = plan(p, a, true);
            &&& calls[4].spec_signer() == Some(a)
            &&& calls[5].spec_signer() == Some(a)
            &&& calls[4].spec_signer()->Some_0.seeds() == owner_seeds(a.bump)
            &&& calls[5].spec_signer()->Some_0.seeds() == owner_seeds(a.bump)
            &&& forall|i: int| 0 <= i < 4 ==> #[trigger] calls[i].spec_signer() is None
            &&& calls[3] is OpenPosition && calls[3]->owner == a.address
        }),
{
    assert(plan(p, a, true)[0].spec_signer() is None);
    assert(plan(p, a, true)[1].spec_signer() is None);
    assert(plan(p, a, true)[2].spec_signer() is None);
    assert(plan(p, a, true)[3].spec_signer() is None);
}

/// The pool program's check on adding liquidity: the amounts it requires
/// are within the ceilings that the call carries.
pub open spec fn within_ceilings(call: Call, required_a: u64, required_b: u64) -> bool {
    match call {
        Call::IncreaseLiquidity { token_max_a, token_max_b, .. } => required_a <= token_max_a
            && required_b <= token_max_b,
        _ => true,
    }
}

/// Slippage: where the pool program requires `required_a` and `required_b`
/// for the liquidity and refuses the call exactly when they exceed the
/// ceilings it was handed, and every other step succeeds, the run succeeds
/// exactly when both amounts are within the caller's own ceilings (equal
/// amounts pass), and otherwise fails at adding liquidity.
pub proof fn lemma_slippage_enforced<E>(
    p: GraduateParams,
    a: Authority,
    lock: bool,
    outcomes: Seq<Result<(), E>>,
    required_a: u64,
    required_b: u64,
)
    requires
        outcomes.len() == step_count(lock),
        (forall|j: int| 0 <= j < outcomes.len() && j != 4 ==> #[trigger] outcomes[j] is Ok),
        outcomes[4] is Ok <==> within_ceilings(plan(p, a, lock)[4], required_a, required_b),
    ensures
        ({
            let r = run(GraduationState::<E>::init(p, a, lock), outcomes);
            &&& r.result() is Some
            &&& r.result()->Some_0 is Ok <==> (required_a <= p.token_max_a && required_b
                <= p.token_max_b)
            &&& r.result()->Some_0 is Err ==> r.result()->Some_0->Err_0.step
                == Step::IncreaseLiquidity
        }),
{
    if outcomes[4] is Ok {
        lemma_all_succeed(p, a, lock, outcomes);
    } else {
        lemma_first_failure_aborts(p, a, lock, outcomes, 4);
    }
}

/// A run whose pool creation is refused, as it is for a pool that already
/// exists, aborts at the first step having made that one call; one whose
/// position opening is refused, as it is for a position mint already used,
/// aborts at opening the position and neither adds liquidity nor locks.
pub proof fn lemma_refused_setup_aborts<E>(
    p: GraduateParams,
    a: Authority,
    lock: bool,
    outcomes: Seq<Result<(), E>>,
)
    requires
        outcomes.len() >= 1,
    ensures
        outcomes[0] is Err ==> {
            let s0 = GraduationState::<E>::init(p, a, lock);
            &&& run(s0, outcomes).stage() == Stage::Aborted(Step::InitializePool)
            &&& issued(s0, outcomes) =~= seq![plan(p, a, lock)[0]]
        },
        outcomes.len() >= 4 && outcomes[0] is Ok && outcomes[1] is Ok && outcomes[2] is Ok
            && outcomes[3] is Err ==> {
            let s0 = GraduationState::<E>::init(p, a, lock);
            let calls = issued(s0, outcomes);
            &&& run(s0, outcomes).stage() == Stage::Aborted(Step::OpenPosition)
            &&& calls.len() == 4
            &&& forall|i: int|
                0 <= i < calls.len() ==> #[trigger] calls[i].step() != Step::IncreaseLiquidity
                    && calls[i].step() != Step::LockPosition
        },
{
    if outcomes[0] is Err {
        lemma_first_failure_aborts(p, a, lock, outcomes, 0);
        assert(plan(p, a, lock).take(1) =~= seq![plan(p, a, lock)[0]]);
    }
    if outcomes.len() >= 4 && outcomes[0] is Ok && outcomes[1] is Ok && outcomes[2] is Ok
        && outcomes[3] is Err {
        assert forall|j: int| 0 <= j < 3 implies #[trigger] outcomes[j] is Ok by {}
        lemma_first_failure_aborts(p, a, lock, outcomes, 3);
        lemma_calls_in_order(p, a, lock, outcomes);
    }
}

} // verus!
