//! The decisions around vendor calls: retries with exponential backoff on
//! transient errors, then the fallback plans in order, and the error that is
//! reported when everything fails.
//!
//! A run is driven by its caller: the caller performs each vendor call that
//! a step asks for (after sleeping for its backoff), hands the outcome back
//! to `ExecutionRun::record`, and stops at the first `Done` step.

use super::error::{ExecutorError, ExecutorErrorView};
use super::repository::ExecutorRepository;
use crate::common::contracts::RoutePlan;
use vstd::arithmetic::power2::{lemma2_to64, lemma2_to64_rest, lemma_pow2_unfold, pow2};
use vstd::prelude::*;

verus! {

/// The last attempt number whose backoff still fits in a `u64` of
/// milliseconds.
pub const MAX_BACKOFF_ATTEMPT: u32 = 55;

/// Backoff before attempt `attempt` (attempts count from 0): none before the
/// first attempt, then 1 s, 2 s, 4 s, 8 s, ...
pub open spec fn backoff_for(attempt: nat) -> int {
    if attempt == 0 {
        0
    } else {
        (1000 * pow2((attempt - 1) as nat)) as int
    }
}

/// The backoff, in milliseconds, to wait before attempt `attempt`.
pub fn backoff_ms(attempt: u32) -> (ms: u64)
    requires
        attempt <= MAX_BACKOFF_ATTEMPT,
    ensures
        ms == backoff_for(attempt as nat),
{
    if attempt == 0 {
        return 0;
    }
    let mut p: u64 = 1;
    let mut k: u32 = 0;
    proof {
        lemma2_to64();
        lemma2_to64_rest();
    }
    while k < attempt - 1
        invariant
            k <= attempt - 1,
            attempt <= MAX_BACKOFF_ATTEMPT,
            p == pow2(k as nat),
            pow2(54) == 0x40000000000000,
        decreases attempt - 1 - k,
    {
        proof {
            lemma_pow2_unfold((k + 1) as nat);
            vstd::arithmetic::power2::lemma_pow2_strictly_increases((k + 1) as nat, 55);
            lemma2_to64_rest();
        }
        p = p * 2;
        k = k + 1;
    }
    proof {
        if (attempt - 1) < 54 {
            vstd::arithmetic::power2::lemma_pow2_strictly_increases((attempt - 1) as nat, 54);
        }
    }
    1000 * p
}

/// A vendor and a model to call, as `(vendor_id, model_id)`.
pub type TargetView = (Seq<char>, Seq<char>);

/// A vendor and a model to call.
pub struct Target {
    pub vendor_id: String,
    pub model_id: String,
}

impl View for Target {
    type V = TargetView;

    open spec fn view(&self) -> TargetView {
        (self.vendor_id@, self.model_id@)
    }
}

/// The targets of a list of plans, in order.
pub open spec fn plan_targets(plans: Seq<RoutePlan>) -> Seq<TargetView> {
    plans.map_values(|p: RoutePlan| (p.vendor_id@, p.model_id@))
}

/// Why a target cannot be called, if it cannot: its vendor is not
/// registered, or the vendor does not serve its model.
pub open spec fn resolution_error(
    reg: Map<Seq<char>, Seq<Seq<char>>>,
    t: TargetView,
) -> Option<ExecutorErrorView> {
    if !reg.contains_key(t.0) {
        Some(ExecutorErrorView::UnsupportedVendor(t.0))
    } else if !reg[t.0].contains(t.1) {
        Some(ExecutorErrorView::UnsupportedModel(t.0, t.1))
    } else {
        None
    }
}

/// A target can be called exactly when its vendor is registered and serves
/// its model; an unregistered vendor is reported as `UnsupportedVendor`
/// with the vendor's id, and a model the vendor does not serve as
/// `UnsupportedModel` with the vendor first and the model second.
pub proof fn lemma_resolution_follows_registry(
    reg: Map<Seq<char>, Seq<Seq<char>>>,
    vendor: Seq<char>,
    model: Seq<char>,
)
    ensures
        (resolution_error(reg, (vendor, model)) is None) == (reg.contains_key(vendor)
            && reg[vendor].contains(model)),
        !reg.contains_key(vendor) ==> resolution_error(reg, (vendor, model)) == Some(
            ExecutorErrorView::UnsupportedVendor(vendor),
        ),
        reg.contains_key(vendor) && !reg[vendor].contains(model) ==> resolution_error(
            reg,
            (vendor, model),
        ) == Some(ExecutorErrorView::UnsupportedModel(vendor, model)),
{
}

/// The first target at index `i` or later that can be called, or the
/// length of `ts` when there is none.
pub open spec fn first_callable(
    reg: Map<Seq<char>, Seq<Seq<char>>>,
    ts: Seq<TargetView>,
    i: int,
) -> int
    decreases ts.len() - i,
{
    if i >= ts.len() {
        ts.len() as int
    } else if resolution_error(reg, ts[i]) is None {
        i
    } else {
        first_callable(reg, ts, i + 1)
    }
}

/// The abstract state of a run.
pub struct RunState {
    /// The fallback targets, in the order they are tried.
    pub fallbacks: Seq<TargetView>,
    /// Whether the primary target has failed and fallbacks are being tried.
    pub in_fallback: bool,
    /// The fallback being tried, when `in_fallback`.
    pub index: int,
    /// The primary target's error, once it has failed.
    pub primary_error: Option<ExecutorErrorView>,
    /// The target being called.
    pub target: TargetView,
    /// The attempt number on the current target, from 0.
    pub attempt: nat,
    /// Retries allowed after a first failed attempt on each target.
    pub max_retries: nat,
    /// Whether a vendor call is pending.
    pub active: bool,
}

/// The abstract form of a step.
pub enum StepView<T> {
    /// Call `vendor_id`/`model_id` as attempt `attempt`, after waiting
    /// `backoff_ms` milliseconds.
    Call { vendor_id: Seq<char>, model_id: Seq<char>, attempt: nat, backoff_ms: int },
    /// The execution is over with this result.
    Done(Result<T, ExecutorErrorView>),
}

/// The call step for a state's current target and attempt.
pub open spec fn call_step<T>(s: RunState) -> StepView<T> {
    StepView::Call {
        vendor_id: s.target.0,
        model_id: s.target.1,
        attempt: s.attempt,
        backoff_ms: backoff_for(s.attempt),
    }
}

/// After the primary target (`primary` being its error) or a fallback has
/// failed: try the first callable fallback from index `from`, or report the
/// primary error when none is left.
pub open spec fn move_to_fallback<T>(
    reg: Map<Seq<char>, Seq<Seq<char>>>,
    s: RunState,
    from: int,
    primary: ExecutorErrorView,
) -> (RunState, StepView<T>) {
    let j = first_callable(reg, s.fallbacks, from);
    if j < s.fallbacks.len() {
        let n = RunState {
            in_fallback: true,
            index: j,
            primary_error: Some(primary),
            target: s.fallbacks[j],
            attempt: 0,
            active: true,
            ..s
        };
        (n, call_step(n))
    } else {
        (
            RunState {
                in_fallback: true,
                index: j,
                primary_error: Some(primary),
                attempt: 0,
                active: false,
                ..s
            },
            StepView::Done(Err(primary)),
        )
    }
}

/// Entering a run: call the primary target, or, when it cannot be called,
/// treat that as its failure.
pub open spec fn start_step<T>(reg: Map<Seq<char>, Seq<Seq<char>>>, s: RunState) -> (
    RunState,
    StepView<T>,
) {
    match resolution_error(reg, s.target) {
        None => (s, call_step(s)),
        Some(e) => move_to_fallback(reg, s, 0, e),
    }
}

/// The outcome of a vendor call with the error taken by its view.
pub open spec fn outcome_view<T>(o: Result<T, ExecutorError>) -> Result<T, ExecutorErrorView> {
    match o {
        Ok(r) => Ok(r),
        Err(e) => Err(e@),
    }
}

/// What follows the outcome of the pending call: success ends the run with
/// that result; a retryable error is retried while the budget lasts; any
/// other failure moves on to the fallbacks, and the run ends with the primary
/// target's error once they are exhausted.
pub open spec fn record_step<T>(
    reg: Map<Seq<char>, Seq<Seq<char>>>,
    s: RunState,
    outcome: Result<T, ExecutorErrorView>,
) -> (RunState, StepView<T>) {
    match outcome {
        Ok(r) => (RunState { active: false, ..s }, StepView::Done(Ok(r))),
        Err(e) => if e.is_retryable() && s.attempt < s.max_retries {
            let n = RunState { attempt: s.attempt + 1, ..s };
            (n, call_step(n))
        } else if s.in_fallback {
            move_to_fallback(reg, s, s.index + 1, s.primary_error.unwrap())
        } else {
            move_to_fallback(reg, s, 0, e)
        },
    }
}

/// Recording this outcome in this state would not need a backoff beyond
/// `MAX_BACKOFF_ATTEMPT`.
pub open spec fn backoff_fits<T>(s: RunState, outcome: Result<T, ExecutorErrorView>) -> bool {
    outcome matches Err(e) && e.is_retryable() && s.attempt < s.max_retries ==> s.attempt + 1
        <= MAX_BACKOFF_ATTEMPT
}

/// The state after the pending calls fail with `es`, in order.
pub open spec fn after_failures(
    reg: Map<Seq<char>, Seq<Seq<char>>>,
    s: RunState,
    es: Seq<ExecutorErrorView>,
) -> RunState
    decreases es.len(),
{
    if es.len() == 0 {
        s
    } else {
        record_step::<()>(reg, after_failures(reg, s, es.drop_last()), Err(es.last())).0
    }
}

/// Backoff grows exponentially: 1 s before the first retry, then twice the
/// previous wait before each further retry.
pub proof fn lemma_backoff_doubles(attempt: nat)
    ensures
        backoff_for(0) == 0,
        backoff_for(1) == 1000,
        attempt >= 1 ==> backoff_for(attempt + 1) == 2 * backoff_for(attempt),
{
    lemma2_to64();
    if attempt >= 1 {
        lemma_pow2_unfold(attempt);
    }
}

/// A successful vendor call ends the run with its result, unchanged.
pub proof fn lemma_success_ends_run<T>(reg: Map<Seq<char>, Seq<Seq<char>>>, s: RunState, r: T)
    ensures
        record_step(reg, s, Ok(r)).1 == StepView::<T>::Done(Ok(r)),
        !record_step(reg, s, Ok(r)).0.active,
{
}

/// While the retry budget lasts, retryable failures keep calling the same
/// target: after `k <= max_retries` of them the run is on attempt `k` of the
/// target it started on.
pub proof fn lemma_retries_stay_on_target(
    reg: Map<Seq<char>, Seq<Seq<char>>>,
    s: RunState,
    es: Seq<ExecutorErrorView>,
)
    requires
        s.active,
        s.attempt == 0,
        es.len() <= s.max_retries,
        forall|i: int| 0 <= i < es.len() ==> (#[trigger] es[i]).is_retryable(),
    ensures
        after_failures(reg, s, es) == (RunState { attempt: es.len(), ..s }),
    decreases es.len(),
{
    if es.len() > 0 {
        let p = es.drop_last();
        assert forall|i: int| 0 <= i < p.len() implies (#[trigger] p[i]).is_retryable() by {
            assert(p[i] == es[i]);
        }
        lemma_retries_stay_on_target(reg, s, p);
        assert(es.last() == es[es.len() - 1]);
    }
}

/// A target whose failure is not retried, or whose retry budget is spent,
/// is left for good: the run either ends or moves on to a fallback that
/// comes later in the list, starting again at attempt 0.
pub proof fn lemma_failure_leaves_target(
    reg: Map<Seq<char>, Seq<Seq<char>>>,
    s: RunState,
    e: ExecutorErrorView,
)
    requires
        !e.is_retryable() || s.attempt >= s.max_retries,
        s.in_fallback ==> 0 <= s.index < s.fallbacks.len() && s.primary_error is Some,
    ensures
        ({
            let n = record_step::<()>(reg, s, Err(e)).0;
            &&& n.in_fallback
            &&& n.attempt == 0
            &&& s.in_fallback ==> n.index > s.index
            &&& n.active ==> 0 <= n.index < n.fallbacks.len() && n.target == n.fallbacks[n.index]
        }),
{
    lemma_first_callable_bounds(reg, s.fallbacks, 0);
    lemma_first_callable_bounds(reg, s.fallbacks, s.index + 1);
}

/// `first_callable` finds an index at or after where it starts looking.
pub proof fn lemma_first_callable_bounds(
    reg: Map<Seq<char>, Seq<Seq<char>>>,
    ts: Seq<TargetView>,
    i: int,
)
    ensures
        first_callable(reg, ts, i) >= i || (i > ts.len() && first_callable(reg, ts, i)
            == ts.len()),
        first_callable(reg, ts, i) <= ts.len() || i > ts.len(),
        first_callable(reg, ts, i) < ts.len() ==> resolution_error(
            reg,
            ts[first_callable(reg, ts, i)],
        ) is None,
        forall|k: int|
            i <= k < first_callable(reg, ts, i) ==> resolution_error(reg, #[trigger] ts[k]) is Some,
    decreases ts.len() - i,
{
    if i < ts.len() && resolution_error(reg, ts[i]) is Some {
        lemma_first_callable_bounds(reg, ts, i + 1);
    }
}

/// When a run ends in failure, it reports the primary target's error: the
/// error of its last attempt when no fallback succeeds (or none exists), and
/// that error stays recorded while fallbacks are tried.
pub proof fn lemma_failure_reports_primary_error<T>(
    reg: Map<Seq<char>, Seq<Seq<char>>>,
    s: RunState,
    e: ExecutorErrorView,
)
    requires
        s.in_fallback ==> 0 <= s.index < s.fallbacks.len() && s.primary_error is Some,
    ensures
        ({
            let (n, step) = record_step::<T>(reg, s, Err(e));
            &&& s.in_fallback ==> n.primary_error == s.primary_error
            &&& !s.in_fallback && !(e.is_retryable() && s.attempt < s.max_retries)
                ==> n.primary_error == Some(e)
            &&& step matches StepView::Done(Err(x)) ==> n.primary_error == Some(x)
        }),
{
}

/// A bound on the vendor calls a run may still make, counting the pending
/// one: the calls left on the current target, plus `1 + max_retries` for
/// each target after it (the primary target comes before every fallback).
pub open spec fn calls_left(s: RunState) -> int {
    let per_target = s.max_retries + 1;
    let later = if s.in_fallback {
        s.fallbacks.len() - s.index - 1
    } else {
        s.fallbacks.len() as int
    };
    later * per_target + (per_target - s.attempt)
}

/// Every run ends: a run starts with at most `(1 + fallbacks) *
/// (1 + max_retries)` calls ahead of it, and each failed call either ends
/// the run or leaves strictly fewer calls ahead, never fewer than one while
/// a call is pending.
pub proof fn lemma_runs_end(reg: Map<Seq<char>, Seq<Seq<char>>>, s: RunState, e: ExecutorErrorView)
    requires
        s.active,
        s.attempt <= s.max_retries,
        s.in_fallback ==> 0 <= s.index < s.fallbacks.len(),
    ensures
        ({
            let n = record_step::<()>(reg, s, Err(e)).0;
            &&& n.attempt <= n.max_retries
            &&& n.max_retries == s.max_retries
            &&& n.fallbacks == s.fallbacks
            &&& n.in_fallback ==> 0 <= n.index <= n.fallbacks.len()
            &&& n.active ==> (n.in_fallback ==> n.index < n.fallbacks.len())
            &&& n.active ==> 1 <= calls_left(n) < calls_left(s)
        }),
        calls_left(s) <= (s.fallbacks.len() + 1) * (s.max_retries + 1),
        calls_left(s) >= 1,
{
    let r = s.max_retries + 1;
    let len = s.fallbacks.len() as int;
    let later = if s.in_fallback { len - s.index - 1 } else { len };
    assert(0 <= later <= len);
    assert(later * r <= len * r) by (nonlinear_arith)
        requires
            0 <= later <= len,
            r >= 1,
    ;
    assert(later * r >= 0) by (nonlinear_arith)
        requires
            0 <= later,
            r >= 1,
    ;
    assert((len + 1) * r == len * r + r) by (nonlinear_arith);
    lemma_first_callable_bounds(reg, s.fallbacks, 0);
    lemma_first_callable_bounds(reg, s.fallbacks, s.index + 1);
    let n = record_step::<()>(reg, s, Err(e)).0;
    if n.active && n.in_fallback && n.attempt == 0 {
        let nl = len - n.index - 1;
        assert(0 <= nl);
        assert(nl < later);
        assert(nl * r + r <= later * r) by (nonlinear_arith)
            requires
                0 <= nl < later,
                r >= 1,
        ;
        assert(nl * r >= 0) by (nonlinear_arith)
            requires
                0 <= nl,
                r >= 1,
        ;
    }
}

/// Where a run stands after the pending calls answer with `os`, in order:
/// answers are recorded while a call is pending, and the run stays as it is
/// once it is done.
pub open spec fn drive<T>(
    reg: Map<Seq<char>, Seq<Seq<char>>>,
    s: RunState,
    step: StepView<T>,
    os: Seq<Result<T, ExecutorErrorView>>,
) -> (RunState, StepView<T>)
    decreases os.len(),
{
    if os.len() == 0 || step is Done {
        (s, step)
    } else {
        let (n, next) = record_step(reg, s, os[0]);
        drive(reg, n, next, os.drop_first())
    }
}

/// How many of the answers `os` a run takes before it is done.
pub open spec fn answers_taken<T>(
    reg: Map<Seq<char>, Seq<Seq<char>>>,
    s: RunState,
    step: StepView<T>,
    os: Seq<Result<T, ExecutorErrorView>>,
) -> nat
    decreases os.len(),
{
    if os.len() == 0 || step is Done {
        0
    } else {
        let (n, next) = record_step(reg, s, os[0]);
        1 + answers_taken(reg, n, next, os.drop_first())
    }
}

/// The entry state of a run on `target` with fallback targets `fallbacks`.
pub open spec fn entry_state(fallbacks: Seq<TargetView>, target: TargetView, max_retries: nat) -> RunState {
    RunState {
        fallbacks,
        in_fallback: false,
        index: 0,
        primary_error: None,
        target,
        attempt: 0,
        max_retries,
        active: true,
    }
}

/// Moving on to the fallbacks does not depend on where the run was: the
/// step is the same, and so is the state while a call is pending.
proof fn lemma_move_to_fallback_same<T>(
    reg: Map<Seq<char>, Seq<Seq<char>>>,
    a: RunState,
    b: RunState,
    e: ExecutorErrorView,
)
    requires
        a.fallbacks == b.fallbacks,
        a.max_retries == b.max_retries,
    ensures
        move_to_fallback::<T>(reg, a, 0, e).1 == move_to_fallback::<T>(reg, b, 0, e).1,
        move_to_fallback::<T>(reg, a, 0, e).1 is Call ==> move_to_fallback::<T>(reg, a, 0, e).0
            == move_to_fallback::<T>(reg, b, 0, e).0,
{
}

/// A done run ignores further answers.
proof fn lemma_drive_done<T>(
    reg: Map<Seq<char>, Seq<Seq<char>>>,
    a: RunState,
    b: RunState,
    step: StepView<T>,
    os: Seq<Result<T, ExecutorErrorView>>,
)
    requires
        step is Done || a == b,
    ensures
        drive(reg, a, step, os).1 == drive(reg, b, step, os).1,
    decreases os.len(),
{
}

/// The induction behind `lemma_execute_is_retry_then_fallbacks`: a run on
/// the primary target with fallbacks `fb` behaves as the same run without
/// fallbacks until that run fails, and from then on as a run of the
/// fallbacks alone.
proof fn lemma_primary_then_fallbacks<T>(
    reg: Map<Seq<char>, Seq<Seq<char>>>,
    s: RunState,
    fb: Seq<TargetView>,
    os: Seq<Result<T, ExecutorErrorView>>,
)
    requires
        s.fallbacks.len() == 0,
        !s.in_fallback,
        s.attempt <= s.max_retries,
    ensures
        ({
            let full = RunState { fallbacks: fb, ..s };
            let solo = drive(reg, s, call_step::<T>(s), os).1;
            let k = answers_taken(reg, s, call_step::<T>(s), os);
            let fallbacks_start = move_to_fallback::<T>(
                reg,
                entry_state(fb, (Seq::empty(), Seq::empty()), s.max_retries),
                0,
                solo->Done_0->Err_0,
            );
            &&& k <= os.len()
            &&& !(solo matches StepView::Done(Err(_))) ==> drive(reg, full, call_step::<T>(full), os).1 == solo
            &&& solo matches StepView::Done(Err(_)) ==> drive(reg, full, call_step::<T>(full), os).1
                == drive(reg, fallbacks_start.0, fallbacks_start.1, os.skip(k as int)).1
        }),
    decreases os.len(),
{
    let full = RunState { fallbacks: fb, ..s };
    assert(call_step::<T>(full) == call_step::<T>(s));
    if os.len() > 0 {
        let o = os[0];
        let rest = os.drop_first();
        match o {
            Ok(r) => {
                let d = StepView::<T>::Done(Ok(r));
                assert(drive(reg, s, call_step::<T>(s), os) == drive(
                    reg,
                    RunState { active: false, ..s },
                    d,
                    rest,
                ));
                assert(drive(reg, full, call_step::<T>(full), os) == drive(
                    reg,
                    RunState { active: false, ..full },
                    d,
                    rest,
                ));
                assert(answers_taken(reg, RunState { active: false, ..s }, d, rest) == 0);
                assert(answers_taken(reg, s, call_step::<T>(s), os) == 1);
            },
            Err(e) => {
                if e.is_retryable() && s.attempt < s.max_retries {
                    let n = RunState { attempt: s.attempt + 1, ..s };
                    assert(RunState { fallbacks: fb, ..n } == RunState { attempt: full.attempt + 1, ..full });
                    lemma_primary_then_fallbacks(reg, n, fb, rest);
                    let k = answers_taken(reg, n, call_step::<T>(n), rest);
                    assert(rest.skip(k as int) =~= os.skip((k + 1) as int));
                } else {
                    let init = entry_state(fb, (Seq::empty(), Seq::empty()), s.max_retries);
                    lemma_move_to_fallback_same::<T>(reg, full, init, e);
                    let a = move_to_fallback::<T>(reg, full, 0, e);
                    let b = move_to_fallback::<T>(reg, init, 0, e);
                    lemma_drive_done(reg, a.0, b.0, a.1, rest);
                    assert(first_callable(reg, s.fallbacks, 0) == 0);
                    assert(os.skip(1) =~= rest);
                    assert(move_to_fallback::<T>(reg, s, 0, e).1 == StepView::<T>::Done(Err(e)));
                    assert(record_step::<T>(reg, s, Err(e)) == move_to_fallback::<T>(reg, s, 0, e));
                    assert(record_step::<T>(reg, full, Err(e)) == a);
                    assert(drive(reg, s, call_step::<T>(s), os) == drive(
                        reg,
                        move_to_fallback::<T>(reg, s, 0, e).0,
                        StepView::<T>::Done(Err(e)),
                        rest,
                    ));
                    assert(drive(reg, full, call_step::<T>(full), os) == drive(reg, a.0, a.1, rest));
                    assert(answers_taken(
                        reg,
                        move_to_fallback::<T>(reg, s, 0, e).0,
                        StepView::<T>::Done(Err(e)),
                        rest,
                    ) == 0);
                    assert(answers_taken(reg, s, call_step::<T>(s), os) == 1);
                }
            },
        }
    }
}

/// Executing a plan is executing its own target with retries, then, if that
/// fails, its fallback plans: for every sequence of vendor answers `os`, a
/// run of the whole plan takes the steps of a run of the primary target
/// alone (`with_retry`) while that one lasts, ending as it does when it
/// succeeds; when the primary run fails with error `e` after `k` answers,
/// the whole plan continues as a run of the fallbacks alone started with
/// primary error `e` (`fallbacks`), on the answers that follow.
pub proof fn lemma_execute_is_retry_then_fallbacks<T>(
    reg: Map<Seq<char>, Seq<Seq<char>>>,
    plan: RoutePlan,
    max_retries: nat,
    os: Seq<Result<T, ExecutorErrorView>>,
)
    ensures
        ({
            let target = (plan.vendor_id@, plan.model_id@);
            let fb = plan_targets(plan.fallback_plans@);
            let whole = start_step::<T>(reg, entry_state(fb, target, max_retries));
            let primary = start_step::<T>(reg, entry_state(Seq::empty(), target, max_retries));
            let solo = drive(reg, primary.0, primary.1, os).1;
            let k = answers_taken(reg, primary.0, primary.1, os);
            let fallbacks_start = move_to_fallback::<T>(
                reg,
                entry_state(fb, (Seq::empty(), Seq::empty()), max_retries),
                0,
                solo->Done_0->Err_0,
            );
            &&& !(solo matches StepView::Done(Err(_))) ==> drive(reg, whole.0, whole.1, os).1 == solo
            &&& solo matches StepView::Done(Err(_)) ==> drive(reg, whole.0, whole.1, os).1
                == drive(reg, fallbacks_start.0, fallbacks_start.1, os.skip(k as int)).1
        }),
{
    let target = (plan.vendor_id@, plan.model_id@);
    let fb = plan_targets(plan.fallback_plans@);
    let s = entry_state(Seq::empty(), target, max_retries);
    let full = entry_state(fb, target, max_retries);
    assert(full == RunState { fallbacks: fb, ..s });
    match resolution_error(reg, target) {
        None => {
            lemma_primary_then_fallbacks::<T>(reg, s, fb, os);
        },
        Some(e) => {
            let init = entry_state(fb, (Seq::empty(), Seq::empty()), max_retries);
            lemma_move_to_fallback_same::<T>(reg, full, init, e);
            let a = move_to_fallback::<T>(reg, full, 0, e);
            let b = move_to_fallback::<T>(reg, init, 0, e);
            lemma_drive_done(reg, a.0, b.0, a.1, os);
            assert(first_callable(reg, s.fallbacks, 0) == 0);
            lemma_drive_done(reg, s, s, StepView::<T>::Done(Err(e)), os);
            assert(os.skip(0) =~= os);
        },
    }
}

/// Fallback plans become fallback targets one for one and in the same
/// order: the `i`-th fallback target is the `i`-th plan's vendor and model.
pub proof fn lemma_fallbacks_keep_plan_order(plans: Seq<RoutePlan>)
    ensures
        plan_targets(plans).len() == plans.len(),
        forall|i: int|
            0 <= i < plans.len() ==> #[trigger] plan_targets(plans)[i] == (
                plans[i].vendor_id@,
                plans[i].model_id@,
            ),
{
}

/// When a target fails for good (an error that is not retried, or one
/// after the retry budget is spent), the run calls the next callable
/// fallback in list order: the first fallback after the failed one (after
/// none, when the primary target failed) whose vendor is registered and
/// serves its model, at attempt 0 without backoff, skipping only fallbacks
/// that cannot be called. Only when no later fallback can be called does
/// the run end, with the primary target's error.
pub proof fn lemma_failure_calls_next_callable_fallback<T>(
    reg: Map<Seq<char>, Seq<Seq<char>>>,
    s: RunState,
    e: ExecutorErrorView,
)
    requires
        !(e.is_retryable() && s.attempt < s.max_retries),
        s.in_fallback ==> 0 <= s.index < s.fallbacks.len() && s.primary_error is Some,
    ensures
        ({
            let (n, step) = record_step::<T>(reg, s, Err(e));
            let from = if s.in_fallback { s.index + 1 } else { 0 };
            let primary = if s.in_fallback { s.primary_error.unwrap() } else { e };
            &&& (exists|j: int|
                from <= j < s.fallbacks.len() && resolution_error(reg, #[trigger] s.fallbacks[j])
                    is None) ==> {
                &&& from <= n.index < s.fallbacks.len()
                &&& resolution_error(reg, s.fallbacks[n.index]) is None
                &&& forall|k: int|
                    from <= k < n.index ==> resolution_error(reg, #[trigger] s.fallbacks[k]) is Some
                &&& n.active && n.in_fallback && n.attempt == 0
                &&& n.target == s.fallbacks[n.index]
                &&& n.primary_error == Some(primary)
                &&& step == StepView::<T>::Call {
                    vendor_id: s.fallbacks[n.index].0,
                    model_id: s.fallbacks[n.index].1,
                    attempt: 0,
                    backoff_ms: 0,
                }
            }
            &&& (forall|j: int|
                from <= j < s.fallbacks.len() ==> resolution_error(reg, #[trigger] s.fallbacks[j])
                    is Some) ==> step == StepView::<T>::Done(Err(primary)) && !n.active
        }),
{
    let from = if s.in_fallback { s.index + 1 } else { 0 };
    lemma_first_callable_bounds(reg, s.fallbacks, from);
    let j = first_callable(reg, s.fallbacks, from);
    if exists|k: int| from <= k < s.fallbacks.len() && resolution_error(reg, #[trigger] s.fallbacks[k]) is None {
        let k = choose|k: int| from <= k < s.fallbacks.len() && resolution_error(reg, #[trigger] s.fallbacks[k]) is None;
        if j >= s.fallbacks.len() {
            assert(resolution_error(reg, s.fallbacks[k]) is Some);
        }
    }
    if j < s.fallbacks.len() {
        assert(resolution_error(reg, s.fallbacks[j]) is None);
    }
}

/// A vendor call to perform.
pub struct VendorCall {
    pub vendor_id: String,
    pub model_id: String,
    /// Attempt number on this target, from 0.
    pub attempt: u32,
    /// Milliseconds to wait before the call.
    pub backoff_ms: u64,
}

/// What the caller does next.
pub enum Step<T> {
    /// Perform this vendor call and record its outcome.
    Call(VendorCall),
    /// The execution is over with this result.
    Done(Result<T, ExecutorError>),
}

impl<T> View for Step<T> {
    type V = StepView<T>;

    open spec fn view(&self) -> StepView<T> {
        match self {
            Step::Call(c) => StepView::Call {
                vendor_id: c.vendor_id@,
                model_id: c.model_id@,
                attempt: c.attempt as nat,
                backoff_ms: c.backoff_ms as int,
            },
            Step::Done(r) => StepView::Done(outcome_view(*r)),
        }
    }
}

/// Why a target cannot be called, if it cannot.
fn resolve(repo: &ExecutorRepository, t: &Target) -> (r: Option<ExecutorError>)
    requires
        repo.wf(),
    ensures
        match r {
            None => resolution_error(repo@, t@) is None,
            Some(e) => resolution_error(repo@, t@) == Some(e@),
        },
{
    match repo.get_vendor(t.vendor_id.as_str()) {
        Err(e) => Some(e),
        Ok(v) => {
            if v.supports_model(t.model_id.as_str()) {
                None
            } else {
                Some(ExecutorError::UnsupportedModel(t.vendor_id.clone(), t.model_id.clone()))
            }
        },
    }
}

fn copy_target(t: &Target) -> (r: Target)
    ensures
        r@ == t@,
{
    Target { vendor_id: t.vendor_id.clone(), model_id: t.model_id.clone() }
}

/// The first callable target at index `i` or later.
fn find_callable(repo: &ExecutorRepository, ts: &Vec<Target>, i: usize) -> (j: usize)
    requires
        repo.wf(),
        i <= ts@.len(),
    ensures
        j == first_callable(repo@, ts@.map_values(|t: Target| t@), i as int),
        j <= ts@.len(),
{
    let ghost tv = ts@.map_values(|t: Target| t@);
    let mut k = i;
    while k < ts.len()
        invariant
            i <= k <= ts@.len(),
            tv == ts@.map_values(|t: Target| t@),
            repo.wf(),
            first_callable(repo@, tv, i as int) == first_callable(repo@, tv, k as int),
        decreases ts@.len() - k,
    {
        if resolve(repo, &ts[k]).is_none() {
            return k;
        }
        k = k + 1;
    }
    k
}

/// A run of one execution: the primary target with its retries, then each
/// fallback with its retries.
pub struct ExecutionRun {
    fallbacks: Vec<Target>,
    in_fallback: bool,
    index: usize,
    primary_error: Option<ExecutorError>,
    target: Target,
    attempt: u32,
    max_retries: u32,
    active: bool,
}

impl View for ExecutionRun {
    type V = RunState;

    closed spec fn view(&self) -> RunState {
        RunState {
            fallbacks: self.fallbacks@.map_values(|t: Target| t@),
            in_fallback: self.in_fallback,
            index: self.index as int,
            primary_error: match self.primary_error {
                Some(e) => Some(e@),
                None => None,
            },
            target: self.target@,
            attempt: self.attempt as nat,
            max_retries: self.max_retries as nat,
            active: self.active,
        }
    }
}

impl ExecutionRun {
    /// Internal consistency of a run.
    pub closed spec fn wf(&self) -> bool {
        &&& self.attempt <= self.max_retries
        &&& self.index <= self.fallbacks@.len()
        &&& self.in_fallback ==> self.primary_error is Some
        &&& self.active && self.in_fallback ==> self.index < self.fallbacks@.len()
    }

    /// The state and step at the entry of a run.
    fn enter<T>(
        repo: &ExecutorRepository,
        fallbacks: Vec<Target>,
        target: Target,
        max_retries: u32,
        primary_error: Option<ExecutorError>,
    ) -> (r: (ExecutionRun, Step<T>))
        requires
            repo.wf(),
        ensures
            r.0.wf(),
            (r.0@, r.1@) == (match primary_error {
                None => start_step::<T>(
                    repo@,
                    RunState {
                        fallbacks: fallbacks@.map_values(|t: Target| t@),
                        in_fallback: false,
                        index: 0,
                        primary_error: None,
                        target: target@,
                        attempt: 0,
                        max_retries: max_retries as nat,
                        active: true,
                    },
                ),
                Some(e) => move_to_fallback::<T>(
                    repo@,
                    RunState {
                        fallbacks: fallbacks@.map_values(|t: Target| t@),
                        in_fallback: false,
                        index: 0,
                        primary_error: None,
                        target: target@,
                        attempt: 0,
                        max_retries: max_retries as nat,
                        active: true,
                    },
                    0,
                    e@,
                ),
            }),
    {
        let mut run = ExecutionRun {
            fallbacks,
            in_fallback: false,
            index: 0,
            primary_error: None,
            target,
            attempt: 0,
            max_retries,
            active: true,
        };
        match primary_error {
            None => match resolve(repo, &run.target) {
                None => {
                    let step = Step::Call(run.current_call());
                    (run, step)
                },
                Some(e) => {
                    let step = run.fail_over(repo, 0, e);
                    (run, step)
                },
            },
            Some(e) => {
                let step = run.fail_over(repo, 0, e);
                (run, step)
            },
        }
    }

    /// The call for the current target and attempt.
    fn current_call(&self) -> (c: VendorCall)
        requires
            self.attempt <= MAX_BACKOFF_ATTEMPT,
        ensures
            Step::<()>::Call(c)@ == call_step::<()>(self@),
    {
        VendorCall {
            vendor_id: self.target.vendor_id.clone(),
            model_id: self.target.model_id.clone(),
            attempt: self.attempt,
            backoff_ms: backoff_ms(self.attempt),
        }
    }

    /// Moves on to the first callable fallback from `from`, remembering
    /// `primary` as the error to report when none is left.
    fn fail_over<T>(&mut self, repo: &ExecutorRepository, from: usize, primary: ExecutorError) -> (step: Step<T>)
        requires
            repo.wf(),
            from <= old(self).fallbacks@.len(),
            old(self).attempt <= old(self).max_retries,
        ensures
            final(self).wf(),
            (final(self)@, step@) == move_to_fallback::<T>(repo@, old(self)@, from as int, primary@),
    {
        let j = find_callable(repo, &self.fallbacks, from);
        let ghost pv = primary@;
        self.in_fallback = true;
        self.index = j;
        self.attempt = 0;
        if j < self.fallbacks.len() {
            self.target = copy_target(&self.fallbacks[j]);
            self.primary_error = Some(primary);
            self.active = true;
            let c = self.current_call();
            proof {
                assert(self@.fallbacks == old(self)@.fallbacks);
            }
            Step::Call(c)
        } else {
            let reported = primary.clone();
            self.primary_error = Some(primary);
            self.active = false;
            Step::Done(Err(reported))
        }
    }

    /// Starts the execution of a routing plan: the plan's own target first,
    /// then its fallback plans in order. `max_retries` is the number of
    /// retries allowed on each target after its first attempt.
    pub fn start<T>(repo: &ExecutorRepository, plan: &RoutePlan, max_retries: u32) -> (r: (
        ExecutionRun,
        Step<T>,
    ))
        requires
            repo.wf(),
        ensures
            r.0.wf(),
            (r.0@, r.1@) == start_step::<T>(
                repo@,
                RunState {
                    fallbacks: plan_targets(plan.fallback_plans@),
                    in_fallback: false,
                    index: 0,
                    primary_error: None,
                    target: (plan.vendor_id@, plan.model_id@),
                    attempt: 0,
                    max_retries: max_retries as nat,
                    active: true,
                },
            ),
    {
        let fallbacks = plan_target_list(&plan.fallback_plans);
        let target = Target { vendor_id: plan.vendor_id.clone(), model_id: plan.model_id.clone() };
        Self::enter(repo, fallbacks, target, max_retries, None)
    }

    /// Calls one target with retries and no fallback: the run ends with the
    /// first success, the first error that is not retried, or the error of
    /// the last attempt.
    pub fn with_retry<T>(
        repo: &ExecutorRepository,
        vendor_id: &str,
        model_id: &str,
        max_retries: u32,
    ) -> (r: (ExecutionRun, Step<T>))
        requires
            repo.wf(),
        ensures
            r.0.wf(),
            (r.0@, r.1@) == start_step::<T>(
                repo@,
                RunState {
                    fallbacks: Seq::empty(),
                    in_fallback: false,
                    index: 0,
                    primary_error: None,
                    target: (vendor_id@, model_id@),
                    attempt: 0,
                    max_retries: max_retries as nat,
                    active: true,
                },
            ),
    {
        let target = Target { vendor_id: vendor_id.to_string(), model_id: model_id.to_string() };
        let fallbacks: Vec<Target> = Vec::new();
        proof {
            assert(fallbacks@.map_values(|t: Target| t@) =~= Seq::<TargetView>::empty());
        }
        Self::enter(repo, fallbacks, target, max_retries, None)
    }

    /// Tries the fallback plans in order, each with retries, after the
    /// primary target failed with `primary_error`: the run ends with the first
    /// success, or with `primary_error` when every fallback fails or there is
    /// none.
    pub fn fallbacks<T>(
        repo: &ExecutorRepository,
        fallback_plans: &Vec<RoutePlan>,
        primary_error: ExecutorError,
        max_retries: u32,
    ) -> (r: (ExecutionRun, Step<T>))
        requires
            repo.wf(),
        ensures
            r.0.wf(),
            (r.0@, r.1@) == move_to_fallback::<T>(
                repo@,
                RunState {
                    fallbacks: plan_targets(fallback_plans@),
                    in_fallback: false,
                    index: 0,
                    primary_error: None,
                    target: (Seq::empty(), Seq::empty()),
                    attempt: 0,
                    max_retries: max_retries as nat,
                    active: true,
                },
                0,
                primary_error@,
            ),
    {
        let fallbacks = plan_target_list(fallback_plans);
        let target = Target { vendor_id: String::new(), model_id: String::new() };
        Self::enter(repo, fallbacks, target, max_retries, Some(primary_error))
    }

    /// Whether a vendor call is pending.
    pub fn is_active(&self) -> (r: bool)
        ensures
            r == self@.active,
    {
        self.active
    }

    /// Whether recording `outcome` would ask for a backoff beyond
    /// `MAX_BACKOFF_ATTEMPT`, where the arithmetic of the backoff overflows.
    pub fn backoff_overflows<T>(&self, outcome: &Result<T, ExecutorError>) -> (r: bool)
        ensures
            r == !backoff_fits(self@, outcome_view(*outcome)),
    {
        match outcome {
            Ok(_) => false,
            Err(e) => e.is_retryable() && self.attempt < self.max_retries && self.attempt
                >= MAX_BACKOFF_ATTEMPT,
        }
    }

    /// Records the outcome of the pending vendor call and says what follows.
    pub fn record<T>(&mut self, repo: &ExecutorRepository, outcome: Result<T, ExecutorError>) -> (step: Step<T>)
        requires
            repo.wf(),
            old(self).wf(),
            old(self)@.active,
            backoff_fits(old(self)@, outcome_view(outcome)),
        ensures
            final(self).wf(),
            (final(self)@, step@) == record_step(repo@, old(self)@, outcome_view(outcome)),
    {
        match outcome {
            Ok(r) => {
                self.active = false;
                Step::Done(Ok(r))
            },
            Err(e) => {
                if e.is_retryable() && self.attempt < self.max_retries {
                    self.attempt = self.attempt + 1;
                    Step::Call(self.current_call())
                } else if self.in_fallback {
                    let primary = match &self.primary_error {
                        Some(p) => p.clone(),
                        None => e,
                    };
                    let n = self.fallbacks.len();
                    assert(self.index < n);
                    let from = self.index + 1;
                    self.fail_over(repo, from, primary)
                } else {
                    self.fail_over(repo, 0, e)
                }
            },
        }
    }
}

/// The targets of a list of plans.
fn plan_target_list(plans: &Vec<RoutePlan>) -> (r: Vec<Target>)
    ensures
        r@.map_values(|t: Target| t@) == plan_targets(plans@),
{
    let mut r: Vec<Target> = Vec::new();
    let n = plans.len();
    let mut i: usize = 0;
    while i < n
        invariant
            n == plans@.len(),
            i <= n,
            r@.len() == i,
            forall|k: int| 0 <= k < i ==> #[trigger] r@[k]@ == plan_targets(plans@)[k],
        decreases n - i,
    {
        let t = Target { vendor_id: plans[i].vendor_id.clone(), model_id: plans[i].model_id.clone() };
        assert(t@ == plan_targets(plans@)[i as int]);
        r.push(t);
        i = i + 1;
    }
    assert(r@.map_values(|t: Target| t@) =~= plan_targets(plans@));
    r
}

} // verus!
