use vstd::prelude::*;

verus! {

/// Whether `do_until_ok` runs the action again after `attempts` runs, the
/// last of which succeeded when `last_ok`: only after a failure, and only
/// while fewer than `max_limit` runs were made.
pub open spec fn spec_tries_again(attempts: nat, max_limit: nat, last_ok: bool) -> bool {
    !last_ok && attempts < max_limit
}

/// Whether the action is run again after `attempts` runs.
pub fn tries_again(attempts: u128, max_limit: u128, last_ok: bool) -> (r: bool)
    ensures
        r == spec_tries_again(attempts as nat, max_limit as nat, last_ok),
        r <==> (!last_ok && attempts < max_limit),
{
    !last_ok && attempts < max_limit
}

/// The most runs that `do_until_ok` makes: `max_limit`, but at least one,
/// since there is no result without a run.
pub open spec fn max_runs(max_limit: nat) -> nat {
    if max_limit == 0 { 1 } else { max_limit }
}

/// The law of the retries: a success is never run again; a failure is run
/// again while fewer than `max_limit` runs were made; so there are never more
/// than `max_runs(max_limit)` runs.
pub proof fn lemma_retries(max_limit: nat)
    ensures
        forall|a: nat| !#[trigger] spec_tries_again(a, max_limit, true),
        forall|a: nat| a < max_limit ==> #[trigger] spec_tries_again(a, max_limit, false),
        forall|a: nat, ok: bool| a >= max_runs(max_limit) ==> !#[trigger] spec_tries_again(a, max_limit, ok),
{
}

/// `runs` are the results of the runs of `action` that `do_until_ok` makes:
/// at least one and at most `max_runs(max_limit)`, each a result that the
/// action can give, each but the last followed by another run as
/// `spec_tries_again` decides, and the last not.
pub open spec fn is_run_trace<O, E, F: Fn() -> Result<O, E>>(
    action: F,
    max_limit: nat,
    runs: Seq<Result<O, E>>,
) -> bool {
    &&& 1 <= runs.len() <= max_runs(max_limit)
    &&& forall|i: int| 0 <= i < runs.len() ==> call_ensures(action, (), #[trigger] runs[i])
    &&& forall|i: int| 0 <= i < runs.len() - 1 ==> spec_tries_again((i + 1) as nat, max_limit, #[trigger] runs[i] is Ok)
    &&& !spec_tries_again(runs.len(), max_limit, runs.last() is Ok)
}

/// Runs `action` until it succeeds, at most `MAX_LIMIT` times (and at least
/// once), and returns the result of the last run.
pub fn do_until_ok<const MAX_LIMIT: usize, O, E>(action: impl Fn() -> Result<O, E>) -> (r: Result<O, E>)
    requires
        call_requires(action, ()),
    ensures
        exists|runs: Seq<Result<O, E>>| is_run_trace(action, MAX_LIMIT as nat, runs) && r == runs.last(),
{
    let mut last_result = action();
    let mut attempts: u128 = 1;
    let max_limit = MAX_LIMIT as u128;
    let ghost mut runs: Seq<Result<O, E>> = seq![last_result];
    while tries_again(attempts, max_limit, last_result.is_ok())
        invariant
            call_requires(action, ()),
            max_limit == MAX_LIMIT,
            attempts == runs.len(),
            1 <= runs.len() <= max_runs(MAX_LIMIT as nat),
            last_result == runs.last(),
            forall|i: int| 0 <= i < runs.len() ==> call_ensures(action, (), #[trigger] runs[i]),
            forall|i: int| 0 <= i < runs.len() - 1 ==> spec_tries_again((i + 1) as nat, MAX_LIMIT as nat, #[trigger] runs[i] is Ok),
        decreases max_limit - attempts,
    {
        let ghost previous = runs;
        last_result = action();
        proof {
            runs = runs.push(last_result);
            assert forall|i: int| 0 <= i < runs.len() - 1 implies spec_tries_again((i + 1) as nat, MAX_LIMIT as nat, #[trigger] runs[i] is Ok) by {
                if i < previous.len() - 1 {
                    assert(runs[i] == previous[i]);
                } else {
                    assert(runs[i] == previous.last());
                }
            }
            assert forall|i: int| 0 <= i < runs.len() implies call_ensures(action, (), #[trigger] runs[i]) by {
                if i < previous.len() {
                    assert(runs[i] == previous[i]);
                }
            }
        }
        attempts = attempts + 1;
    }
    assert(is_run_trace(action, MAX_LIMIT as nat, runs));
    last_result
}

} // verus!
