//! Checking a unit: every expectation of every protocol version that is
//! checked at all, each on its own copy of the pre-state, up to the first
//! failure.

use crate::classify::{classify, spec_classify};
use crate::engine::engine_outcome;
use crate::env::{build_base_env, overlay_variant, spec_base_env, spec_overlay, ExecEnv, ExecEnvView};
use crate::error::{verdict_of, CheckError, CheckErrorView, Verdict};
use crate::fork::SpecId;
use crate::model::{
    accounts_map, AccountStateView, ForkExpectations, ForkExpectationsView, PostExpectation,
    PostExpectationView, TestUnit, TestUnitView, TransactionTemplate, TransactionTemplateView,
};
use crate::sender::{resolve_sender, spec_resolve_sender};
use crate::state::{all_code_accepted, StateModel};
use crate::variant::{select_variant, spec_select_variant};
use vstd::prelude::*;

verus! {

/// How far a check went and how it ended.
pub struct Tally {
    /// The number of expectations that were evaluated, the failing one
    /// included.
    pub evaluated: nat,
    pub verdict: Verdict,
}

/// How far the check of a unit went and how it ended.
#[derive(Debug, PartialEq, Eq)]
pub struct UnitReport {
    /// The number of expectations that were evaluated, the failing one
    /// included; `usize::MAX` where there were more.
    pub evaluated: usize,
    pub verdict: Result<(), CheckError>,
}

/// A natural number clamped to the range of `usize`.
pub open spec fn saturate_usize(n: nat) -> usize {
    if n <= usize::MAX {
        n as usize
    } else {
        usize::MAX
    }
}

impl UnitReport {
    /// Whether the report tells of the given tally.
    pub open spec fn tells(self, tally: Tally) -> bool {
        self.evaluated == saturate_usize(tally.evaluated) && verdict_of(self.verdict)
            == tally.verdict
    }
}

/// The tally of a check that evaluated nothing and passed.
pub open spec fn nothing_evaluated() -> Tally {
    Tally { evaluated: 0, verdict: Ok(()) }
}

/// The verdict on one expectation: its variant is selected, the
/// transaction with that variant is run on the accounts under the rule
/// set, and the outcome is held against what the expectation declares.
/// Nothing but the accounts, the environment, the template, the rule set
/// and the expectation itself enters.
pub open spec fn spec_check_expectation(
    accounts: Map<Seq<u8>, AccountStateView>,
    base: ExecEnvView,
    tx: TransactionTemplateView,
    spec: SpecId,
    test: PostExpectationView,
) -> Verdict {
    match spec_select_variant(tx, test.indexes) {
        Err(e) => Err(e),
        Ok(variant) => spec_classify(
            test.expect_exception is Some,
            engine_outcome(
                accounts,
                spec.spec_state_clear(),
                spec_overlay(base, variant),
                spec.spec_number(),
            ),
        ),
    }
}

/// The tally of the expectations of one rule set, taken in order up to
/// the first that fails.
pub open spec fn spec_run_tests(
    accounts: Map<Seq<u8>, AccountStateView>,
    base: ExecEnvView,
    tx: TransactionTemplateView,
    spec: SpecId,
    tests: Seq<PostExpectationView>,
) -> Tally
    decreases tests.len(),
{
    if tests.len() == 0 {
        nothing_evaluated()
    } else {
        let before = spec_run_tests(accounts, base, tx, spec, tests.drop_last());
        if before.verdict is Err {
            before
        } else {
            Tally {
                evaluated: before.evaluated + 1,
                verdict: spec_check_expectation(accounts, base, tx, spec, tests.last()),
            }
        }
    }
}

/// The tally of the expectations under one name. Under an excluded name
/// nothing is evaluated.
pub open spec fn spec_run_fork(
    accounts: Map<Seq<u8>, AccountStateView>,
    base: ExecEnvView,
    tx: TransactionTemplateView,
    fork: ForkExpectationsView,
) -> Tally {
    match fork.fork.spec_to_spec_id() {
        None => nothing_evaluated(),
        Some(spec) => spec_run_tests(accounts, base, tx, spec, fork.tests),
    }
}

/// The tally over the names of a unit, taken in order up to the first
/// expectation that fails.
pub open spec fn spec_run_forks(
    accounts: Map<Seq<u8>, AccountStateView>,
    base: ExecEnvView,
    tx: TransactionTemplateView,
    forks: Seq<ForkExpectationsView>,
) -> Tally
    decreases forks.len(),
{
    if forks.len() == 0 {
        nothing_evaluated()
    } else {
        let before = spec_run_forks(accounts, base, tx, forks.drop_last());
        if before.verdict is Err {
            before
        } else {
            let last = spec_run_fork(accounts, base, tx, forks.last());
            Tally { evaluated: before.evaluated + last.evaluated, verdict: last.verdict }
        }
    }
}

/// The tally of a unit. A pre-state with code that the engine's decoder
/// does not take fails before anything else; then the sender is resolved;
/// then the expectations are evaluated.
pub open spec fn spec_run_unit(unit: TestUnitView) -> Tally {
    if !all_code_accepted(unit.pre) {
        Tally { evaluated: 0, verdict: Err(CheckErrorView::Decode) }
    } else {
        match spec_resolve_sender(unit.transaction) {
            Err(e) => Tally { evaluated: 0, verdict: Err(e) },
            Ok(caller) => spec_run_forks(
                accounts_map(unit.pre),
                spec_base_env(unit.env, unit.transaction, caller),
                unit.transaction,
                unit.post,
            ),
        }
    }
}

/// Evaluates one expectation on a copy of the state. The state itself is
/// left as it is, so no expectation sees what another did.
pub fn check_expectation(
    state: &StateModel,
    base: &ExecEnv,
    tx: &TransactionTemplate,
    spec: SpecId,
    test: &PostExpectation,
) -> (r: Result<(), CheckError>)
    ensures
        verdict_of(r) == spec_check_expectation(state@.accounts, base@, tx@, spec, test@),
        test.indexes.gas >= tx.gas_limit.len() ==> r == Err::<(), CheckError>(
            CheckError::IndexOutOfRange,
        ),
{
    let variant = match select_variant(tx, &test.indexes) {
        Ok(variant) => variant,
        Err(e) => {
            return Err(e);
        },
    };
    let env = overlay_variant(base, variant);
    let mut snapshot = state.snapshot();
    snapshot.set_state_clear_flag(spec.state_clear());
    let outcome = snapshot.transact(&env, spec);
    classify(test.expect_exception.is_some(), outcome)
}

/// Evaluates the expectations of one rule set in order and stops at the
/// first that fails.
pub fn run_tests(
    state: &StateModel,
    base: &ExecEnv,
    tx: &TransactionTemplate,
    spec: SpecId,
    tests: &Vec<PostExpectation>,
) -> (r: UnitReport)
    ensures
        r.tells(spec_run_tests(state@.accounts, base@, tx@, spec, tests.deep_view())),
        r.evaluated <= tests.len(),
{
    let mut i: usize = 0;
    while i < tests.len()
        invariant
            i <= tests.len(),
            spec_run_tests(state@.accounts, base@, tx@, spec, tests.deep_view().take(i as int))
                == (Tally { evaluated: i as nat, verdict: Ok(()) }),
        decreases tests.len() - i,
    {
        let verdict = check_expectation(state, base, tx, spec, &tests[i]);
        proof {
            let prefix = tests.deep_view().take(i + 1);
            assert(prefix.drop_last() =~= tests.deep_view().take(i as int));
            assert(prefix.last() == tests[i as int]@);
            if verdict is Err {
                lemma_run_tests_stops(state@.accounts, base@, tx@, spec, tests.deep_view(), i + 1);
            }
        }
        if verdict.is_err() {
            return UnitReport { evaluated: i + 1, verdict };
        }
        i = i + 1;
    }
    assert(tests.deep_view().take(i as int) =~= tests.deep_view());
    UnitReport { evaluated: i, verdict: Ok(()) }
}

/// Evaluates the expectations under each name in order and stops at the
/// first expectation that fails. Excluded names are passed over.
pub fn run_forks(
    state: &StateModel,
    base: &ExecEnv,
    tx: &TransactionTemplate,
    forks: &Vec<ForkExpectations>,
) -> (r: UnitReport)
    ensures
        r.tells(spec_run_forks(state@.accounts, base@, tx@, forks.deep_view())),
{
    let mut evaluated: usize = 0;
    let mut i: usize = 0;
    while i < forks.len()
        invariant
            i <= forks.len(),
            spec_run_forks(
                state@.accounts,
                base@,
                tx@,
                forks.deep_view().take(i as int),
            ).verdict is Ok,
            evaluated == saturate_usize(
                spec_run_forks(state@.accounts, base@, tx@, forks.deep_view().take(i as int)).evaluated,
            ),
        decreases forks.len() - i,
    {
        proof {
            let prefix = forks.deep_view().take(i + 1);
            assert(prefix.drop_last() =~= forks.deep_view().take(i as int));
            assert(prefix.last() == forks[i as int]@);
        }
        let report = match forks[i].fork.to_spec_id() {
            Some(spec) => run_tests(state, base, tx, spec, &forks[i].tests),
            None => UnitReport { evaluated: 0, verdict: Ok(()) },
        };
        evaluated = if report.evaluated <= usize::MAX - evaluated {
            evaluated + report.evaluated
        } else {
            usize::MAX
        };
        if report.verdict.is_err() {
            proof {
                lemma_run_forks_stops(state@.accounts, base@, tx@, forks.deep_view(), i + 1);
            }
            return UnitReport { evaluated, verdict: report.verdict };
        }
        i = i + 1;
    }
    assert(forks.deep_view().take(i as int) =~= forks.deep_view());
    UnitReport { evaluated, verdict: Ok(()) }
}

/// Checks a unit and reports how many expectations were evaluated.
pub fn run_test_unit(unit: &TestUnit) -> (r: UnitReport)
    requires
        unit.env@.blob_gas_in_range(),
    ensures
        r.tells(spec_run_unit(unit@)),
{
    let state = match StateModel::from_pre(&unit.pre) {
        Ok(state) => state,
        Err(e) => {
            return UnitReport { evaluated: 0, verdict: Err(e) };
        },
    };
    let caller = match resolve_sender(&unit.transaction) {
        Ok(caller) => caller,
        Err(e) => {
            return UnitReport { evaluated: 0, verdict: Err(e) };
        },
    };
    let base = build_base_env(&unit.env, &unit.transaction, caller);
    run_forks(&state, &base, &unit.transaction, &unit.post)
}

/// Checks a unit: replays the transaction for every expectation of every
/// name that is checked, and returns the first failure, or success where
/// there is none.
pub fn execute_test_unit(unit: &TestUnit) -> (r: Result<(), CheckError>)
    requires
        unit.env@.blob_gas_in_range(),
    ensures
        verdict_of(r) == spec_run_unit(unit@).verdict,
{
    run_test_unit(unit).verdict
}

/// Once an expectation has failed, the expectations after it change
/// nothing.
pub proof fn lemma_run_tests_stops(
    accounts: Map<Seq<u8>, AccountStateView>,
    base: ExecEnvView,
    tx: TransactionTemplateView,
    spec: SpecId,
    tests: Seq<PostExpectationView>,
    k: int,
)
    requires
        0 <= k <= tests.len(),
        spec_run_tests(accounts, base, tx, spec, tests.take(k)).verdict is Err,
    ensures
        spec_run_tests(accounts, base, tx, spec, tests) == spec_run_tests(
            accounts,
            base,
            tx,
            spec,
            tests.take(k),
        ),
    decreases tests.len() - k,
{
    if k < tests.len() {
        assert(tests.take(k + 1).drop_last() =~= tests.take(k));
        lemma_run_tests_stops(accounts, base, tx, spec, tests, k + 1);
    } else {
        assert(tests.take(k) =~= tests);
    }
}

/// Once an expectation under one name has failed, the names after it
/// change nothing.
pub proof fn lemma_run_forks_stops(
    accounts: Map<Seq<u8>, AccountStateView>,
    base: ExecEnvView,
    tx: TransactionTemplateView,
    forks: Seq<ForkExpectationsView>,
    k: int,
)
    requires
        0 <= k <= forks.len(),
        spec_run_forks(accounts, base, tx, forks.take(k)).verdict is Err,
    ensures
        spec_run_forks(accounts, base, tx, forks) == spec_run_forks(
            accounts,
            base,
            tx,
            forks.take(k),
        ),
    decreases forks.len() - k,
{
    if k < forks.len() {
        assert(forks.take(k + 1).drop_last() =~= forks.take(k));
        lemma_run_forks_stops(accounts, base, tx, forks, k + 1);
    } else {
        assert(forks.take(k) =~= forks);
    }
}

/// Whether the expectation at `k` is the first of a list that fails.
pub open spec fn is_first_failure(
    accounts: Map<Seq<u8>, AccountStateView>,
    base: ExecEnvView,
    tx: TransactionTemplateView,
    spec: SpecId,
    tests: Seq<PostExpectationView>,
    k: int,
) -> bool {
    &&& 0 <= k < tests.len()
    &&& spec_check_expectation(accounts, base, tx, spec, tests[k]) is Err
    &&& forall|j: int|
        0 <= j < k ==> spec_check_expectation(accounts, base, tx, spec, #[trigger] tests[j]) is Ok
}

/// A run over the expectations of one rule set passes exactly where each
/// of them passes, and then all were evaluated. Where it fails, it fails
/// as the first expectation that fails, and nothing after that one was
/// evaluated.
pub proof fn lemma_fail_fast(
    accounts: Map<Seq<u8>, AccountStateView>,
    base: ExecEnvView,
    tx: TransactionTemplateView,
    spec: SpecId,
    tests: Seq<PostExpectationView>,
)
    ensures
        match spec_run_tests(accounts, base, tx, spec, tests).verdict {
            Ok(_) => {
                &&& spec_run_tests(accounts, base, tx, spec, tests).evaluated == tests.len()
                &&& forall|j: int|
                    0 <= j < tests.len() ==> spec_check_expectation(
                        accounts,
                        base,
                        tx,
                        spec,
                        #[trigger] tests[j],
                    ) is Ok
            },
            Err(e) => exists|k: int|
                {
                    &&& #[trigger] is_first_failure(accounts, base, tx, spec, tests, k)
                    &&& spec_check_expectation(accounts, base, tx, spec, tests[k]) == Err::<
                        (),
                        CheckErrorView,
                    >(e)
                    &&& spec_run_tests(accounts, base, tx, spec, tests).evaluated == k + 1
                },
        },
    decreases tests.len(),
{
    if tests.len() > 0 {
        let front = tests.drop_last();
        lemma_fail_fast(accounts, base, tx, spec, front);
        let before = spec_run_tests(accounts, base, tx, spec, front);
        match before.verdict {
            Ok(_) => {
                assert forall|j: int| 0 <= j < front.len() implies spec_check_expectation(
                    accounts,
                    base,
                    tx,
                    spec,
                    #[trigger] tests[j],
                ) is Ok by {
                    assert(tests[j] == front[j]);
                }
                let last = tests.len() - 1;
                if spec_check_expectation(accounts, base, tx, spec, tests[last]) is Err {
                    assert(is_first_failure(accounts, base, tx, spec, tests, last));
                }
            },
            Err(e) => {
                let k = choose|k: int|
                    {
                        &&& #[trigger] is_first_failure(accounts, base, tx, spec, front, k)
                        &&& spec_check_expectation(accounts, base, tx, spec, front[k]) == Err::<
                            (),
                            CheckErrorView,
                        >(e)
                        &&& before.evaluated == k + 1
                    };
                assert(tests[k] == front[k]);
                assert forall|j: int| 0 <= j < k implies spec_check_expectation(
                    accounts,
                    base,
                    tx,
                    spec,
                    #[trigger] tests[j],
                ) is Ok by {
                    assert(tests[j] == front[j]);
                }
                assert(is_first_failure(accounts, base, tx, spec, tests, k));
            },
        }
    }
}

/// Whether the name at `k` is the first of a list under which an
/// expectation fails.
pub open spec fn is_first_failing_fork(
    accounts: Map<Seq<u8>, AccountStateView>,
    base: ExecEnvView,
    tx: TransactionTemplateView,
    forks: Seq<ForkExpectationsView>,
    k: int,
) -> bool {
    &&& 0 <= k < forks.len()
    &&& spec_run_fork(accounts, base, tx, forks[k]).verdict is Err
    &&& forall|j: int|
        0 <= j < k ==> spec_run_fork(accounts, base, tx, #[trigger] forks[j]).verdict is Ok
}

/// A run over the names of a unit passes exactly where the run under each
/// name passes. Where it fails, it fails as the run under the first name
/// that fails, and no later name was looked at.
pub proof fn lemma_forks_fail_fast(
    accounts: Map<Seq<u8>, AccountStateView>,
    base: ExecEnvView,
    tx: TransactionTemplateView,
    forks: Seq<ForkExpectationsView>,
)
    ensures
        match spec_run_forks(accounts, base, tx, forks).verdict {
            Ok(_) => forall|j: int|
                0 <= j < forks.len() ==> spec_run_fork(
                    accounts,
                    base,
                    tx,
                    #[trigger] forks[j],
                ).verdict is Ok,
            Err(e) => exists|k: int|
                {
                    &&& #[trigger] is_first_failing_fork(accounts, base, tx, forks, k)
                    &&& spec_run_fork(accounts, base, tx, forks[k]).verdict == Err::<
                        (),
                        CheckErrorView,
                    >(e)
                    &&& spec_run_forks(accounts, base, tx, forks) == spec_run_forks(
                        accounts,
                        base,
                        tx,
                        forks.take(k + 1),
                    )
                },
        },
    decreases forks.len(),
{
    if forks.len() > 0 {
        let front = forks.drop_last();
        lemma_forks_fail_fast(accounts, base, tx, front);
        let before = spec_run_forks(accounts, base, tx, front);
        match before.verdict {
            Ok(_) => {
                assert forall|j: int| 0 <= j < front.len() implies spec_run_fork(
                    accounts,
                    base,
                    tx,
                    #[trigger] forks[j],
                ).verdict is Ok by {
                    assert(forks[j] == front[j]);
                }
                let last = forks.len() - 1;
                if spec_run_fork(accounts, base, tx, forks[last]).verdict is Err {
                    assert(is_first_failing_fork(accounts, base, tx, forks, last));
                    assert(forks.take(last + 1) =~= forks);
                }
            },
            Err(e) => {
                let k = choose|k: int|
                    {
                        &&& #[trigger] is_first_failing_fork(accounts, base, tx, front, k)
                        &&& spec_run_fork(accounts, base, tx, front[k]).verdict == Err::<
                            (),
                            CheckErrorView,
                        >(e)
                        &&& before == spec_run_forks(accounts, base, tx, front.take(k + 1))
                    };
                assert(forks[k] == front[k]);
                assert(front.take(k + 1) =~= forks.take(k + 1));
                assert forall|j: int| 0 <= j < k implies spec_run_fork(
                    accounts,
                    base,
                    tx,
                    #[trigger] forks[j],
                ).verdict is Ok by {
                    assert(forks[j] == front[j]);
                }
                assert(is_first_failing_fork(accounts, base, tx, forks, k));
            },
        }
    }
}

/// Two reports on units with the same view agree: in the number of
/// expectations evaluated, in the verdict, and in the text that a mismatch
/// carries. A check depends on nothing but what the unit holds.
pub proof fn lemma_same_unit_same_report(a: TestUnit, b: TestUnit, first: UnitReport, second: UnitReport)
    requires
        a@ == b@,
        first.tells(spec_run_unit(a@)),
        second.tells(spec_run_unit(b@)),
    ensures
        first.evaluated == second.evaluated,
        verdict_of(first.verdict) == verdict_of(second.verdict),
{
}

/// Where every expectation before the one at `k` passes, the run up to
/// and with that expectation ends as that expectation does on its own:
/// what ran before it has no part in its verdict.
pub proof fn lemma_verdict_is_own(
    accounts: Map<Seq<u8>, AccountStateView>,
    base: ExecEnvView,
    tx: TransactionTemplateView,
    spec: SpecId,
    tests: Seq<PostExpectationView>,
    k: int,
)
    requires
        0 <= k < tests.len(),
        forall|j: int|
            0 <= j < k ==> spec_check_expectation(accounts, base, tx, spec, #[trigger] tests[j]) is Ok,
    ensures
        spec_run_tests(accounts, base, tx, spec, tests.take(k + 1)) == (Tally {
            evaluated: (k + 1) as nat,
            verdict: spec_check_expectation(accounts, base, tx, spec, tests[k]),
        }),
    decreases k,
{
    let prefix = tests.take(k + 1);
    assert(prefix.last() == tests[k]);
    if k == 0 {
        assert(prefix.drop_last() =~= Seq::<PostExpectationView>::empty());
        assert(spec_run_tests(accounts, base, tx, spec, prefix.drop_last()) == nothing_evaluated());
    } else {
        lemma_verdict_is_own(accounts, base, tx, spec, tests, k - 1);
        assert(prefix.drop_last() =~= tests.take(k));
        assert(spec_check_expectation(accounts, base, tx, spec, tests[k - 1]) is Ok);
        assert(spec_run_tests(accounts, base, tx, spec, prefix.drop_last()).verdict is Ok);
    }
}

/// Running an expectation that passes and then a second one ends as
/// running the second one alone.
pub proof fn lemma_snapshot_isolation(
    accounts: Map<Seq<u8>, AccountStateView>,
    base: ExecEnvView,
    tx: TransactionTemplateView,
    spec: SpecId,
    first: PostExpectationView,
    second: PostExpectationView,
)
    requires
        spec_check_expectation(accounts, base, tx, spec, first) is Ok,
    ensures
        spec_run_tests(accounts, base, tx, spec, seq![first, second]).verdict == spec_run_tests(
            accounts,
            base,
            tx,
            spec,
            seq![second],
        ).verdict,
{
    let both = seq![first, second];
    let alone = seq![second];
    lemma_verdict_is_own(accounts, base, tx, spec, both, 1);
    lemma_verdict_is_own(accounts, base, tx, spec, alone, 0);
    assert(both.take(2) =~= both);
    assert(alone.take(1) =~= alone);
}

/// Where every name of a list is excluded, nothing is evaluated and the
/// run passes.
pub proof fn lemma_excluded_forks_evaluate_nothing(
    accounts: Map<Seq<u8>, AccountStateView>,
    base: ExecEnvView,
    tx: TransactionTemplateView,
    forks: Seq<ForkExpectationsView>,
)
    requires
        forall|i: int| 0 <= i < forks.len() ==> (#[trigger] forks[i]).fork.spec_is_excluded(),
    ensures
        spec_run_forks(accounts, base, tx, forks) == nothing_evaluated(),
    decreases forks.len(),
{
    if forks.len() > 0 {
        lemma_excluded_forks_evaluate_nothing(accounts, base, tx, forks.drop_last());
        assert(forks.last().fork.spec_is_excluded());
    }
}

/// A unit whose expectations all stand under excluded names passes
/// without any expectation evaluated, provided that the code of its
/// pre-state is accepted and its sender can be resolved: both are looked
/// at before the names are.
pub proof fn lemma_excluded_unit_passes(unit: TestUnitView)
    requires
        all_code_accepted(unit.pre),
        spec_resolve_sender(unit.transaction) is Ok,
        forall|i: int| 0 <= i < unit.post.len() ==> (#[trigger] unit.post[i]).fork.spec_is_excluded(),
    ensures
        spec_run_unit(unit) == nothing_evaluated(),
{
    let caller = spec_resolve_sender(unit.transaction)->Ok_0;
    lemma_excluded_forks_evaluate_nothing(
        accounts_map(unit.pre),
        spec_base_env(unit.env, unit.transaction, caller),
        unit.transaction,
        unit.post,
    );
}

/// An expectation whose gas index is beyond the candidate gas limits
/// fails with an index error, whatever else it holds.
pub proof fn lemma_gas_index_out_of_range(
    accounts: Map<Seq<u8>, AccountStateView>,
    base: ExecEnvView,
    tx: TransactionTemplateView,
    spec: SpecId,
    test: PostExpectationView,
)
    requires
        test.indexes.gas >= tx.gas_limit.len(),
    ensures
        spec_check_expectation(accounts, base, tx, spec, test) == Err::<(), CheckErrorView>(
            CheckErrorView::IndexOutOfRange,
        ),
{
}

} // verus!
