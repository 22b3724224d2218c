//! The fallback resolver: an ordered chain of strategies, tried one after
//! another until one yields a valid value.
//!
//! The resolver is a state machine. Its state says which strategy is to be
//! run next, or how the resolution ended; the event is what came of running
//! that strategy. Whoever runs the commands feeds the events in. Once a
//! strategy has succeeded no later one is asked for.

use crate::command::{RunOutcome, RunOutcomeView, Strategy, StrategyView};
use crate::text::{extract, extracted};
use crate::validity::{accepts, is_valid, Validity};
use vstd::prelude::*;

verus! {

/// Why a strategy gave no value.
#[derive(Clone, Copy, Debug, PartialEq, Eq, Structural)]
pub enum Failure {
    /// The chain holds no strategy.
    NoStrategy,
    /// The program could not be started.
    NotSpawned,
    /// The process ran and exited without success.
    ExitFailure,
    /// The process succeeded, and its output held no valid value.
    Rejected,
}

/// What one strategy's outcome amounts to under `rule`: the accepted value,
/// or the reason why there is none.
pub open spec fn verdict(strategy: StrategyView, rule: Validity, outcome: RunOutcomeView) -> Result<
    Seq<char>,
    Failure,
> {
    match outcome {
        RunOutcomeView::ExecutionFailure => Err(Failure::NotSpawned),
        RunOutcomeView::Completed(result) => {
            if !result.exit_success {
                Err(Failure::ExitFailure)
            } else {
                let value = extracted(strategy.extraction, result.stdout);
                if is_valid(rule, value) {
                    Ok(value)
                } else {
                    Err(Failure::Rejected)
                }
            }
        },
    }
}

/// How a resolution ended.
#[derive(Clone, Debug, PartialEq, Eq)]
pub enum Conclusion {
    /// The strategy at index `by` gave `value`.
    Resolved { by: usize, value: String },
    /// No strategy gave a value; the last one failed in the given way.
    Exhausted(Failure),
}

/// The mathematical content of a [`Conclusion`].
pub enum ConclusionView {
    Resolved { by: nat, value: Seq<char> },
    Exhausted(Failure),
}

impl View for Conclusion {
    type V = ConclusionView;

    open spec fn view(&self) -> ConclusionView {
        match self {
            Conclusion::Resolved { by, value } => ConclusionView::Resolved {
                by: *by as nat,
                value: value@,
            },
            Conclusion::Exhausted(failure) => ConclusionView::Exhausted(*failure),
        }
    }
}

/// The state of a resolution.
#[derive(Clone, Debug, PartialEq, Eq)]
pub enum Progress {
    /// The strategy at this index is to be run next.
    Next(usize),
    /// Nothing more is to be run.
    Finished(Conclusion),
}

/// The mathematical content of a [`Progress`].
pub enum ProgressView {
    Next(nat),
    Finished(ConclusionView),
}

impl View for Progress {
    type V = ProgressView;

    open spec fn view(&self) -> ProgressView {
        match self {
            Progress::Next(index) => ProgressView::Next(*index as nat),
            Progress::Finished(conclusion) => ProgressView::Finished(conclusion@),
        }
    }
}

/// The state in which a resolution over `chain` starts.
pub open spec fn initial(chain: Seq<StrategyView>) -> ProgressView {
    if chain.len() == 0 {
        ProgressView::Finished(ConclusionView::Exhausted(Failure::NoStrategy))
    } else {
        ProgressView::Next(0)
    }
}

/// The index of the strategy that `state` asks to be run, if it asks for
/// one.
pub open spec fn pending(chain: Seq<StrategyView>, state: ProgressView) -> Option<nat> {
    match state {
        ProgressView::Next(index) => if index < chain.len() {
            Some(index)
        } else {
            None
        },
        ProgressView::Finished(_) => None,
    }
}

/// The state that follows `state` when the strategy it asked for has ended
/// in `outcome`. A state that asks for nothing stays as it is.
pub open spec fn step(
    chain: Seq<StrategyView>,
    rule: Validity,
    state: ProgressView,
    outcome: RunOutcomeView,
) -> ProgressView {
    match pending(chain, state) {
        Some(index) => match verdict(chain[index as int], rule, outcome) {
            Ok(value) => ProgressView::Finished(ConclusionView::Resolved { by: index, value }),
            Err(failure) => if index + 1 < chain.len() {
                ProgressView::Next(index + 1)
            } else {
                ProgressView::Finished(ConclusionView::Exhausted(failure))
            },
        },
        None => state,
    }
}

/// The state reached from the start by feeding `outcomes` in, one by one.
pub open spec fn run(chain: Seq<StrategyView>, rule: Validity, outcomes: Seq<RunOutcomeView>)
    -> ProgressView
    decreases outcomes.len(),
{
    if outcomes.len() == 0 {
        initial(chain)
    } else {
        step(chain, rule, run(chain, rule, outcomes.drop_last()), outcomes.last())
    }
}

/// Whether `outcomes` is what a resolution over `chain` sees: outcome `i`
/// belongs to strategy `i`, every strategy but the last one consulted was
/// refused, and the chain was left early only on a success.
pub open spec fn consulted(
    chain: Seq<StrategyView>,
    rule: Validity,
    outcomes: Seq<RunOutcomeView>,
) -> bool {
    &&& outcomes.len() <= chain.len()
    &&& forall|i: int|
        0 <= i < outcomes.len() - 1 ==> (#[trigger] verdict(chain[i], rule, outcomes[i])) is Err
    &&& outcomes.len() < chain.len() ==> outcomes.len() > 0 && verdict(
        chain[outcomes.len() - 1],
        rule,
        outcomes.last(),
    ) is Ok
}

/// Whether `conclusion` is how a resolution that has consulted `outcomes`
/// ends: resolved by the last strategy consulted, with the value that it
/// gave, or exhausted at the end of the chain, with the failure of the last
/// strategy.
pub open spec fn ends_in(
    chain: Seq<StrategyView>,
    rule: Validity,
    outcomes: Seq<RunOutcomeView>,
    conclusion: ConclusionView,
) -> bool {
    match conclusion {
        ConclusionView::Resolved { by, value } => {
            &&& by < chain.len()
            &&& outcomes.len() == by + 1
            &&& verdict(chain[by as int], rule, outcomes[by as int]) == Ok::<Seq<char>, Failure>(
                value,
            )
        },
        ConclusionView::Exhausted(failure) => {
            &&& outcomes.len() == chain.len()
            &&& if chain.len() == 0 {
                failure == Failure::NoStrategy
            } else {
                verdict(chain.last(), rule, outcomes.last()) == Err::<Seq<char>, Failure>(failure)
            }
        },
    }
}

/// The conclusion that a chain comes to when strategy `i`, if it is run,
/// ends in `outcomes[i]`: the first accepted value, or the failure of the
/// last strategy.
pub open spec fn conclusion_of(
    chain: Seq<StrategyView>,
    rule: Validity,
    outcomes: Seq<RunOutcomeView>,
) -> ConclusionView
    recommends
        outcomes.len() >= chain.len(),
    decreases chain.len(),
{
    if chain.len() == 0 {
        ConclusionView::Exhausted(Failure::NoStrategy)
    } else {
        match conclusion_of(chain.drop_last(), rule, outcomes) {
            ConclusionView::Resolved { by, value } => ConclusionView::Resolved { by, value },
            ConclusionView::Exhausted(_) => match verdict(
                chain.last(),
                rule,
                outcomes[chain.len() - 1],
            ) {
                Ok(value) => ConclusionView::Resolved { by: (chain.len() - 1) as nat, value },
                Err(failure) => ConclusionView::Exhausted(failure),
            },
        }
    }
}

/// Feeding one more outcome is one step of the machine.
proof fn lemma_run_take(
    chain: Seq<StrategyView>,
    rule: Validity,
    outcomes: Seq<RunOutcomeView>,
    n: int,
)
    requires
        0 < n <= outcomes.len(),
    ensures
        run(chain, rule, outcomes.take(n)) == step(
            chain,
            rule,
            run(chain, rule, outcomes.take(n - 1)),
            outcomes[n - 1],
        ),
{
    assert(outcomes.take(n).drop_last() == outcomes.take(n - 1));
}

/// While every strategy so far was refused, the machine asks for the next
/// one in the order of the chain.
proof fn lemma_run_refused(
    chain: Seq<StrategyView>,
    rule: Validity,
    outcomes: Seq<RunOutcomeView>,
    n: int,
)
    requires
        0 <= n <= outcomes.len(),
        n < chain.len(),
        forall|i: int| 0 <= i < n ==> (#[trigger] verdict(chain[i], rule, outcomes[i])) is Err,
    ensures
        run(chain, rule, outcomes.take(n)) == ProgressView::Next(n as nat),
    decreases n,
{
    if n > 0 {
        lemma_run_refused(chain, rule, outcomes, n - 1);
        lemma_run_take(chain, rule, outcomes, n);
        assert(verdict(chain[n - 1], rule, outcomes[n - 1]) is Err);
    }
}

/// A finished machine stays as it is, whatever is fed to it.
proof fn lemma_run_finished(
    chain: Seq<StrategyView>,
    rule: Validity,
    outcomes: Seq<RunOutcomeView>,
    k: int,
    n: int,
)
    requires
        0 <= k <= n <= outcomes.len(),
        run(chain, rule, outcomes.take(k)) is Finished,
    ensures
        run(chain, rule, outcomes.take(n)) == run(chain, rule, outcomes.take(k)),
    decreases n - k,
{
    if n > k {
        lemma_run_finished(chain, rule, outcomes, k, n - 1);
        lemma_run_take(chain, rule, outcomes, n);
    }
}

/// Short circuit. When strategy `k` succeeds and every strategy before it
/// was refused, the machine asks for the strategies `0..=k` in turn, is then
/// resolved by `k`, and asks for nothing more: no strategy after `k` is
/// ever run, and whatever such a strategy would have given changes nothing.
pub proof fn law_short_circuit(
    chain: Seq<StrategyView>,
    rule: Validity,
    outcomes: Seq<RunOutcomeView>,
    k: int,
)
    requires
        0 <= k < chain.len(),
        k < outcomes.len(),
        forall|i: int| 0 <= i < k ==> (#[trigger] verdict(chain[i], rule, outcomes[i])) is Err,
        verdict(chain[k], rule, outcomes[k]) is Ok,
    ensures
        forall|n: int|
            0 <= n <= k ==> pending(chain, #[trigger] run(chain, rule, outcomes.take(n))) == Some(
                n as nat,
            ),
        forall|n: int|
            k < n <= outcomes.len() ==> #[trigger] run(chain, rule, outcomes.take(n))
                == ProgressView::Finished(
                ConclusionView::Resolved {
                    by: k as nat,
                    value: verdict(chain[k], rule, outcomes[k])->Ok_0,
                },
            ),
        forall|n: int|
            k < n <= outcomes.len() ==> pending(
                chain,
                #[trigger] run(chain, rule, outcomes.take(n)),
            ) is None,
        run(chain, rule, outcomes) == run(chain, rule, outcomes.take(k + 1)),
{
    assert forall|n: int| 0 <= n <= k implies pending(
        chain,
        #[trigger] run(chain, rule, outcomes.take(n)),
    ) == Some(n as nat) by {
        lemma_run_refused(chain, rule, outcomes, n);
    }
    lemma_run_refused(chain, rule, outcomes, k);
    lemma_run_take(chain, rule, outcomes, k + 1);
    assert forall|n: int| k < n <= outcomes.len() implies #[trigger] run(
        chain,
        rule,
        outcomes.take(n),
    ) == ProgressView::Finished(
        ConclusionView::Resolved {
            by: k as nat,
            value: verdict(chain[k], rule, outcomes[k])->Ok_0,
        },
    ) by {
        lemma_run_finished(chain, rule, outcomes, k + 1, n);
    }
    lemma_run_finished(chain, rule, outcomes, k + 1, outcomes.len() as int);
    assert(outcomes.take(outcomes.len() as int) == outcomes);
}

/// Exhaustion. When every strategy of a chain is refused, the machine asks
/// for each of them in turn and ends exhausted, with the failure of the last
/// one. This is an ordinary end, not an error of the machine.
pub proof fn law_exhaustion(
    chain: Seq<StrategyView>,
    rule: Validity,
    outcomes: Seq<RunOutcomeView>,
)
    requires
        0 < chain.len() <= outcomes.len(),
        forall|i: int|
            0 <= i < chain.len() ==> (#[trigger] verdict(chain[i], rule, outcomes[i])) is Err,
    ensures
        forall|n: int|
            0 <= n < chain.len() ==> pending(chain, #[trigger] run(chain, rule, outcomes.take(n)))
                == Some(n as nat),
        run(chain, rule, outcomes) == ProgressView::Finished(
            ConclusionView::Exhausted(
                verdict(chain.last(), rule, outcomes[chain.len() - 1])->Err_0,
            ),
        ),
{
    let last = chain.len() - 1;
    assert forall|n: int| 0 <= n < chain.len() implies pending(
        chain,
        #[trigger] run(chain, rule, outcomes.take(n)),
    ) == Some(n as nat) by {
        lemma_run_refused(chain, rule, outcomes, n);
    }
    lemma_run_refused(chain, rule, outcomes, last);
    lemma_run_take(chain, rule, outcomes, last + 1);
    lemma_run_finished(chain, rule, outcomes, last + 1, outcomes.len() as int);
    assert(outcomes.take(outcomes.len() as int) == outcomes);
}

/// `conclusion_of` names the first success: it is resolved by `k` exactly
/// when strategy `k` is the first of the chain whose outcome is accepted,
/// and exhausted exactly when none is.
pub proof fn law_first_success(
    chain: Seq<StrategyView>,
    rule: Validity,
    outcomes: Seq<RunOutcomeView>,
)
    requires
        chain.len() <= outcomes.len(),
    ensures
        match conclusion_of(chain, rule, outcomes) {
            ConclusionView::Resolved { by, value } => {
                &&& by < chain.len()
                &&& verdict(chain[by as int], rule, outcomes[by as int]) == Ok::<
                    Seq<char>,
                    Failure,
                >(value)
                &&& forall|i: int|
                    0 <= i < by ==> (#[trigger] verdict(chain[i], rule, outcomes[i])) is Err
            },
            ConclusionView::Exhausted(failure) => {
                &&& forall|i: int|
                    0 <= i < chain.len() ==> (#[trigger] verdict(chain[i], rule, outcomes[i])) is Err
                &&& chain.len() == 0 ==> failure == Failure::NoStrategy
                &&& chain.len() > 0 ==> verdict(chain.last(), rule, outcomes[chain.len() - 1])
                    == Err::<Seq<char>, Failure>(failure)
            },
        },
    decreases chain.len(),
{
    if chain.len() > 0 {
        let shorter = chain.drop_last();
        law_first_success(shorter, rule, outcomes);
        assert(forall|i: int| 0 <= i < shorter.len() ==> shorter[i] == chain[i]);
    }
}

/// The machine computes `conclusion_of`. Fed with what each strategy gives,
/// it ends in the conclusion that names the first success, or the failure of
/// the last strategy when there is no success.
pub proof fn law_run_concludes(
    chain: Seq<StrategyView>,
    rule: Validity,
    outcomes: Seq<RunOutcomeView>,
)
    requires
        chain.len() <= outcomes.len(),
    ensures
        run(chain, rule, outcomes) == ProgressView::Finished(conclusion_of(chain, rule, outcomes)),
{
    law_first_success(chain, rule, outcomes);
    if chain.len() == 0 {
        lemma_run_finished(chain, rule, outcomes, 0, outcomes.len() as int);
        assert(outcomes.take(outcomes.len() as int) == outcomes);
    } else {
        match conclusion_of(chain, rule, outcomes) {
            ConclusionView::Resolved { by, value } => {
                law_short_circuit(chain, rule, outcomes, by as int);
                assert(outcomes.take(outcomes.len() as int) == outcomes);
            },
            ConclusionView::Exhausted(failure) => {
                law_exhaustion(chain, rule, outcomes);
            },
        }
    }
}

/// What a resolution has consulted decides how it ends: the machine is
/// finished after it, resolved by the last strategy consulted or exhausted
/// at the end of the chain.
pub proof fn law_consulted_finishes(
    chain: Seq<StrategyView>,
    rule: Validity,
    outcomes: Seq<RunOutcomeView>,
)
    requires
        consulted(chain, rule, outcomes),
    ensures
        run(chain, rule, outcomes) is Finished,
        ends_in(chain, rule, outcomes, run(chain, rule, outcomes)->Finished_0),
{
    assert(outcomes.take(outcomes.len() as int) == outcomes);
    if outcomes.len() == 0 {
    } else {
        let last = outcomes.len() - 1;
        lemma_run_refused(chain, rule, outcomes, last);
        lemma_run_take(chain, rule, outcomes, last + 1);
    }
}

/// Repeatability. Two resolutions over the same chain that are answered
/// alike by every strategy they both consult have consulted the same
/// strategies and end alike.
pub proof fn law_repeatable(
    chain: Seq<StrategyView>,
    rule: Validity,
    first: Seq<RunOutcomeView>,
    second: Seq<RunOutcomeView>,
)
    requires
        consulted(chain, rule, first),
        consulted(chain, rule, second),
        forall|i: int| 0 <= i < first.len() && i < second.len() ==> first[i] == second[i],
    ensures
        first == second,
        run(chain, rule, first) == run(chain, rule, second),
{
    if first.len() < second.len() {
        let i = first.len() - 1;
        assert(verdict(chain[i], rule, second[i]) is Err);
    }
    if second.len() < first.len() {
        let i = second.len() - 1;
        assert(verdict(chain[i], rule, first[i]) is Err);
    }
    assert(first =~= second);
}

/// Judges one strategy's outcome under `rule`.
pub fn judge(strategy: &Strategy, rule: Validity, outcome: &RunOutcome) -> (r: Result<
    String,
    Failure,
>)
    ensures
        match r {
            Ok(value) => verdict(strategy.deep_view(), rule, outcome.deep_view()) == Ok::<
                Seq<char>,
                Failure,
            >(value@),
            Err(failure) => verdict(strategy.deep_view(), rule, outcome.deep_view()) == Err::<
                Seq<char>,
                Failure,
            >(failure),
        },
{
    match outcome {
        RunOutcome::ExecutionFailure => Err(Failure::NotSpawned),
        RunOutcome::Completed(result) => {
            if !result.exit_success {
                Err(Failure::ExitFailure)
            } else {
                let value = extract(&strategy.extraction, result.stdout.as_str());
                if accepts(rule, value.as_str()) {
                    Ok(value)
                } else {
                    Err(Failure::Rejected)
                }
            }
        },
    }
}

/// Starts a resolution over `chain`.
pub fn begin(chain: &Vec<Strategy>) -> (state: Progress)
    ensures
        state@ == initial(chain.deep_view()),
{
    if chain.len() == 0 {
        Progress::Finished(Conclusion::Exhausted(Failure::NoStrategy))
    } else {
        Progress::Next(0)
    }
}

/// The strategy that `state` asks to be run next, if it asks for one.
pub fn pending_strategy<'a>(chain: &'a Vec<Strategy>, state: &Progress) -> (strategy: Option<
    &'a Strategy,
>)
    ensures
        match strategy {
            Some(s) => pending(chain.deep_view(), state@) matches Some(i) && i < chain.len() && *s
                == chain[i as int],
            None => pending(chain.deep_view(), state@) is None,
        },
{
    match state {
        Progress::Next(index) => if *index < chain.len() {
            Some(&chain[*index])
        } else {
            None
        },
        Progress::Finished(_) => None,
    }
}

/// Feeds the outcome of the strategy that `state` asked for, and gives the
/// state that follows.
pub fn advance(chain: &Vec<Strategy>, rule: Validity, state: Progress, outcome: &RunOutcome) -> (next:
    Progress)
    ensures
        next@ == step(chain.deep_view(), rule, state@, outcome.deep_view()),
{
    match state {
        Progress::Next(index) => {
            if index >= chain.len() {
                Progress::Next(index)
            } else {
                match judge(&chain[index], rule, outcome) {
                    Ok(value) => Progress::Finished(Conclusion::Resolved { by: index, value }),
                    Err(failure) => if index + 1 < chain.len() {
                        Progress::Next(index + 1)
                    } else {
                        Progress::Finished(Conclusion::Exhausted(failure))
                    },
                }
            }
        },
        Progress::Finished(conclusion) => Progress::Finished(conclusion),
    }
}

/// How a resolution ended, and what it saw on the way.
#[derive(Clone, Debug, PartialEq, Eq)]
pub struct Resolution {
    /// The conclusion: resolved or exhausted.
    pub conclusion: Conclusion,
    /// The outcome of each strategy that was run, in the order of the chain.
    pub attempts: Vec<RunOutcome>,
}

/// Runs a whole resolution: asks `runner` to run one strategy after another,
/// in the order of the chain, and stops at the first valid value.
///
/// `runner` is called once for each strategy up to the one that succeeds,
/// and for none after it. A strategy that cannot be started or that fails
/// does not end the resolution: the next one is tried.
pub fn resolve_with<F: Fn(&Strategy) -> RunOutcome>(
    chain: &Vec<Strategy>,
    rule: Validity,
    runner: F,
) -> (r: Resolution)
    requires
        forall|i: int| 0 <= i < chain.len() ==> call_requires(runner, (&chain[i],)),
    ensures
        forall|i: int|
            0 <= i < r.attempts.len() ==> call_ensures(runner, (&chain[i],), #[trigger] r.attempts[i]),
        consulted(chain.deep_view(), rule, r.attempts.deep_view()),
        ends_in(chain.deep_view(), rule, r.attempts.deep_view(), r.conclusion@),
        ProgressView::Finished(r.conclusion@) == run(
            chain.deep_view(),
            rule,
            r.attempts.deep_view(),
        ),
{
    let mut attempts: Vec<RunOutcome> = Vec::new();
    let mut state = begin(chain);
    assert(attempts.deep_view() =~= Seq::empty());
    loop
        invariant
            forall|i: int| 0 <= i < chain.len() ==> call_requires(runner, (&chain[i],)),
            forall|i: int|
                0 <= i < attempts.len() ==> call_ensures(runner, (&chain[i],), #[trigger] attempts[i]),
            attempts.len() <= chain.len(),
            state@ == run(chain.deep_view(), rule, attempts.deep_view()),
            state@ is Next ==> attempts.len() < chain.len() && state@ == ProgressView::Next(
                attempts.len() as nat,
            ),
            forall|i: int|
                0 <= i < attempts.len() && (i < attempts.len() - 1 || state@ is Next) ==> (
                #[trigger] verdict(chain.deep_view()[i], rule, attempts.deep_view()[i])) is Err,
            state@ is Finished ==> consulted(chain.deep_view(), rule, attempts.deep_view()),
        decreases chain.len() - attempts.len(),
    {
        match state {
            Progress::Finished(conclusion) => {
                proof {
                    law_consulted_finishes(chain.deep_view(), rule, attempts.deep_view());
                }
                return Resolution { conclusion, attempts };
            },
            Progress::Next(index) => {
                let ghost before = attempts.deep_view();
                let outcome = runner(&chain[index]);
                state = advance(chain, rule, Progress::Next(index), &outcome);
                attempts.push(outcome);
                proof {
                    let after = attempts.deep_view();
                    assert(after.drop_last() =~= before);
                    assert(after.last() == outcome.deep_view());
                    assert(forall|i: int| 0 <= i < before.len() ==> after[i] == before[i]);
                }
            },
        }
    }
}

/// The value of `conclusion`, or `default` when the chain was exhausted.
pub open spec fn value_or(conclusion: ConclusionView, default: Seq<char>) -> Seq<char> {
    match conclusion {
        ConclusionView::Resolved { by, value } => value,
        ConclusionView::Exhausted(_) => default,
    }
}

impl Conclusion {
    /// Whether a value was found.
    pub fn is_resolved(&self) -> (b: bool)
        ensures
            b == (self@ is Resolved),
    {
        match self {
            Conclusion::Resolved { .. } => true,
            Conclusion::Exhausted(_) => false,
        }
    }

    /// The value that was found, or `default` when the chain was exhausted.
    /// Exhaustion is an ordinary end: it is answered with the sentinel, not
    /// with an error.
    pub fn into_value_or(self, default: &str) -> (value: String)
        ensures
            value@ == value_or(self@, default@),
    {
        match self {
            Conclusion::Resolved { by, value } => value,
            Conclusion::Exhausted(_) => default.to_owned(),
        }
    }

    /// The value that was found, or the failure of the last strategy as an
    /// error: for resolvers that have no sentinel of their own.
    pub fn into_result(self) -> (r: Result<String, Failure>)
        ensures
            match r {
                Ok(value) => self@ matches ConclusionView::Resolved { by, value: found } && found
                    == value@,
                Err(failure) => self@ == ConclusionView::Exhausted(failure),
            },
    {
        match self {
            Conclusion::Resolved { by, value } => Ok(value),
            Conclusion::Exhausted(failure) => Err(failure),
        }
    }
}

} // verus!
