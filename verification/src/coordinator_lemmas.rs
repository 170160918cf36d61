//! What holds of the coordinator whatever the stakeholders answer.
use vstd::prelude::*;
use crate::coordinator::{
    begun, concluded, entry, first_phase, round_holds, state_wf, step_of, submitted, unanimous,
    CoordinatorState, Gathered, Phase, Step,
};
use crate::payment::Payment;
use crate::transaction::TransactionState;

verus! {

/// The one-step moves of a log entry: it stays, it appears as waiting, or it
/// goes from waiting to committed or aborted.
pub open spec fn allowed(before: Option<TransactionState>, after: Option<TransactionState>) -> bool {
    ||| after == before
    ||| before is None && after == Some(TransactionState::Wait)
    ||| before == Some(TransactionState::Wait) && (after == Some(TransactionState::Commit) || after
        == Some(TransactionState::Abort))
}

/// Where a log entry can be after any number of allowed moves.
pub open spec fn follows(before: Option<TransactionState>, after: Option<TransactionState>) -> bool {
    ||| allowed(before, after)
    ||| before is None && (after == Some(TransactionState::Commit) || after == Some(
        TransactionState::Abort,
    ))
}

/// One call on the coordinator: the start of a submission, or the end of a
/// round.
pub enum Call {
    Submit(i32, Payment),
    RoundFinished(Gathered),
}

/// The coordinator after one call.
pub open spec fn after_call(s: CoordinatorState, call: Call) -> CoordinatorState {
    match call {
        Call::Submit(t, r) => begun(s, t, r),
        Call::RoundFinished(gathered) => concluded(s, gathered),
    }
}

/// The coordinator after the calls of `calls`, in their order.
pub open spec fn after_calls(s: CoordinatorState, calls: Seq<Call>) -> CoordinatorState
    decreases calls.len(),
{
    if calls.len() == 0 {
        s
    } else {
        after_call(after_calls(s, calls.drop_last()), calls.last())
    }
}

/// Committed and aborted are final: no allowed move, and no chain of them,
/// leads away from either.
pub proof fn lemma_terminal_is_final(before: TransactionState, after: Option<TransactionState>)
    requires
        before == TransactionState::Commit || before == TransactionState::Abort,
        follows(Some(before), after),
    ensures
        after == Some(before),
{
}

/// Allowed moves, chained, stay within `follows`.
pub proof fn lemma_follows_chains(
    a: Option<TransactionState>,
    b: Option<TransactionState>,
    c: Option<TransactionState>,
)
    requires
        follows(a, b),
        follows(b, c),
    ensures
        follows(a, c),
{
}

/// Starting a submission keeps the coordinator well formed and moves every
/// log entry by an allowed move, or not at all.
pub proof fn lemma_submit_moves_log(s: CoordinatorState, t: i32, r: Payment, k: i32)
    requires
        state_wf(s),
    ensures
        state_wf(begun(s, t, r)),
        allowed(entry(s.log, k), entry(begun(s, t, r).log, k)),
        k != t ==> entry(begun(s, t, r).log, k) == entry(s.log, k),
{
}

/// Ending a round keeps the coordinator well formed and moves every log
/// entry by an allowed move, or not at all.
pub proof fn lemma_round_moves_log(s: CoordinatorState, gathered: Gathered, k: i32)
    requires
        state_wf(s),
    ensures
        state_wf(concluded(s, gathered)),
        allowed(entry(s.log, k), entry(concluded(s, gathered).log, k)),
{
}

/// Whatever is called on a well-formed coordinator, in whatever order and
/// with whatever replies: it stays well formed, and every log entry goes
/// only from absent to waiting to committed or aborted, so that an entry
/// that is committed or aborted stays as it is.
pub proof fn lemma_log_monotone(s: CoordinatorState, calls: Seq<Call>, k: i32)
    requires
        state_wf(s),
    ensures
        state_wf(after_calls(s, calls)),
        follows(entry(s.log, k), entry(after_calls(s, calls).log, k)),
        entry(s.log, k) == Some(TransactionState::Commit) || entry(s.log, k) == Some(
            TransactionState::Abort,
        ) ==> entry(after_calls(s, calls).log, k) == entry(s.log, k),
    decreases calls.len(),
{
    if calls.len() > 0 {
        lemma_log_monotone(s, calls.drop_last(), k);
        let mid = after_calls(s, calls.drop_last());
        match calls.last() {
            Call::Submit(t, r) => {
                lemma_submit_moves_log(mid, t, r, k);
            },
            Call::RoundFinished(gathered) => {
                lemma_round_moves_log(mid, gathered, k);
            },
        }
    }
}

/// A whole submission leaves the transaction committed or aborted, nothing
/// in flight, and every other log entry as it was. Its result is the success
/// of the commit round, or the opposite of the success of the abort round.
pub proof fn lemma_submission(
    s: CoordinatorState,
    t: i32,
    r: Payment,
    first: Gathered,
    second: Gathered,
    k: i32,
)
    requires
        state_wf(s),
    ensures
        state_wf(submitted(s, t, r, first, second).0),
        submitted(s, t, r, first, second).0.round is None,
        entry(submitted(s, t, r, first, second).0.log, t) == Some(TransactionState::Commit)
            || entry(submitted(s, t, r, first, second).0.log, t) == Some(TransactionState::Abort),
        k != t ==> entry(submitted(s, t, r, first, second).0.log, k) == entry(s.log, k),
        follows(entry(s.log, t), entry(submitted(s, t, r, first, second).0.log, t)),
{
}

/// Submitting a transaction again does not alter its committed or aborted
/// entry, and gives the same result as before whenever the decision round
/// gathers the same success as it did before.
pub proof fn lemma_submit_idempotent(
    s: CoordinatorState,
    t: i32,
    r: Payment,
    first: Gathered,
    second: Gathered,
    again: Gathered,
    unused: Gathered,
)
    requires
        state_wf(s),
        ({
            let last = if first_phase(entry(s.log, t)) == Phase::Prepare {
                second
            } else {
                first
            };
            let once = submitted(s, t, r, first, second).0;
            let decided = entry(once.log, t).unwrap();
            round_holds(again.timed_out, again.tally, decided) == round_holds(
                last.timed_out,
                last.tally,
                decided,
            )
        }),
    ensures
        ({
            let once = submitted(s, t, r, first, second);
            let twice = submitted(once.0, t, r, again, unused);
            &&& twice.1 == once.1
            &&& entry(twice.0.log, t) == entry(once.0.log, t)
            &&& twice.0.log == once.0.log
        }),
{
    let once = submitted(s, t, r, first, second);
    let twice = submitted(once.0, t, r, again, unused);
    lemma_submission(s, t, r, first, second, t);
    assert(twice.0.log =~= once.0.log);
}

/// When every stakeholder votes to commit and then acknowledges the commit,
/// a transaction that was not decided before is committed and the result is
/// `true`.
pub proof fn lemma_unanimous_commit(
    s: CoordinatorState,
    t: i32,
    r: Payment,
    votes: Seq<Option<TransactionState>>,
    acks: Seq<Option<TransactionState>>,
)
    requires
        state_wf(s),
        entry(s.log, t) is None || entry(s.log, t) == Some(TransactionState::Wait),
        unanimous(votes, TransactionState::Commit),
        unanimous(acks, TransactionState::Commit),
    ensures
        ({
            let done = submitted(
                s,
                t,
                r,
                Gathered { timed_out: false, tally: votes },
                Gathered { timed_out: false, tally: acks },
            );
            &&& done.1
            &&& entry(done.0.log, t) == Some(TransactionState::Commit)
        }),
{
}

/// When a stakeholder votes to abort, or the votes do not come in time, and
/// the abort round then succeeds, a transaction that was not decided before
/// is aborted and the result is `false`.
pub proof fn lemma_vote_abort(
    s: CoordinatorState,
    t: i32,
    r: Payment,
    first: Gathered,
    second: Gathered,
    dissenter: int,
)
    requires
        state_wf(s),
        entry(s.log, t) is None || entry(s.log, t) == Some(TransactionState::Wait),
        first.timed_out || (0 <= dissenter < first.tally.len() && first.tally[dissenter] == Some(
            TransactionState::Abort,
        )),
        round_holds(second.timed_out, second.tally, TransactionState::Abort),
    ensures
        ({
            let done = submitted(s, t, r, first, second);
            &&& !done.1
            &&& entry(done.0.log, t) == Some(TransactionState::Abort)
        }),
{
}

/// Submitting a committed transaction again, with every stakeholder
/// acknowledging the commit, gives `true` and leaves the log as it was.
pub proof fn lemma_replayed_commit(
    s: CoordinatorState,
    t: i32,
    r: Payment,
    acks: Seq<Option<TransactionState>>,
    unused: Gathered,
)
    requires
        state_wf(s),
        entry(s.log, t) == Some(TransactionState::Commit),
        unanimous(acks, TransactionState::Commit),
    ensures
        ({
            let done = submitted(s, t, r, Gathered { timed_out: false, tally: acks }, unused);
            &&& done.1
            &&& done.0.log == s.log
        }),
{
    let done = submitted(s, t, r, Gathered { timed_out: false, tally: acks }, unused);
    assert(done.0.log =~= s.log);
}

/// Silence is an abort. A round whose time runs out fails where a commit was
/// expected and succeeds where an abort was expected, whatever the tally
/// holds.
pub proof fn lemma_silence(tally: Seq<Option<TransactionState>>)
    ensures
        !round_holds(true, tally, TransactionState::Commit),
        round_holds(true, tally, TransactionState::Abort),
{
}

/// When nobody answers at all, neither the prepare round nor the abort round
/// that follows it, the transaction is aborted and the result is `false`.
pub proof fn lemma_silent_stakeholders(
    s: CoordinatorState,
    t: i32,
    r: Payment,
    votes: Seq<Option<TransactionState>>,
    acks: Seq<Option<TransactionState>>,
)
    requires
        state_wf(s),
        entry(s.log, t) is None || entry(s.log, t) == Some(TransactionState::Wait),
    ensures
        ({
            let done = submitted(
                s,
                t,
                r,
                Gathered { timed_out: true, tally: votes },
                Gathered { timed_out: true, tally: acks },
            );
            &&& !done.1
            &&& entry(done.0.log, t) == Some(TransactionState::Abort)
        }),
{
}

/// The steps of a submission add up to `submitted`: after the start, the
/// first round's end either finishes the submission or asks for the decision
/// round, whose end finishes it.
pub proof fn lemma_steps_of_submission(
    s: CoordinatorState,
    t: i32,
    r: Payment,
    first: Gathered,
    second: Gathered,
)
    requires
        state_wf(s),
    ensures
        ({
            let s0 = begun(s, t, r);
            let s1 = concluded(s0, first);
            let done = submitted(s, t, r, first, second);
            if first_phase(entry(s.log, t)) == Phase::Prepare {
                &&& step_of(s0, first) is Broadcast
                &&& step_of(s1, second) == Step::Finished(done.1)
                &&& concluded(s1, second) == done.0
            } else {
                &&& step_of(s0, first) == Step::Finished(done.1)
                &&& s1 == done.0
            }
        }),
{
}

} // verus!
