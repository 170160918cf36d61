//! Two-phase commit, from the coordinator's side.
//!
//! The coordinator decides; the program around it sends each round's frames
//! to the stakeholders, gathers their replies in a tally until all have
//! answered or the time is up, and hands the tally back.
use std::collections::HashMap;
use vstd::prelude::*;
use vstd::std_specs::hash::group_hash_axioms;
use crate::helper::STAKEHOLDERS;
use crate::payment::Payment;
use crate::transaction::{frame_of, Transaction, TransactionState};

verus! {

/// The seconds that the coordinator waits for the replies of one round.
pub const BROADCAST_TIMEOUT_SECS: u64 = 5;

/// The three rounds that the coordinator can run for a transaction.
#[derive(Copy, Clone, Debug, PartialEq, Eq, Structural)]
pub enum Phase {
    Prepare,
    Commit,
    Abort,
}

impl Phase {
    /// The state that a message of this round carries.
    pub open spec fn message(self) -> TransactionState {
        match self {
            Phase::Prepare => TransactionState::Prepare,
            Phase::Commit => TransactionState::Commit,
            Phase::Abort => TransactionState::Abort,
        }
    }

    /// The state that the log holds while this round runs, and after it.
    pub open spec fn logged(self) -> TransactionState {
        match self {
            Phase::Prepare => TransactionState::Wait,
            Phase::Commit => TransactionState::Commit,
            Phase::Abort => TransactionState::Abort,
        }
    }

    /// The reply that makes this round a success when every stakeholder
    /// gives it.
    pub open spec fn expected(self) -> TransactionState {
        match self {
            Phase::Prepare => TransactionState::Commit,
            Phase::Commit => TransactionState::Commit,
            Phase::Abort => TransactionState::Abort,
        }
    }

    /// The state that a message of this round carries.
    pub fn message_state(self) -> (state: TransactionState)
        ensures
            state == self.message(),
    {
        match self {
            Phase::Prepare => TransactionState::Prepare,
            Phase::Commit => TransactionState::Commit,
            Phase::Abort => TransactionState::Abort,
        }
    }

    /// The state that the log holds while this round runs, and after it.
    pub fn logged_state(self) -> (state: TransactionState)
        ensures
            state == self.logged(),
    {
        match self {
            Phase::Prepare => TransactionState::Wait,
            Phase::Commit => TransactionState::Commit,
            Phase::Abort => TransactionState::Abort,
        }
    }

    /// The reply that every stakeholder has to give for this round to
    /// succeed.
    pub fn expected_reply(self) -> (state: TransactionState)
        ensures
            state == self.expected(),
    {
        match self {
            Phase::Prepare => TransactionState::Commit,
            Phase::Commit => TransactionState::Commit,
            Phase::Abort => TransactionState::Abort,
        }
    }
}

/// One broadcast to the stakeholders: the round, the transaction and the
/// payment that it is about.
#[derive(Copy, Clone, Debug, PartialEq, Eq, Structural)]
pub struct Round {
    pub phase: Phase,
    pub transaction_id: i32,
    pub payment: Payment,
}

/// The message of `round` for stakeholder `stakeholder`.
pub open spec fn message_for(round: Round, stakeholder: int) -> Transaction
    recommends
        0 <= stakeholder < STAKEHOLDERS,
{
    Transaction {
        transaction_state: round.phase.message(),
        transaction_id: round.transaction_id,
        amount: round.payment.amount_of(stakeholder),
        service: stakeholder as i32,
    }
}

/// Whether `reply` is a vote or an acknowledgement that the tally counts:
/// a commit or an abort, from one of the stakeholders.
pub open spec fn counts(reply: Transaction) -> bool {
    &&& reply.transaction_state == TransactionState::Commit || reply.transaction_state
        == TransactionState::Abort
    &&& 0 <= reply.service < STAKEHOLDERS
}

/// The tally after `reply` has come in: a reply that counts fills the slot
/// of its stakeholder, any other reply changes nothing.
pub open spec fn tallied(tally: Seq<Option<TransactionState>>, reply: Transaction) -> Seq<
    Option<TransactionState>,
> {
    if counts(reply) {
        tally.update(reply.service as int, Some(reply.transaction_state))
    } else {
        tally
    }
}

/// Whether every stakeholder has answered.
pub open spec fn complete(tally: Seq<Option<TransactionState>>) -> bool {
    forall|i: int| 0 <= i < tally.len() ==> (#[trigger] tally[i]) is Some
}

/// Whether every stakeholder has answered `expected`.
pub open spec fn unanimous(tally: Seq<Option<TransactionState>>, expected: TransactionState) -> bool {
    forall|i: int| 0 <= i < tally.len() ==> #[trigger] tally[i] == Some(expected)
}

/// Whether a round succeeded. In time, it did if every stakeholder answered
/// what was expected. When the time ran out, silence counts as an abort: the
/// round succeeded if an abort was expected.
pub open spec fn round_holds(
    timed_out: bool,
    tally: Seq<Option<TransactionState>>,
    expected: TransactionState,
) -> bool {
    if timed_out {
        expected == TransactionState::Abort
    } else {
        unanimous(tally, expected)
    }
}

/// The replies of one round, one slot for each stakeholder.
pub struct ResponseTally {
    slots: Vec<Option<TransactionState>>,
}

impl View for ResponseTally {
    type V = Seq<Option<TransactionState>>;

    closed spec fn view(&self) -> Seq<Option<TransactionState>> {
        self.slots@
    }
}

impl ResponseTally {
    /// A tally has one slot for each stakeholder.
    pub open spec fn wf(&self) -> bool {
        self@.len() == STAKEHOLDERS
    }

    /// The tally at the start of a round: nobody has answered.
    pub fn new() -> (tally: ResponseTally)
        ensures
            tally.wf(),
            forall|i: int| 0 <= i < STAKEHOLDERS ==> (#[trigger] tally@[i]) is None,
    {
        let mut slots: Vec<Option<TransactionState>> = Vec::new();
        slots.push(None);
        slots.push(None);
        slots.push(None);
        ResponseTally { slots }
    }

    /// Empties the tally for the next round.
    pub fn reset(&mut self)
        ensures
            final(self).wf(),
            forall|i: int| 0 <= i < STAKEHOLDERS ==> (#[trigger] final(self)@[i]) is None,
    {
        *self = ResponseTally::new();
    }

    /// Takes note of a reply. Returns whether the reply counted.
    pub fn record(&mut self, reply: &Transaction) -> (noted: bool)
        requires
            old(self).wf(),
        ensures
            final(self).wf(),
            final(self)@ == tallied(old(self)@, *reply),
            noted == counts(*reply),
    {
        let is_answer: bool = match reply.transaction_state {
            TransactionState::Commit => true,
            TransactionState::Abort => true,
            _ => false,
        };
        if is_answer && 0 <= reply.service && (reply.service as usize) < STAKEHOLDERS {
            self.slots.set(reply.service as usize, Some(reply.transaction_state));
            true
        } else {
            false
        }
    }

    /// What stakeholder `stakeholder` has answered in this round, if it has.
    pub fn slot(&self, stakeholder: usize) -> (answer: Option<TransactionState>)
        requires
            self.wf(),
            stakeholder < STAKEHOLDERS,
        ensures
            answer == self@[stakeholder as int],
    {
        self.slots[stakeholder]
    }

    /// Whether every stakeholder has answered: the wait for replies ends
    /// then.
    pub fn is_complete(&self) -> (done: bool)
        ensures
            done == complete(self@),
    {
        let mut i: usize = 0;
        while i < self.slots.len()
            invariant
                i <= self.slots.len(),
                forall|j: int| 0 <= j < i ==> (#[trigger] self@[j]) is Some,
            decreases self.slots.len() - i,
        {
            if self.slots[i].is_none() {
                return false;
            }
            i += 1;
        }
        true
    }

    /// Whether the round that gathered this tally succeeded: see
    /// `round_holds`.
    pub fn round_succeeded(&self, timed_out: bool, expected: TransactionState) -> (ok: bool)
        ensures
            ok == round_holds(timed_out, self@, expected),
    {
        if timed_out {
            return expected == TransactionState::Abort;
        }
        let mut i: usize = 0;
        while i < self.slots.len()
            invariant
                !timed_out,
                i <= self.slots.len(),
                forall|j: int| 0 <= j < i ==> #[trigger] self@[j] == Some(expected),
            decreases self.slots.len() - i,
        {
            let agrees: bool = match self.slots[i] {
                Some(answer) => answer == expected,
                None => false,
            };
            if !agrees {
                assert(self@[i as int] != Some(expected));
                return false;
            }
            i += 1;
        }
        true
    }
}

/// What the coordinator remembers: the state of every transaction that it
/// has touched, and the round that is in flight, if one is.
pub struct CoordinatorState {
    pub log: Map<i32, TransactionState>,
    pub round: Option<Round>,
}

/// What came back from one broadcast: whether the time ran out, and the
/// tally as it stood then.
pub struct Gathered {
    pub timed_out: bool,
    pub tally: Seq<Option<TransactionState>>,
}

/// What the coordinator asks for next.
#[derive(Copy, Clone, Debug, PartialEq, Eq, Structural)]
pub enum Step {
    /// Broadcast this round and gather the replies.
    Broadcast(Round),
    /// The submission is over, with this result.
    Finished(bool),
    /// No round was in flight.
    Idle,
}

/// The log's entry for transaction `t`.
pub open spec fn entry(log: Map<i32, TransactionState>, t: i32) -> Option<TransactionState> {
    if log.contains_key(t) {
        Some(log[t])
    } else {
        None
    }
}

/// The round with which a submission starts: a transaction that the log
/// holds as committed or aborted has its decision sent again, any other is
/// prepared.
pub open spec fn first_phase(entry: Option<TransactionState>) -> Phase {
    match entry {
        Some(TransactionState::Commit) => Phase::Commit,
        Some(TransactionState::Abort) => Phase::Abort,
        _ => Phase::Prepare,
    }
}

/// The log holds only waiting, committed and aborted transactions, and the
/// round in flight is the one that the log names for its transaction.
pub open spec fn state_wf(s: CoordinatorState) -> bool {
    &&& forall|t: i32| #[trigger]
        s.log.contains_key(t) ==> s.log[t] == TransactionState::Wait || s.log[t]
            == TransactionState::Commit || s.log[t] == TransactionState::Abort
    &&& s.round matches Some(round) ==> entry(s.log, round.transaction_id) == Some(
        round.phase.logged(),
    )
}

/// The first round of a submission of payment `r` as transaction `t`.
pub open spec fn first_round(s: CoordinatorState, t: i32, r: Payment) -> Round {
    Round { phase: first_phase(entry(s.log, t)), transaction_id: t, payment: r }
}

/// The coordinator after a submission has started: the first round is
/// logged, then in flight.
pub open spec fn begun(s: CoordinatorState, t: i32, r: Payment) -> CoordinatorState {
    let round = first_round(s, t, r);
    CoordinatorState { log: s.log.insert(t, round.phase.logged()), round: Some(round) }
}

/// Whether `round` succeeded with what was gathered.
pub open spec fn succeeded(round: Round, gathered: Gathered) -> bool {
    round_holds(gathered.timed_out, gathered.tally, round.phase.expected())
}

/// The round that follows a prepare round: commit after a success, abort
/// after a failure.
pub open spec fn decision(round: Round, gathered: Gathered) -> Round {
    Round {
        phase: if succeeded(round, gathered) {
            Phase::Commit
        } else {
            Phase::Abort
        },
        transaction_id: round.transaction_id,
        payment: round.payment,
    }
}

/// What the coordinator asks for once the round in flight has gathered its
/// replies. After a prepare round it is the decision round. After a commit
/// round the submission is over, and its result is the round's success.
/// After an abort round it is over too, and its result is the opposite of the
/// round's success: an abort that went through is a payment that did not.
pub open spec fn step_of(s: CoordinatorState, gathered: Gathered) -> Step {
    match s.round {
        None => Step::Idle,
        Some(round) => match round.phase {
            Phase::Prepare => Step::Broadcast(decision(round, gathered)),
            Phase::Commit => Step::Finished(succeeded(round, gathered)),
            Phase::Abort => Step::Finished(!succeeded(round, gathered)),
        },
    }
}

/// The coordinator once the round in flight has gathered its replies: a
/// decision is logged before it is broadcast, and nothing is in flight when
/// the submission is over.
pub open spec fn concluded(s: CoordinatorState, gathered: Gathered) -> CoordinatorState {
    match s.round {
        None => s,
        Some(round) => match round.phase {
            Phase::Prepare => {
                let next = decision(round, gathered);
                CoordinatorState {
                    log: s.log.insert(round.transaction_id, next.phase.logged()),
                    round: Some(next),
                }
            },
            _ => CoordinatorState { log: s.log, round: None },
        },
    }
}

/// A whole submission of payment `r` as transaction `t`: the coordinator
/// afterwards and the result, where `first` is what the first round gathers
/// and `second` what the decision round gathers, if a prepare round came
/// first.
pub open spec fn submitted(
    s: CoordinatorState,
    t: i32,
    r: Payment,
    first: Gathered,
    second: Gathered,
) -> (CoordinatorState, bool) {
    let s0 = begun(s, t, r);
    let s1 = concluded(s0, first);
    match step_of(s0, first) {
        Step::Finished(result) => (s1, result),
        _ => (
            concluded(s1, second),
            match step_of(s1, second) {
                Step::Finished(result) => result,
                _ => false,
            },
        ),
    }
}

/// The logic of the leader's transactions: a log of what was decided, and
/// the round that is in flight.
pub struct TransactionCoordinator {
    id: usize,
    log: HashMap<i32, TransactionState>,
    round: Option<Round>,
}

impl View for TransactionCoordinator {
    type V = CoordinatorState;

    closed spec fn view(&self) -> CoordinatorState {
        CoordinatorState { log: self.log@, round: self.round }
    }
}

impl TransactionCoordinator {
    /// The peer that this coordinator belongs to.
    pub closed spec fn peer(&self) -> usize {
        self.id
    }

    /// See `state_wf`.
    pub open spec fn wf(&self) -> bool {
        state_wf(self@)
    }

    /// A coordinator for peer `id`, with an empty log and no round in flight.
    pub fn new(id: usize) -> (coordinator: TransactionCoordinator)
        ensures
            coordinator.wf(),
            coordinator.peer() == id,
            coordinator@.log == Map::<i32, TransactionState>::empty(),
            coordinator@.round is None,
    {
        TransactionCoordinator { id, log: HashMap::new(), round: None }
    }

    /// The peer that this coordinator belongs to.
    pub fn id(&self) -> (id: usize)
        ensures
            id == self.peer(),
    {
        self.id
    }

    /// The log's entry for transaction `t`.
    pub fn logged(&self, t: i32) -> (state: Option<TransactionState>)
        ensures
            state == entry(self@.log, t),
    {
        broadcast use group_hash_axioms;

        match self.log.get(&t) {
            Some(state) => Some(*state),
            None => None,
        }
    }

    /// The round in flight, if one is.
    pub fn round_in_flight(&self) -> (round: Option<Round>)
        ensures
            round == self@.round,
    {
        self.round
    }

    /// Starts the submission of payment `r` as transaction `t`. The first
    /// round is logged, and returned for the caller to broadcast: a
    /// transaction that the log holds as committed or aborted has that
    /// decision sent again, any other is prepared. A round that was still in
    /// flight is given up.
    pub fn submit(&mut self, t: i32, r: Payment) -> (round: Round)
        requires
            old(self).wf(),
        ensures
            final(self).wf(),
            final(self).peer() == old(self).peer(),
            final(self)@ == begun(old(self)@, t, r),
            round == first_round(old(self)@, t, r),
    {
        broadcast use group_hash_axioms;

        let phase: Phase = match self.log.get(&t) {
            Some(TransactionState::Commit) => Phase::Commit,
            Some(TransactionState::Abort) => Phase::Abort,
            _ => Phase::Prepare,
        };
        let round = Round { phase, transaction_id: t, payment: r };
        self.log.insert(t, phase.logged_state());
        self.round = Some(round);
        round
    }

    /// Takes what the round in flight has gathered and says what comes next:
    /// see `step_of` and `concluded`.
    pub fn round_finished(&mut self, timed_out: bool, tally: &ResponseTally) -> (step: Step)
        requires
            old(self).wf(),
        ensures
            final(self).wf(),
            final(self).peer() == old(self).peer(),
            final(self)@ == concluded(old(self)@, Gathered { timed_out, tally: tally@ }),
            step == step_of(old(self)@, Gathered { timed_out, tally: tally@ }),
    {
        broadcast use group_hash_axioms;

        match self.round {
            None => Step::Idle,
            Some(round) => {
                let ok: bool = tally.round_succeeded(timed_out, round.phase.expected_reply());
                match round.phase {
                    Phase::Prepare => {
                        let phase: Phase = if ok {
                            Phase::Commit
                        } else {
                            Phase::Abort
                        };
                        let next = Round {
                            phase,
                            transaction_id: round.transaction_id,
                            payment: round.payment,
                        };
                        self.log.insert(round.transaction_id, phase.logged_state());
                        self.round = Some(next);
                        Step::Broadcast(next)
                    },
                    Phase::Commit => {
                        self.round = None;
                        Step::Finished(ok)
                    },
                    Phase::Abort => {
                        self.round = None;
                        Step::Finished(!ok)
                    },
                }
            },
        }
    }
}

/// The messages of `round`, one for each stakeholder in turn, as the bytes
/// that go to that stakeholder's address.
pub fn broadcast_frames(round: &Round) -> (frames: Vec<[u8; 13]>)
    ensures
        frames@.len() == STAKEHOLDERS,
        forall|i: int|
            0 <= i < STAKEHOLDERS ==> (#[trigger] frames@[i])@ == frame_of(message_for(*round, i)),
{
    let mut frames: Vec<[u8; 13]> = Vec::new();
    let mut stakeholder: usize = 0;
    while stakeholder < STAKEHOLDERS
        invariant
            stakeholder <= STAKEHOLDERS,
            frames@.len() == stakeholder,
            forall|i: int|
                0 <= i < stakeholder ==> (#[trigger] frames@[i])@ == frame_of(
                    message_for(*round, i),
                ),
        decreases STAKEHOLDERS - stakeholder,
    {
        let mut message = Transaction {
            transaction_state: round.phase.message_state(),
            transaction_id: round.transaction_id,
            amount: round.payment.amount(stakeholder),
            service: stakeholder as i32,
        };
        let frame: [u8; 13] = message.serialize();
        frames.push(frame);
        stakeholder += 1;
    }
    frames
}

} // verus!
