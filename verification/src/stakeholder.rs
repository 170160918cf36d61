//! A stakeholder as the dispatcher's test bed plays it: it votes on a
//! prepare, by chance the first time and as before ever after, and
//! acknowledges a commit or an abort.
use std::collections::HashMap;
use vstd::prelude::*;
use vstd::std_specs::hash::group_hash_axioms;
use vstd::string::StringExecFns;
use crate::helper::STAKEHOLDERS;
use crate::transaction::{Transaction, TransactionState};

verus! {

/// Of `COMMIT_CHANCES_OUT_OF` first votes, the number that are to commit.
pub const COMMIT_CHANCES: u32 = 3;

/// See `COMMIT_CHANCES`.
pub const COMMIT_CHANCES_OUT_OF: u32 = 4;

/// What a stakeholder remembers: its number, and what it has said of each
/// transaction.
pub struct StakeholderState {
    pub id: usize,
    pub log: Map<i32, TransactionState>,
}

/// A stakeholder is one of the three, and its log holds only accepted,
/// committed and aborted transactions.
pub open spec fn stakeholder_wf(s: StakeholderState) -> bool {
    &&& s.id < STAKEHOLDERS
    &&& forall|t: i32| #[trigger]
        s.log.contains_key(t) ==> s.log[t] == TransactionState::Accepted || s.log[t]
            == TransactionState::Commit || s.log[t] == TransactionState::Abort
}

/// Whether the answer to `request` takes a fresh vote: it is a prepare for a
/// transaction that the stakeholder has not seen.
pub open spec fn needs_vote(s: StakeholderState, request: Transaction) -> bool {
    request.transaction_state == TransactionState::Prepare && !s.log.contains_key(
        request.transaction_id,
    )
}

/// The state that the stakeholder answers to `request`, if it answers:
/// to a prepare its earlier vote, or the fresh one where it has none; to a
/// commit or an abort the same.
pub open spec fn answer_state(s: StakeholderState, request: Transaction, fresh: bool) -> Option<
    TransactionState,
> {
    match request.transaction_state {
        TransactionState::Prepare => if s.log.contains_key(request.transaction_id) {
            if s.log[request.transaction_id] == TransactionState::Abort {
                Some(TransactionState::Abort)
            } else {
                Some(TransactionState::Commit)
            }
        } else if fresh {
            Some(TransactionState::Commit)
        } else {
            Some(TransactionState::Abort)
        },
        TransactionState::Commit => Some(TransactionState::Commit),
        TransactionState::Abort => Some(TransactionState::Abort),
        _ => None,
    }
}

/// The stakeholder's answer to `request`: none to a message that is neither
/// prepare, commit nor abort; otherwise the answering state, for the same
/// transaction, with no amount, signed with the stakeholder's number.
pub open spec fn answer_of(s: StakeholderState, request: Transaction, fresh: bool) -> Option<
    Transaction,
> {
    match answer_state(s, request, fresh) {
        Some(state) => Some(
            Transaction {
                transaction_state: state,
                transaction_id: request.transaction_id,
                amount: 0,
                service: s.id as i32,
            },
        ),
        None => None,
    }
}

/// The stakeholder after `request`: a fresh vote is logged, as accepted or
/// as aborted; a commit or an abort is logged as such; nothing else changes.
pub open spec fn answered(s: StakeholderState, request: Transaction, fresh: bool) -> StakeholderState {
    match request.transaction_state {
        TransactionState::Prepare => if s.log.contains_key(request.transaction_id) {
            s
        } else {
            StakeholderState {
                log: s.log.insert(
                    request.transaction_id,
                    if fresh {
                        TransactionState::Accepted
                    } else {
                        TransactionState::Abort
                    },
                ),
                ..s
            }
        },
        TransactionState::Commit => StakeholderState {
            log: s.log.insert(request.transaction_id, TransactionState::Commit),
            ..s
        },
        TransactionState::Abort => StakeholderState {
            log: s.log.insert(request.transaction_id, TransactionState::Abort),
            ..s
        },
        _ => s,
    }
}

/// The name of stakeholder `id`.
pub open spec fn microservice_name(id: usize) -> Seq<char>
    recommends
        id < STAKEHOLDERS,
{
    if id == 0 {
        "Bank"@
    } else if id == 1 {
        "Airline"@
    } else {
        "Hotel"@
    }
}

/// The name of stakeholder `id`, which is 0 for the bank, 1 for the airline
/// and 2 for the hotel.
pub fn id_to_microservice_name(id: usize) -> (name: String)
    requires
        id < STAKEHOLDERS,
    ensures
        name@ == microservice_name(id),
{
    let result: &'static str = if id == 0 {
        "Bank"
    } else if id == 1 {
        "Airline"
    } else {
        "Hotel"
    };
    String::from_str(result)
}

/// A draw from the thread's random number generator: `gen_ratio` of the
/// trait `rand::Rng`, on the generator that `rand::thread_rng` returns. The
/// draw is `true` with a chance of `numerator` in `denominator`. Nothing is
/// known of one draw but at the two ends: with `numerator == denominator` it
/// is always `true`, with `numerator == 0` always `false`. The call panics on
/// a zero denominator and on a numerator above the denominator, which the
/// precondition excludes.
#[verifier::external_body]
fn random_ratio(numerator: u32, denominator: u32) -> (outcome: bool)
    requires
        0 < denominator,
        numerator <= denominator,
    ensures
        numerator == denominator ==> outcome,
        numerator == 0 ==> !outcome,
{
    rand::Rng::gen_ratio(&mut rand::thread_rng(), numerator, denominator)
}

/// One stakeholder.
pub struct Stakeholder {
    id: usize,
    log: HashMap<i32, TransactionState>,
}

impl View for Stakeholder {
    type V = StakeholderState;

    closed spec fn view(&self) -> StakeholderState {
        StakeholderState { id: self.id, log: self.log@ }
    }
}

impl Stakeholder {
    /// See `stakeholder_wf`.
    pub open spec fn wf(&self) -> bool {
        stakeholder_wf(self@)
    }

    /// Stakeholder `id`, which has seen no transaction.
    pub fn new(id: usize) -> (stakeholder: Stakeholder)
        requires
            id < STAKEHOLDERS,
        ensures
            stakeholder.wf(),
            stakeholder@.id == id,
            stakeholder@.log == Map::<i32, TransactionState>::empty(),
    {
        Stakeholder { id, log: HashMap::new() }
    }

    /// Answers `request`, with `fresh` as the vote on a transaction that the
    /// stakeholder has not seen: see `answer_of` and `answered`.
    pub fn answer_with(&mut self, request: &Transaction, fresh: bool) -> (reply: Option<
        Transaction,
    >)
        requires
            old(self).wf(),
        ensures
            final(self).wf(),
            final(self)@ == answered(old(self)@, *request, fresh),
            reply == answer_of(old(self)@, *request, fresh),
    {
        broadcast use group_hash_axioms;

        let t: i32 = request.transaction_id;
        let state: TransactionState = match request.transaction_state {
            TransactionState::Prepare => {
                let earlier: Option<TransactionState> = match self.log.get(&t) {
                    Some(state) => Some(*state),
                    None => None,
                };
                match earlier {
                    Some(TransactionState::Abort) => TransactionState::Abort,
                    Some(_) => TransactionState::Commit,
                    None => {
                        if fresh {
                            self.log.insert(t, TransactionState::Accepted);
                            TransactionState::Commit
                        } else {
                            self.log.insert(t, TransactionState::Abort);
                            TransactionState::Abort
                        }
                    },
                }
            },
            TransactionState::Commit => {
                self.log.insert(t, TransactionState::Commit);
                TransactionState::Commit
            },
            TransactionState::Abort => {
                self.log.insert(t, TransactionState::Abort);
                TransactionState::Abort
            },
            _ => {
                return None;
            },
        };
        Some(
            Transaction {
                transaction_state: state,
                transaction_id: t,
                amount: 0,
                service: self.id as i32,
            },
        )
    }

    /// Whether the answer to `request` takes a fresh vote.
    pub fn takes_fresh_vote(&self, request: &Transaction) -> (needed: bool)
        ensures
            needed == needs_vote(self@, *request),
    {
        broadcast use group_hash_axioms;

        match request.transaction_state {
            TransactionState::Prepare => self.log.get(&request.transaction_id).is_none(),
            _ => false,
        }
    }

    /// Answers `request`. A transaction that the stakeholder has not seen is
    /// voted on by chance, three times in four to commit; whatever the draw,
    /// the answer and the log are those of `answer_with` for it.
    pub fn answer(&mut self, request: &Transaction) -> (reply: Option<Transaction>)
        requires
            old(self).wf(),
        ensures
            final(self).wf(),
            exists|fresh: bool|
                final(self)@ == #[trigger] answered(old(self)@, *request, fresh) && reply
                    == answer_of(old(self)@, *request, fresh),
    {
        let fresh: bool = if self.takes_fresh_vote(request) {
            random_ratio(COMMIT_CHANCES, COMMIT_CHANCES_OUT_OF)
        } else {
            false
        };
        self.answer_with(request, fresh)
    }
}

/// A stakeholder that has voted on a transaction gives the same vote on
/// every later prepare for it, whatever the draws, as long as no commit or
/// abort for it comes in between.
pub proof fn lemma_vote_is_kept(
    s: StakeholderState,
    request: Transaction,
    first: bool,
    second: bool,
)
    requires
        stakeholder_wf(s),
        request.transaction_state == TransactionState::Prepare,
    ensures
        stakeholder_wf(answered(s, request, first)),
        answer_of(answered(s, request, first), request, second) == answer_of(s, request, first),
        answered(answered(s, request, first), request, second) == answered(s, request, first),
{
}

} // verus!
