//! The dispatcher's own loop, one decision at a time: which record the
//! leader submits next, what a follower learns from the leader, and when a
//! follower is done.
use vstd::prelude::*;
use vstd::string::StringExecFns;
use crate::coordinator::{
    begun, concluded, first_round, state_wf, step_of, CoordinatorState, Gathered, ResponseTally,
    Round, Step, TransactionCoordinator,
};
use crate::election::{other_peers, peers_except, ElectionState, LeaderElection, TEAM_MEMBERS};
use crate::payment::Payment;
use crate::replication::{decode_progress, encode_progress, leader_from_port, peer_of_port};
use crate::text::{signed_decimal, signed_decimal_string};
use crate::transaction::TransactionState;
use crate::wire::{signed_of, u64_be_bytes, u64_from_be_bytes};

verus! {

/// The milliseconds that a follower rests between two progress messages.
pub const FOLLOWER_PAUSE_MILLIS: u64 = 500;

/// Where a peer stands in the records: the place in the source from which it
/// reads on, and the index of the last record that the leader has submitted.
#[derive(Copy, Clone, Debug, PartialEq, Eq, Structural)]
pub struct Progress {
    pub position: usize,
    pub last_record: u64,
}

/// Whether `records[i]` is the first record from `from` on whose index is
/// above `last_record`.
pub open spec fn is_next(records: Seq<Payment>, from: int, last_record: u64, i: int) -> bool {
    &&& from <= i < records.len()
    &&& records[i].line > last_record
    &&& forall|j: int| from <= j < i ==> (#[trigger] records[j]).line <= last_record
}

/// Whether no record from `from` on has an index above `last_record`.
pub open spec fn none_left(records: Seq<Payment>, from: int, last_record: u64) -> bool {
    forall|j: int| from <= j < records.len() ==> (#[trigger] records[j]).line <= last_record
}

/// The transaction number of record `line`: the index itself where it fits,
/// its low 32 bits read as a signed number otherwise.
pub open spec fn transaction_of(line: u64) -> i32 {
    signed_of(line as int % 0x1_0000_0000)
}

/// The line that the failure sink gets for payment `r`: the three amounts
/// with commas between them, and a line feed.
pub open spec fn failure_text(r: Payment) -> Seq<char> {
    signed_decimal(r.bank as int) + seq![','] + signed_decimal(r.airline as int) + seq![',']
        + signed_decimal(r.hotel as int) + seq!['\n']
}

impl Progress {
    /// A peer that has seen nothing yet.
    pub fn new() -> (progress: Progress)
        ensures
            progress == (Progress { position: 0, last_record: 0 }),
    {
        Progress { position: 0, last_record: 0 }
    }

    /// The leader's turn: the next record to submit, which is the first from
    /// the peer's place on whose index is above the last submitted one.
    /// Records before it are skipped. The index of the record that is
    /// returned becomes the last submitted one, so it only ever grows.
    /// Without such a record nothing changes.
    pub fn take_next(&mut self, records: &Vec<Payment>) -> (next: Option<Payment>)
        ensures
            match next {
                Some(record) => {
                    &&& is_next(
                        records@,
                        old(self).position as int,
                        old(self).last_record,
                        final(self).position - 1,
                    )
                    &&& record == records@[final(self).position - 1]
                    &&& final(self).last_record == record.line
                    &&& final(self).last_record > old(self).last_record
                },
                None => {
                    &&& none_left(records@, old(self).position as int, old(self).last_record)
                    &&& *final(self) == *old(self)
                },
            },
    {
        let mut i: usize = self.position;
        while i < records.len()
            invariant
                self.position <= i,
                *self == *old(self),
                forall|j: int|
                    self.position <= j < i ==> (#[trigger] records@[j]).line <= self.last_record,
            decreases records.len() - i,
        {
            let record: Payment = records[i];
            if record.line > self.last_record {
                self.position = i + 1;
                self.last_record = record.line;
                return Some(record);
            }
            i += 1;
        }
        None
    }

    /// A follower's turn: a progress message has come in from data port
    /// `port`. Its index becomes the last submitted one. A follower that knows
    /// only that a leader exists takes the sender for the leader.
    pub fn follow(&mut self, election: &mut LeaderElection, payload: &[u8; 8], port: u16)
        ensures
            *final(self) == (Progress {
                last_record: u64_from_be_bytes(payload@),
                ..*old(self)
            }),
            final(election)@ == (if old(election)@.leader == Some(TEAM_MEMBERS) {
                ElectionState { leader: Some(peer_of_port(port)), ..old(election)@ }
            } else {
                old(election)@
            }),
    {
        if election.is_leader_known() {
            if election.get_leader_id() == TEAM_MEMBERS {
                election.set_leader(leader_from_port(port));
            }
        }
        self.last_record = decode_progress(payload);
    }

    /// Whether a follower is done: the leader has submitted the last of the
    /// `total_lines` records.
    pub fn is_finished(&self, total_lines: u64) -> (done: bool)
        ensures
            done == (self.last_record == total_lines),
    {
        self.last_record == total_lines
    }
}

/// The transaction number under which record `line` is submitted.
pub fn transaction_id(line: u64) -> (t: i32)
    ensures
        t == transaction_of(line),
        line <= i32::MAX ==> t == line,
{
    let low: u64 = line % 0x1_0000_0000;
    if low >= 0x8000_0000 {
        (low as i64 - 0x1_0000_0000) as i32
    } else {
        low as i32
    }
}

/// The line that the failure sink gets for a payment that did not go
/// through.
pub fn failure_line(r: &Payment) -> (line: String)
    ensures
        line@ == failure_text(*r),
{
    proof {
        reveal_strlit(",");
        reveal_strlit("\n");
    }
    let mut line: String = signed_decimal_string(r.bank);
    line.append(",");
    let airline: String = signed_decimal_string(r.airline);
    line.append(airline.as_str());
    line.append(",");
    let hotel: String = signed_decimal_string(r.hotel);
    line.append(hotel.as_str());
    line.append("\n");
    assert(line@ =~= failure_text(*r));
    line
}

/// What the leader tells the world once a record is dealt with.
#[derive(Debug)]
pub struct Publication {
    /// The line for the failure sink, where the payment did not go through.
    pub failure: Option<String>,
    /// The progress message.
    pub progress: [u8; 8],
    /// The peers that the progress message goes to.
    pub targets: Vec<usize>,
}

/// What the leader has to do next.
#[derive(Debug)]
pub enum Action {
    /// Broadcast this round to the stakeholders, gather their replies, and
    /// hand them to `round_gathered`.
    Broadcast(Round),
    /// A record is dealt with: write the failure, if there is one, then
    /// publish the progress.
    Publish(Publication),
    /// No record is left: publish the progress a last time.
    Finish(Publication),
    /// No round was in flight.
    Idle,
}

/// Whether `publication` is that of peer `id` at the record index
/// `last_record`, with the failure line of `failed` where a payment failed.
pub open spec fn publication_fits(
    publication: Publication,
    id: usize,
    last_record: u64,
    failed: Option<Payment>,
) -> bool {
    &&& publication.progress@ == u64_be_bytes(last_record)
    &&& publication.targets@ == other_peers(id)
    &&& match failed {
        Some(payment) => publication.failure matches Some(line) && line@ == failure_text(payment),
        None => publication.failure is None,
    }
}

/// What a peer remembers of its work: its coordinator and its place in the
/// records.
pub struct DispatcherState {
    pub id: usize,
    pub coordinator: CoordinatorState,
    pub progress: Progress,
}

/// A peer's work on the records, while it leads and while it follows.
pub struct Dispatcher {
    coordinator: TransactionCoordinator,
    progress: Progress,
}

impl View for Dispatcher {
    type V = DispatcherState;

    closed spec fn view(&self) -> DispatcherState {
        DispatcherState {
            id: self.coordinator.peer(),
            coordinator: self.coordinator@,
            progress: self.progress,
        }
    }
}

impl Dispatcher {
    /// The dispatcher belongs to a peer, and its coordinator is well formed.
    pub open spec fn wf(&self) -> bool {
        &&& self@.id < TEAM_MEMBERS
        &&& state_wf(self@.coordinator)
    }

    /// The dispatcher of peer `id`, which has seen no record.
    pub fn new(id: usize) -> (dispatcher: Dispatcher)
        requires
            id < TEAM_MEMBERS,
        ensures
            dispatcher.wf(),
            dispatcher@.id == id,
            dispatcher@.coordinator.log == Map::<i32, TransactionState>::empty(),
            dispatcher@.coordinator.round is None,
            dispatcher@.progress == (Progress { position: 0, last_record: 0 }),
    {
        Dispatcher { coordinator: TransactionCoordinator::new(id), progress: Progress::new() }
    }

    /// Where the peer stands in the records.
    pub fn progress(&self) -> (progress: Progress)
        ensures
            progress == self@.progress,
    {
        self.progress
    }

    /// What goes out once a record is dealt with, or none is left.
    fn publication(&self, failed: Option<Payment>) -> (publication: Publication)
        requires
            self.wf(),
        ensures
            publication_fits(publication, self@.id, self@.progress.last_record, failed),
    {
        let failure: Option<String> = match failed {
            Some(payment) => Some(failure_line(&payment)),
            None => None,
        };
        Publication {
            failure,
            progress: encode_progress(self.progress.last_record),
            targets: peers_except(self.coordinator.id()),
        }
    }

    /// The leader's turn. The next record, which is the first from the
    /// peer's place on whose index is above the last submitted one, is
    /// submitted under the transaction number of its index, and its first
    /// round is returned. Its index becomes the last submitted one, which so
    /// grows with every record. Where no record is left, nothing changes and
    /// the progress is published a last time.
    pub fn lead(&mut self, records: &Vec<Payment>) -> (action: Action)
        requires
            old(self).wf(),
        ensures
            final(self).wf(),
            final(self)@.id == old(self)@.id,
            match action {
                Action::Broadcast(round) => {
                    let i = final(self)@.progress.position - 1;
                    let record = records@[i];
                    &&& is_next(
                        records@,
                        old(self)@.progress.position as int,
                        old(self)@.progress.last_record,
                        i,
                    )
                    &&& final(self)@.progress.last_record == record.line
                    &&& final(self)@.progress.last_record > old(self)@.progress.last_record
                    &&& final(self)@.coordinator == begun(
                        old(self)@.coordinator,
                        transaction_of(record.line),
                        record,
                    )
                    &&& round == first_round(
                        old(self)@.coordinator,
                        transaction_of(record.line),
                        record,
                    )
                },
                Action::Finish(publication) => {
                    &&& none_left(
                        records@,
                        old(self)@.progress.position as int,
                        old(self)@.progress.last_record,
                    )
                    &&& final(self)@ == old(self)@
                    &&& publication_fits(
                        publication,
                        old(self)@.id,
                        old(self)@.progress.last_record,
                        None,
                    )
                },
                _ => false,
            },
    {
        match self.progress.take_next(records) {
            Some(record) => {
                let round: Round = self.coordinator.submit(transaction_id(record.line), record);
                Action::Broadcast(round)
            },
            None => Action::Finish(self.publication(None)),
        }
    }

    /// Takes what the round in flight has gathered. After a prepare round the
    /// decision round is returned. After a decision round the record is dealt
    /// with: the publication is returned, with the record's failure line
    /// where the submission's result is `false`.
    pub fn round_gathered(&mut self, timed_out: bool, tally: &ResponseTally) -> (action: Action)
        requires
            old(self).wf(),
        ensures
            final(self).wf(),
            final(self)@.id == old(self)@.id,
            final(self)@.progress == old(self)@.progress,
            final(self)@.coordinator == concluded(
                old(self)@.coordinator,
                Gathered { timed_out, tally: tally@ },
            ),
            match step_of(old(self)@.coordinator, Gathered { timed_out, tally: tally@ }) {
                Step::Broadcast(round) => action == Action::Broadcast(round),
                Step::Finished(result) => action matches Action::Publish(publication)
                    && publication_fits(
                    publication,
                    old(self)@.id,
                    old(self)@.progress.last_record,
                    if result {
                        None
                    } else {
                        Some(old(self)@.coordinator.round.unwrap().payment)
                    },
                ),
                Step::Idle => action is Idle,
            },
    {
        let in_flight: Option<Round> = self.coordinator.round_in_flight();
        match self.coordinator.round_finished(timed_out, tally) {
            Step::Broadcast(round) => Action::Broadcast(round),
            Step::Finished(result) => {
                let failed: Option<Payment> = match in_flight {
                    Some(round) => if result {
                        None
                    } else {
                        Some(round.payment)
                    },
                    None => None,
                };
                Action::Publish(self.publication(failed))
            },
            Step::Idle => Action::Idle,
        }
    }

    /// A follower's turn: see `Progress::follow`.
    pub fn follow(&mut self, election: &mut LeaderElection, payload: &[u8; 8], port: u16)
        ensures
            final(self)@ == (DispatcherState {
                progress: Progress {
                    last_record: u64_from_be_bytes(payload@),
                    ..old(self)@.progress
                },
                ..old(self)@
            }),
            final(election)@ == (if old(election)@.leader == Some(TEAM_MEMBERS) {
                ElectionState { leader: Some(peer_of_port(port)), ..old(election)@ }
            } else {
                old(election)@
            }),
    {
        self.progress.follow(election, payload, port);
    }

    /// Whether a follower is done: see `Progress::is_finished`.
    pub fn is_finished(&self, total_lines: u64) -> (done: bool)
        ensures
            done == (self@.progress.last_record == total_lines),
    {
        self.progress.is_finished(total_lines)
    }
}

} // verus!
