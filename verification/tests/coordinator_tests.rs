use alglobo::coordinator::{
    broadcast_frames, Phase, ResponseTally, Round, Step, TransactionCoordinator,
};
use alglobo::payment::{Payment, Record};
use alglobo::transaction::{Transaction, TransactionState};

use TransactionState::{Abort, Commit, Prepare, Wait};

fn record_one() -> Payment {
    Payment { line: 1, bank: 10, airline: 20, hotel: 30 }
}

fn reply(state: TransactionState, t: i32, service: i32) -> Transaction {
    Transaction { transaction_state: state, transaction_id: t, amount: 0, service }
}

fn tally_of(answers: [Option<TransactionState>; 3], t: i32) -> ResponseTally {
    let mut tally = ResponseTally::new();
    for (service, answer) in answers.iter().enumerate() {
        if let Some(state) = answer {
            assert!(tally.record(&reply(*state, t, service as i32)));
        }
    }
    tally
}

fn all(state: TransactionState, t: i32) -> ResponseTally {
    tally_of([Some(state), Some(state), Some(state)], t)
}

#[test]
fn payment_amounts_by_stakeholder() {
    let r = record_one();
    assert_eq!(r.amount(0), 10);
    assert_eq!(r.amount(1), 20);
    assert_eq!(r.amount(2), 30);
    let from = Payment::from_record(9, Record { hotel: 3, airline: 2, bank: 1 });
    assert_eq!(from, Payment { line: 9, bank: 1, airline: 2, hotel: 3 });
}

#[test]
fn phases_and_their_states() {
    assert_eq!(Phase::Prepare.message_state(), Prepare);
    assert_eq!(Phase::Commit.message_state(), Commit);
    assert_eq!(Phase::Abort.message_state(), Abort);
    assert_eq!(Phase::Prepare.logged_state(), Wait);
    assert_eq!(Phase::Commit.logged_state(), Commit);
    assert_eq!(Phase::Abort.logged_state(), Abort);
    assert_eq!(Phase::Prepare.expected_reply(), Commit);
    assert_eq!(Phase::Commit.expected_reply(), Commit);
    assert_eq!(Phase::Abort.expected_reply(), Abort);
}

#[test]
fn tally_starts_empty_and_fills_by_service() {
    let mut tally = ResponseTally::new();
    for s in 0..3 {
        assert_eq!(tally.slot(s), None);
    }
    assert!(!tally.is_complete());
    assert!(tally.record(&reply(Commit, 1, 1)));
    assert_eq!(tally.slot(0), None);
    assert_eq!(tally.slot(1), Some(Commit));
    assert_eq!(tally.slot(2), None);
    assert!(!tally.is_complete());
    assert!(tally.record(&reply(Abort, 1, 0)));
    assert!(tally.record(&reply(Commit, 1, 2)));
    assert!(tally.is_complete());
    assert_eq!(tally.slot(0), Some(Abort));
    assert!(tally.record(&reply(Commit, 1, 0)));
    assert_eq!(tally.slot(0), Some(Commit));
}

#[test]
fn tally_is_emptied_for_the_next_round() {
    let mut tally = all(Commit, 1);
    assert!(tally.is_complete());
    tally.reset();
    assert!(!tally.is_complete());
    for s in 0..3 {
        assert_eq!(tally.slot(s), None);
    }
    assert!(tally.record(&reply(Abort, 2, 2)));
    assert_eq!(tally.slot(2), Some(Abort));
}

#[test]
fn tally_ignores_what_is_no_answer() {
    let mut tally = ResponseTally::new();
    assert!(!tally.record(&reply(Prepare, 1, 0)));
    assert!(!tally.record(&reply(Wait, 1, 0)));
    assert!(!tally.record(&reply(TransactionState::Accepted, 1, 0)));
    assert!(!tally.record(&reply(Commit, 1, 3)));
    assert!(!tally.record(&reply(Commit, 1, -1)));
    assert!(!tally.record(&reply(Abort, 1, i32::MAX)));
    for s in 0..3 {
        assert_eq!(tally.slot(s), None);
    }
}

#[test]
fn round_success_in_time_needs_every_expected_answer() {
    assert!(all(Commit, 1).round_succeeded(false, Commit));
    assert!(!all(Commit, 1).round_succeeded(false, Abort));
    assert!(all(Abort, 1).round_succeeded(false, Abort));
    assert!(!all(Abort, 1).round_succeeded(false, Commit));
    let mixed = tally_of([Some(Commit), Some(Abort), Some(Commit)], 1);
    assert!(!mixed.round_succeeded(false, Commit));
    assert!(!mixed.round_succeeded(false, Abort));
    let partial = tally_of([Some(Commit), None, Some(Commit)], 1);
    assert!(!partial.round_succeeded(false, Commit));
}

#[test]
fn silence_during_prepare_fails_the_round() {
    let silent = ResponseTally::new();
    assert!(!silent.round_succeeded(true, Commit));
    assert!(!all(Commit, 1).round_succeeded(true, Commit));
}

#[test]
fn silence_during_abort_passes_the_round() {
    let silent = ResponseTally::new();
    assert!(silent.round_succeeded(true, Abort));
    assert!(tally_of([Some(Commit), None, None], 1).round_succeeded(true, Abort));
}

#[test]
fn frames_of_a_round() {
    let round = Round { phase: Phase::Prepare, transaction_id: 1, payment: record_one() };
    let frames = broadcast_frames(&round);
    assert_eq!(frames.len(), 3);
    assert_eq!(frames[0], [b'P', 1, 0, 0, 0, 10, 0, 0, 0, 0, 0, 0, 0]);
    assert_eq!(frames[1], [b'P', 1, 0, 0, 0, 20, 0, 0, 0, 1, 0, 0, 0]);
    assert_eq!(frames[2], [b'P', 1, 0, 0, 0, 30, 0, 0, 0, 2, 0, 0, 0]);
    let round = Round { phase: Phase::Abort, transaction_id: -2, payment: record_one() };
    let frames = broadcast_frames(&round);
    for (s, frame) in frames.iter().enumerate() {
        let message = Transaction::deserialize(*frame);
        assert_eq!(message.transaction_state, Abort);
        assert_eq!(message.transaction_id, -2);
        assert_eq!(message.amount, record_one().amount(s));
        assert_eq!(message.service, s as i32);
    }
}

#[test]
fn new_coordinator_is_idle() {
    let mut coordinator = TransactionCoordinator::new(3);
    assert_eq!(coordinator.id(), 3);
    assert_eq!(coordinator.logged(1), None);
    assert_eq!(coordinator.round_in_flight(), None);
    assert_eq!(coordinator.round_finished(false, &all(Commit, 1)), Step::Idle);
    assert_eq!(coordinator.logged(1), None);
}

#[test]
fn happy_path_commits() {
    let mut coordinator = TransactionCoordinator::new(4);
    let r = record_one();
    let round = coordinator.submit(1, r);
    assert_eq!(round, Round { phase: Phase::Prepare, transaction_id: 1, payment: r });
    assert_eq!(coordinator.logged(1), Some(Wait));
    assert_eq!(coordinator.round_in_flight(), Some(round));
    let step = coordinator.round_finished(false, &all(Commit, 1));
    let commit = Round { phase: Phase::Commit, transaction_id: 1, payment: r };
    assert_eq!(step, Step::Broadcast(commit));
    assert_eq!(coordinator.logged(1), Some(Commit));
    let step = coordinator.round_finished(false, &all(Commit, 1));
    assert_eq!(step, Step::Finished(true));
    assert_eq!(coordinator.logged(1), Some(Commit));
    assert_eq!(coordinator.round_in_flight(), None);
}

#[test]
fn vote_abort_fails_the_payment() {
    let mut coordinator = TransactionCoordinator::new(4);
    let r = record_one();
    coordinator.submit(1, r);
    let votes = tally_of([Some(Commit), Some(Abort), Some(Commit)], 1);
    let step = coordinator.round_finished(false, &votes);
    assert_eq!(
        step,
        Step::Broadcast(Round { phase: Phase::Abort, transaction_id: 1, payment: r })
    );
    assert_eq!(coordinator.logged(1), Some(Abort));
    let step = coordinator.round_finished(false, &all(Abort, 1));
    assert_eq!(step, Step::Finished(false));
    assert_eq!(coordinator.logged(1), Some(Abort));
}

#[test]
fn replayed_commit_keeps_the_log() {
    let mut coordinator = TransactionCoordinator::new(0);
    let r = record_one();
    coordinator.submit(5, r);
    coordinator.round_finished(false, &all(Commit, 5));
    assert_eq!(coordinator.round_finished(false, &all(Commit, 5)), Step::Finished(true));
    let round = coordinator.submit(5, r);
    assert_eq!(round.phase, Phase::Commit);
    assert_eq!(coordinator.logged(5), Some(Commit));
    assert_eq!(coordinator.round_finished(false, &all(Commit, 5)), Step::Finished(true));
    assert_eq!(coordinator.logged(5), Some(Commit));
    assert_eq!(coordinator.logged(4), None);
}

#[test]
fn replayed_commit_without_answers_is_false() {
    let mut coordinator = TransactionCoordinator::new(0);
    let r = record_one();
    coordinator.submit(5, r);
    coordinator.round_finished(false, &all(Commit, 5));
    coordinator.round_finished(false, &all(Commit, 5));
    coordinator.submit(5, r);
    assert_eq!(
        coordinator.round_finished(true, &ResponseTally::new()),
        Step::Finished(false)
    );
    assert_eq!(coordinator.logged(5), Some(Commit));
}

#[test]
fn replayed_abort_is_confirmed_as_false() {
    let mut coordinator = TransactionCoordinator::new(0);
    let r = record_one();
    coordinator.submit(2, r);
    coordinator.round_finished(false, &all(Abort, 2));
    assert_eq!(coordinator.round_finished(false, &all(Abort, 2)), Step::Finished(false));
    let round = coordinator.submit(2, r);
    assert_eq!(round.phase, Phase::Abort);
    assert_eq!(coordinator.round_finished(false, &all(Abort, 2)), Step::Finished(false));
    assert_eq!(coordinator.logged(2), Some(Abort));
    coordinator.submit(2, r);
    assert_eq!(
        coordinator.round_finished(false, &all(Commit, 2)),
        Step::Finished(true)
    );
    assert_eq!(coordinator.logged(2), Some(Abort));
}

#[test]
fn silent_stakeholders_abort() {
    let mut coordinator = TransactionCoordinator::new(1);
    let r = record_one();
    coordinator.submit(1, r);
    let step = coordinator.round_finished(true, &ResponseTally::new());
    assert_eq!(
        step,
        Step::Broadcast(Round { phase: Phase::Abort, transaction_id: 1, payment: r })
    );
    let step = coordinator.round_finished(true, &ResponseTally::new());
    assert_eq!(step, Step::Finished(false));
    assert_eq!(coordinator.logged(1), Some(Abort));
}

#[test]
fn interrupted_prepare_is_run_again() {
    let mut crashed = TransactionCoordinator::new(4);
    let r = Payment { line: 7, bank: 1, airline: 2, hotel: 3 };
    crashed.submit(7, r);
    assert_eq!(crashed.logged(7), Some(Wait));
    let round = crashed.submit(7, r);
    assert_eq!(round.phase, Phase::Prepare);
    assert_eq!(crashed.logged(7), Some(Wait));

    let mut successor = TransactionCoordinator::new(3);
    assert_eq!(successor.logged(7), None);
    let round = successor.submit(7, r);
    assert_eq!(round.phase, Phase::Prepare);
    successor.round_finished(false, &all(Commit, 7));
    assert_eq!(successor.round_finished(false, &all(Commit, 7)), Step::Finished(true));
}

#[test]
fn log_entries_only_move_forward() {
    let mut coordinator = TransactionCoordinator::new(0);
    let r = record_one();
    let outcomes = [
        (false, all(Commit, 1)),
        (false, all(Abort, 1)),
        (true, ResponseTally::new()),
        (false, tally_of([Some(Commit), None, Some(Abort)], 1)),
    ];
    coordinator.submit(1, r);
    coordinator.round_finished(false, &all(Commit, 1));
    coordinator.round_finished(false, &all(Commit, 1));
    coordinator.submit(2, r);
    coordinator.round_finished(true, &ResponseTally::new());
    coordinator.round_finished(true, &ResponseTally::new());
    for (timed_out, tally) in outcomes.iter() {
        for t in [1, 2] {
            coordinator.submit(t, r);
            coordinator.round_finished(*timed_out, tally);
            coordinator.round_finished(*timed_out, tally);
            assert_eq!(coordinator.logged(1), Some(Commit));
            assert_eq!(coordinator.logged(2), Some(Abort));
        }
    }
}
