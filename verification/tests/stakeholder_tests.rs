use alglobo::stakeholder::{Stakeholder, COMMIT_CHANCES, COMMIT_CHANCES_OUT_OF};
use alglobo::transaction::{Transaction, TransactionState};

use TransactionState::{Abort, Accepted, Commit, Prepare, Wait};

fn request(state: TransactionState, t: i32) -> Transaction {
    Transaction { transaction_state: state, transaction_id: t, amount: 25, service: 1 }
}

fn answer(state: TransactionState, t: i32, service: i32) -> Option<Transaction> {
    Some(Transaction { transaction_state: state, transaction_id: t, amount: 0, service })
}

#[test]
fn first_vote_follows_the_draw() {
    let mut bank = Stakeholder::new(0);
    assert_eq!(bank.answer_with(&request(Prepare, 1), true), answer(Commit, 1, 0));
    assert_eq!(bank.answer_with(&request(Prepare, 2), false), answer(Abort, 2, 0));
}

#[test]
fn later_votes_repeat_the_first() {
    let mut hotel = Stakeholder::new(2);
    assert!(hotel.takes_fresh_vote(&request(Prepare, 1)));
    assert_eq!(hotel.answer_with(&request(Prepare, 1), true), answer(Commit, 1, 2));
    assert!(!hotel.takes_fresh_vote(&request(Prepare, 1)));
    assert_eq!(hotel.answer_with(&request(Prepare, 1), false), answer(Commit, 1, 2));
    assert_eq!(hotel.answer_with(&request(Prepare, 2), false), answer(Abort, 2, 2));
    assert_eq!(hotel.answer_with(&request(Prepare, 2), true), answer(Abort, 2, 2));
}

#[test]
fn decisions_are_acknowledged_and_remembered() {
    let mut airline = Stakeholder::new(1);
    assert!(!airline.takes_fresh_vote(&request(Commit, 1)));
    assert_eq!(airline.answer_with(&request(Commit, 1), false), answer(Commit, 1, 1));
    assert_eq!(airline.answer_with(&request(Prepare, 1), false), answer(Commit, 1, 1));
    assert_eq!(airline.answer_with(&request(Abort, 2), true), answer(Abort, 2, 1));
    assert_eq!(airline.answer_with(&request(Prepare, 2), true), answer(Abort, 2, 1));
}

#[test]
fn other_states_get_no_answer() {
    let mut bank = Stakeholder::new(0);
    assert_eq!(bank.answer_with(&request(Wait, 1), true), None);
    assert_eq!(bank.answer_with(&request(Accepted, 1), true), None);
    assert!(bank.takes_fresh_vote(&request(Prepare, 1)));
    assert_eq!(bank.answer(&request(Wait, 1)), None);
}

#[test]
fn drawn_votes_are_votes_and_are_kept() {
    assert_eq!((COMMIT_CHANCES, COMMIT_CHANCES_OUT_OF), (3, 4));
    let mut bank = Stakeholder::new(0);
    let mut commits = 0;
    for t in 0..400 {
        let first = bank.answer(&request(Prepare, t)).expect("a prepare is answered");
        assert!(first == answer(Commit, t, 0).unwrap() || first == answer(Abort, t, 0).unwrap());
        for _ in 0..3 {
            assert_eq!(bank.answer(&request(Prepare, t)), Some(first));
        }
        if first.transaction_state == Commit {
            commits += 1;
        }
    }
    assert!(commits > 0);
    assert!(commits < 400);
    assert_eq!(bank.answer(&request(Commit, 1000)), answer(Commit, 1000, 0));
    assert_eq!(bank.answer(&request(Abort, 1001)), answer(Abort, 1001, 0));
}
