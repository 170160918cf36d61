use alglobo::transaction::{
    Transaction, TransactionState, FRAME_LEN, TAG_ABORT, TAG_COMMIT, TAG_PREPARE,
};

fn sample(state: TransactionState) -> Transaction {
    Transaction { transaction_state: state, transaction_id: 1, amount: 10, service: 0 }
}

#[test]
fn tags_are_the_three_letters() {
    assert_eq!(TAG_PREPARE, b'P');
    assert_eq!(TAG_COMMIT, b'C');
    assert_eq!(TAG_ABORT, b'A');
    assert_eq!(FRAME_LEN, 13);
    assert_eq!(TransactionState::Prepare.tag(), Some(b'P'));
    assert_eq!(TransactionState::Commit.tag(), Some(b'C'));
    assert_eq!(TransactionState::Abort.tag(), Some(b'A'));
    assert_eq!(TransactionState::Wait.tag(), None);
    assert_eq!(TransactionState::Accepted.tag(), None);
    assert_eq!(TransactionState::from_tag(b'P'), Some(TransactionState::Prepare));
    assert_eq!(TransactionState::from_tag(b'C'), Some(TransactionState::Commit));
    assert_eq!(TransactionState::from_tag(b'A'), Some(TransactionState::Abort));
    assert_eq!(TransactionState::from_tag(b'W'), None);
    assert_eq!(TransactionState::from_tag(0), None);
}

#[test]
fn serialize_lays_out_thirteen_bytes() {
    let mut v = sample(TransactionState::Prepare);
    assert_eq!(v.serialize(), [0x50, 1, 0, 0, 0, 10, 0, 0, 0, 0, 0, 0, 0]);
    assert_eq!(v, sample(TransactionState::Prepare));

    let mut v = Transaction {
        transaction_state: TransactionState::Abort,
        transaction_id: 0x0102_0304,
        amount: -1,
        service: 2,
    };
    assert_eq!(
        v.serialize(),
        [0x41, 4, 3, 2, 1, 0xff, 0xff, 0xff, 0xff, 2, 0, 0, 0]
    );
}

#[test]
fn deserialize_reads_thirteen_bytes() {
    let v = Transaction::deserialize([0x43, 7, 0, 0, 0, 0x2c, 1, 0, 0, 1, 0, 0, 0]);
    assert_eq!(
        v,
        Transaction {
            transaction_state: TransactionState::Commit,
            transaction_id: 7,
            amount: 300,
            service: 1,
        }
    );
}

#[test]
fn wire_round_trip() {
    let states = [TransactionState::Prepare, TransactionState::Commit, TransactionState::Abort];
    let numbers = [0, 1, -1, 30, i32::MAX, i32::MIN];
    for state in states {
        for id in numbers {
            for amount in numbers {
                for service in [0, 1, 2, -5] {
                    let v = Transaction {
                        transaction_state: state,
                        transaction_id: id,
                        amount,
                        service,
                    };
                    let mut w = v;
                    let bytes = w.serialize();
                    assert_eq!(Transaction::deserialize(bytes), v);
                    assert_eq!(Transaction::try_deserialize(&bytes), Some(v));
                }
            }
        }
    }
}

#[test]
fn unknown_tag_is_no_message() {
    assert_eq!(Transaction::try_deserialize(&[0; 13]), None);
    assert_eq!(
        Transaction::try_deserialize(&[b'E', 1, 0, 0, 0, 0, 0, 0, 0, 0, 0, 0, 0]),
        None
    );
    assert_eq!(
        Transaction::try_deserialize(&[b'p', 1, 0, 0, 0, 0, 0, 0, 0, 0, 0, 0, 0]),
        None
    );
}
