//! The message that the coordinator and a stakeholder exchange, and its
//! thirteen bytes on the wire.
use vstd::prelude::*;
use vstd::pervasive::unreached;
use crate::wire::{
    decode_i32_le, encode_i32_le, i32_from_le_bytes, i32_le_bytes, lemma_i32_le_bytes_unique,
    lemma_i32_le_round_trip,
};

verus! {

/// The tag byte of a prepare message, the letter `P`.
pub const TAG_PREPARE: u8 = 0x50;

/// The tag byte of a commit message, the letter `C`.
pub const TAG_COMMIT: u8 = 0x43;

/// The tag byte of an abort message, the letter `A`.
pub const TAG_ABORT: u8 = 0x41;

/// The length of a transaction message on the wire.
pub const FRAME_LEN: usize = 13;

/// Every state that a transaction can be in, at the coordinator, on the wire
/// or at a stakeholder.
#[derive(Copy, Clone, Debug, PartialEq, Eq, Hash, Structural)]
pub enum TransactionState {
    Accepted,
    Commit,
    Abort,
    Prepare,
    Wait,
}

/// What the coordinator sends to a stakeholder and what the stakeholder
/// answers: a state, the transaction it is about, an amount, and the number
/// of the stakeholder.
#[derive(Copy, Clone, Debug, PartialEq, Eq, Structural)]
pub struct Transaction {
    pub transaction_state: TransactionState,
    pub transaction_id: i32,
    pub amount: i32,
    pub service: i32,
}

/// The tag byte that stands for `state` on the wire. Only prepare, commit and
/// abort travel.
pub open spec fn tag_of(state: TransactionState) -> Option<u8> {
    match state {
        TransactionState::Prepare => Some(TAG_PREPARE),
        TransactionState::Commit => Some(TAG_COMMIT),
        TransactionState::Abort => Some(TAG_ABORT),
        _ => None,
    }
}

/// The state that the tag byte `tag` stands for, if it is one of the three.
pub open spec fn state_of(tag: u8) -> Option<TransactionState> {
    if tag == TAG_PREPARE {
        Some(TransactionState::Prepare)
    } else if tag == TAG_COMMIT {
        Some(TransactionState::Commit)
    } else if tag == TAG_ABORT {
        Some(TransactionState::Abort)
    } else {
        None
    }
}

/// The thirteen bytes of `v`: the tag, then the transaction's number, the
/// amount and the stakeholder's number, each in four little-endian bytes.
pub open spec fn frame_of(v: Transaction) -> Seq<u8>
    recommends
        tag_of(v.transaction_state) is Some,
{
    seq![tag_of(v.transaction_state).unwrap()] + i32_le_bytes(v.transaction_id) + i32_le_bytes(
        v.amount,
    ) + i32_le_bytes(v.service)
}

/// The message that the thirteen bytes `buf` spell.
pub open spec fn parsed(buf: Seq<u8>) -> Transaction
    recommends
        buf.len() == 13,
        state_of(buf[0]) is Some,
{
    Transaction {
        transaction_state: state_of(buf[0]).unwrap(),
        transaction_id: i32_from_le_bytes(buf.subrange(1, 5)),
        amount: i32_from_le_bytes(buf.subrange(5, 9)),
        service: i32_from_le_bytes(buf.subrange(9, 13)),
    }
}

impl TransactionState {
    /// The tag byte of this state, or `None` for a state that never travels.
    pub fn tag(self) -> (tag: Option<u8>)
        ensures
            tag == tag_of(self),
    {
        match self {
            TransactionState::Prepare => Some(TAG_PREPARE),
            TransactionState::Commit => Some(TAG_COMMIT),
            TransactionState::Abort => Some(TAG_ABORT),
            _ => None,
        }
    }

    /// The state that a tag byte stands for, or `None` for any other byte.
    pub fn from_tag(tag: u8) -> (state: Option<TransactionState>)
        ensures
            state == state_of(tag),
    {
        if tag == TAG_PREPARE {
            Some(TransactionState::Prepare)
        } else if tag == TAG_COMMIT {
            Some(TransactionState::Commit)
        } else if tag == TAG_ABORT {
            Some(TransactionState::Abort)
        } else {
            None
        }
    }
}

impl Transaction {
    /// Turns the message into the bytes that go through a socket. The state
    /// has to be one that travels: prepare, commit or abort.
    pub fn serialize(&mut self) -> (bytes: [u8; 13])
        requires
            tag_of(old(self).transaction_state) is Some,
        ensures
            bytes@ == frame_of(*old(self)),
            *final(self) == *old(self),
    {
        let tag: u8 = match self.transaction_state.tag() {
            Some(tag) => tag,
            None => unreached(),
        };
        let id: [u8; 4] = encode_i32_le(self.transaction_id);
        let amount: [u8; 4] = encode_i32_le(self.amount);
        let service: [u8; 4] = encode_i32_le(self.service);
        let bytes: [u8; 13] = [
            tag,
            id[0],
            id[1],
            id[2],
            id[3],
            amount[0],
            amount[1],
            amount[2],
            amount[3],
            service[0],
            service[1],
            service[2],
            service[3],
        ];
        assert(bytes@ =~= frame_of(*self));
        bytes
    }

    /// Reads a message from thirteen bytes whose first is one of the three
    /// tags.
    pub fn deserialize(buf: [u8; 13]) -> (v: Transaction)
        requires
            state_of(buf@[0]) is Some,
        ensures
            v == parsed(buf@),
    {
        match Transaction::try_deserialize(&buf) {
            Some(v) => v,
            None => unreached(),
        }
    }

    /// Reads a message from thirteen bytes, or returns `None` where the first
    /// byte is none of the three tags.
    pub fn try_deserialize(buf: &[u8; 13]) -> (v: Option<Transaction>)
        ensures
            state_of(buf@[0]) is None ==> v is None,
            state_of(buf@[0]) is Some ==> v == Some(parsed(buf@)),
    {
        match TransactionState::from_tag(buf[0]) {
            None => None,
            Some(transaction_state) => {
                let id: [u8; 4] = [buf[1], buf[2], buf[3], buf[4]];
                let amount: [u8; 4] = [buf[5], buf[6], buf[7], buf[8]];
                let service: [u8; 4] = [buf[9], buf[10], buf[11], buf[12]];
                assert(buf@.subrange(1, 5) =~= id@);
                assert(buf@.subrange(5, 9) =~= amount@);
                assert(buf@.subrange(9, 13) =~= service@);
                Some(
                    Transaction {
                        transaction_state,
                        transaction_id: decode_i32_le(&id),
                        amount: decode_i32_le(&amount),
                        service: decode_i32_le(&service),
                    },
                )
            },
        }
    }
}

/// A message whose state travels comes back unchanged from its own bytes,
/// which are thirteen and begin with one of the three tags.
pub proof fn lemma_wire_round_trip(v: Transaction)
    requires
        tag_of(v.transaction_state) is Some,
    ensures
        frame_of(v).len() == 13,
        state_of(frame_of(v)[0]) == Some(v.transaction_state),
        parsed(frame_of(v)) == v,
{
    let f = frame_of(v);
    lemma_i32_le_round_trip(v.transaction_id);
    lemma_i32_le_round_trip(v.amount);
    lemma_i32_le_round_trip(v.service);
    assert(f.subrange(1, 5) =~= i32_le_bytes(v.transaction_id));
    assert(f.subrange(5, 9) =~= i32_le_bytes(v.amount));
    assert(f.subrange(9, 13) =~= i32_le_bytes(v.service));
}

/// Thirteen bytes that begin with one of the three tags are the bytes of the
/// message that they spell: no two frames spell the same message.
pub proof fn lemma_frame_unique(buf: Seq<u8>)
    requires
        buf.len() == 13,
        state_of(buf[0]) is Some,
    ensures
        tag_of(parsed(buf).transaction_state) is Some,
        frame_of(parsed(buf)) == buf,
{
    lemma_i32_le_bytes_unique(buf.subrange(1, 5));
    lemma_i32_le_bytes_unique(buf.subrange(5, 9));
    lemma_i32_le_bytes_unique(buf.subrange(9, 13));
    assert(frame_of(parsed(buf)) =~= buf);
}

} // verus!
