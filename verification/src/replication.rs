//! The leader's progress on the data channel: the index of the last record
//! that it has submitted, in eight big-endian bytes.
use vstd::prelude::*;
use crate::text::{decimal, digit};
use crate::wire::{decode_u64_be, encode_u64_be, lemma_u64_round_trip, u64_be_bytes, u64_from_be_bytes};

verus! {

/// The length of a progress message.
pub const PROGRESS_LEN: usize = 8;

/// The port of peer 0 on the data channel. Peer `id` listens on this port
/// plus `id`.
pub const DATA_PORT_BASE: u16 = 12350;

/// The peer that sends from data port `port`: the port's last decimal digit.
pub open spec fn peer_of_port(port: u16) -> usize {
    (port % 10) as usize
}

/// The progress message for `last_record`.
pub fn encode_progress(last_record: u64) -> (payload: [u8; 8])
    ensures
        payload@ == u64_be_bytes(last_record),
{
    encode_u64_be(last_record)
}

/// The record index that a progress message carries.
pub fn decode_progress(payload: &[u8; 8]) -> (last_record: u64)
    ensures
        last_record == u64_from_be_bytes(payload@),
{
    decode_u64_be(payload)
}

/// The peer that sent a datagram from data port `port`.
pub fn leader_from_port(port: u16) -> (leader: usize)
    ensures
        leader == peer_of_port(port),
{
    (port % 10) as usize
}

/// A follower reads from a progress message the index that the leader wrote.
pub proof fn lemma_progress_round_trip(last_record: u64)
    ensures
        u64_be_bytes(last_record).len() == PROGRESS_LEN,
        u64_from_be_bytes(u64_be_bytes(last_record)) == last_record,
{
    lemma_u64_round_trip(last_record);
}

/// The peer of a port is the digit that the port's decimal text ends in, and
/// for the data port of a peer it is that peer.
pub proof fn lemma_port_names_peer(port: u16, id: usize)
    ensures
        decimal(port as nat).last() == digit(peer_of_port(port) as int),
        id < 10 ==> peer_of_port((DATA_PORT_BASE + id) as u16) == id,
{
}

} // verus!
