//! What holds of the election whatever the network does.
use vstd::prelude::*;
use crate::election::{
    election_begun, election_concluded, election_message, election_starts, heard, higher_peers,
    is_challenge, other_peers, reacted, reaction_fits, sender_of, ElectionState, Reaction,
    TAG_COORDINATOR, TAG_ELECTION, TAG_OK, TEAM_MEMBERS,
};
use crate::wire::{lemma_u64_round_trip, u64_le_bytes};

verus! {

/// An election message has nine bytes, begins with its tag and names its
/// sender.
pub proof fn lemma_message_names_sender(header: u8, id: usize)
    ensures
        election_message(header, id).len() == 9,
        election_message(header, id)[0] == header,
        sender_of(election_message(header, id)) == id,
{
    lemma_u64_round_trip(id as u64);
    assert(election_message(header, id).subrange(1, 9) =~= u64_le_bytes(id as u64));
}

/// The challenge goes to exactly the peers that outrank the challenger, and
/// the announcement to exactly the other peers.
pub proof fn lemma_targets(id: usize, peer: usize)
    requires
        id < TEAM_MEMBERS,
    ensures
        higher_peers(id).contains(peer) <==> id < peer < TEAM_MEMBERS,
        other_peers(id).contains(peer) <==> peer < TEAM_MEMBERS && peer != id,
{
    if id < peer < TEAM_MEMBERS {
        assert(higher_peers(id)[peer - id - 1] == peer);
    }
    if peer < TEAM_MEMBERS && peer != id {
        if peer < id {
            assert(other_peers(id)[peer as int] == peer);
        } else {
            assert(other_peers(id)[peer - 1] == peer);
        }
    }
}

/// A peer whose challenge nobody answers leads when its wait is over.
pub proof fn lemma_unanswered_challenger_leads(s: ElectionState)
    requires
        election_starts(s),
    ensures
        election_begun(s).leader is None,
        election_concluded(election_begun(s)).leader == Some(s.id),
{
}

/// The peer with the highest number answers the election of any other peer,
/// has nobody to challenge in the election that this calls for, and, as
/// nobody can answer it, announces itself to all four others and leads.
pub proof fn lemma_highest_peer(s: ElectionState, challenger: usize, reaction: Reaction)
    requires
        s.id == TEAM_MEMBERS - 1,
        election_starts(s),
        challenger < TEAM_MEMBERS,
        challenger != s.id,
        reaction_fits(s, election_message(TAG_ELECTION, challenger), reaction),
    ensures
        ({
            &&& reaction matches Reaction::Challenged { to, reply, election }
            &&& to == challenger
            &&& reply@ == election_message(TAG_OK, s.id)
            &&& election matches Some(challenge)
            &&& challenge.targets@.len() == 0
        }),
        higher_peers(s.id).len() == 0,
        other_peers(s.id) == seq![0usize, 1usize, 2usize, 3usize],
        election_concluded(reacted(s, election_message(TAG_ELECTION, challenger))).leader == Some(
            s.id,
        ),
{
    lemma_message_names_sender(TAG_ELECTION, challenger);
    assert(other_peers(s.id) =~= seq![0usize, 1usize, 2usize, 3usize]);
}

/// A live peer answers the challenge of every peer that it outranks, and a
/// challenger that hears the answer does not make itself the leader. So of
/// two live peers that hear each other, the lower never announces itself.
pub proof fn lemma_outranked_peer_yields(
    low: ElectionState,
    high: ElectionState,
    reaction: Reaction,
)
    requires
        low.id < high.id,
        !low.stop,
        !high.stop,
        reaction_fits(high, election_message(TAG_ELECTION, low.id), reaction),
    ensures
        reaction matches Reaction::Challenged { to, reply, election } && to == low.id && reply@
            == election_message(TAG_OK, high.id),
        reacted(low, election_message(TAG_OK, high.id)).got_ok,
        election_concluded(reacted(low, election_message(TAG_OK, high.id))) == reacted(
            low,
            election_message(TAG_OK, high.id),
        ),
{
    lemma_message_names_sender(TAG_ELECTION, low.id);
    lemma_message_names_sender(TAG_OK, high.id);
}

/// Every live peer that hears an announcement holds the announcer as its
/// leader afterwards, whatever it held before: all who hear it agree.
pub proof fn lemma_announcement_adopted(s: ElectionState, leader: usize)
    requires
        !s.stop,
    ensures
        heard(s, election_message(TAG_COORDINATOR, leader)),
        reacted(s, election_message(TAG_COORDINATOR, leader)).leader == Some(leader),
{
    lemma_message_names_sender(TAG_COORDINATOR, leader);
}

/// A leader that a lower peer challenges answers, runs an election of its
/// own, and, unless a higher peer answers that, leads again: the leader is
/// the same before and after.
pub proof fn lemma_challenged_leader_stays(s: ElectionState, challenger: usize, reaction: Reaction)
    requires
        s.id < TEAM_MEMBERS,
        s.leader == Some(s.id),
        !s.stop,
        challenger < s.id,
        reaction_fits(s, election_message(TAG_ELECTION, challenger), reaction),
    ensures
        ({
            &&& reaction matches Reaction::Challenged { to, reply, election }
            &&& to == challenger
            &&& reply@ == election_message(TAG_OK, s.id)
            &&& election matches Some(challenge)
            &&& is_challenge(challenge, s.id)
        }),
        reacted(s, election_message(TAG_ELECTION, challenger)).leader is None,
        election_concluded(reacted(s, election_message(TAG_ELECTION, challenger))).leader
            == s.leader,
{
    lemma_message_names_sender(TAG_ELECTION, challenger);
}

/// One election, seen from any live peer, when `highest` is the highest
/// live peer and every message between live peers arrives. Whatever leader
/// the peer held before, and be it the peer itself: the highest peer hears no
/// answer and leads; every other peer hears the answer of a live peer above
/// it, does not announce itself, and takes the highest peer for its leader
/// when the announcement arrives. So all live peers agree on one leader.
pub proof fn lemma_election_agrees(s: ElectionState, highest: usize, answering: usize)
    requires
        s.id <= highest < TEAM_MEMBERS,
        election_starts(s),
        s.id < highest ==> s.id < answering <= highest,
    ensures
        s.id == highest ==> election_concluded(election_begun(s)).leader == Some(highest),
        s.id < highest ==> ({
            let answered = reacted(election_begun(s), election_message(TAG_OK, answering));
            let waiting = election_concluded(answered);
            &&& higher_peers(s.id).contains(answering)
            &&& other_peers(highest).contains(s.id)
            &&& waiting.leader is None
            &&& reacted(waiting, election_message(TAG_COORDINATOR, highest)).leader == Some(
                highest,
            )
        }),
{
    lemma_message_names_sender(TAG_OK, answering);
    lemma_message_names_sender(TAG_COORDINATOR, highest);
    if s.id < highest {
        lemma_targets(s.id, answering);
        lemma_targets(highest, s.id);
    }
}

/// A peer loses its leader only by an election: the end of a wait never
/// takes a leader away, and of all datagrams only the election of a lower
/// peer does, by the election that it calls for.
pub proof fn lemma_leader_lost_only_by_election(s: ElectionState, datagram: Seq<u8>)
    requires
        s.leader is Some,
    ensures
        election_concluded(s).leader is Some,
        reacted(s, datagram).leader is None ==> election_starts(s) && datagram[0] == TAG_ELECTION
            && sender_of(datagram) < s.id && reacted(s, datagram) == election_begun(s),
{
}

} // verus!
