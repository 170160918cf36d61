//! Leader election among the peers, after the bully algorithm: the live peer
//! with the highest number leads.
//!
//! The peer's election state and every decision on it are here. The program
//! around it owns the control socket, sends what this module hands out, and
//! waits where the protocol waits.
use vstd::prelude::*;
use crate::wire::{decode_u64_le, encode_u64_le, u64_from_le_bytes, u64_le_bytes};

verus! {

/// The number of peers.
pub const TEAM_MEMBERS: usize = 5;

/// The seconds that a peer waits for an answer to its challenge, and that a
/// follower waits for the leader's progress.
pub const ELECTION_TIMEOUT_SECS: u64 = 20;

/// The tag byte of an election message, the letter `E`: the sender starts an
/// election.
pub const TAG_ELECTION: u8 = 0x45;

/// The tag byte of an OK message, the letter `O`: the sender outranks the
/// receiver.
pub const TAG_OK: u8 = 0x4f;

/// The tag byte of a coordinator message, the letter `C`: the sender leads.
pub const TAG_COORDINATOR: u8 = 0x43;

/// The length of an election message: the tag and the sender's number in
/// eight bytes. The width is eight on every target.
pub const ELECTION_MESSAGE_LEN: usize = 9;

/// What a peer knows of the election.
pub struct ElectionState {
    /// The peer's own number.
    pub id: usize,
    /// The leader, or `None` while an election runs. `TEAM_MEMBERS` stands
    /// for a leader that exists and has not been identified yet.
    pub leader: Option<usize>,
    /// Whether a higher peer has answered this peer's challenge.
    pub got_ok: bool,
    /// Whether the peer is shutting down.
    pub stop: bool,
}

/// The election message with tag `header` from peer `id`.
pub open spec fn election_message(header: u8, id: usize) -> Seq<u8> {
    seq![header] + u64_le_bytes(id as u64)
}

/// The number of the peer that sent `datagram`.
pub open spec fn sender_of(datagram: Seq<u8>) -> u64
    recommends
        datagram.len() == ELECTION_MESSAGE_LEN,
{
    u64_from_le_bytes(datagram.subrange(1, 9))
}

/// The peers that outrank peer `id`, in rising order.
pub open spec fn higher_peers(id: usize) -> Seq<usize>
    recommends
        id < TEAM_MEMBERS,
{
    Seq::new((TEAM_MEMBERS - 1 - id) as nat, |i: int| (id + 1 + i) as usize)
}

/// Every peer but peer `id`, in rising order.
pub open spec fn other_peers(id: usize) -> Seq<usize>
    recommends
        id < TEAM_MEMBERS,
{
    Seq::new(
        (TEAM_MEMBERS - 1) as nat,
        |i: int|
            if i < id {
                i as usize
            } else {
                (i + 1) as usize
            },
    )
}

/// Whether a call for a new election starts one: not while the peer shuts
/// down, and not while an election already runs.
pub open spec fn election_starts(s: ElectionState) -> bool {
    !s.stop && s.leader is Some
}

/// The peer after a call for a new election: where one starts, the leader is
/// unknown and no answer has come yet.
pub open spec fn election_begun(s: ElectionState) -> ElectionState {
    if election_starts(s) {
        ElectionState { leader: None, got_ok: false, ..s }
    } else {
        s
    }
}

/// The peer once the wait for an answer is over: without an answer it leads.
pub open spec fn election_concluded(s: ElectionState) -> ElectionState {
    if s.got_ok {
        s
    } else {
        ElectionState { leader: Some(s.id), ..s }
    }
}

/// Whether `datagram` reaches the peer's decisions: not while the peer shuts
/// down, and not with a sender's number that no peer can have here.
pub open spec fn heard(s: ElectionState, datagram: Seq<u8>) -> bool {
    !s.stop && sender_of(datagram) <= usize::MAX
}

/// The peer after `datagram` has come in: an OK is noted, the election of a
/// lower peer calls for one of this peer's own, a coordinator message names
/// the leader, anything else changes nothing.
pub open spec fn reacted(s: ElectionState, datagram: Seq<u8>) -> ElectionState
    recommends
        datagram.len() == ELECTION_MESSAGE_LEN,
{
    if !heard(s, datagram) {
        s
    } else if datagram[0] == TAG_OK {
        ElectionState { got_ok: true, ..s }
    } else if datagram[0] == TAG_ELECTION && sender_of(datagram) < s.id {
        election_begun(s)
    } else if datagram[0] == TAG_COORDINATOR {
        ElectionState { leader: Some(sender_of(datagram) as usize), ..s }
    } else {
        s
    }
}

/// A message and the peers that it goes to, in that order.
#[derive(Debug)]
pub struct Broadcast {
    pub message: Vec<u8>,
    pub targets: Vec<usize>,
}

/// Whether `broadcast` is the challenge of peer `id`: an election message
/// for every peer that outranks it.
pub open spec fn is_challenge(broadcast: Broadcast, id: usize) -> bool {
    &&& broadcast.message@ == election_message(TAG_ELECTION, id)
    &&& broadcast.targets@ == higher_peers(id)
}

/// Whether `broadcast` is the announcement of peer `id`: a coordinator
/// message for every other peer.
pub open spec fn is_announcement(broadcast: Broadcast, id: usize) -> bool {
    &&& broadcast.message@ == election_message(TAG_COORDINATOR, id)
    &&& broadcast.targets@ == other_peers(id)
}

/// What the responder has to do about a datagram.
#[derive(Debug)]
pub enum Reaction {
    /// The peer shuts down: the datagram is dropped and the responder ends.
    Stopped,
    /// A higher peer answered the challenge: wake who waits for that.
    OkReceived,
    /// A lower peer starts an election: send `reply` to it. With that an
    /// election of this peer's own was called for: where it starts,
    /// `election` is its challenge, to be sent and waited on as after
    /// `find_new`.
    Challenged { to: usize, reply: Vec<u8>, election: Option<Broadcast> },
    /// A peer announced that it leads: wake who waits for the leader.
    LeaderAnnounced { leader: usize },
    /// Nothing to do.
    Ignored,
}

/// Whether `reaction` is the one that `datagram` calls for at a peer in
/// state `s`.
pub open spec fn reaction_fits(s: ElectionState, datagram: Seq<u8>, reaction: Reaction) -> bool
    recommends
        datagram.len() == ELECTION_MESSAGE_LEN,
{
    let sender = sender_of(datagram);
    if s.stop {
        reaction is Stopped
    } else if sender > usize::MAX {
        reaction is Ignored
    } else if datagram[0] == TAG_OK {
        reaction is OkReceived
    } else if datagram[0] == TAG_ELECTION && sender < s.id {
        &&& reaction matches Reaction::Challenged { to, reply, election }
        &&& to == sender
        &&& reply@ == election_message(TAG_OK, s.id)
        &&& election is Some == election_starts(s)
        &&& election matches Some(challenge) ==> is_challenge(challenge, s.id)
    } else if datagram[0] == TAG_COORDINATOR {
        reaction == (Reaction::LeaderAnnounced { leader: sender as usize })
    } else {
        reaction is Ignored
    }
}

/// Every peer but peer `id`, in rising order: who hears an announcement, and
/// who hears the leader's progress.
pub fn peers_except(id: usize) -> (targets: Vec<usize>)
    requires
        id < TEAM_MEMBERS,
    ensures
        targets@ == other_peers(id),
{
    let mut targets: Vec<usize> = Vec::new();
    let mut peer: usize = 0;
    while peer < TEAM_MEMBERS
        invariant
            peer <= TEAM_MEMBERS,
            id < TEAM_MEMBERS,
            targets@ == Seq::new(
                (if peer <= id {
                    peer as int
                } else {
                    peer - 1
                }) as nat,
                |i: int|
                    if i < id {
                        i as usize
                    } else {
                        (i + 1) as usize
                    },
            ),
        decreases TEAM_MEMBERS - peer,
    {
        if peer != id {
            targets.push(peer);
        }
        peer += 1;
        assert(targets@ =~= Seq::new(
            (if peer <= id {
                peer as int
            } else {
                peer - 1
            }) as nat,
            |i: int|
                if i < id {
                    i as usize
                } else {
                    (i + 1) as usize
                },
        ));
    }
    targets
}

/// A peer's part in the election.
pub struct LeaderElection {
    id: usize,
    leader_id: Option<usize>,
    got_ok: bool,
    stop: bool,
}

impl View for LeaderElection {
    type V = ElectionState;

    closed spec fn view(&self) -> ElectionState {
        ElectionState {
            id: self.id,
            leader: self.leader_id,
            got_ok: self.got_ok,
            stop: self.stop,
        }
    }
}

impl LeaderElection {
    /// A peer's number is below the number of peers.
    pub open spec fn wf(&self) -> bool {
        self@.id < TEAM_MEMBERS
    }

    /// The election state of peer `id` at its start: a leader exists and is
    /// not identified yet.
    pub fn new(id: usize) -> (election: LeaderElection)
        requires
            id < TEAM_MEMBERS,
        ensures
            election.wf(),
            election@ == (ElectionState {
                id,
                leader: Some(TEAM_MEMBERS),
                got_ok: false,
                stop: false,
            }),
    {
        LeaderElection { id, leader_id: Some(TEAM_MEMBERS), got_ok: false, stop: false }
    }

    /// The peer's own number.
    pub fn id(&self) -> (id: usize)
        ensures
            id == self@.id,
    {
        self.id
    }

    /// Whether a leader is known. While none is, an election runs, and who
    /// asks for the leader has to wait.
    pub fn is_leader_known(&self) -> (known: bool)
        ensures
            known == self@.leader is Some,
    {
        self.leader_id.is_some()
    }

    /// Whether a higher peer has answered this peer's challenge.
    pub fn has_ok(&self) -> (got_ok: bool)
        ensures
            got_ok == self@.got_ok,
    {
        self.got_ok
    }

    /// Whether the peer is shutting down.
    pub fn is_stopping(&self) -> (stop: bool)
        ensures
            stop == self@.stop,
    {
        self.stop
    }

    /// Whether this peer leads. To be asked once a leader is known.
    pub fn am_i_leader(&self) -> (leads: bool)
        requires
            self@.leader is Some,
        ensures
            leads == (self@.leader == Some(self@.id)),
    {
        self.get_leader_id() == self.id
    }

    /// The leader's number, or `TEAM_MEMBERS` for a leader that is not
    /// identified yet. To be asked once a leader is known.
    pub fn get_leader_id(&self) -> (leader: usize)
        requires
            self@.leader is Some,
        ensures
            Some(leader) == self@.leader,
    {
        match self.leader_id {
            Some(leader) => leader,
            None => vstd::pervasive::unreached(),
        }
    }

    /// Names the leader from outside the election.
    pub fn set_leader(&mut self, id: usize)
        ensures
            final(self)@ == (ElectionState { leader: Some(id), ..old(self)@ }),
    {
        self.leader_id = Some(id);
    }

    /// Asks the responder to end.
    pub fn stop(&mut self)
        ensures
            final(self)@ == (ElectionState { stop: true, ..old(self)@ }),
    {
        self.stop = true;
    }

    /// The responder has ended: the request to stop is taken back, which
    /// tells who asked.
    pub fn acknowledge_stop(&mut self)
        ensures
            final(self)@ == (ElectionState { stop: false, ..old(self)@ }),
    {
        self.stop = false;
    }

    /// The election message with tag `header` from this peer.
    pub fn id_to_msg(&self, header: u8) -> (msg: Vec<u8>)
        ensures
            msg@ == election_message(header, self@.id),
    {
        let number: [u8; 8] = encode_u64_le(self.id as u64);
        let mut msg: Vec<u8> = Vec::new();
        msg.push(header);
        let mut i: usize = 0;
        while i < 8
            invariant
                i <= 8,
                number@.len() == 8,
                msg@ == seq![header] + number@.subrange(0, i as int),
            decreases 8 - i,
        {
            msg.push(number[i]);
            assert(msg@ =~= seq![header] + number@.subrange(0, i + 1));
            i += 1;
        }
        assert(number@.subrange(0, 8) =~= number@);
        msg
    }

    /// The challenge of an election: an election message for every peer that
    /// outranks this one.
    pub fn send_election(&self) -> (challenge: Broadcast)
        requires
            self.wf(),
        ensures
            is_challenge(challenge, self@.id),
    {
        let message: Vec<u8> = self.id_to_msg(TAG_ELECTION);
        let mut targets: Vec<usize> = Vec::new();
        let mut peer: usize = self.id + 1;
        while peer < TEAM_MEMBERS
            invariant
                self.id < peer <= TEAM_MEMBERS,
                targets@ == Seq::new(
                    (peer - 1 - self.id) as nat,
                    |i: int| (self.id + 1 + i) as usize,
                ),
            decreases TEAM_MEMBERS - peer,
        {
            targets.push(peer);
            assert(targets@ =~= Seq::new(
                (peer - self.id) as nat,
                |i: int| (self.id + 1 + i) as usize,
            ));
            peer += 1;
        }
        Broadcast { message, targets }
    }

    /// Makes this peer the leader. The announcement is a coordinator message
    /// for every other peer; who waits for the leader is to be woken.
    pub fn make_me_leader(&mut self) -> (announcement: Broadcast)
        requires
            old(self).wf(),
        ensures
            final(self)@ == (ElectionState { leader: Some(old(self)@.id), ..old(self)@ }),
            is_announcement(announcement, old(self)@.id),
    {
        let message: Vec<u8> = self.id_to_msg(TAG_COORDINATOR);
        let targets: Vec<usize> = peers_except(self.id);
        self.leader_id = Some(self.id);
        Broadcast { message, targets }
    }

    /// Calls for a new election. Nothing happens while the peer shuts down or
    /// an election already runs. Otherwise the leader becomes unknown, and
    /// the challenge is returned: the caller sends it and waits for an answer
    /// as long as the election timeout allows, then calls
    /// `conclude_election`.
    pub fn find_new(&mut self) -> (challenge: Option<Broadcast>)
        requires
            old(self).wf(),
        ensures
            final(self)@ == election_begun(old(self)@),
            challenge is Some == election_starts(old(self)@),
            challenge matches Some(broadcast) ==> is_challenge(broadcast, old(self)@.id),
    {
        if self.stop {
            return None;
        }
        if self.leader_id.is_none() {
            return None;
        }
        self.got_ok = false;
        self.leader_id = None;
        Some(self.send_election())
    }

    /// Ends the wait for an answer to the challenge. Without an answer this
    /// peer leads, and the announcement is returned for the caller to send.
    /// With one, a higher peer will announce itself: the caller waits until
    /// the leader is known.
    pub fn conclude_election(&mut self) -> (announcement: Option<Broadcast>)
        requires
            old(self).wf(),
        ensures
            final(self)@ == election_concluded(old(self)@),
            announcement is Some == !old(self)@.got_ok,
            announcement matches Some(broadcast) ==> is_announcement(broadcast, old(self)@.id),
    {
        if !self.got_ok {
            Some(self.make_me_leader())
        } else {
            None
        }
    }

    /// Takes one datagram from the control socket and says what the responder
    /// has to do about it: see `reacted` and `reaction_fits`.
    pub fn respond(&mut self, datagram: &[u8; 9]) -> (reaction: Reaction)
        requires
            old(self).wf(),
        ensures
            final(self)@ == reacted(old(self)@, datagram@),
            reaction_fits(old(self)@, datagram@, reaction),
    {
        let number: [u8; 8] = [
            datagram[1],
            datagram[2],
            datagram[3],
            datagram[4],
            datagram[5],
            datagram[6],
            datagram[7],
            datagram[8],
        ];
        assert(number@ =~= datagram@.subrange(1, 9));
        let sender: u64 = decode_u64_le(&number);
        if self.stop {
            return Reaction::Stopped;
        }
        if sender > usize::MAX as u64 {
            return Reaction::Ignored;
        }
        let id_from: usize = sender as usize;
        let tag: u8 = datagram[0];
        if tag == TAG_OK {
            self.got_ok = true;
            Reaction::OkReceived
        } else if tag == TAG_ELECTION {
            if id_from < self.id {
                let reply: Vec<u8> = self.id_to_msg(TAG_OK);
                let election: Option<Broadcast> = self.find_new();
                Reaction::Challenged { to: id_from, reply, election }
            } else {
                Reaction::Ignored
            }
        } else if tag == TAG_COORDINATOR {
            self.leader_id = Some(id_from);
            Reaction::LeaderAnnounced { leader: id_from }
        } else {
            Reaction::Ignored
        }
    }
}

} // verus!
