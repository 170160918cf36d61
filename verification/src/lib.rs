//! A fault-tolerant payment dispatcher: leader election among peers, two-phase
//! commit with the stakeholders, and replication of the leader's progress.
//!
//! The library holds the decisions of the protocol as functions on plain
//! values, each with a contract that Verus proves. Sockets, threads and
//! timers belong to the program that drives it: the program sends what the
//! library hands out, waits where the protocol waits, and hands back what
//! came in.
//!
//! - `wire`, `text`: integers as bytes and as decimal text.
//! - `transaction`, `payment`, `helper`: the messages, the records and the
//!   addresses.
//! - `coordinator`: two-phase commit; `coordinator_lemmas`: what holds of it
//!   whatever the stakeholders answer.
//! - `election`: the bully algorithm; `election_lemmas`: what holds of it
//!   whatever the network does.
//! - `replication`, `driver`: the leader's progress and the peer's work on
//!   the records.
//! - `stakeholder`: a stakeholder of the test bed.
//! - `input`: numbers typed on a console.
pub mod wire;
pub mod text;
pub mod transaction;
pub mod payment;
pub mod helper;
pub mod coordinator;
pub mod coordinator_lemmas;
pub mod election;
pub mod election_lemmas;
pub mod replication;
pub mod driver;
pub mod stakeholder;
pub mod input;
