//! The state that the router keeps for one session.
//!
//! A session is what a successful `Connect` leaves behind: the channel to
//! the server, the UI connection that opened it, the username it was opened
//! for, and the peer sub-sessions reached through it. The channel types are
//! the caller's: the library stores them and hands them back, and never looks
//! inside.

use std::collections::HashMap;
use vstd::prelude::*;
use vstd::std_specs::hash::*;

use crate::types::ConnectionId;

verus! {

/// A peer sub-session: the UI connection that opened it and the channel to
/// the peer.
pub struct PeerEntry<P> {
    pub origin: ConnectionId,
    pub channel: P,
}

/// A session as a mathematical value.
pub struct SessionState<C, P> {
    /// The UI connection that opened the session.
    pub origin: ConnectionId,
    /// The username that the session was opened for.
    pub username: Seq<char>,
    /// The channel to the server.
    pub channel: C,
    /// The peer sub-sessions, by the peer's cid. A map holds at most one
    /// entry for a key.
    pub peers: Map<u64, PeerEntry<P>>,
}

/// A session: the channel to the server and the peer sub-sessions reached
/// through it.
pub struct SessionEntry<C, P> {
    origin: ConnectionId,
    username: String,
    channel: C,
    peers: HashMap<u64, PeerEntry<P>>,
}

impl<C, P> View for SessionEntry<C, P> {
    type V = SessionState<C, P>;

    closed spec fn view(&self) -> SessionState<C, P> {
        SessionState {
            origin: self.origin,
            username: self.username@,
            channel: self.channel,
            peers: self.peers@,
        }
    }
}

impl<C, P> SessionEntry<C, P> {
    /// A session holds finitely many sub-sessions.
    pub proof fn lemma_peers_are_finite(&self)
        ensures
            self@.peers.dom().finite(),
    {
        broadcast use group_hash_axioms;

    }

    /// A session without peers.
    pub fn new(origin: ConnectionId, username: String, channel: C) -> (entry: SessionEntry<C, P>)
        ensures
            entry@ == (SessionState {
                origin,
                username: username@,
                channel,
                peers: Map::<u64, PeerEntry<P>>::empty(),
            }),
    {
        SessionEntry { origin, username, channel, peers: HashMap::new() }
    }

    /// The UI connection that opened the session.
    pub fn origin(&self) -> (origin: ConnectionId)
        ensures
            origin == self@.origin,
    {
        self.origin
    }

    /// The username that the session was opened for.
    pub fn username(&self) -> (username: &String)
        ensures
            username@ == self@.username,
    {
        &self.username
    }

    /// The channel to the server.
    pub fn channel(&self) -> (channel: &C)
        ensures
            *channel == self@.channel,
    {
        &self.channel
    }

    /// Whether a sub-session to `peer_cid` is open.
    pub fn has_peer(&self, peer_cid: u64) -> (found: bool)
        ensures
            found == self@.peers.contains_key(peer_cid),
    {
        broadcast use group_hash_axioms;

        self.peers.contains_key(&peer_cid)
    }

    /// The sub-session to `peer_cid`, if one is open.
    pub fn peer(&self, peer_cid: u64) -> (entry: Option<&PeerEntry<P>>)
        ensures
            match entry {
                Some(e) => self@.peers.contains_key(peer_cid) && *e == self@.peers[peer_cid],
                None => !self@.peers.contains_key(peer_cid),
            },
    {
        broadcast use group_hash_axioms;

        self.peers.get(&peer_cid)
    }

    /// Number of open sub-sessions.
    pub fn peer_count(&self) -> (count: usize)
        ensures
            count == self@.peers.len(),
    {
        broadcast use group_hash_axioms;

        self.peers.len()
    }

    /// Records the sub-session to `peer_cid`, in place of an earlier one to
    /// the same peer, which is handed back.
    pub fn add_peer_connection(&mut self, peer_cid: u64, origin: ConnectionId, channel: P) -> (replaced:
        Option<PeerEntry<P>>)
        ensures
            final(self)@ == (SessionState {
                peers: old(self)@.peers.insert(peer_cid, PeerEntry { origin, channel }),
                ..old(self)@
            }),
            match replaced {
                Some(e) => old(self)@.peers.contains_key(peer_cid) && e == old(self)@.peers[peer_cid],
                None => !old(self)@.peers.contains_key(peer_cid),
            },
    {
        broadcast use group_hash_axioms;

        self.peers.insert(peer_cid, PeerEntry { origin, channel })
    }

    /// Forgets the sub-session to `peer_cid` and hands it back, if there was
    /// one.
    pub fn clear_peer_connection(&mut self, peer_cid: u64) -> (removed: Option<PeerEntry<P>>)
        ensures
            final(self)@ == (SessionState {
                peers: old(self)@.peers.remove(peer_cid),
                ..old(self)@
            }),
            match removed {
                Some(e) => old(self)@.peers.contains_key(peer_cid) && e == old(self)@.peers[peer_cid],
                None => !old(self)@.peers.contains_key(peer_cid),
            },
    {
        broadcast use group_hash_axioms;

        self.peers.remove(&peer_cid)
    }
}

/// A session holds at most one sub-session for a peer: after a sub-session
/// to `peer_cid` is recorded, the entry under `peer_cid` is the new one, the
/// entries under all other keys are as before, and the number of entries grew
/// by one or, where `peer_cid` was there already, not at all.
pub proof fn lemma_one_entry_per_peer<C, P>(
    session: SessionState<C, P>,
    peer_cid: u64,
    entry: PeerEntry<P>,
)
    requires
        session.peers.dom().finite(),
    ensures
        session.peers.insert(peer_cid, entry)[peer_cid] == entry,
        forall|other: u64|
            other != peer_cid ==> (session.peers.insert(peer_cid, entry).contains_key(other)
                <==> session.peers.contains_key(other)),
        session.peers.insert(peer_cid, entry).len() == if session.peers.contains_key(peer_cid) {
            session.peers.len()
        } else {
            session.peers.len() + 1
        },
{
}

} // verus!
