//! The router: the one owner of the table of UI connections and of the table
//! of sessions.
//!
//! The router never waits. The program around it accepts sockets, reads
//! requests and talks to the session network; at each step it asks the router
//! what to do and tells it what came of it:
//!
//! * [`Router::accept`] when a UI connects, [`Router::unregister`] when it
//!   goes;
//! * [`Router::dispatch`] for each request: the router drops it, answers it,
//!   or hands it back to be performed against the session network;
//! * the completion that belongs to the request's kind, with the outcome of
//!   that work;
//! * [`Router::inbound`] for each message that arrives on a session, and
//!   [`Router::stream_ended`] when a session's stream ends.
//!
//! Every response comes back as a [`Delivery`]: the response and the UI
//! connection whose outbound queue it belongs on. The caller enqueues the
//! deliveries in the order it gets them.

use std::collections::HashMap;
use vstd::prelude::*;
use vstd::std_specs::hash::*;

use crate::model::{greeting, DeliveryView, DispatchView, RouterState};
use crate::session::{PeerEntry, SessionEntry, SessionState};
use crate::text::{
    connection_not_found,
    download_unavailable,
    failed_to_disconnect,
    peer_cid_reserved,
    peer_not_found,
    server_connection_not_found,
};
use crate::types::{ConnectionId, InternalServicePayload, InternalServiceResponse, ResponseView};

verus! {

/// Capacity of the outbound queue of a UI connection: a UI that does not
/// read holds the router back once this many responses wait for it.
pub const OUTBOUND_QUEUE_CAPACITY: usize = 1024;

/// A response on its way to the outbound queue of a UI connection.
#[derive(Clone, Debug, PartialEq, Eq)]
pub struct Delivery {
    pub to: ConnectionId,
    pub response: InternalServiceResponse,
}

impl View for Delivery {
    type V = DeliveryView;

    open spec fn view(&self) -> DeliveryView {
        DeliveryView { to: self.to, response: self.response@ }
    }
}

impl Delivery {
    /// Whether this delivery announces a new source of inbound messages: a
    /// session or a peer sub-session that has just entered the table. The
    /// reader of its stream starts once the delivery is on the queue.
    pub fn announces_source(&self) -> (announces: bool)
        ensures
            announces == self@.announces_source(),
    {
        match self.response {
            InternalServiceResponse::ConnectSuccess { .. } => true,
            InternalServiceResponse::PeerConnectSuccess { .. } => true,
            _ => false,
        }
    }
}

/// What the router decides on a request.
#[derive(Clone, Debug, PartialEq, Eq)]
pub enum Dispatch {
    /// The UI that sent the request is gone: there is nothing to do.
    Drop,
    /// The router has answered by itself.
    Reply(Delivery),
    /// The request is to be performed against the session network, and the
    /// outcome handed to the completion of its kind.
    Perform(InternalServicePayload),
}

impl View for Dispatch {
    type V = DispatchView;

    open spec fn view(&self) -> DispatchView {
        match *self {
            Dispatch::Drop => DispatchView::Drop,
            Dispatch::Reply(delivery) => DispatchView::Reply(delivery@),
            Dispatch::Perform(request) => DispatchView::Perform(request),
        }
    }
}

/// The mathematical value of a delivery that may be absent.
pub open spec fn delivery_view(delivery: Option<Delivery>) -> Option<DeliveryView> {
    match delivery {
        Some(d) => Some(d@),
        None => None,
    }
}

/// The mathematical value of a response that may be absent.
pub open spec fn response_view(response: Option<InternalServiceResponse>) -> Option<ResponseView> {
    match response {
        Some(r) => Some(r@),
        None => None,
    }
}

/// The outcome of work of the session network, with the text of an error as
/// a sequence of characters.
pub open spec fn outcome_view<T>(outcome: Result<T, String>) -> Result<T, Seq<char>> {
    match outcome {
        Ok(value) => Ok(value),
        Err(message) => Err(message@),
    }
}

/// Whether `id` is the number of a random UUID: version 4, in the variant
/// of RFC 4122.
pub open spec fn spec_is_random_uuid(id: ConnectionId) -> bool {
    &&& (id / 0x1000_0000_0000_0000_0000) % 16 == 4
    &&& (id / 0x4000_0000_0000_0000) % 4 == 2
}

/// Mints the identifier of a new UI connection.
///
/// Calls `uuid::Uuid::new_v4` and takes the UUID as a number with
/// `Uuid::as_u128`. The UUID is random: all that is claimed of it is what
/// `new_v4` fixes in every UUID it returns, the version 4 and the variant of
/// RFC 4122.
#[verifier::external_body]
fn mint_connection_id() -> (id: ConnectionId)
    ensures
        spec_is_random_uuid(id),
{
    uuid::Uuid::new_v4().as_u128()
}

/// The router. `Q` is the sender of a UI connection's outbound queue, `C`
/// the channel of a session, `P` the channel of a peer sub-session.
pub struct Router<Q, C, P> {
    connections: HashMap<ConnectionId, Q>,
    sessions: HashMap<u64, SessionEntry<C, P>>,
    log: Ghost<Seq<DeliveryView>>,
}

impl<Q, C, P> View for Router<Q, C, P> {
    type V = RouterState<Q, C, P>;

    closed spec fn view(&self) -> RouterState<Q, C, P> {
        RouterState {
            connections: self.connections@,
            sessions: Map::new(
                |cid: u64| self.sessions@.contains_key(cid),
                |cid: u64| self.sessions@[cid]@,
            ),
            log: self.log@,
        }
    }
}

impl<Q, C, P> Router<Q, C, P> {
    /// The tables of a router are finite, and so are the peers of each of
    /// its sessions.
    pub proof fn lemma_tables_are_finite(&self)
        ensures
            self@.connections.dom().finite(),
            self@.sessions.dom().finite(),
            forall|cid: u64| #[trigger]
                self@.sessions.contains_key(cid) ==> self@.sessions[cid].peers.dom().finite(),
    {
        broadcast use group_hash_axioms;

        assert(self@.sessions.dom() =~= self.sessions@.dom());
        assert forall|cid: u64| #[trigger]
            self@.sessions.contains_key(cid) implies self@.sessions[cid].peers.dom().finite() by {
            self.sessions@[cid].lemma_peers_are_finite();
        }
    }

    /// A router that knows no UI and no session.
    pub fn new() -> (router: Router<Q, C, P>)
        ensures
            router@ == RouterState::<Q, C, P>::empty(),
            router@.well_formed(),
    {
        let router = Router {
            connections: HashMap::new(),
            sessions: HashMap::new(),
            log: Ghost(Seq::empty()),
        };
        assert(router@.sessions =~= Map::<u64, SessionState<C, P>>::empty());
        router
    }

    /// Whether the UI connection `id` is alive.
    pub fn is_registered(&self, id: ConnectionId) -> (found: bool)
        ensures
            found == self@.is_registered(id),
    {
        broadcast use group_hash_axioms;

        self.connections.contains_key(&id)
    }

    /// The sender of the outbound queue of the UI connection `id`.
    pub fn sender(&self, id: ConnectionId) -> (sender: Option<&Q>)
        ensures
            match sender {
                Some(q) => self@.connections.contains_key(id) && *q == self@.connections[id],
                None => !self@.connections.contains_key(id),
            },
    {
        broadcast use group_hash_axioms;

        self.connections.get(&id)
    }

    /// Number of sessions.
    pub fn session_count(&self) -> (count: usize)
        ensures
            count == self@.sessions.len(),
    {
        broadcast use group_hash_axioms;

        assert(self@.sessions.dom() =~= self.sessions@.dom());
        self.sessions.len()
    }

    /// Number of live UI connections.
    pub fn connection_count(&self) -> (count: usize)
        ensures
            count == self@.connections.len(),
    {
        broadcast use group_hash_axioms;

        self.connections.len()
    }

    /// Whether the router holds the session `cid`.
    pub fn has_session(&self, cid: u64) -> (found: bool)
        ensures
            found == self@.sessions.contains_key(cid),
    {
        broadcast use group_hash_axioms;

        self.sessions.contains_key(&cid)
    }

    /// The session `cid`.
    pub fn session(&self, cid: u64) -> (session: Option<&SessionEntry<C, P>>)
        ensures
            match session {
                Some(entry) => self@.sessions.contains_key(cid) && entry@ == self@.sessions[cid],
                None => !self@.sessions.contains_key(cid),
            },
    {
        broadcast use group_hash_axioms;

        self.sessions.get(&cid)
    }

    /// Whether the router holds the source of an inbound message: the
    /// session `cid`, or the sub-session to `peer` within it.
    pub fn has_source(&self, cid: u64, peer: Option<u64>) -> (found: bool)
        ensures
            found == self@.has_source(cid, peer),
    {
        match self.session(cid) {
            Some(entry) => match peer {
                Some(p) => entry.has_peer(p),
                None => true,
            },
            None => false,
        }
    }

    /// Takes the UI connection `id` into the table, in place of an earlier
    /// one of the same id, and returns its greeting: the first response that
    /// goes to it.
    pub fn register(&mut self, id: ConnectionId, sender: Q) -> (first: Delivery)
        ensures
            final(self)@ == old(self)@.registered(id, sender),
            old(self)@.well_formed() ==> final(self)@.well_formed(),
            first@ == greeting(id),
    {
        broadcast use group_hash_axioms;

        let _ = self.connections.insert(id, sender);
        self.log = Ghost(self.log@.push(greeting(id)));
        proof {
            if old(self)@.well_formed() {
                old(self)@.lemma_registered_well_formed(id, sender);
                assert(self@.sessions =~= old(self)@.sessions);
            }
        }
        Delivery { to: id, response: InternalServiceResponse::ServiceConnectionAccepted { id } }
    }

    /// Takes a UI connection into the table under a newly drawn id, unless a
    /// live connection holds that id: then nothing changes and nothing is
    /// sent, and the caller draws again.
    pub fn register_fresh(&mut self, id: ConnectionId, sender: Q) -> (first: Option<Delivery>)
        ensures
            first is Some <==> !old(self)@.is_registered(id),
            first matches Some(d) ==> d@ == greeting(id) && final(self)@ == old(self)@.registered(
                id,
                sender,
            ),
            first is None ==> final(self)@ == old(self)@,
            final(self)@ == old(self)@.registered_fresh(id, sender),
            old(self)@.well_formed() ==> final(self)@.well_formed(),
    {
        if self.is_registered(id) {
            None
        } else {
            Some(self.register(id, sender))
        }
    }

    /// Accepts a UI connection: mints an id and takes the connection into
    /// the table under it, and returns its greeting, which names the id. The
    /// id is one that no live connection holds. `None` comes back only where
    /// a live connection holds the minted id: then nothing changes and the
    /// caller accepts again. A router without connections always accepts.
    pub fn accept(&mut self, sender: Q) -> (first: Option<Delivery>)
        ensures
            first matches Some(d) ==> {
                &&& !old(self)@.is_registered(d.to)
                &&& spec_is_random_uuid(d.to)
                &&& d@ == greeting(d.to)
                &&& final(self)@ == old(self)@.registered(d.to, sender)
            },
            first is None ==> final(self)@ == old(self)@,
            first is None ==> exists|taken: ConnectionId|
                spec_is_random_uuid(taken) && #[trigger] old(self)@.is_registered(taken),
            old(self)@.well_formed() ==> final(self)@.well_formed(),
    {
        let id = mint_connection_id();
        let first = self.register_fresh(id, sender);
        assert(first is None ==> spec_is_random_uuid(id) && old(self)@.is_registered(id));
        first
    }

    /// Takes the UI connection `id` out of the table when it ends, and hands
    /// back its sender. Its sessions stay: they have no subscriber until
    /// they end.
    pub fn unregister(&mut self, id: ConnectionId) -> (sender: Option<Q>)
        ensures
            final(self)@ == old(self)@.unregistered(id),
            old(self)@.well_formed() ==> final(self)@.well_formed(),
            match sender {
                Some(q) => old(self)@.connections.contains_key(id) && q == old(self)@.connections[id],
                None => !old(self)@.connections.contains_key(id),
            },
    {
        broadcast use group_hash_axioms;

        let sender = self.connections.remove(&id);
        proof {
            if old(self)@.well_formed() {
                old(self)@.lemma_unregistered_well_formed(id);
                assert(self@.sessions =~= old(self)@.sessions);
            }
        }
        sender
    }

    /// Addresses `response` to `to` and records it, where `to` is alive.
    fn reply(&mut self, to: ConnectionId, response: InternalServiceResponse) -> (delivery: Option<
        Delivery,
    >)
        ensures
            delivery_view(delivery) == old(self)@.reply(to, response@),
            final(self)@ == old(self)@.sent(old(self)@.reply(to, response@)),
    {
        broadcast use group_hash_axioms;

        if self.connections.contains_key(&to) {
            let delivery = Delivery { to, response };
            self.log = Ghost(self.log@.push(delivery@));
            assert(self@.sessions =~= old(self)@.sessions);
            Some(delivery)
        } else {
            None
        }
    }

    /// Puts `entry` into the session table under `cid`.
    fn put_session(&mut self, cid: u64, entry: SessionEntry<C, P>)
        ensures
            final(self)@ == old(self)@.with_session(cid, entry@),
    {
        broadcast use group_hash_axioms;

        let _ = self.sessions.insert(cid, entry);
        assert(self@.sessions =~= old(self)@.sessions.insert(cid, entry@));
    }

    /// Takes the session `cid` out of the table.
    fn take_session(&mut self, cid: u64) -> (entry: Option<SessionEntry<C, P>>)
        ensures
            final(self)@ == old(self)@.without_session(cid),
            match entry {
                Some(e) => old(self)@.sessions.contains_key(cid) && e@ == old(self)@.sessions[cid],
                None => !old(self)@.sessions.contains_key(cid),
            },
    {
        broadcast use group_hash_axioms;

        let entry = self.sessions.remove(&cid);
        assert(self@.sessions =~= old(self)@.sessions.remove(cid));
        entry
    }

    /// Records the sub-session to `peer_cid` in the session `cid`; where
    /// there is no such session, the channel is discarded.
    fn put_peer(&mut self, cid: u64, peer_cid: u64, origin: ConnectionId, channel: P)
        ensures
            final(self)@ == old(self)@.with_peer(
                cid,
                peer_cid,
                PeerEntry { origin, channel },
            ),
    {
        match self.take_session(cid) {
            Some(mut entry) => {
                let _ = entry.add_peer_connection(peer_cid, origin, channel);
                self.put_session(cid, entry);
                assert(self@.sessions =~= old(self)@.with_peer(
                    cid,
                    peer_cid,
                    PeerEntry { origin, channel },
                ).sessions);
            },
            None => {
                assert(self@.sessions =~= old(self)@.sessions);
            },
        }
    }

    /// Takes the sub-session to `peer_cid` out of the session `cid`.
    fn drop_peer(&mut self, cid: u64, peer_cid: u64)
        ensures
            final(self)@ == old(self)@.without_peer(cid, peer_cid),
    {
        match self.take_session(cid) {
            Some(mut entry) => {
                let _ = entry.clear_peer_connection(peer_cid);
                self.put_session(cid, entry);
                assert(self@.sessions =~= old(self)@.without_peer(cid, peer_cid).sessions);
            },
            None => {
                assert(self@.sessions =~= old(self)@.sessions);
            },
        }
    }

    /// The failure that the router answers `request` with by itself, if
    /// there is one.
    pub fn routing_failure(&self, request: &InternalServicePayload) -> (failure: Option<
        InternalServiceResponse,
    >)
        ensures
            response_view(failure) == self@.routing_failure(*request),
    {
        match request {
            InternalServicePayload::Message { cid, peer_cid, .. } => {
                match self.session(*cid) {
                    None => Some(
                        InternalServiceResponse::MessageSendError {
                            cid: *cid,
                            message: connection_not_found(*cid),
                        },
                    ),
                    Some(entry) => match peer_cid {
                        Some(p) => if entry.has_peer(*p) {
                            None
                        } else {
                            Some(
                                InternalServiceResponse::MessageSendError {
                                    cid: *cid,
                                    message: peer_not_found(*p),
                                },
                            )
                        },
                        None => None,
                    },
                }
            },
            InternalServicePayload::Disconnect { cid, .. } => {
                if self.has_session(*cid) {
                    None
                } else {
                    Some(
                        InternalServiceResponse::DisconnectFailure {
                            cid: *cid,
                            message: connection_not_found(*cid),
                        },
                    )
                }
            },
            InternalServicePayload::DownloadFile { cid, .. } => Some(
                InternalServiceResponse::DownloadFileFailure {
                    cid: *cid,
                    message: download_unavailable(),
                },
            ),
            InternalServicePayload::PeerRegister { cid, .. } => {
                if self.has_session(*cid) {
                    None
                } else {
                    Some(
                        InternalServiceResponse::PeerRegisterFailure {
                            cid: *cid,
                            message: server_connection_not_found(),
                        },
                    )
                }
            },
            InternalServicePayload::PeerConnect { cid, peer_cid, .. } => {
                if !self.has_session(*cid) {
                    Some(
                        InternalServiceResponse::PeerConnectFailure {
                            cid: *cid,
                            message: server_connection_not_found(),
                        },
                    )
                } else if *peer_cid == 0 {
                    Some(
                        InternalServiceResponse::PeerConnectFailure {
                            cid: *cid,
                            message: peer_cid_reserved(),
                        },
                    )
                } else {
                    None
                }
            },
            InternalServicePayload::PeerDisconnect { cid, peer_cid, .. } => {
                match self.session(*cid) {
                    None => Some(
                        InternalServiceResponse::PeerDisconnectFailure {
                            cid: *cid,
                            message: server_connection_not_found(),
                        },
                    ),
                    Some(entry) => if entry.has_peer(*peer_cid) {
                        None
                    } else {
                        Some(
                            InternalServiceResponse::PeerDisconnectFailure {
                                cid: *cid,
                                message: peer_not_found(*peer_cid),
                            },
                        )
                    },
                }
            },
            _ => None,
        }
    }

    /// Decides on a request.
    ///
    /// A request whose origin is gone is dropped. A request that names a
    /// session or a peer that the router does not hold, and a request for a
    /// file download, is answered with the failure of its kind. Every other
    /// request comes back to be performed; a `Disconnect` among them has
    /// taken its session out of the table already.
    pub fn dispatch(&mut self, request: InternalServicePayload) -> (decision: Dispatch)
        ensures
            decision@ == old(self)@.dispatch(request),
            final(self)@ == old(self)@.after_dispatch(request),
            old(self)@.well_formed() ==> final(self)@.well_formed(),
    {
        proof {
            if old(self)@.well_formed() {
                old(self)@.lemma_dispatch_well_formed(request);
            }
        }
        let origin = request.uuid();
        if !self.is_registered(origin) {
            return Dispatch::Drop;
        }
        match self.routing_failure(&request) {
            Some(response) => {
                match self.reply(origin, response) {
                    Some(delivery) => Dispatch::Reply(delivery),
                    None => Dispatch::Drop,
                }
            },
            None => {
                if let InternalServicePayload::Disconnect { cid, .. } = &request {
                    let _ = self.take_session(*cid);
                }
                Dispatch::Perform(request)
            },
        }
    }

    /// Completes a `Register`: the registration succeeded, or failed with
    /// the network's error.
    pub fn register_completed(&mut self, uuid: ConnectionId, outcome: Result<(), String>) -> (delivery:
        Option<Delivery>)
        ensures
            delivery_view(delivery) == old(self)@.register_reply(uuid, outcome_view(outcome)),
            final(self)@ == old(self)@.sent(
                old(self)@.register_reply(uuid, outcome_view(outcome)),
            ),
            old(self)@.well_formed() ==> final(self)@.well_formed(),
    {
        proof {
            if old(self)@.well_formed() {
                old(self)@.lemma_sending_keeps_well_formed(
                    old(self)@.register_reply(uuid, outcome_view(outcome)),
                );
            }
        }
        let response = match outcome {
            Ok(_) => InternalServiceResponse::RegisterSuccess { id: uuid },
            Err(message) => InternalServiceResponse::RegisterFailure { message },
        };
        self.reply(uuid, response)
    }

    /// Completes a `Connect`: the network opened the session `cid` with its
    /// channel, or failed with an error.
    ///
    /// The session enters the table under its cid, for the username of the
    /// request, where the UI that asked is still alive. Where it is gone the
    /// channel is discarded and nothing is sent.
    pub fn connect_completed(
        &mut self,
        uuid: ConnectionId,
        username: String,
        outcome: Result<(u64, C), String>,
    ) -> (delivery: Option<Delivery>)
        ensures
            delivery_view(delivery) == old(self)@.connect_reply(uuid, outcome_view(outcome)),
            final(self)@ == old(self)@.after_connect(uuid, username@, outcome_view(outcome)),
            old(self)@.well_formed() ==> final(self)@.well_formed(),
    {
        proof {
            if old(self)@.well_formed() {
                old(self)@.lemma_connect_well_formed(uuid, username@, outcome_view(outcome));
            }
        }
        match outcome {
            Ok(opened) => {
                if self.is_registered(uuid) {
                    let cid = opened.0;
                    self.put_session(cid, SessionEntry::new(uuid, username, opened.1));
                    self.reply(uuid, InternalServiceResponse::ConnectSuccess { cid })
                } else {
                    None
                }
            },
            Err(message) => self.reply(uuid, InternalServiceResponse::ConnectionFailure { message }),
        }
    }

    /// Completes a `Message`: the message went out, or the network failed
    /// with an error.
    pub fn message_completed(
        &mut self,
        uuid: ConnectionId,
        cid: u64,
        peer_cid: Option<u64>,
        outcome: Result<(), String>,
    ) -> (delivery: Option<Delivery>)
        ensures
            delivery_view(delivery) == old(self)@.message_reply(
                uuid,
                cid,
                peer_cid,
                outcome_view(outcome),
            ),
            final(self)@ == old(self)@.sent(
                old(self)@.message_reply(uuid, cid, peer_cid, outcome_view(outcome)),
            ),
            old(self)@.well_formed() ==> final(self)@.well_formed(),
    {
        proof {
            if old(self)@.well_formed() {
                old(self)@.lemma_sending_keeps_well_formed(
                    old(self)@.message_reply(uuid, cid, peer_cid, outcome_view(outcome)),
                );
            }
        }
        let response = match outcome {
            Ok(_) => InternalServiceResponse::MessageSent { cid, peer_cid },
            Err(message) => InternalServiceResponse::MessageSendError { cid, message },
        };
        self.reply(uuid, response)
    }

    /// Completes a `Disconnect`: the network ended the session, or failed;
    /// `outcome` then carries the network's account of the failure.
    pub fn disconnect_completed(&mut self, uuid: ConnectionId, cid: u64, outcome: Result<(), String>) -> (delivery:
        Option<Delivery>)
        ensures
            delivery_view(delivery) == old(self)@.disconnect_reply(uuid, cid, outcome_view(outcome)),
            final(self)@ == old(self)@.sent(
                old(self)@.disconnect_reply(uuid, cid, outcome_view(outcome)),
            ),
            old(self)@.well_formed() ==> final(self)@.well_formed(),
    {
        proof {
            if old(self)@.well_formed() {
                old(self)@.lemma_sending_keeps_well_formed(
                    old(self)@.disconnect_reply(uuid, cid, outcome_view(outcome)),
                );
            }
        }
        let response = match outcome {
            Ok(_) => InternalServiceResponse::DisconnectSuccess { cid },
            Err(detail) => InternalServiceResponse::DisconnectFailure {
                cid,
                message: failed_to_disconnect(detail.as_str()),
            },
        };
        self.reply(uuid, response)
    }

    /// Completes a `SendFile`: the file went out, or the network failed with
    /// an error.
    pub fn send_file_completed(&mut self, uuid: ConnectionId, cid: u64, outcome: Result<(), String>) -> (delivery:
        Option<Delivery>)
        ensures
            delivery_view(delivery) == old(self)@.send_file_reply(uuid, cid, outcome_view(outcome)),
            final(self)@ == old(self)@.sent(
                old(self)@.send_file_reply(uuid, cid, outcome_view(outcome)),
            ),
            old(self)@.well_formed() ==> final(self)@.well_formed(),
    {
        proof {
            if old(self)@.well_formed() {
                old(self)@.lemma_sending_keeps_well_formed(
                    old(self)@.send_file_reply(uuid, cid, outcome_view(outcome)),
                );
            }
        }
        let response = match outcome {
            Ok(_) => InternalServiceResponse::SendFileSuccess { cid },
            Err(message) => InternalServiceResponse::SendFileFailure { cid, message },
        };
        self.reply(uuid, response)
    }

    /// Completes a `StartGroup`: the network created the group, or failed
    /// with an error.
    pub fn start_group_completed(&mut self, uuid: ConnectionId, cid: u64, outcome: Result<(), String>) -> (delivery:
        Option<Delivery>)
        ensures
            delivery_view(delivery) == old(self)@.start_group_reply(uuid, cid, outcome_view(outcome)),
            final(self)@ == old(self)@.sent(
                old(self)@.start_group_reply(uuid, cid, outcome_view(outcome)),
            ),
            old(self)@.well_formed() ==> final(self)@.well_formed(),
    {
        proof {
            if old(self)@.well_formed() {
                old(self)@.lemma_sending_keeps_well_formed(
                    old(self)@.start_group_reply(uuid, cid, outcome_view(outcome)),
                );
            }
        }
        let response = match outcome {
            Ok(_) => InternalServiceResponse::StartGroupSuccess { cid },
            Err(message) => InternalServiceResponse::StartGroupFailure { cid, message },
        };
        self.reply(uuid, response)
    }

    /// Completes a `PeerRegister`: the network registered the peer and found
    /// its cid, or failed with an error.
    pub fn peer_register_completed(&mut self, uuid: ConnectionId, cid: u64, outcome: Result<u64, String>) -> (delivery:
        Option<Delivery>)
        ensures
            delivery_view(delivery) == old(self)@.peer_register_reply(
                uuid,
                cid,
                outcome_view(outcome),
            ),
            final(self)@ == old(self)@.sent(
                old(self)@.peer_register_reply(uuid, cid, outcome_view(outcome)),
            ),
            old(self)@.well_formed() ==> final(self)@.well_formed(),
    {
        proof {
            if old(self)@.well_formed() {
                old(self)@.lemma_sending_keeps_well_formed(
                    old(self)@.peer_register_reply(uuid, cid, outcome_view(outcome)),
                );
            }
        }
        let response = match outcome {
            Ok(peer_cid) => match self.session(cid) {
                Some(entry) => InternalServiceResponse::PeerRegisterSuccess {
                    cid,
                    peer_cid,
                    username: entry.username().clone(),
                },
                None => InternalServiceResponse::PeerRegisterFailure {
                    cid,
                    message: server_connection_not_found(),
                },
            },
            Err(message) => InternalServiceResponse::PeerRegisterFailure { cid, message },
        };
        self.reply(uuid, response)
    }

    /// Completes a `PeerConnect`: the network opened the channel to the
    /// peer, or failed with an error.
    ///
    /// The sub-session enters its session where the UI that asked and the
    /// session are both still there and the peer is not the peer 0, which
    /// stands for the server. Otherwise the channel is discarded.
    pub fn peer_connect_completed(
        &mut self,
        uuid: ConnectionId,
        cid: u64,
        peer_cid: u64,
        outcome: Result<P, String>,
    ) -> (delivery: Option<Delivery>)
        ensures
            delivery_view(delivery) == old(self)@.peer_connect_reply(
                uuid,
                cid,
                peer_cid,
                outcome_view(outcome),
            ),
            final(self)@ == old(self)@.after_peer_connect(
                uuid,
                cid,
                peer_cid,
                outcome_view(outcome),
            ),
            old(self)@.well_formed() ==> final(self)@.well_formed(),
    {
        proof {
            if old(self)@.well_formed() {
                old(self)@.lemma_peer_connect_well_formed(uuid, cid, peer_cid, outcome_view(outcome));
            }
        }
        match outcome {
            Ok(channel) => {
                if !self.is_registered(uuid) {
                    None
                } else if !self.has_session(cid) {
                    self.reply(
                        uuid,
                        InternalServiceResponse::PeerConnectFailure {
                            cid,
                            message: server_connection_not_found(),
                        },
                    )
                } else if peer_cid == 0 {
                    self.reply(
                        uuid,
                        InternalServiceResponse::PeerConnectFailure {
                            cid,
                            message: peer_cid_reserved(),
                        },
                    )
                } else {
                    self.put_peer(cid, peer_cid, uuid, channel);
                    self.reply(uuid, InternalServiceResponse::PeerConnectSuccess { cid })
                }
            },
            Err(message) => self.reply(
                uuid,
                InternalServiceResponse::PeerConnectFailure { cid, message },
            ),
        }
    }

    /// Completes a `PeerDisconnect`: the network took the disconnect under a
    /// ticket, or failed; `outcome` then carries the network's account of
    /// the failure. A success takes the sub-session out of its session.
    pub fn peer_disconnect_completed(
        &mut self,
        uuid: ConnectionId,
        cid: u64,
        peer_cid: u64,
        outcome: Result<u128, String>,
    ) -> (delivery: Option<Delivery>)
        ensures
            delivery_view(delivery) == old(self)@.peer_disconnect_reply(
                uuid,
                cid,
                outcome_view(outcome),
            ),
            final(self)@ == old(self)@.after_peer_disconnect(
                uuid,
                cid,
                peer_cid,
                outcome_view(outcome),
            ),
            old(self)@.well_formed() ==> final(self)@.well_formed(),
    {
        proof {
            if old(self)@.well_formed() {
                old(self)@.lemma_peer_disconnect_well_formed(uuid, cid, peer_cid, outcome_view(outcome));
            }
        }
        match outcome {
            Ok(ticket) => {
                self.drop_peer(cid, peer_cid);
                self.reply(uuid, InternalServiceResponse::PeerDisconnectSuccess { cid, ticket })
            },
            Err(detail) => self.reply(
                uuid,
                InternalServiceResponse::PeerDisconnectFailure {
                    cid,
                    message: failed_to_disconnect(detail.as_str()),
                },
            ),
        }
    }

    /// Forwards a message that arrived on the session `cid`, or on the
    /// sub-session to `peer` within it, to the UI connection that opened that
    /// source. Where the source or that UI is gone, the message is skipped.
    pub fn inbound(&mut self, cid: u64, peer: Option<u64>, message: Vec<u8>) -> (delivery: Option<
        Delivery,
    >)
        ensures
            delivery_view(delivery) == old(self)@.inbound_delivery(cid, peer, message@),
            final(self)@ == old(self)@.sent(old(self)@.inbound_delivery(cid, peer, message@)),
            old(self)@.well_formed() ==> final(self)@.well_formed(),
    {
        proof {
            if old(self)@.well_formed() {
                old(self)@.lemma_inbound_well_formed(cid, peer, message@);
            }
        }
        match self.source_origin(cid, peer) {
            Some(origin) => {
                let peer_cid: u64 = match peer {
                    Some(p) => p,
                    None => 0,
                };
                self.reply(origin, InternalServiceResponse::MessageReceived { message, cid, peer_cid })
            },
            None => None,
        }
    }

    /// The UI connection that opened the session `cid`, or the sub-session
    /// to `peer` within it.
    pub fn source_origin(&self, cid: u64, peer: Option<u64>) -> (origin: Option<ConnectionId>)
        ensures
            match origin {
                Some(id) => self@.has_source(cid, peer) && id == self@.source_origin(cid, peer),
                None => !self@.has_source(cid, peer),
            },
    {
        match self.session(cid) {
            Some(entry) => match peer {
                Some(p) => match entry.peer(p) {
                    Some(sub) => Some(sub.origin),
                    None => None,
                },
                None => Some(entry.origin()),
            },
            None => None,
        }
    }

    /// Takes note that the stream of the session `cid`, or of the
    /// sub-session to `peer` within it, has ended: the entry leaves the
    /// table, and the UI connection that opened it is told, where it is still
    /// alive. A stream whose entry is gone already changes nothing.
    pub fn stream_ended(&mut self, cid: u64, peer: Option<u64>) -> (delivery: Option<Delivery>)
        ensures
            delivery_view(delivery) == old(self)@.ended_delivery(cid, peer),
            final(self)@ == old(self)@.after_stream_ended(cid, peer),
            old(self)@.well_formed() ==> final(self)@.well_formed(),
    {
        proof {
            if old(self)@.well_formed() {
                old(self)@.lemma_stream_ended_well_formed(cid, peer);
            }
        }
        match self.source_origin(cid, peer) {
            Some(origin) => {
                match peer {
                    Some(p) => self.drop_peer(cid, p),
                    None => {
                        let _ = self.take_session(cid);
                    },
                }
                self.reply(origin, InternalServiceResponse::Disconnected { cid, peer_cid: peer })
            },
            None => None,
        }
    }
}

} // verus!
