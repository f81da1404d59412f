//! The router as a mathematical state machine.
//!
//! A [`RouterState`] holds the two tables of the router and the record of
//! every response it has sent. Each operation of the router is a pair of
//! functions here: what is sent, and the state that follows. The contracts of
//! the executable router say that it computes exactly these.

use vstd::prelude::*;

use crate::session::{PeerEntry, SessionState};
use crate::text::{
    spec_connection_not_found,
    spec_download_unavailable,
    spec_failed_to_disconnect,
    spec_peer_cid_reserved,
    spec_peer_not_found,
    spec_server_connection_not_found,
};
use crate::types::{ConnectionId, InternalServicePayload, ResponseView};

verus! {

/// A response on its way to a UI connection, as a mathematical value.
pub struct DeliveryView {
    pub to: ConnectionId,
    pub response: ResponseView,
}

impl DeliveryView {
    /// Whether this delivery announces a new source of inbound messages.
    pub open spec fn announces_source(self) -> bool {
        self.response is ConnectSuccess || self.response is PeerConnectSuccess
    }
}

/// What the router decides on a request, as a mathematical value.
pub enum DispatchView {
    /// The UI that sent the request is gone: the request is dropped.
    Drop,
    /// The router answers by itself.
    Reply(DeliveryView),
    /// The session network has to do the work; its outcome is then handed to
    /// the completion that belongs to the request's kind.
    Perform(InternalServicePayload),
}

/// The tables of the router, and the responses it has sent so far.
pub struct RouterState<Q, C, P> {
    /// The live UI connections, each with the sender of its outbound queue.
    pub connections: Map<ConnectionId, Q>,
    /// The sessions, by cid. A map holds at most one entry for a key.
    pub sessions: Map<u64, SessionState<C, P>>,
    /// Every response sent so far, oldest first.
    pub log: Seq<DeliveryView>,
}

/// The greeting of the UI connection `id`.
pub open spec fn greeting(id: ConnectionId) -> DeliveryView {
    DeliveryView { to: id, response: ResponseView::ServiceConnectionAccepted { id } }
}

/// Whether `delivery` stands in `log` before position `before`.
pub open spec fn delivered_before(log: Seq<DeliveryView>, before: int, delivery: DeliveryView) -> bool {
    exists|j: int| 0 <= j < before && j < log.len() && #[trigger] log[j] == delivery
}

/// Whether anything was sent to `to` before position `before` of `log`.
pub open spec fn addressed_before(log: Seq<DeliveryView>, before: int, to: ConnectionId) -> bool {
    exists|j: int| 0 <= j < before && j < log.len() && (#[trigger] log[j]).to == to
}

/// Whether, before position `before`, `to` was told that the source of a
/// message exists: `ConnectSuccess` for the session `cid` where the message
/// names the peer 0, which stands for the server, and `PeerConnectSuccess`
/// for `cid` where it names another peer.
pub open spec fn announced_before(
    log: Seq<DeliveryView>,
    before: int,
    to: ConnectionId,
    cid: u64,
    peer_cid: u64,
) -> bool {
    delivered_before(log, before, announcement(to, cid, peer_cid))
}

/// The response that announces the source of a message to `to`.
pub open spec fn announcement(to: ConnectionId, cid: u64, peer_cid: u64) -> DeliveryView {
    DeliveryView {
        to,
        response: if peer_cid == 0 {
            ResponseView::ConnectSuccess { cid }
        } else {
            ResponseView::PeerConnectSuccess { cid }
        },
    }
}

/// What holds of the record of responses alone, at every moment: the first
/// response to a UI connection is its greeting, and a message is forwarded
/// only to a UI that was told before that its source exists.
pub open spec fn log_invariant(log: Seq<DeliveryView>) -> bool {
    &&& forall|i: int|
        0 <= i < log.len() && !addressed_before(log, i, (#[trigger] log[i]).to) ==> log[i]
            == greeting(log[i].to)
    &&& forall|i: int|
        0 <= i < log.len() ==> ((#[trigger] log[i]).response matches ResponseView::MessageReceived {
            cid,
            peer_cid,
            ..
        } ==> announced_before(log, i, log[i].to, cid, peer_cid))
}

impl<Q, C, P> RouterState<Q, C, P> {
    /// The router at start: no UI, no session, nothing sent.
    pub open spec fn empty() -> Self {
        RouterState { connections: Map::empty(), sessions: Map::empty(), log: Seq::empty() }
    }

    /// Whether the UI connection `id` is alive.
    pub open spec fn is_registered(self, id: ConnectionId) -> bool {
        self.connections.contains_key(id)
    }

    /// Whether the source of an inbound message exists: the session `cid`,
    /// or the sub-session to `peer` within it.
    pub open spec fn has_source(self, cid: u64, peer: Option<u64>) -> bool {
        &&& self.sessions.contains_key(cid)
        &&& peer matches Some(p) ==> self.sessions[cid].peers.contains_key(p)
    }

    /// The UI connection that opened the source of an inbound message.
    pub open spec fn source_origin(self, cid: u64, peer: Option<u64>) -> ConnectionId
        recommends
            self.has_source(cid, peer),
    {
        match peer {
            Some(p) => self.sessions[cid].peers[p].origin,
            None => self.sessions[cid].origin,
        }
    }

    /// What ties the tables to the record: every live UI was greeted, every
    /// session was announced to the UI that opened it, and so was every peer
    /// sub-session. No sub-session is held for the peer 0.
    pub open spec fn tables_invariant(self) -> bool {
        &&& forall|id: ConnectionId| #[trigger]
            self.connections.contains_key(id) ==> delivered_before(
                self.log,
                self.log.len() as int,
                greeting(id),
            )
        &&& forall|cid: u64| #[trigger]
            self.sessions.contains_key(cid) ==> delivered_before(
                self.log,
                self.log.len() as int,
                DeliveryView {
                    to: self.sessions[cid].origin,
                    response: ResponseView::ConnectSuccess { cid },
                },
            )
        &&& forall|cid: u64, p: u64|
            self.sessions.contains_key(cid) && #[trigger] self.sessions[cid].peers.contains_key(p)
                ==> delivered_before(
                self.log,
                self.log.len() as int,
                DeliveryView {
                    to: self.sessions[cid].peers[p].origin,
                    response: ResponseView::PeerConnectSuccess { cid },
                },
            )
        &&& self.no_peer_zero()
    }

    /// No session holds a sub-session for the peer 0.
    pub open spec fn no_peer_zero(self) -> bool {
        forall|cid: u64|
            self.sessions.contains_key(cid) ==> !(#[trigger] self.sessions[cid]).peers.contains_key(
                0,
            )
    }

    /// What holds of the router in every state it can reach.
    pub open spec fn well_formed(self) -> bool {
        &&& log_invariant(self.log)
        &&& self.tables_invariant()
    }

    /// The state after `delivery`, if there is one, was sent.
    pub open spec fn sent(self, delivery: Option<DeliveryView>) -> Self {
        match delivery {
            Some(d) => RouterState { log: self.log.push(d), ..self },
            None => self,
        }
    }

    /// A response on its way to `to`, or nothing where `to` is gone.
    pub open spec fn reply(self, to: ConnectionId, response: ResponseView) -> Option<DeliveryView> {
        if self.is_registered(to) {
            Some(DeliveryView { to, response })
        } else {
            None
        }
    }

    /// The state after the UI connection `id` was accepted: it is in the
    /// table with its sender, and its greeting was sent.
    pub open spec fn registered(self, id: ConnectionId, sender: Q) -> Self {
        RouterState {
            connections: self.connections.insert(id, sender),
            log: self.log.push(greeting(id)),
            ..self
        }
    }

    /// The state after a newly drawn id was offered for a UI connection: the
    /// connection is taken in where the id is free, and nothing changes where
    /// a live connection holds it.
    pub open spec fn registered_fresh(self, id: ConnectionId, sender: Q) -> Self {
        if self.is_registered(id) {
            self
        } else {
            self.registered(id, sender)
        }
    }

    /// The state after the UI connection `id` ended.
    pub open spec fn unregistered(self, id: ConnectionId) -> Self {
        RouterState { connections: self.connections.remove(id), ..self }
    }

    /// The state with `session` in the table under `cid`, in place of what
    /// was there.
    pub open spec fn with_session(self, cid: u64, session: SessionState<C, P>) -> Self {
        RouterState { sessions: self.sessions.insert(cid, session), ..self }
    }

    /// The state with `entry` as the sub-session to `peer_cid` of the
    /// session `cid`, in place of what was there; the same state where the
    /// router holds no session `cid`.
    pub open spec fn with_peer(self, cid: u64, peer_cid: u64, entry: PeerEntry<P>) -> Self {
        if self.sessions.contains_key(cid) {
            RouterState {
                sessions: self.sessions.insert(
                    cid,
                    SessionState {
                        peers: self.sessions[cid].peers.insert(peer_cid, entry),
                        ..self.sessions[cid]
                    },
                ),
                ..self
            }
        } else {
            self
        }
    }

    /// The state without the session `cid`.
    pub open spec fn without_session(self, cid: u64) -> Self {
        RouterState { sessions: self.sessions.remove(cid), ..self }
    }

    /// The failure that the router answers a request with by itself, if
    /// there is one: the request names a session or a peer that the router
    /// does not hold, it asks for a sub-session with the peer 0, or it asks
    /// for a file download.
    pub open spec fn routing_failure(self, request: InternalServicePayload) -> Option<ResponseView> {
        match request {
            InternalServicePayload::Message { cid, peer_cid, .. } => {
                if !self.sessions.contains_key(cid) {
                    Some(
                        ResponseView::MessageSendError {
                            cid,
                            message: spec_connection_not_found(cid),
                        },
                    )
                } else {
                    match peer_cid {
                        Some(p) => if self.sessions[cid].peers.contains_key(p) {
                            None
                        } else {
                            Some(
                                ResponseView::MessageSendError {
                                    cid,
                                    message: spec_peer_not_found(p),
                                },
                            )
                        },
                        None => None,
                    }
                }
            },
            InternalServicePayload::Disconnect { cid, .. } => {
                if self.sessions.contains_key(cid) {
                    None
                } else {
                    Some(
                        ResponseView::DisconnectFailure {
                            cid,
                            message: spec_connection_not_found(cid),
                        },
                    )
                }
            },
            InternalServicePayload::DownloadFile { cid, .. } => Some(
                ResponseView::DownloadFileFailure { cid, message: spec_download_unavailable() },
            ),
            InternalServicePayload::PeerRegister { cid, .. } => {
                if self.sessions.contains_key(cid) {
                    None
                } else {
                    Some(
                        ResponseView::PeerRegisterFailure {
                            cid,
                            message: spec_server_connection_not_found(),
                        },
                    )
                }
            },
            InternalServicePayload::PeerConnect { cid, peer_cid, .. } => {
                if !self.sessions.contains_key(cid) {
                    Some(
                        ResponseView::PeerConnectFailure {
                            cid,
                            message: spec_server_connection_not_found(),
                        },
                    )
                } else if peer_cid == 0 {
                    Some(
                        ResponseView::PeerConnectFailure {
                            cid,
                            message: spec_peer_cid_reserved(),
                        },
                    )
                } else {
                    None
                }
            },
            InternalServicePayload::PeerDisconnect { cid, peer_cid, .. } => {
                if !self.sessions.contains_key(cid) {
                    Some(
                        ResponseView::PeerDisconnectFailure {
                            cid,
                            message: spec_server_connection_not_found(),
                        },
                    )
                } else if !self.sessions[cid].peers.contains_key(peer_cid) {
                    Some(
                        ResponseView::PeerDisconnectFailure {
                            cid,
                            message: spec_peer_not_found(peer_cid),
                        },
                    )
                } else {
                    None
                }
            },
            _ => None,
        }
    }

    /// What the router decides on `request`.
    pub open spec fn dispatch(self, request: InternalServicePayload) -> DispatchView {
        if !self.is_registered(request.spec_uuid()) {
            DispatchView::Drop
        } else {
            match self.routing_failure(request) {
                Some(response) => DispatchView::Reply(
                    DeliveryView { to: request.spec_uuid(), response },
                ),
                None => DispatchView::Perform(request),
            }
        }
    }

    /// The state after `request` was dispatched. A `Disconnect` that goes to
    /// the session network takes the session out of the table at once,
    /// whatever the network then answers.
    pub open spec fn after_dispatch(self, request: InternalServicePayload) -> Self {
        match self.dispatch(request) {
            DispatchView::Drop => self,
            DispatchView::Reply(delivery) => self.sent(Some(delivery)),
            DispatchView::Perform(_) => match request {
                InternalServicePayload::Disconnect { cid, .. } => self.without_session(cid),
                _ => self,
            },
        }
    }

    /// The response to a `Register` whose work ended in `outcome`.
    pub open spec fn register_reply(self, uuid: ConnectionId, outcome: Result<(), Seq<char>>) -> Option<
        DeliveryView,
    > {
        self.reply(
            uuid,
            match outcome {
                Ok(_) => ResponseView::RegisterSuccess { id: uuid },
                Err(message) => ResponseView::RegisterFailure { message },
            },
        )
    }

    /// The response to a `Connect` whose work ended in `outcome`: the cid and
    /// the channel of the new session, or the network's error.
    pub open spec fn connect_reply(
        self,
        uuid: ConnectionId,
        outcome: Result<(u64, C), Seq<char>>,
    ) -> Option<DeliveryView> {
        self.reply(
            uuid,
            match outcome {
                Ok(opened) => ResponseView::ConnectSuccess { cid: opened.0 },
                Err(message) => ResponseView::ConnectionFailure { message },
            },
        )
    }

    /// The state after a `Connect` ended in `outcome`. The session enters
    /// the table only where the UI that asked for it is still there;
    /// otherwise its channel is discarded.
    pub open spec fn after_connect(
        self,
        uuid: ConnectionId,
        username: Seq<char>,
        outcome: Result<(u64, C), Seq<char>>,
    ) -> Self {
        let next = match outcome {
            Ok(opened) => if self.is_registered(uuid) {
                self.with_session(
                    opened.0,
                    SessionState { origin: uuid, username, channel: opened.1, peers: Map::empty() },
                )
            } else {
                self
            },
            Err(_) => self,
        };
        next.sent(self.connect_reply(uuid, outcome))
    }

    /// The response to a `Message` whose sending ended in `outcome`.
    pub open spec fn message_reply(
        self,
        uuid: ConnectionId,
        cid: u64,
        peer_cid: Option<u64>,
        outcome: Result<(), Seq<char>>,
    ) -> Option<DeliveryView> {
        self.reply(
            uuid,
            match outcome {
                Ok(_) => ResponseView::MessageSent { cid, peer_cid },
                Err(message) => ResponseView::MessageSendError { cid, message },
            },
        )
    }

    /// The response to a `Disconnect` whose work ended in `outcome`; an
    /// error carries the network's account of it.
    pub open spec fn disconnect_reply(
        self,
        uuid: ConnectionId,
        cid: u64,
        outcome: Result<(), Seq<char>>,
    ) -> Option<DeliveryView> {
        self.reply(
            uuid,
            match outcome {
                Ok(_) => ResponseView::DisconnectSuccess { cid },
                Err(detail) => ResponseView::DisconnectFailure {
                    cid,
                    message: spec_failed_to_disconnect(detail),
                },
            },
        )
    }

    /// The response to a `SendFile` whose work ended in `outcome`.
    pub open spec fn send_file_reply(
        self,
        uuid: ConnectionId,
        cid: u64,
        outcome: Result<(), Seq<char>>,
    ) -> Option<DeliveryView> {
        self.reply(
            uuid,
            match outcome {
                Ok(_) => ResponseView::SendFileSuccess { cid },
                Err(message) => ResponseView::SendFileFailure { cid, message },
            },
        )
    }

    /// The response to a `StartGroup` whose work ended in `outcome`.
    pub open spec fn start_group_reply(
        self,
        uuid: ConnectionId,
        cid: u64,
        outcome: Result<(), Seq<char>>,
    ) -> Option<DeliveryView> {
        self.reply(
            uuid,
            match outcome {
                Ok(_) => ResponseView::StartGroupSuccess { cid },
                Err(message) => ResponseView::StartGroupFailure { cid, message },
            },
        )
    }

    /// The response to a `PeerRegister` whose work ended in `outcome`: the
    /// cid of the peer, or the network's error. A success names the username
    /// that the session was opened for.
    pub open spec fn peer_register_reply(
        self,
        uuid: ConnectionId,
        cid: u64,
        outcome: Result<u64, Seq<char>>,
    ) -> Option<DeliveryView> {
        self.reply(
            uuid,
            match outcome {
                Ok(peer_cid) => if self.sessions.contains_key(cid) {
                    ResponseView::PeerRegisterSuccess {
                        cid,
                        peer_cid,
                        username: self.sessions[cid].username,
                    }
                } else {
                    ResponseView::PeerRegisterFailure {
                        cid,
                        message: spec_server_connection_not_found(),
                    }
                },
                Err(message) => ResponseView::PeerRegisterFailure { cid, message },
            },
        )
    }

    /// The response to a `PeerConnect` whose work ended in `outcome`: the
    /// channel to the peer, or the network's error. A channel is refused
    /// where the session is gone and where the peer is the peer 0.
    pub open spec fn peer_connect_reply(
        self,
        uuid: ConnectionId,
        cid: u64,
        peer_cid: u64,
        outcome: Result<P, Seq<char>>,
    ) -> Option<DeliveryView> {
        self.reply(
            uuid,
            match outcome {
                Ok(_) => if !self.sessions.contains_key(cid) {
                    ResponseView::PeerConnectFailure {
                        cid,
                        message: spec_server_connection_not_found(),
                    }
                } else if peer_cid == 0 {
                    ResponseView::PeerConnectFailure { cid, message: spec_peer_cid_reserved() }
                } else {
                    ResponseView::PeerConnectSuccess { cid }
                },
                Err(message) => ResponseView::PeerConnectFailure { cid, message },
            },
        )
    }

    /// The state after a `PeerConnect` ended in `outcome`. The sub-session
    /// enters the session only where the UI that asked for it and the
    /// session are both still there and the peer is not the peer 0;
    /// otherwise its channel is discarded.
    pub open spec fn after_peer_connect(
        self,
        uuid: ConnectionId,
        cid: u64,
        peer_cid: u64,
        outcome: Result<P, Seq<char>>,
    ) -> Self {
        let next = match outcome {
            Ok(channel) => if self.is_registered(uuid) && peer_cid != 0 {
                self.with_peer(cid, peer_cid, PeerEntry { origin: uuid, channel })
            } else {
                self
            },
            Err(_) => self,
        };
        next.sent(self.peer_connect_reply(uuid, cid, peer_cid, outcome))
    }

    /// The response to a `PeerDisconnect` whose work ended in `outcome`: the
    /// ticket of the disconnect, or the network's account of its failure.
    pub open spec fn peer_disconnect_reply(
        self,
        uuid: ConnectionId,
        cid: u64,
        outcome: Result<u128, Seq<char>>,
    ) -> Option<DeliveryView> {
        self.reply(
            uuid,
            match outcome {
                Ok(ticket) => ResponseView::PeerDisconnectSuccess { cid, ticket },
                Err(detail) => ResponseView::PeerDisconnectFailure {
                    cid,
                    message: spec_failed_to_disconnect(detail),
                },
            },
        )
    }

    /// The session table without the sub-session to `peer_cid` of the
    /// session `cid`.
    pub open spec fn without_peer(self, cid: u64, peer_cid: u64) -> Self {
        if self.sessions.contains_key(cid) {
            RouterState {
                sessions: self.sessions.insert(
                    cid,
                    SessionState {
                        peers: self.sessions[cid].peers.remove(peer_cid),
                        ..self.sessions[cid]
                    },
                ),
                ..self
            }
        } else {
            self
        }
    }

    /// The state after a `PeerDisconnect` ended in `outcome`: a success
    /// takes the sub-session out, a failure leaves it.
    pub open spec fn after_peer_disconnect(
        self,
        uuid: ConnectionId,
        cid: u64,
        peer_cid: u64,
        outcome: Result<u128, Seq<char>>,
    ) -> Self {
        let next = match outcome {
            Ok(_) => self.without_peer(cid, peer_cid),
            Err(_) => self,
        };
        next.sent(self.peer_disconnect_reply(uuid, cid, outcome))
    }

    /// The response that completes `request` once the session network has
    /// done its work: the reply of the completion that belongs to the
    /// request's kind, on the outcome of the shape that this kind has. A
    /// `DownloadFile` is never performed.
    pub open spec fn completion_reply(
        self,
        request: InternalServicePayload,
        done: Result<(), Seq<char>>,
        opened: Result<(u64, C), Seq<char>>,
        found: Result<u64, Seq<char>>,
        joined: Result<P, Seq<char>>,
        ticket: Result<u128, Seq<char>>,
    ) -> Option<DeliveryView> {
        match request {
            InternalServicePayload::Connect { uuid, .. } => self.connect_reply(uuid, opened),
            InternalServicePayload::Register { uuid, .. } => self.register_reply(uuid, done),
            InternalServicePayload::Message { uuid, cid, peer_cid, .. } => self.message_reply(
                uuid,
                cid,
                peer_cid,
                done,
            ),
            InternalServicePayload::Disconnect { uuid, cid } => self.disconnect_reply(
                uuid,
                cid,
                done,
            ),
            InternalServicePayload::SendFile { uuid, cid, .. } => self.send_file_reply(
                uuid,
                cid,
                done,
            ),
            InternalServicePayload::DownloadFile { .. } => None,
            InternalServicePayload::StartGroup { uuid, cid, .. } => self.start_group_reply(
                uuid,
                cid,
                done,
            ),
            InternalServicePayload::PeerRegister { uuid, cid, .. } => self.peer_register_reply(
                uuid,
                cid,
                found,
            ),
            InternalServicePayload::PeerConnect { uuid, cid, peer_cid, .. } => {
                self.peer_connect_reply(uuid, cid, peer_cid, joined)
            },
            InternalServicePayload::PeerDisconnect { uuid, cid, .. } => self.peer_disconnect_reply(
                uuid,
                cid,
                ticket,
            ),
        }
    }

    /// The responses that `request` gets in all: what the router sends when
    /// it dispatches the request and, where the request is performed, what
    /// the completion of its kind sends afterwards.
    pub open spec fn responses_to(
        self,
        request: InternalServicePayload,
        done: Result<(), Seq<char>>,
        opened: Result<(u64, C), Seq<char>>,
        found: Result<u64, Seq<char>>,
        joined: Result<P, Seq<char>>,
        ticket: Result<u128, Seq<char>>,
    ) -> Seq<DeliveryView> {
        match self.dispatch(request) {
            DispatchView::Drop => Seq::empty(),
            DispatchView::Reply(delivery) => seq![delivery],
            DispatchView::Perform(_) => match self.after_dispatch(request).completion_reply(
                request,
                done,
                opened,
                found,
                joined,
                ticket,
            ) {
                Some(delivery) => seq![delivery],
                None => Seq::empty(),
            },
        }
    }

    /// The event that forwards a message from the session `cid`, or from the
    /// sub-session to `peer` within it, to the UI that opened that source.
    /// Nothing is forwarded where the source or that UI is gone.
    pub open spec fn inbound_delivery(self, cid: u64, peer: Option<u64>, message: Seq<u8>) -> Option<
        DeliveryView,
    > {
        if self.has_source(cid, peer) {
            self.reply(
                self.source_origin(cid, peer),
                ResponseView::MessageReceived {
                    message,
                    cid,
                    peer_cid: match peer {
                        Some(p) => p,
                        None => 0,
                    },
                },
            )
        } else {
            None
        }
    }

    /// The event that tells the UI that opened the session `cid`, or the
    /// sub-session to `peer` within it, that its stream has ended.
    pub open spec fn ended_delivery(self, cid: u64, peer: Option<u64>) -> Option<DeliveryView> {
        if self.has_source(cid, peer) {
            self.reply(
                self.source_origin(cid, peer),
                ResponseView::Disconnected { cid, peer_cid: peer },
            )
        } else {
            None
        }
    }

    /// The state after the stream of the session `cid`, or of the
    /// sub-session to `peer` within it, has ended: the entry is gone.
    pub open spec fn after_stream_ended(self, cid: u64, peer: Option<u64>) -> Self {
        let next = if self.has_source(cid, peer) {
            match peer {
                Some(p) => self.without_peer(cid, p),
                None => self.without_session(cid),
            }
        } else {
            self
        };
        next.sent(self.ended_delivery(cid, peer))
    }
}

/// Whatever was sent before position `before` of a record is still there,
/// at the same place, after one more response is sent.
pub proof fn lemma_delivered_stays(
    log: Seq<DeliveryView>,
    before: int,
    delivery: DeliveryView,
    next: DeliveryView,
)
    requires
        delivered_before(log, before, delivery),
    ensures
        delivered_before(log.push(next), before, delivery),
        delivered_before(log.push(next), log.len() as int + 1, delivery),
{
    let j = choose|j: int| 0 <= j < before && j < log.len() && #[trigger] log[j] == delivery;
    assert(log.push(next)[j] == delivery);
}

/// The response that was sent last stands in the record.
pub proof fn lemma_delivered_last(log: Seq<DeliveryView>, next: DeliveryView)
    ensures
        delivered_before(log.push(next), log.len() as int + 1, next),
{
    assert(log.push(next)[log.len() as int] == next);
}

/// A record stays in order when a response is added that is either the
/// greeting of its destination or goes to a destination that was addressed
/// before, and that, where it forwards a message, goes to a UI that was told
/// of the message's source.
pub proof fn lemma_log_push(log: Seq<DeliveryView>, next: DeliveryView)
    requires
        log_invariant(log),
        next == greeting(next.to) || addressed_before(log, log.len() as int, next.to),
        next.response matches ResponseView::MessageReceived { cid, peer_cid, .. }
            ==> announced_before(log, log.len() as int, next.to, cid, peer_cid),
    ensures
        log_invariant(log.push(next)),
{
    let after = log.push(next);
    assert forall|i: int|
        0 <= i < after.len() && !addressed_before(after, i, (#[trigger] after[i]).to) implies after[i]
        == greeting(after[i].to) by {
        if i < log.len() {
            assert(after[i] == log[i]);
            if addressed_before(log, i, log[i].to) {
                let j = choose|j: int|
                    0 <= j < i && j < log.len() && (#[trigger] log[j]).to == log[i].to;
                assert(after[j].to == after[i].to);
                assert(addressed_before(after, i, after[i].to));
            }
        } else {
            assert(after[i] == next);
            if addressed_before(log, log.len() as int, next.to) {
                let j = choose|j: int|
                    0 <= j < log.len() && j < log.len() && (#[trigger] log[j]).to == next.to;
                assert(after[j].to == next.to);
                assert(addressed_before(after, i, after[i].to));
            }
        }
    }
    assert forall|i: int| 0 <= i < after.len() implies ((#[trigger] after[i]).response matches ResponseView::MessageReceived {
        cid,
        peer_cid,
        ..
    } ==> announced_before(after, i, after[i].to, cid, peer_cid)) by {
        if let ResponseView::MessageReceived { cid, peer_cid, .. } = after[i].response {
            let to = after[i].to;
            if i < log.len() {
                assert(after[i] == log[i]);
            } else {
                assert(after[i] == next);
            }
            assert(announced_before(log, i, to, cid, peer_cid));
            lemma_delivered_stays(log, i, announcement(to, cid, peer_cid), next);
        }
    }
}

impl<Q, C, P> RouterState<Q, C, P> {
    /// The tables stay tied to the record when one more response is sent.
    pub proof fn lemma_tables_outlast_sending(self, next: DeliveryView)
        requires
            self.tables_invariant(),
        ensures
            self.sent(Some(next)).tables_invariant(),
    {
        let after = self.sent(Some(next));
        assert forall|id: ConnectionId| #[trigger]
            after.connections.contains_key(id) implies delivered_before(
            after.log,
            after.log.len() as int,
            greeting(id),
        ) by {
            lemma_delivered_stays(self.log, self.log.len() as int, greeting(id), next);
        }
        assert forall|cid: u64| #[trigger] after.sessions.contains_key(cid) implies delivered_before(
            after.log,
            after.log.len() as int,
            DeliveryView {
                to: after.sessions[cid].origin,
                response: ResponseView::ConnectSuccess { cid },
            },
        ) by {
            lemma_delivered_stays(
                self.log,
                self.log.len() as int,
                DeliveryView {
                    to: self.sessions[cid].origin,
                    response: ResponseView::ConnectSuccess { cid },
                },
                next,
            );
        }
        assert forall|cid: u64, p: u64|
            after.sessions.contains_key(cid) && #[trigger] after.sessions[cid].peers.contains_key(
                p,
            ) implies delivered_before(
            after.log,
            after.log.len() as int,
            DeliveryView {
                to: after.sessions[cid].peers[p].origin,
                response: ResponseView::PeerConnectSuccess { cid },
            },
        ) by {
            lemma_delivered_stays(
                self.log,
                self.log.len() as int,
                DeliveryView {
                    to: self.sessions[cid].peers[p].origin,
                    response: ResponseView::PeerConnectSuccess { cid },
                },
                next,
            );
        }
    }

    /// A live UI connection was addressed before: by its greeting.
    pub proof fn lemma_registered_was_greeted(self, id: ConnectionId)
        requires
            self.tables_invariant(),
            self.is_registered(id),
        ensures
            addressed_before(self.log, self.log.len() as int, id),
    {
        let j = choose|j: int|
            0 <= j < self.log.len() && j < self.log.len() && #[trigger] self.log[j] == greeting(id);
        assert(self.log[j].to == id);
    }

    /// Sending a response other than a forwarded message to a live UI
    /// connection keeps the state well formed.
    pub proof fn lemma_sending_keeps_well_formed(self, delivery: Option<DeliveryView>)
        requires
            self.well_formed(),
            delivery matches Some(d) ==> self.is_registered(d.to) && !(d.response is MessageReceived),
        ensures
            self.sent(delivery).well_formed(),
    {
        if let Some(d) = delivery {
            self.lemma_registered_was_greeted(d.to);
            lemma_log_push(self.log, d);
            self.lemma_tables_outlast_sending(d);
        }
    }

    /// Accepting a UI connection keeps the state well formed.
    pub proof fn lemma_registered_well_formed(self, id: ConnectionId, sender: Q)
        requires
            self.well_formed(),
        ensures
            self.registered(id, sender).well_formed(),
    {
        let after = self.registered(id, sender);
        lemma_log_push(self.log, greeting(id));
        self.lemma_tables_outlast_sending(greeting(id));
        lemma_delivered_last(self.log, greeting(id));
        assert(self.sent(Some(greeting(id))).tables_invariant());
        assert forall|other: ConnectionId| #[trigger]
            after.connections.contains_key(other) implies delivered_before(
            after.log,
            after.log.len() as int,
            greeting(other),
        ) by {
            if other != id {
                assert(self.connections.contains_key(other));
                lemma_delivered_stays(self.log, self.log.len() as int, greeting(other), greeting(id));
            }
        }
    }

    /// The end of a UI connection keeps the state well formed.
    pub proof fn lemma_unregistered_well_formed(self, id: ConnectionId)
        requires
            self.well_formed(),
        ensures
            self.unregistered(id).well_formed(),
    {
    }

    /// Dispatching a request keeps the state well formed.
    pub proof fn lemma_dispatch_well_formed(self, request: InternalServicePayload)
        requires
            self.well_formed(),
        ensures
            self.after_dispatch(request).well_formed(),
    {
        match self.dispatch(request) {
            DispatchView::Drop => {},
            DispatchView::Reply(delivery) => {
                self.lemma_sending_keeps_well_formed(Some(delivery));
            },
            DispatchView::Perform(_) => {},
        }
    }

    /// A session that was announced to the UI that opened it, and has no
    /// sub-sessions yet, may enter the table.
    pub proof fn lemma_with_session_well_formed(self, cid: u64, session: SessionState<C, P>)
        requires
            self.well_formed(),
            session.peers == Map::<u64, PeerEntry<P>>::empty(),
            delivered_before(
                self.log,
                self.log.len() as int,
                DeliveryView { to: session.origin, response: ResponseView::ConnectSuccess { cid } },
            ),
        ensures
            self.with_session(cid, session).well_formed(),
    {
        let after = self.with_session(cid, session);
        assert forall|c: u64| #[trigger] after.sessions.contains_key(c) implies delivered_before(
            after.log,
            after.log.len() as int,
            DeliveryView {
                to: after.sessions[c].origin,
                response: ResponseView::ConnectSuccess { cid: c },
            },
        ) by {
            if c != cid {
                assert(self.sessions.contains_key(c));
            }
        }
        assert forall|c: u64, p: u64|
            after.sessions.contains_key(c) && #[trigger] after.sessions[c].peers.contains_key(
                p,
            ) implies delivered_before(
            after.log,
            after.log.len() as int,
            DeliveryView {
                to: after.sessions[c].peers[p].origin,
                response: ResponseView::PeerConnectSuccess { cid: c },
            },
        ) by {
            assert(c != cid);
            assert(self.sessions.contains_key(c));
            assert(self.sessions[c].peers.contains_key(p));
        }
    }

    /// A sub-session with a peer other than 0 that was announced to the UI
    /// that opened it may enter its session.
    pub proof fn lemma_with_peer_well_formed(self, cid: u64, peer_cid: u64, entry: PeerEntry<P>)
        requires
            self.well_formed(),
            peer_cid != 0,
            delivered_before(
                self.log,
                self.log.len() as int,
                DeliveryView {
                    to: entry.origin,
                    response: ResponseView::PeerConnectSuccess { cid },
                },
            ),
        ensures
            self.with_peer(cid, peer_cid, entry).well_formed(),
    {
        let after = self.with_peer(cid, peer_cid, entry);
        if self.sessions.contains_key(cid) {
            assert forall|c: u64| #[trigger] after.sessions.contains_key(c) implies delivered_before(
                after.log,
                after.log.len() as int,
                DeliveryView {
                    to: after.sessions[c].origin,
                    response: ResponseView::ConnectSuccess { cid: c },
                },
            ) by {
                assert(self.sessions.contains_key(c));
            }
            assert forall|c: u64, p: u64|
                after.sessions.contains_key(c) && #[trigger] after.sessions[c].peers.contains_key(
                    p,
                ) implies delivered_before(
                after.log,
                after.log.len() as int,
                DeliveryView {
                    to: after.sessions[c].peers[p].origin,
                    response: ResponseView::PeerConnectSuccess { cid: c },
                },
            ) by {
                assert(self.sessions.contains_key(c));
                if !(c == cid && p == peer_cid) {
                    assert(self.sessions[c].peers.contains_key(p));
                }
            }
        }
    }

    /// The completion of a `Connect` keeps the state well formed.
    pub proof fn lemma_connect_well_formed(
        self,
        uuid: ConnectionId,
        username: Seq<char>,
        outcome: Result<(u64, C), Seq<char>>,
    )
        requires
            self.well_formed(),
        ensures
            self.after_connect(uuid, username, outcome).well_formed(),
    {
        let delivery = self.connect_reply(uuid, outcome);
        let told = self.sent(delivery);
        self.lemma_sending_keeps_well_formed(delivery);
        if let Some(d) = delivery {
            if let Ok(opened) = outcome {
                let session = SessionState {
                    origin: uuid,
                    username,
                    channel: opened.1,
                    peers: Map::<u64, PeerEntry<P>>::empty(),
                };
                lemma_delivered_last(self.log, d);
                told.lemma_with_session_well_formed(opened.0, session);
                assert(self.after_connect(uuid, username, outcome) == told.with_session(
                    opened.0,
                    session,
                ));
            }
        }
    }

    /// The completion of a `PeerConnect` keeps the state well formed.
    pub proof fn lemma_peer_connect_well_formed(
        self,
        uuid: ConnectionId,
        cid: u64,
        peer_cid: u64,
        outcome: Result<P, Seq<char>>,
    )
        requires
            self.well_formed(),
        ensures
            self.after_peer_connect(uuid, cid, peer_cid, outcome).well_formed(),
    {
        let delivery = self.peer_connect_reply(uuid, cid, peer_cid, outcome);
        let told = self.sent(delivery);
        self.lemma_sending_keeps_well_formed(delivery);
        if let Some(d) = delivery {
            if let Ok(channel) = outcome {
                if self.sessions.contains_key(cid) && peer_cid != 0 {
                    let entry = PeerEntry { origin: uuid, channel };
                    lemma_delivered_last(self.log, d);
                    told.lemma_with_peer_well_formed(cid, peer_cid, entry);
                    assert(self.after_peer_connect(uuid, cid, peer_cid, outcome) == told.with_peer(
                        cid,
                        peer_cid,
                        entry,
                    ));
                }
            }
        }
    }

    /// Taking a sub-session out keeps the state well formed.
    pub proof fn lemma_without_peer_well_formed(self, cid: u64, peer_cid: u64)
        requires
            self.well_formed(),
        ensures
            self.without_peer(cid, peer_cid).well_formed(),
    {
        let after = self.without_peer(cid, peer_cid);
        assert forall|c: u64, p: u64|
            after.sessions.contains_key(c) && #[trigger] after.sessions[c].peers.contains_key(
                p,
            ) implies delivered_before(
            after.log,
            after.log.len() as int,
            DeliveryView {
                to: after.sessions[c].peers[p].origin,
                response: ResponseView::PeerConnectSuccess { cid: c },
            },
        ) by {
            assert(self.sessions.contains_key(c));
            assert(self.sessions[c].peers.contains_key(p));
        }
    }

    /// The completion of a `PeerDisconnect` keeps the state well formed.
    pub proof fn lemma_peer_disconnect_well_formed(
        self,
        uuid: ConnectionId,
        cid: u64,
        peer_cid: u64,
        outcome: Result<u128, Seq<char>>,
    )
        requires
            self.well_formed(),
        ensures
            self.after_peer_disconnect(uuid, cid, peer_cid, outcome).well_formed(),
    {
        let next = match outcome {
            Ok(_) => self.without_peer(cid, peer_cid),
            Err(_) => self,
        };
        self.lemma_without_peer_well_formed(cid, peer_cid);
        next.lemma_sending_keeps_well_formed(self.peer_disconnect_reply(uuid, cid, outcome));
    }

    /// Forwarding an inbound message keeps the state well formed: the UI it
    /// goes to was told of its source.
    pub proof fn lemma_inbound_well_formed(self, cid: u64, peer: Option<u64>, message: Seq<u8>)
        requires
            self.well_formed(),
        ensures
            self.sent(self.inbound_delivery(cid, peer, message)).well_formed(),
    {
        if let Some(d) = self.inbound_delivery(cid, peer, message) {
            self.lemma_registered_was_greeted(d.to);
            match peer {
                Some(p) => {
                    assert(self.sessions[cid].peers.contains_key(p));
                    assert(p != 0);
                    assert(d.response->MessageReceived_peer_cid == p);
                },
                None => {
                    assert(d.response->MessageReceived_peer_cid == 0);
                },
            }
            assert(announced_before(
                self.log,
                self.log.len() as int,
                d.to,
                cid,
                d.response->MessageReceived_peer_cid,
            ));
            lemma_log_push(self.log, d);
            self.lemma_tables_outlast_sending(d);
        }
    }

    /// The end of a stream keeps the state well formed.
    pub proof fn lemma_stream_ended_well_formed(self, cid: u64, peer: Option<u64>)
        requires
            self.well_formed(),
        ensures
            self.after_stream_ended(cid, peer).well_formed(),
    {
        let next = if self.has_source(cid, peer) {
            match peer {
                Some(p) => self.without_peer(cid, p),
                None => self.without_session(cid),
            }
        } else {
            self
        };
        if let Some(p) = peer {
            self.lemma_without_peer_well_formed(cid, p);
        }
        next.lemma_sending_keeps_well_formed(self.ended_delivery(cid, peer));
    }
}

} // verus!
