//! What holds of the router whatever it is asked.
//!
//! Each proof function here states one law over the state machine of
//! [`crate::model`]. The executable router computes that state machine, so
//! the laws hold of every router that was made by `Router::new` and driven
//! through its operations.

use vstd::prelude::*;

use crate::model::{
    addressed_before,
    announcement,
    delivered_before,
    greeting,
    DeliveryView,
    DispatchView,
    RouterState,
};
use crate::session::{PeerEntry, SessionState};
use crate::text::{spec_connection_not_found, spec_peer_not_found};
use crate::types::{
    ConnectionId,
    InternalServicePayload,
    RequestKind,
    ResponseView,
    SecurityLevel,
};

verus! {

/// The first response that goes to a UI connection is its greeting, which
/// names the connection: a response that no earlier one to the same
/// connection precedes is `ServiceConnectionAccepted` with that connection's
/// id.
pub proof fn lemma_first_response_is_greeting<Q, C, P>(state: RouterState<Q, C, P>, i: int)
    requires
        state.well_formed(),
        0 <= i < state.log.len(),
        !addressed_before(state.log, i, state.log[i].to),
    ensures
        state.log[i].response == (ResponseView::ServiceConnectionAccepted { id: state.log[i].to }),
{
}

/// Accepting a UI connection sends its greeting at once, before anything
/// else can be sent to it.
pub proof fn lemma_greeting_is_sent_on_accept<Q, C, P>(
    state: RouterState<Q, C, P>,
    id: ConnectionId,
    sender: Q,
)
    ensures
        state.registered(id, sender).log == state.log.push(greeting(id)),
        state.registered(id, sender).is_registered(id),
        state.registered(id, sender).connections[id] == sender,
{
}

/// A UI connection is accepted under an id that no live connection holds:
/// an id that is taken changes nothing, so that no live connection loses its
/// sender, and an id that is free brings the connection in with its greeting.
/// Two live connections never share an id.
pub proof fn lemma_accepted_id_is_new<Q, C, P>(
    state: RouterState<Q, C, P>,
    id: ConnectionId,
    sender: Q,
)
    ensures
        state.is_registered(id) ==> state.registered_fresh(id, sender) == state,
        !state.is_registered(id) ==> state.registered_fresh(id, sender) == state.registered(
            id,
            sender,
        ),
        forall|other: ConnectionId| #[trigger]
            state.is_registered(other) ==> state.registered_fresh(id, sender).is_registered(other)
                && state.registered_fresh(id, sender).connections[other]
                == state.connections[other],
        state.connections.dom().finite() && !state.is_registered(id) ==> state.registered_fresh(
            id,
            sender,
        ).connections.len() == state.connections.len() + 1,
{
}

/// A response that is addressed to a live UI connection is recorded once,
/// as it is, at the end of the record, and the tables stay as they are; a
/// response to a connection that is gone is not recorded at all.
pub proof fn lemma_reply_is_recorded_once<Q, C, P>(
    state: RouterState<Q, C, P>,
    to: ConnectionId,
    response: ResponseView,
)
    ensures
        state.is_registered(to) ==> state.reply(to, response) == Some(
            DeliveryView { to, response },
        ) && state.sent(state.reply(to, response)).log == state.log.push(
            DeliveryView { to, response },
        ),
        !state.is_registered(to) ==> state.reply(to, response) is None && state.sent(
            state.reply(to, response),
        ).log == state.log,
        state.sent(state.reply(to, response)).connections == state.connections,
        state.sent(state.reply(to, response)).sessions == state.sessions,
{
}

/// The table holds at most one session for a cid: when a session enters
/// under `cid`, it is what the table holds for `cid`, every other cid keeps
/// what it had, and the table grows by one entry or, where `cid` was there
/// already, not at all.
pub proof fn lemma_one_session_per_cid<Q, C, P>(
    state: RouterState<Q, C, P>,
    cid: u64,
    session: SessionState<C, P>,
)
    requires
        state.sessions.dom().finite(),
    ensures
        state.with_session(cid, session).sessions[cid] == session,
        forall|other: u64|
            other != cid ==> (#[trigger] state.with_session(cid, session).sessions.contains_key(other)
                <==> state.sessions.contains_key(other)),
        forall|other: u64|
            other != cid && state.sessions.contains_key(other) ==> #[trigger] state.with_session(
                cid,
                session,
            ).sessions[other] == state.sessions[other],
        state.with_session(cid, session).sessions.len() == if state.sessions.contains_key(cid) {
            state.sessions.len()
        } else {
            state.sessions.len() + 1
        },
{
}

/// A session holds at most one sub-session for a peer: when a sub-session
/// enters under `(cid, peer_cid)`, it is what the session holds for that
/// peer, and every other peer, in this session and in all others, keeps what
/// it had.
pub proof fn lemma_one_entry_per_peer_of_session<Q, C, P>(
    state: RouterState<Q, C, P>,
    cid: u64,
    peer_cid: u64,
    entry: PeerEntry<P>,
)
    requires
        state.sessions.contains_key(cid),
    ensures
        state.with_peer(cid, peer_cid, entry).sessions[cid].peers[peer_cid] == entry,
        forall|c: u64, p: u64|
            !(c == cid && p == peer_cid) ==> (state.with_peer(cid, peer_cid, entry).has_source(
                c,
                Some(p),
            ) <==> state.has_source(c, Some(p))),
        forall|c: u64, p: u64|
            !(c == cid && p == peer_cid) && state.has_source(c, Some(p)) ==> state.with_peer(
                cid,
                peer_cid,
                entry,
            ).sessions[c].peers[p] == state.sessions[c].peers[p],
{
}

/// Every request of a live UI gets exactly one response, on the connection
/// it came from, and that response is a terminal one of its kind: the router
/// sends it at once, or the completion of the request sends it, whatever the
/// outcome of the work.
pub proof fn lemma_exactly_one_terminal_response<Q, C, P>(
    state: RouterState<Q, C, P>,
    request: InternalServicePayload,
    done: Result<(), Seq<char>>,
    opened: Result<(u64, C), Seq<char>>,
    found: Result<u64, Seq<char>>,
    joined: Result<P, Seq<char>>,
    ticket: Result<u128, Seq<char>>,
)
    requires
        state.is_registered(request.spec_uuid()),
    ensures
        state.responses_to(request, done, opened, found, joined, ticket).len() == 1,
        state.responses_to(request, done, opened, found, joined, ticket)[0].to
            == request.spec_uuid(),
        state.responses_to(
            request,
            done,
            opened,
            found,
            joined,
            ticket,
        )[0].response.is_terminal_for(request.spec_kind()),
{
}

/// A request whose UI is gone gets no response.
pub proof fn lemma_dropped_request_gets_no_response<Q, C, P>(
    state: RouterState<Q, C, P>,
    request: InternalServicePayload,
    done: Result<(), Seq<char>>,
    opened: Result<(u64, C), Seq<char>>,
    found: Result<u64, Seq<char>>,
    joined: Result<P, Seq<char>>,
    ticket: Result<u128, Seq<char>>,
)
    requires
        !state.is_registered(request.spec_uuid()),
    ensures
        state.responses_to(request, done, opened, found, joined, ticket).len() == 0,
{
}

/// A request of a live UI is answered at once with a terminal response of
/// its kind, addressed to that UI, or comes back unchanged to be performed.
/// The router sends exactly one response in the first case and none in the
/// second. A file download is always answered at once.
pub proof fn lemma_dispatch_answers_or_performs<Q, C, P>(
    state: RouterState<Q, C, P>,
    request: InternalServicePayload,
)
    requires
        state.is_registered(request.spec_uuid()),
    ensures
        match state.dispatch(request) {
            DispatchView::Drop => false,
            DispatchView::Reply(delivery) => {
                &&& delivery.to == request.spec_uuid()
                &&& delivery.response.is_terminal_for(request.spec_kind())
                &&& state.after_dispatch(request).log == state.log.push(delivery)
            },
            DispatchView::Perform(performed) => {
                &&& performed == request
                &&& request.spec_kind() != RequestKind::DownloadFile
                &&& state.after_dispatch(request).log == state.log
            },
        },
{
}

/// A request whose UI is gone is dropped: nothing is sent and nothing
/// changes.
pub proof fn lemma_request_of_closed_connection_is_dropped<Q, C, P>(
    state: RouterState<Q, C, P>,
    request: InternalServicePayload,
)
    requires
        !state.is_registered(request.spec_uuid()),
    ensures
        state.dispatch(request) == DispatchView::Drop,
        state.after_dispatch(request) == state,
{
}

/// Every completion sends exactly one response to the UI that asked, while
/// that UI is alive, and the response is a terminal one of the request's
/// kind, whatever the outcome of the work was.
pub proof fn lemma_completion_is_terminal<Q, C, P>(
    state: RouterState<Q, C, P>,
    uuid: ConnectionId,
    cid: u64,
    peer_cid: Option<u64>,
    peer: u64,
    done: Result<(), Seq<char>>,
    opened: Result<(u64, C), Seq<char>>,
    found: Result<u64, Seq<char>>,
    joined: Result<P, Seq<char>>,
    ticket: Result<u128, Seq<char>>,
)
    requires
        state.is_registered(uuid),
    ensures
        state.register_reply(uuid, done) matches Some(d) && d.to == uuid
            && d.response.is_terminal_for(RequestKind::Register),
        state.connect_reply(uuid, opened) matches Some(d) && d.to == uuid
            && d.response.is_terminal_for(RequestKind::Connect),
        state.message_reply(uuid, cid, peer_cid, done) matches Some(d) && d.to == uuid
            && d.response.is_terminal_for(RequestKind::Message),
        state.disconnect_reply(uuid, cid, done) matches Some(d) && d.to == uuid
            && d.response.is_terminal_for(RequestKind::Disconnect),
        state.send_file_reply(uuid, cid, done) matches Some(d) && d.to == uuid
            && d.response.is_terminal_for(RequestKind::SendFile),
        state.start_group_reply(uuid, cid, done) matches Some(d) && d.to == uuid
            && d.response.is_terminal_for(RequestKind::StartGroup),
        state.peer_register_reply(uuid, cid, found) matches Some(d) && d.to == uuid
            && d.response.is_terminal_for(RequestKind::PeerRegister),
        state.peer_connect_reply(uuid, cid, peer, joined) matches Some(d) && d.to == uuid
            && d.response.is_terminal_for(RequestKind::PeerConnect),
        state.peer_disconnect_reply(uuid, cid, ticket) matches Some(d) && d.to == uuid
            && d.response.is_terminal_for(RequestKind::PeerDisconnect),
{
}

/// A completion for a UI that is gone sends nothing.
pub proof fn lemma_completion_for_closed_connection_is_silent<Q, C, P>(
    state: RouterState<Q, C, P>,
    uuid: ConnectionId,
    cid: u64,
    peer_cid: Option<u64>,
    peer: u64,
    done: Result<(), Seq<char>>,
    opened: Result<(u64, C), Seq<char>>,
    found: Result<u64, Seq<char>>,
    joined: Result<P, Seq<char>>,
    ticket: Result<u128, Seq<char>>,
)
    requires
        !state.is_registered(uuid),
    ensures
        state.register_reply(uuid, done) is None,
        state.connect_reply(uuid, opened) is None,
        state.message_reply(uuid, cid, peer_cid, done) is None,
        state.disconnect_reply(uuid, cid, done) is None,
        state.send_file_reply(uuid, cid, done) is None,
        state.start_group_reply(uuid, cid, done) is None,
        state.peer_register_reply(uuid, cid, found) is None,
        state.peer_connect_reply(uuid, cid, peer, joined) is None,
        state.peer_disconnect_reply(uuid, cid, ticket) is None,
{
}

/// A forwarded message follows the announcement of its source: before a
/// `MessageReceived` for the session `cid` that names the peer 0, the same
/// UI connection was sent `ConnectSuccess` for `cid`; before one that names
/// another peer, it was sent `PeerConnectSuccess` for `cid`.
pub proof fn lemma_message_follows_announcement<Q, C, P>(state: RouterState<Q, C, P>, i: int)
    requires
        state.well_formed(),
        0 <= i < state.log.len(),
        state.log[i].response is MessageReceived,
    ensures
        ({
            let to = state.log[i].to;
            let cid = state.log[i].response->MessageReceived_cid;
            let peer_cid = state.log[i].response->MessageReceived_peer_cid;
            &&& peer_cid == 0 ==> delivered_before(
                state.log,
                i,
                DeliveryView { to, response: ResponseView::ConnectSuccess { cid } },
            )
            &&& peer_cid != 0 ==> delivered_before(
                state.log,
                i,
                DeliveryView { to, response: ResponseView::PeerConnectSuccess { cid } },
            )
        }),
{
    let to = state.log[i].to;
    let cid = state.log[i].response->MessageReceived_cid;
    let peer_cid = state.log[i].response->MessageReceived_peer_cid;
    assert(delivered_before(state.log, i, announcement(to, cid, peer_cid)));
}

/// No sub-session is ever held for the peer 0: in a forwarded message the
/// peer 0 stands for the server. A `PeerConnect` that names it is answered
/// with `PeerConnectFailure`, at once where the session is there, and a
/// channel that the network opened for it all the same is discarded.
pub proof fn lemma_peer_zero_is_the_server<Q, C, P>(
    state: RouterState<Q, C, P>,
    request: InternalServicePayload,
    uuid: ConnectionId,
    cid: u64,
    channel: P,
)
    requires
        state.well_formed(),
        request matches InternalServicePayload::PeerConnect { peer_cid, .. } && peer_cid == 0,
        state.is_registered(request.spec_uuid()),
    ensures
        !state.has_source(cid, Some(0)),
        state.dispatch(request) matches DispatchView::Reply(d) && d.response
            is PeerConnectFailure,
        state.after_peer_connect(uuid, cid, 0, Ok(channel)).sessions == state.sessions,
        !(state.peer_connect_reply(uuid, cid, 0, Ok(channel)) matches Some(d) && d.response
            is PeerConnectSuccess),
{
    if state.sessions.contains_key(cid) {
        assert(!state.sessions[cid].peers.contains_key(0));
    }
}

/// A message from the server of a session goes to the UI connection that
/// opened the session, and that connection was sent `ConnectSuccess` for the
/// session before; a message from a peer goes to the UI connection that
/// opened the sub-session, which was sent `PeerConnectSuccess` before.
pub proof fn lemma_inbound_goes_to_the_opener<Q, C, P>(
    state: RouterState<Q, C, P>,
    cid: u64,
    peer: Option<u64>,
    message: Seq<u8>,
)
    requires
        state.well_formed(),
        state.inbound_delivery(cid, peer, message) is Some,
    ensures
        ({
            let delivery = state.inbound_delivery(cid, peer, message)->Some_0;
            &&& delivery.to == state.source_origin(cid, peer)
            &&& delivery.response == (ResponseView::MessageReceived {
                message,
                cid,
                peer_cid: match peer {
                    Some(p) => p,
                    None => 0,
                },
            })
            &&& delivered_before(
                state.log,
                state.log.len() as int,
                DeliveryView {
                    to: delivery.to,
                    response: match peer {
                        Some(_) => ResponseView::PeerConnectSuccess { cid },
                        None => ResponseView::ConnectSuccess { cid },
                    },
                },
            )
        }),
{
    if let Some(p) = peer {
        assert(state.sessions[cid].peers.contains_key(p));
    }
}

/// A message to a session that the router does not hold fails at once with
/// `MessageSendError` for that session, whoever sends it.
pub proof fn lemma_message_to_unknown_session_fails<Q, C, P>(
    state: RouterState<Q, C, P>,
    uuid: ConnectionId,
    message: Vec<u8>,
    cid: u64,
    peer_cid: Option<u64>,
    security_level: SecurityLevel,
)
    requires
        state.is_registered(uuid),
        !state.sessions.contains_key(cid),
    ensures
        state.dispatch(
            InternalServicePayload::Message { uuid, message, cid, peer_cid, security_level },
        ) == DispatchView::Reply(
            DeliveryView {
                to: uuid,
                response: ResponseView::MessageSendError {
                    cid,
                    message: spec_connection_not_found(cid),
                },
            },
        ),
{
}

/// A message to a peer that the session does not hold fails at once with
/// `MessageSendError`.
pub proof fn lemma_message_to_unknown_peer_fails<Q, C, P>(
    state: RouterState<Q, C, P>,
    uuid: ConnectionId,
    message: Vec<u8>,
    cid: u64,
    peer_cid: u64,
    security_level: SecurityLevel,
)
    requires
        state.is_registered(uuid),
        state.sessions.contains_key(cid),
        !state.sessions[cid].peers.contains_key(peer_cid),
    ensures
        state.dispatch(
            InternalServicePayload::Message {
                uuid,
                message,
                cid,
                peer_cid: Some(peer_cid),
                security_level,
            },
        ) == DispatchView::Reply(
            DeliveryView {
                to: uuid,
                response: ResponseView::MessageSendError {
                    cid,
                    message: spec_peer_not_found(peer_cid),
                },
            },
        ),
{
}

/// Once a `Disconnect` of a live UI was dispatched, the session is gone,
/// whatever the session network answers, and a message to it fails with
/// `MessageSendError`.
pub proof fn lemma_message_after_disconnect_fails<Q, C, P>(
    state: RouterState<Q, C, P>,
    uuid: ConnectionId,
    cid: u64,
    sender: ConnectionId,
    message: Vec<u8>,
    peer_cid: Option<u64>,
    security_level: SecurityLevel,
)
    requires
        state.is_registered(uuid),
        state.is_registered(sender),
    ensures
        ({
            let after = state.after_dispatch(InternalServicePayload::Disconnect { uuid, cid });
            &&& !after.sessions.contains_key(cid)
            &&& after.dispatch(
                InternalServicePayload::Message {
                    uuid: sender,
                    message,
                    cid,
                    peer_cid,
                    security_level,
                },
            ) == DispatchView::Reply(
                DeliveryView {
                    to: sender,
                    response: ResponseView::MessageSendError {
                        cid,
                        message: spec_connection_not_found(cid),
                    },
                },
            )
        }),
{
}

/// The same holds after the stream of a session has ended: the session is
/// gone and a message to it fails.
pub proof fn lemma_message_after_stream_end_fails<Q, C, P>(
    state: RouterState<Q, C, P>,
    cid: u64,
    sender: ConnectionId,
    message: Vec<u8>,
    peer_cid: Option<u64>,
    security_level: SecurityLevel,
)
    requires
        state.is_registered(sender),
    ensures
        ({
            let after = state.after_stream_ended(cid, None);
            &&& !after.sessions.contains_key(cid)
            &&& after.dispatch(
                InternalServicePayload::Message {
                    uuid: sender,
                    message,
                    cid,
                    peer_cid,
                    security_level,
                },
            ) == DispatchView::Reply(
                DeliveryView {
                    to: sender,
                    response: ResponseView::MessageSendError {
                        cid,
                        message: spec_connection_not_found(cid),
                    },
                },
            )
        }),
{
}

/// A `Connect` that opens a new session, followed by the `Disconnect` of
/// that session, leaves both tables as they were before the `Connect`.
pub proof fn lemma_connect_then_disconnect_restores_tables<Q, C, P>(
    state: RouterState<Q, C, P>,
    uuid: ConnectionId,
    username: Seq<char>,
    cid: u64,
    channel: C,
    closer: ConnectionId,
)
    requires
        state.is_registered(uuid),
        state.is_registered(closer),
        !state.sessions.contains_key(cid),
    ensures
        ({
            let connected = state.after_connect(uuid, username, Ok((cid, channel)));
            let request = InternalServicePayload::Disconnect { uuid: closer, cid };
            &&& connected.sessions.contains_key(cid)
            &&& connected.dispatch(request) == DispatchView::Perform(request)
            &&& connected.after_dispatch(request).sessions == state.sessions
            &&& connected.after_dispatch(request).connections == state.connections
        }),
{
    let connected = state.after_connect(uuid, username, Ok((cid, channel)));
    let request = InternalServicePayload::Disconnect { uuid: closer, cid };
    assert(connected.after_dispatch(request).sessions =~= state.sessions);
}

/// A second `Disconnect` of a session fails with `DisconnectFailure`: once
/// a `Disconnect` of a live UI was dispatched, the next one for the same cid
/// is answered at once, and the session network is not asked.
pub proof fn lemma_second_disconnect_fails<Q, C, P>(
    state: RouterState<Q, C, P>,
    first: ConnectionId,
    second: ConnectionId,
    cid: u64,
)
    requires
        state.is_registered(first),
        state.is_registered(second),
    ensures
        state.after_dispatch(InternalServicePayload::Disconnect { uuid: first, cid }).dispatch(
            InternalServicePayload::Disconnect { uuid: second, cid },
        ) == DispatchView::Reply(
            DeliveryView {
                to: second,
                response: ResponseView::DisconnectFailure {
                    cid,
                    message: spec_connection_not_found(cid),
                },
            },
        ),
{
}

/// A session that is opened for a UI that has gone meanwhile does not enter
/// the table: where a UI connection ends between its `Connect` and the
/// network's answer, the answer changes nothing and nothing is sent, whether
/// the network succeeded or not.
pub proof fn lemma_connect_for_closed_connection_leaves_no_session<Q, C, P>(
    state: RouterState<Q, C, P>,
    uuid: ConnectionId,
    username: Seq<char>,
    outcome: Result<(u64, C), Seq<char>>,
)
    ensures
        state.unregistered(uuid).after_connect(uuid, username, outcome) == state.unregistered(uuid),
        state.unregistered(uuid).connect_reply(uuid, outcome) is None,
        state.unregistered(uuid).sessions == state.sessions,
{
}

/// The same holds of a sub-session that is opened for a UI that has gone.
pub proof fn lemma_peer_connect_for_closed_connection_leaves_no_entry<Q, C, P>(
    state: RouterState<Q, C, P>,
    uuid: ConnectionId,
    cid: u64,
    peer_cid: u64,
    outcome: Result<P, Seq<char>>,
)
    ensures
        state.unregistered(uuid).after_peer_connect(uuid, cid, peer_cid, outcome)
            == state.unregistered(uuid),
        state.unregistered(uuid).peer_connect_reply(uuid, cid, peer_cid, outcome) is None,
{
}

/// The end of a stream takes out the entry it belongs to and nothing else,
/// forwards no message, and may be reported again without effect.
pub proof fn lemma_stream_end_is_clean<Q, C, P>(
    state: RouterState<Q, C, P>,
    cid: u64,
    peer: Option<u64>,
)
    ensures
        !state.after_stream_ended(cid, peer).has_source(cid, peer),
        !(state.ended_delivery(cid, peer) matches Some(d) && d.response is MessageReceived),
        state.after_stream_ended(cid, peer).after_stream_ended(cid, peer)
            == state.after_stream_ended(cid, peer),
        state.after_stream_ended(cid, peer).connections == state.connections,
        forall|other: u64|
            other != cid ==> (#[trigger] state.after_stream_ended(cid, peer).sessions.contains_key(
                other,
            ) <==> state.sessions.contains_key(other)),
{
}

/// A source is announced exactly when it entered the table: the completion
/// of a `Connect` sends `ConnectSuccess` if and only if it put the session
/// into the table, and the completion of a `PeerConnect` sends
/// `PeerConnectSuccess` if and only if it put the sub-session into its
/// session, which it does for every peer but the peer 0.
pub proof fn lemma_announced_iff_stored<Q, C, P>(
    state: RouterState<Q, C, P>,
    uuid: ConnectionId,
    username: Seq<char>,
    cid: u64,
    peer_cid: u64,
    opened: Result<(u64, C), Seq<char>>,
    joined: Result<P, Seq<char>>,
)
    ensures
        (state.connect_reply(uuid, opened) matches Some(d) && d.announces_source()) <==> (opened
            matches Ok(session) && state.after_connect(uuid, username, opened).sessions
            == state.sessions.insert(
            session.0,
            SessionState { origin: uuid, username, channel: session.1, peers: Map::empty() },
        ) && state.is_registered(uuid)),
        (state.peer_connect_reply(uuid, cid, peer_cid, joined) matches Some(d)
            && d.announces_source()) <==> (joined matches Ok(channel) && state.is_registered(uuid)
            && peer_cid != 0 && state.sessions.contains_key(cid)
            && state.after_peer_connect(uuid, cid, peer_cid, joined).sessions[cid].peers
            == state.sessions[cid].peers.insert(peer_cid, PeerEntry { origin: uuid, channel })),
        !(state.connect_reply(uuid, opened) matches Some(d) && d.announces_source())
            ==> state.after_connect(uuid, username, opened).sessions == state.sessions,
        !(state.peer_connect_reply(uuid, cid, peer_cid, joined) matches Some(d)
            && d.announces_source())
            ==> state.after_peer_connect(uuid, cid, peer_cid, joined).sessions == state.sessions,
{
}

/// Once a `PeerDisconnect` has succeeded, the sub-session is gone and a
/// message to that peer fails with `MessageSendError`; the session itself
/// stays.
pub proof fn lemma_message_after_peer_disconnect_fails<Q, C, P>(
    state: RouterState<Q, C, P>,
    uuid: ConnectionId,
    cid: u64,
    peer_cid: u64,
    ticket: u128,
    sender: ConnectionId,
    message: Vec<u8>,
    security_level: SecurityLevel,
)
    requires
        state.sessions.contains_key(cid),
        state.is_registered(sender),
    ensures
        ({
            let after = state.after_peer_disconnect(uuid, cid, peer_cid, Ok(ticket));
            &&& after.sessions.contains_key(cid)
            &&& !after.has_source(cid, Some(peer_cid))
            &&& after.dispatch(
                InternalServicePayload::Message {
                    uuid: sender,
                    message,
                    cid,
                    peer_cid: Some(peer_cid),
                    security_level,
                },
            ) == DispatchView::Reply(
                DeliveryView {
                    to: sender,
                    response: ResponseView::MessageSendError {
                        cid,
                        message: spec_peer_not_found(peer_cid),
                    },
                },
            )
        }),
{
}

} // verus!
