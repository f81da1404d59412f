//! The wire contract between a UI process and the daemon.
//!
//! A UI sends [`InternalServicePayload`] values and receives
//! [`InternalServiceResponse`] values. Every request names the UI connection
//! it came from in `uuid`: that is the address its response goes to. Every
//! response that belongs to a session names the session in `cid`.
//!
//! The settings that a request hands on to the session network are held here
//! as plain values; the program around the library turns them into the
//! network's own types.

use vstd::prelude::*;

verus! {

/// Identifier of one accepted UI connection, as the 128-bit number of its
/// UUID.
pub type ConnectionId = u128;

/// How strongly the traffic of a message or a session is protected.
#[derive(Clone, Copy, Debug, PartialEq, Eq, Structural)]
pub enum SecurityLevel {
    Standard,
    Reinforced,
    High,
    Ultra,
    Extreme,
    Custom(u8),
}

/// Whether a session also opens a datagram channel.
#[derive(Clone, Copy, Debug, PartialEq, Eq, Structural)]
pub enum UdpMode {
    Disabled,
    Enabled,
}

/// How a login treats sessions of the same account that already exist.
#[derive(Clone, Copy, Debug, PartialEq, Eq, Structural)]
pub enum ConnectMode {
    Standard { force_login: bool },
    Fetch { force_login: bool },
}

/// How often a session renews its keys.
#[derive(Clone, Copy, Debug, PartialEq, Eq, Structural)]
pub enum SecrecyMode {
    BestEffort,
    Perfect,
}

/// The cipher of a session.
#[derive(Clone, Copy, Debug, PartialEq, Eq, Structural)]
pub enum EncryptionAlgorithm {
    AesGcm256,
    ChaCha20Poly1305,
    MlKemHybrid,
    Ascon80pq,
}

/// The key-encapsulation mechanism of a session.
#[derive(Clone, Copy, Debug, PartialEq, Eq, Structural)]
pub enum KemAlgorithm {
    MlKem,
}

/// The signature scheme of a session.
#[derive(Clone, Copy, Debug, PartialEq, Eq, Structural)]
pub enum SigAlgorithm {
    Unsigned,
    MlDsa65,
    FnDsa512,
}

/// The algorithms of a session.
#[derive(Clone, Copy, Debug, PartialEq, Eq, Structural)]
pub struct CryptoParameters {
    pub encryption_algorithm: EncryptionAlgorithm,
    pub kem_algorithm: KemAlgorithm,
    pub sig_algorithm: SigAlgorithm,
}

/// Whether packet headers are obfuscated, and with which key.
#[derive(Clone, Copy, Debug, PartialEq, Eq, Structural)]
pub enum HeaderObfuscatorSettings {
    Disabled,
    Enabled,
    EnabledWithKey(u128),
}

/// The security settings that a session is opened with.
#[derive(Clone, Copy, Debug, PartialEq, Eq, Structural)]
pub struct SessionSecuritySettings {
    pub security_level: SecurityLevel,
    pub secrecy_mode: SecrecyMode,
    pub crypto_params: CryptoParameters,
    pub header_obfuscator_settings: HeaderObfuscatorSettings,
}

/// A span of time: whole seconds and the nanoseconds beyond them.
#[derive(Clone, Copy, Debug, PartialEq, Eq, Structural)]
pub struct Timeout {
    pub secs: u64,
    pub nanos: u32,
}

/// The socket address of a server.
#[allow(inconsistent_fields)]
#[derive(Clone, Copy, Debug, PartialEq, Eq)]
pub enum ServerAddress {
    V4 { octets: [u8; 4], port: u16 },
    V6 { octets: [u8; 16], port: u16, flowinfo: u32, scope_id: u32 },
}

/// A user, named by id or by username.
#[derive(Clone, Debug, PartialEq, Eq)]
pub enum UserIdentifier {
    Id(u64),
    Username(String),
}

/// What a file transfer does with the file at the far end.
#[derive(Clone, Debug, PartialEq, Eq)]
pub enum TransferType {
    FileTransfer,
    RemoteEncryptedVirtualFilesystem { virtual_path: String, security_level: SecurityLevel },
}

/// The tag of a request.
#[derive(Clone, Copy, Debug, PartialEq, Eq, Structural)]
pub enum RequestKind {
    Connect,
    Register,
    Message,
    Disconnect,
    SendFile,
    DownloadFile,
    StartGroup,
    PeerRegister,
    PeerConnect,
    PeerDisconnect,
}

/// A request of a UI.
#[allow(inconsistent_fields)]
#[derive(Clone, Debug, PartialEq, Eq)]
pub enum InternalServicePayload {
    Connect {
        uuid: ConnectionId,
        username: String,
        password: Vec<u8>,
        connect_mode: ConnectMode,
        udp_mode: UdpMode,
        keep_alive_timeout: Option<Timeout>,
        session_security_settings: SessionSecuritySettings,
    },
    Register {
        uuid: ConnectionId,
        server_addr: ServerAddress,
        full_name: String,
        username: String,
        proposed_password: Vec<u8>,
        connect_after_register: bool,
        default_security_settings: SessionSecuritySettings,
    },
    Message {
        uuid: ConnectionId,
        message: Vec<u8>,
        cid: u64,
        /// `None` addresses the server of the session, `Some` a peer reached
        /// through it.
        peer_cid: Option<u64>,
        security_level: SecurityLevel,
    },
    Disconnect { uuid: ConnectionId, cid: u64 },
    SendFile {
        uuid: ConnectionId,
        source_path: String,
        cid: u64,
        peer_cid: Option<u64>,
        chunk_size: Option<usize>,
        transfer_type: TransferType,
    },
    DownloadFile {
        uuid: ConnectionId,
        cid: u64,
        virtual_path: String,
        transfer_security_level: SecurityLevel,
        delete_on_pull: bool,
    },
    StartGroup {
        uuid: ConnectionId,
        cid: u64,
        initial_users_to_invite: Option<Vec<UserIdentifier>>,
    },
    PeerRegister {
        uuid: ConnectionId,
        cid: u64,
        peer_id: UserIdentifier,
        connect_after_register: bool,
    },
    PeerConnect {
        uuid: ConnectionId,
        cid: u64,
        username: String,
        peer_cid: u64,
        peer_username: String,
        udp_mode: UdpMode,
        session_security_settings: SessionSecuritySettings,
    },
    PeerDisconnect { uuid: ConnectionId, cid: u64, peer_cid: u64 },
}

/// A response or an event that the daemon sends to a UI.
#[allow(inconsistent_fields)]
#[derive(Clone, Debug, PartialEq, Eq)]
pub enum InternalServiceResponse {
    ConnectSuccess { cid: u64 },
    ConnectionFailure { message: String },
    RegisterSuccess { id: ConnectionId },
    RegisterFailure { message: String },
    /// The greeting: the first frame on every UI connection.
    ServiceConnectionAccepted { id: ConnectionId },
    MessageSent { cid: u64, peer_cid: Option<u64> },
    MessageSendError { cid: u64, message: String },
    /// A message that arrived on a session; `peer_cid` is 0 where the server
    /// sent it.
    MessageReceived { message: Vec<u8>, cid: u64, peer_cid: u64 },
    /// A session, or a peer sub-session, ended without a request to end it.
    Disconnected { cid: u64, peer_cid: Option<u64> },
    DisconnectSuccess { cid: u64 },
    DisconnectFailure { cid: u64, message: String },
    SendFileSuccess { cid: u64 },
    SendFileFailure { cid: u64, message: String },
    DownloadFileFailure { cid: u64, message: String },
    StartGroupSuccess { cid: u64 },
    StartGroupFailure { cid: u64, message: String },
    PeerConnectSuccess { cid: u64 },
    PeerConnectFailure { cid: u64, message: String },
    PeerDisconnectSuccess { cid: u64, ticket: u128 },
    PeerDisconnectFailure { cid: u64, message: String },
    PeerRegisterSuccess { cid: u64, peer_cid: u64, username: String },
    PeerRegisterFailure { cid: u64, message: String },
}

/// A response as a mathematical value: texts as sequences of characters,
/// message bodies as sequences of bytes.
#[allow(inconsistent_fields)]
pub enum ResponseView {
    ConnectSuccess { cid: u64 },
    ConnectionFailure { message: Seq<char> },
    RegisterSuccess { id: ConnectionId },
    RegisterFailure { message: Seq<char> },
    ServiceConnectionAccepted { id: ConnectionId },
    MessageSent { cid: u64, peer_cid: Option<u64> },
    MessageSendError { cid: u64, message: Seq<char> },
    MessageReceived { message: Seq<u8>, cid: u64, peer_cid: u64 },
    Disconnected { cid: u64, peer_cid: Option<u64> },
    DisconnectSuccess { cid: u64 },
    DisconnectFailure { cid: u64, message: Seq<char> },
    SendFileSuccess { cid: u64 },
    SendFileFailure { cid: u64, message: Seq<char> },
    DownloadFileFailure { cid: u64, message: Seq<char> },
    StartGroupSuccess { cid: u64 },
    StartGroupFailure { cid: u64, message: Seq<char> },
    PeerConnectSuccess { cid: u64 },
    PeerConnectFailure { cid: u64, message: Seq<char> },
    PeerDisconnectSuccess { cid: u64, ticket: u128 },
    PeerDisconnectFailure { cid: u64, message: Seq<char> },
    PeerRegisterSuccess { cid: u64, peer_cid: u64, username: Seq<char> },
    PeerRegisterFailure { cid: u64, message: Seq<char> },
}

impl View for InternalServiceResponse {
    type V = ResponseView;

    open spec fn view(&self) -> ResponseView {
        match *self {
            InternalServiceResponse::ConnectSuccess { cid } => ResponseView::ConnectSuccess { cid },
            InternalServiceResponse::ConnectionFailure { message } => ResponseView::ConnectionFailure {
                message: message@,
            },
            InternalServiceResponse::RegisterSuccess { id } => ResponseView::RegisterSuccess { id },
            InternalServiceResponse::RegisterFailure { message } => ResponseView::RegisterFailure {
                message: message@,
            },
            InternalServiceResponse::ServiceConnectionAccepted { id } => {
                ResponseView::ServiceConnectionAccepted { id }
            },
            InternalServiceResponse::MessageSent { cid, peer_cid } => ResponseView::MessageSent {
                cid,
                peer_cid,
            },
            InternalServiceResponse::MessageSendError { cid, message } => {
                ResponseView::MessageSendError { cid, message: message@ }
            },
            InternalServiceResponse::MessageReceived { message, cid, peer_cid } => {
                ResponseView::MessageReceived { message: message@, cid, peer_cid }
            },
            InternalServiceResponse::Disconnected { cid, peer_cid } => ResponseView::Disconnected {
                cid,
                peer_cid,
            },
            InternalServiceResponse::DisconnectSuccess { cid } => ResponseView::DisconnectSuccess {
                cid,
            },
            InternalServiceResponse::DisconnectFailure { cid, message } => {
                ResponseView::DisconnectFailure { cid, message: message@ }
            },
            InternalServiceResponse::SendFileSuccess { cid } => ResponseView::SendFileSuccess { cid },
            InternalServiceResponse::SendFileFailure { cid, message } => {
                ResponseView::SendFileFailure { cid, message: message@ }
            },
            InternalServiceResponse::DownloadFileFailure { cid, message } => {
                ResponseView::DownloadFileFailure { cid, message: message@ }
            },
            InternalServiceResponse::StartGroupSuccess { cid } => ResponseView::StartGroupSuccess {
                cid,
            },
            InternalServiceResponse::StartGroupFailure { cid, message } => {
                ResponseView::StartGroupFailure { cid, message: message@ }
            },
            InternalServiceResponse::PeerConnectSuccess { cid } => ResponseView::PeerConnectSuccess {
                cid,
            },
            InternalServiceResponse::PeerConnectFailure { cid, message } => {
                ResponseView::PeerConnectFailure { cid, message: message@ }
            },
            InternalServiceResponse::PeerDisconnectSuccess { cid, ticket } => {
                ResponseView::PeerDisconnectSuccess { cid, ticket }
            },
            InternalServiceResponse::PeerDisconnectFailure { cid, message } => {
                ResponseView::PeerDisconnectFailure { cid, message: message@ }
            },
            InternalServiceResponse::PeerRegisterSuccess { cid, peer_cid, username } => {
                ResponseView::PeerRegisterSuccess { cid, peer_cid, username: username@ }
            },
            InternalServiceResponse::PeerRegisterFailure { cid, message } => {
                ResponseView::PeerRegisterFailure { cid, message: message@ }
            },
        }
    }
}

impl ResponseView {
    /// Whether this response ends a request of the given kind: it is the
    /// success or the failure that belongs to that kind. Only a failure ends
    /// a `DownloadFile`.
    pub open spec fn is_terminal_for(self, kind: RequestKind) -> bool {
        match kind {
            RequestKind::Connect => self is ConnectSuccess || self is ConnectionFailure,
            RequestKind::Register => self is RegisterSuccess || self is RegisterFailure,
            RequestKind::Message => self is MessageSent || self is MessageSendError,
            RequestKind::Disconnect => self is DisconnectSuccess || self is DisconnectFailure,
            RequestKind::SendFile => self is SendFileSuccess || self is SendFileFailure,
            RequestKind::DownloadFile => self is DownloadFileFailure,
            RequestKind::StartGroup => self is StartGroupSuccess || self is StartGroupFailure,
            RequestKind::PeerRegister => self is PeerRegisterSuccess || self is PeerRegisterFailure,
            RequestKind::PeerConnect => self is PeerConnectSuccess || self is PeerConnectFailure,
            RequestKind::PeerDisconnect => self is PeerDisconnectSuccess
                || self is PeerDisconnectFailure,
        }
    }

    /// The session that this response belongs to, where it belongs to one.
    pub open spec fn cid(self) -> Option<u64> {
        match self {
            ResponseView::ConnectSuccess { cid } => Some(cid),
            ResponseView::ConnectionFailure { .. } => None,
            ResponseView::RegisterSuccess { .. } => None,
            ResponseView::RegisterFailure { .. } => None,
            ResponseView::ServiceConnectionAccepted { .. } => None,
            ResponseView::MessageSent { cid, .. } => Some(cid),
            ResponseView::MessageSendError { cid, .. } => Some(cid),
            ResponseView::MessageReceived { cid, .. } => Some(cid),
            ResponseView::Disconnected { cid, .. } => Some(cid),
            ResponseView::DisconnectSuccess { cid } => Some(cid),
            ResponseView::DisconnectFailure { cid, .. } => Some(cid),
            ResponseView::SendFileSuccess { cid } => Some(cid),
            ResponseView::SendFileFailure { cid, .. } => Some(cid),
            ResponseView::DownloadFileFailure { cid, .. } => Some(cid),
            ResponseView::StartGroupSuccess { cid } => Some(cid),
            ResponseView::StartGroupFailure { cid, .. } => Some(cid),
            ResponseView::PeerConnectSuccess { cid } => Some(cid),
            ResponseView::PeerConnectFailure { cid, .. } => Some(cid),
            ResponseView::PeerDisconnectSuccess { cid, .. } => Some(cid),
            ResponseView::PeerDisconnectFailure { cid, .. } => Some(cid),
            ResponseView::PeerRegisterSuccess { cid, .. } => Some(cid),
            ResponseView::PeerRegisterFailure { cid, .. } => Some(cid),
        }
    }
}

impl InternalServiceResponse {
    /// The session that this response belongs to, where it belongs to one.
    pub fn cid(&self) -> (cid: Option<u64>)
        ensures
            cid == self@.cid(),
    {
        match self {
            InternalServiceResponse::ConnectSuccess { cid } => Some(*cid),
            InternalServiceResponse::ConnectionFailure { .. } => None,
            InternalServiceResponse::RegisterSuccess { .. } => None,
            InternalServiceResponse::RegisterFailure { .. } => None,
            InternalServiceResponse::ServiceConnectionAccepted { .. } => None,
            InternalServiceResponse::MessageSent { cid, .. } => Some(*cid),
            InternalServiceResponse::MessageSendError { cid, .. } => Some(*cid),
            InternalServiceResponse::MessageReceived { cid, .. } => Some(*cid),
            InternalServiceResponse::Disconnected { cid, .. } => Some(*cid),
            InternalServiceResponse::DisconnectSuccess { cid } => Some(*cid),
            InternalServiceResponse::DisconnectFailure { cid, .. } => Some(*cid),
            InternalServiceResponse::SendFileSuccess { cid } => Some(*cid),
            InternalServiceResponse::SendFileFailure { cid, .. } => Some(*cid),
            InternalServiceResponse::DownloadFileFailure { cid, .. } => Some(*cid),
            InternalServiceResponse::StartGroupSuccess { cid } => Some(*cid),
            InternalServiceResponse::StartGroupFailure { cid, .. } => Some(*cid),
            InternalServiceResponse::PeerConnectSuccess { cid } => Some(*cid),
            InternalServiceResponse::PeerConnectFailure { cid, .. } => Some(*cid),
            InternalServiceResponse::PeerDisconnectSuccess { cid, .. } => Some(*cid),
            InternalServiceResponse::PeerDisconnectFailure { cid, .. } => Some(*cid),
            InternalServiceResponse::PeerRegisterSuccess { cid, .. } => Some(*cid),
            InternalServiceResponse::PeerRegisterFailure { cid, .. } => Some(*cid),
        }
    }

    /// Whether this response ends a request of the given kind.
    pub fn is_terminal_for(&self, kind: RequestKind) -> (terminal: bool)
        ensures
            terminal == self@.is_terminal_for(kind),
    {
        match kind {
            RequestKind::Connect => matches!(
                self,
                InternalServiceResponse::ConnectSuccess { .. }
                    | InternalServiceResponse::ConnectionFailure { .. }
            ),
            RequestKind::Register => matches!(
                self,
                InternalServiceResponse::RegisterSuccess { .. }
                    | InternalServiceResponse::RegisterFailure { .. }
            ),
            RequestKind::Message => matches!(
                self,
                InternalServiceResponse::MessageSent { .. }
                    | InternalServiceResponse::MessageSendError { .. }
            ),
            RequestKind::Disconnect => matches!(
                self,
                InternalServiceResponse::DisconnectSuccess { .. }
                    | InternalServiceResponse::DisconnectFailure { .. }
            ),
            RequestKind::SendFile => matches!(
                self,
                InternalServiceResponse::SendFileSuccess { .. }
                    | InternalServiceResponse::SendFileFailure { .. }
            ),
            RequestKind::DownloadFile => matches!(
                self,
                InternalServiceResponse::DownloadFileFailure { .. }
            ),
            RequestKind::StartGroup => matches!(
                self,
                InternalServiceResponse::StartGroupSuccess { .. }
                    | InternalServiceResponse::StartGroupFailure { .. }
            ),
            RequestKind::PeerRegister => matches!(
                self,
                InternalServiceResponse::PeerRegisterSuccess { .. }
                    | InternalServiceResponse::PeerRegisterFailure { .. }
            ),
            RequestKind::PeerConnect => matches!(
                self,
                InternalServiceResponse::PeerConnectSuccess { .. }
                    | InternalServiceResponse::PeerConnectFailure { .. }
            ),
            RequestKind::PeerDisconnect => matches!(
                self,
                InternalServiceResponse::PeerDisconnectSuccess { .. }
                    | InternalServiceResponse::PeerDisconnectFailure { .. }
            ),
        }
    }
}

impl InternalServicePayload {
    /// The tag of this request.
    pub open spec fn spec_kind(self) -> RequestKind {
        match self {
            InternalServicePayload::Connect { .. } => RequestKind::Connect,
            InternalServicePayload::Register { .. } => RequestKind::Register,
            InternalServicePayload::Message { .. } => RequestKind::Message,
            InternalServicePayload::Disconnect { .. } => RequestKind::Disconnect,
            InternalServicePayload::SendFile { .. } => RequestKind::SendFile,
            InternalServicePayload::DownloadFile { .. } => RequestKind::DownloadFile,
            InternalServicePayload::StartGroup { .. } => RequestKind::StartGroup,
            InternalServicePayload::PeerRegister { .. } => RequestKind::PeerRegister,
            InternalServicePayload::PeerConnect { .. } => RequestKind::PeerConnect,
            InternalServicePayload::PeerDisconnect { .. } => RequestKind::PeerDisconnect,
        }
    }

    /// The UI connection that this request names as its origin.
    pub open spec fn spec_uuid(self) -> ConnectionId {
        match self {
            InternalServicePayload::Connect { uuid, .. } => uuid,
            InternalServicePayload::Register { uuid, .. } => uuid,
            InternalServicePayload::Message { uuid, .. } => uuid,
            InternalServicePayload::Disconnect { uuid, .. } => uuid,
            InternalServicePayload::SendFile { uuid, .. } => uuid,
            InternalServicePayload::DownloadFile { uuid, .. } => uuid,
            InternalServicePayload::StartGroup { uuid, .. } => uuid,
            InternalServicePayload::PeerRegister { uuid, .. } => uuid,
            InternalServicePayload::PeerConnect { uuid, .. } => uuid,
            InternalServicePayload::PeerDisconnect { uuid, .. } => uuid,
        }
    }

    /// The session that this request addresses; `Connect` and `Register`
    /// address none.
    pub open spec fn spec_cid(self) -> Option<u64> {
        match self {
            InternalServicePayload::Connect { .. } => None,
            InternalServicePayload::Register { .. } => None,
            InternalServicePayload::Message { cid, .. } => Some(cid),
            InternalServicePayload::Disconnect { cid, .. } => Some(cid),
            InternalServicePayload::SendFile { cid, .. } => Some(cid),
            InternalServicePayload::DownloadFile { cid, .. } => Some(cid),
            InternalServicePayload::StartGroup { cid, .. } => Some(cid),
            InternalServicePayload::PeerRegister { cid, .. } => Some(cid),
            InternalServicePayload::PeerConnect { cid, .. } => Some(cid),
            InternalServicePayload::PeerDisconnect { cid, .. } => Some(cid),
        }
    }

    /// This request with `id` in place of its origin, and nothing else
    /// changed.
    pub open spec fn spec_with_uuid(self, id: ConnectionId) -> InternalServicePayload {
        match self {
            InternalServicePayload::Connect {
                uuid,
                username,
                password,
                connect_mode,
                udp_mode,
                keep_alive_timeout,
                session_security_settings,
            } => InternalServicePayload::Connect {
                uuid: id,
                username,
                password,
                connect_mode,
                udp_mode,
                keep_alive_timeout,
                session_security_settings,
            },
            InternalServicePayload::Register {
                uuid,
                server_addr,
                full_name,
                username,
                proposed_password,
                connect_after_register,
                default_security_settings,
            } => InternalServicePayload::Register {
                uuid: id,
                server_addr,
                full_name,
                username,
                proposed_password,
                connect_after_register,
                default_security_settings,
            },
            InternalServicePayload::Message { uuid, message, cid, peer_cid, security_level } => {
                InternalServicePayload::Message { uuid: id, message, cid, peer_cid, security_level }
            },
            InternalServicePayload::Disconnect { uuid, cid } => InternalServicePayload::Disconnect {
                uuid: id,
                cid,
            },
            InternalServicePayload::SendFile {
                uuid,
                source_path,
                cid,
                peer_cid,
                chunk_size,
                transfer_type,
            } => InternalServicePayload::SendFile {
                uuid: id,
                source_path,
                cid,
                peer_cid,
                chunk_size,
                transfer_type,
            },
            InternalServicePayload::DownloadFile {
                uuid,
                cid,
                virtual_path,
                transfer_security_level,
                delete_on_pull,
            } => InternalServicePayload::DownloadFile {
                uuid: id,
                cid,
                virtual_path,
                transfer_security_level,
                delete_on_pull,
            },
            InternalServicePayload::StartGroup { uuid, cid, initial_users_to_invite } => {
                InternalServicePayload::StartGroup { uuid: id, cid, initial_users_to_invite }
            },
            InternalServicePayload::PeerRegister { uuid, cid, peer_id, connect_after_register } => {
                InternalServicePayload::PeerRegister {
                    uuid: id,
                    cid,
                    peer_id,
                    connect_after_register,
                }
            },
            InternalServicePayload::PeerConnect {
                uuid,
                cid,
                username,
                peer_cid,
                peer_username,
                udp_mode,
                session_security_settings,
            } => InternalServicePayload::PeerConnect {
                uuid: id,
                cid,
                username,
                peer_cid,
                peer_username,
                udp_mode,
                session_security_settings,
            },
            InternalServicePayload::PeerDisconnect { uuid, cid, peer_cid } => {
                InternalServicePayload::PeerDisconnect { uuid: id, cid, peer_cid }
            },
        }
    }

    /// The tag of this request.
    pub fn kind(&self) -> (kind: RequestKind)
        ensures
            kind == self.spec_kind(),
    {
        match self {
            InternalServicePayload::Connect { .. } => RequestKind::Connect,
            InternalServicePayload::Register { .. } => RequestKind::Register,
            InternalServicePayload::Message { .. } => RequestKind::Message,
            InternalServicePayload::Disconnect { .. } => RequestKind::Disconnect,
            InternalServicePayload::SendFile { .. } => RequestKind::SendFile,
            InternalServicePayload::DownloadFile { .. } => RequestKind::DownloadFile,
            InternalServicePayload::StartGroup { .. } => RequestKind::StartGroup,
            InternalServicePayload::PeerRegister { .. } => RequestKind::PeerRegister,
            InternalServicePayload::PeerConnect { .. } => RequestKind::PeerConnect,
            InternalServicePayload::PeerDisconnect { .. } => RequestKind::PeerDisconnect,
        }
    }

    /// The UI connection that this request names as its origin.
    pub fn uuid(&self) -> (uuid: ConnectionId)
        ensures
            uuid == self.spec_uuid(),
    {
        match self {
            InternalServicePayload::Connect { uuid, .. } => *uuid,
            InternalServicePayload::Register { uuid, .. } => *uuid,
            InternalServicePayload::Message { uuid, .. } => *uuid,
            InternalServicePayload::Disconnect { uuid, .. } => *uuid,
            InternalServicePayload::SendFile { uuid, .. } => *uuid,
            InternalServicePayload::DownloadFile { uuid, .. } => *uuid,
            InternalServicePayload::StartGroup { uuid, .. } => *uuid,
            InternalServicePayload::PeerRegister { uuid, .. } => *uuid,
            InternalServicePayload::PeerConnect { uuid, .. } => *uuid,
            InternalServicePayload::PeerDisconnect { uuid, .. } => *uuid,
        }
    }

    /// The session that this request addresses.
    pub fn cid(&self) -> (cid: Option<u64>)
        ensures
            cid == self.spec_cid(),
    {
        match self {
            InternalServicePayload::Connect { .. } => None,
            InternalServicePayload::Register { .. } => None,
            InternalServicePayload::Message { cid, .. } => Some(*cid),
            InternalServicePayload::Disconnect { cid, .. } => Some(*cid),
            InternalServicePayload::SendFile { cid, .. } => Some(*cid),
            InternalServicePayload::DownloadFile { cid, .. } => Some(*cid),
            InternalServicePayload::StartGroup { cid, .. } => Some(*cid),
            InternalServicePayload::PeerRegister { cid, .. } => Some(*cid),
            InternalServicePayload::PeerConnect { cid, .. } => Some(*cid),
            InternalServicePayload::PeerDisconnect { cid, .. } => Some(*cid),
        }
    }

    /// Stamps the request with the connection it arrived on, whatever origin
    /// the UI wrote into it.
    pub fn with_uuid(self, id: ConnectionId) -> (stamped: InternalServicePayload)
        ensures
            stamped == self.spec_with_uuid(id),
            stamped.spec_uuid() == id,
            stamped.spec_kind() == self.spec_kind(),
            stamped.spec_cid() == self.spec_cid(),
    {
        match self {
            InternalServicePayload::Connect {
                uuid: _,
                username,
                password,
                connect_mode,
                udp_mode,
                keep_alive_timeout,
                session_security_settings,
            } => InternalServicePayload::Connect {
                uuid: id,
                username,
                password,
                connect_mode,
                udp_mode,
                keep_alive_timeout,
                session_security_settings,
            },
            InternalServicePayload::Register {
                uuid: _,
                server_addr,
                full_name,
                username,
                proposed_password,
                connect_after_register,
                default_security_settings,
            } => InternalServicePayload::Register {
                uuid: id,
                server_addr,
                full_name,
                username,
                proposed_password,
                connect_after_register,
                default_security_settings,
            },
            InternalServicePayload::Message { uuid: _, message, cid, peer_cid, security_level } => {
                InternalServicePayload::Message { uuid: id, message, cid, peer_cid, security_level }
            },
            InternalServicePayload::Disconnect { uuid: _, cid } => {
                InternalServicePayload::Disconnect { uuid: id, cid }
            },
            InternalServicePayload::SendFile {
                uuid: _,
                source_path,
                cid,
                peer_cid,
                chunk_size,
                transfer_type,
            } => InternalServicePayload::SendFile {
                uuid: id,
                source_path,
                cid,
                peer_cid,
                chunk_size,
                transfer_type,
            },
            InternalServicePayload::DownloadFile {
                uuid: _,
                cid,
                virtual_path,
                transfer_security_level,
                delete_on_pull,
            } => InternalServicePayload::DownloadFile {
                uuid: id,
                cid,
                virtual_path,
                transfer_security_level,
                delete_on_pull,
            },
            InternalServicePayload::StartGroup { uuid: _, cid, initial_users_to_invite } => {
                InternalServicePayload::StartGroup { uuid: id, cid, initial_users_to_invite }
            },
            InternalServicePayload::PeerRegister {
                uuid: _,
                cid,
                peer_id,
                connect_after_register,
            } => InternalServicePayload::PeerRegister { uuid: id, cid, peer_id, connect_after_register },
            InternalServicePayload::PeerConnect {
                uuid: _,
                cid,
                username,
                peer_cid,
                peer_username,
                udp_mode,
                session_security_settings,
            } => InternalServicePayload::PeerConnect {
                uuid: id,
                cid,
                username,
                peer_cid,
                peer_username,
                udp_mode,
                session_security_settings,
            },
            InternalServicePayload::PeerDisconnect { uuid: _, cid, peer_cid } => {
                InternalServicePayload::PeerDisconnect { uuid: id, cid, peer_cid }
            },
        }
    }
}

} // verus!
