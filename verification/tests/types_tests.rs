use citadel_workspace_service::session::SessionEntry;
use citadel_workspace_service::text::{
    connection_not_found, decimal, download_unavailable, failed_to_disconnect,
    peer_cid_reserved, peer_not_found, server_connection_not_found,
};
use citadel_workspace_service::types::{
    InternalServicePayload, InternalServiceResponse, RequestKind, SecurityLevel, TransferType,
    UserIdentifier,
};

#[test]
fn decimal_agrees_with_the_standard_rendering() {
    for n in [0u64, 1, 9, 10, 11, 99, 100, 101, 9999, 4242, 1_000_000, u64::MAX - 1, u64::MAX] {
        assert_eq!(decimal(n), n.to_string());
    }
    assert_eq!(decimal(18_446_744_073_709_551_615), "18446744073709551615");
}

#[test]
fn failure_texts() {
    assert_eq!(connection_not_found(9999), "Connection for 9999 not found");
    assert_eq!(connection_not_found(0), "Connection for 0 not found");
    assert_eq!(peer_not_found(4242), "Peer connection for 4242 not found");
    assert_eq!(server_connection_not_found(), "Server connection not found");
    assert_eq!(failed_to_disconnect("Timeout"), "Failed to disconnect Timeout");
    assert_eq!(failed_to_disconnect(""), "Failed to disconnect ");
    assert_eq!(download_unavailable(), "File download is not available");
    assert_eq!(peer_cid_reserved(), "The peer cid 0 stands for the server");
}

fn one_of_each(uuid: u128) -> Vec<(InternalServicePayload, RequestKind, Option<u64>)> {
    vec![
        (
            InternalServicePayload::Message {
                uuid,
                message: vec![1, 2, 3],
                cid: 1,
                peer_cid: Some(2),
                security_level: SecurityLevel::Custom(9),
            },
            RequestKind::Message,
            Some(1),
        ),
        (InternalServicePayload::Disconnect { uuid, cid: 2 }, RequestKind::Disconnect, Some(2)),
        (
            InternalServicePayload::SendFile {
                uuid,
                source_path: String::from("/a"),
                cid: 3,
                peer_cid: None,
                chunk_size: None,
                transfer_type: TransferType::RemoteEncryptedVirtualFilesystem {
                    virtual_path: String::from("/v"),
                    security_level: SecurityLevel::Ultra,
                },
            },
            RequestKind::SendFile,
            Some(3),
        ),
        (
            InternalServicePayload::DownloadFile {
                uuid,
                cid: 4,
                virtual_path: String::from("/v"),
                transfer_security_level: SecurityLevel::Standard,
                delete_on_pull: false,
            },
            RequestKind::DownloadFile,
            Some(4),
        ),
        (
            InternalServicePayload::StartGroup { uuid, cid: 5, initial_users_to_invite: None },
            RequestKind::StartGroup,
            Some(5),
        ),
        (
            InternalServicePayload::PeerRegister {
                uuid,
                cid: 6,
                peer_id: UserIdentifier::Username(String::from("peer_test")),
                connect_after_register: true,
            },
            RequestKind::PeerRegister,
            Some(6),
        ),
        (
            InternalServicePayload::PeerDisconnect { uuid, cid: 7, peer_cid: 8 },
            RequestKind::PeerDisconnect,
            Some(7),
        ),
    ]
}

#[test]
fn kind_uuid_and_cid_of_requests() {
    for (request, kind, cid) in one_of_each(0xabc) {
        assert_eq!(request.kind(), kind);
        assert_eq!(request.uuid(), 0xabc);
        assert_eq!(request.cid(), cid);
    }
}

#[test]
fn with_uuid_changes_the_origin_only() {
    let stamped: Vec<_> = one_of_each(1).into_iter().map(|(r, _, _)| r.with_uuid(2)).collect();
    let expected: Vec<_> = one_of_each(2).into_iter().map(|(r, _, _)| r).collect();
    assert_eq!(stamped, expected);
}

#[test]
fn terminal_responses_by_kind() {
    let sent = InternalServiceResponse::MessageSent { cid: 1, peer_cid: None };
    assert!(sent.is_terminal_for(RequestKind::Message));
    assert!(!sent.is_terminal_for(RequestKind::Connect));
    assert!(!sent.is_terminal_for(RequestKind::StartGroup));
    let group = InternalServiceResponse::StartGroupSuccess { cid: 1 };
    let no_group =
        InternalServiceResponse::StartGroupFailure { cid: 1, message: String::from("x") };
    assert!(group.is_terminal_for(RequestKind::StartGroup));
    assert!(no_group.is_terminal_for(RequestKind::StartGroup));
    assert!(!group.is_terminal_for(RequestKind::SendFile));
    assert!(!no_group.is_terminal_for(RequestKind::Message));
    assert_eq!(group.cid(), Some(1));
    assert_eq!(no_group.cid(), Some(1));
    let failure = InternalServiceResponse::ConnectionFailure { message: String::from("x") };
    assert!(failure.is_terminal_for(RequestKind::Connect));
    assert!(!failure.is_terminal_for(RequestKind::Register));
    let received =
        InternalServiceResponse::MessageReceived { message: vec![], cid: 1, peer_cid: 0 };
    let greeting = InternalServiceResponse::ServiceConnectionAccepted { id: 5 };
    let download =
        InternalServiceResponse::DownloadFileFailure { cid: 1, message: String::from("x") };
    for kind in [
        RequestKind::Connect,
        RequestKind::Register,
        RequestKind::Message,
        RequestKind::Disconnect,
        RequestKind::SendFile,
        RequestKind::DownloadFile,
        RequestKind::StartGroup,
        RequestKind::PeerRegister,
        RequestKind::PeerConnect,
        RequestKind::PeerDisconnect,
    ] {
        assert!(!received.is_terminal_for(kind));
        assert!(!greeting.is_terminal_for(kind));
        assert_eq!(download.is_terminal_for(kind), kind == RequestKind::DownloadFile);
    }
}

#[test]
fn cid_of_responses() {
    assert_eq!(InternalServiceResponse::ConnectSuccess { cid: 3 }.cid(), Some(3));
    assert_eq!(InternalServiceResponse::RegisterSuccess { id: 3 }.cid(), None);
    assert_eq!(InternalServiceResponse::ServiceConnectionAccepted { id: 3 }.cid(), None);
    assert_eq!(
        InternalServiceResponse::ConnectionFailure { message: String::new() }.cid(),
        None
    );
    assert_eq!(
        InternalServiceResponse::PeerDisconnectSuccess { cid: 4, ticket: 1 }.cid(),
        Some(4)
    );
    assert_eq!(
        InternalServiceResponse::Disconnected { cid: 5, peer_cid: Some(1) }.cid(),
        Some(5)
    );
}

#[test]
fn session_entry_keeps_its_peers() {
    let mut session: SessionEntry<&str, &str> =
        SessionEntry::new(9, String::from("john_doe"), "server");
    assert_eq!(session.origin(), 9);
    assert_eq!(session.username(), "john_doe");
    assert_eq!(session.channel(), &"server");
    assert_eq!(session.peer_count(), 0);
    assert!(session.add_peer_connection(5, 9, "a").is_none());
    let replaced = session.add_peer_connection(5, 10, "b").unwrap();
    assert_eq!(replaced.channel, "a");
    assert_eq!(replaced.origin, 9);
    assert_eq!(session.peer_count(), 1);
    assert_eq!(session.peer(5).unwrap().origin, 10);
    assert!(session.clear_peer_connection(6).is_none());
    assert_eq!(session.clear_peer_connection(5).unwrap().channel, "b");
    assert!(!session.has_peer(5));
    assert_eq!(session.peer_count(), 0);
}
