use citadel_workspace_service::router::{Delivery, Dispatch, Router, OUTBOUND_QUEUE_CAPACITY};
use citadel_workspace_service::types::{
    CryptoParameters, EncryptionAlgorithm, HeaderObfuscatorSettings, InternalServicePayload,
    InternalServiceResponse, KemAlgorithm, SecrecyMode, SecurityLevel, SessionSecuritySettings,
    SigAlgorithm, TransferType, UdpMode, UserIdentifier,
};
use uuid::{Uuid, Variant};

type TestRouter = Router<u32, &'static str, &'static str>;

const UI: u128 = 0x1111;
const OTHER_UI: u128 = 0x2222;

fn router_with_ui() -> TestRouter {
    let mut router = TestRouter::new();
    router.register(UI, 1);
    router
}

fn router_with_session(cid: u64) -> TestRouter {
    let mut router = router_with_ui();
    router.connect_completed(UI, String::from("john_doe"), Ok((cid, "server")));
    router
}

fn settings() -> SessionSecuritySettings {
    SessionSecuritySettings {
        security_level: SecurityLevel::Standard,
        secrecy_mode: SecrecyMode::BestEffort,
        crypto_params: CryptoParameters {
            encryption_algorithm: EncryptionAlgorithm::AesGcm256,
            kem_algorithm: KemAlgorithm::MlKem,
            sig_algorithm: SigAlgorithm::Unsigned,
        },
        header_obfuscator_settings: HeaderObfuscatorSettings::Disabled,
    }
}

fn message(uuid: u128, cid: u64, peer_cid: Option<u64>) -> InternalServicePayload {
    InternalServicePayload::Message {
        uuid,
        message: b"hi".to_vec(),
        cid,
        peer_cid,
        security_level: SecurityLevel::Standard,
    }
}

fn reply(to: u128, response: InternalServiceResponse) -> Dispatch {
    Dispatch::Reply(Delivery { to, response })
}

#[test]
fn new_router_is_empty() {
    let router = TestRouter::new();
    assert_eq!(router.connection_count(), 0);
    assert!(!router.is_registered(UI));
    assert!(!router.has_session(0));
    assert!(router.sender(UI).is_none());
    assert!(router.session(0).is_none());
}

#[test]
fn outbound_queue_is_bounded() {
    assert_eq!(OUTBOUND_QUEUE_CAPACITY, 1024);
}

#[test]
fn greeting_names_the_connection() {
    let mut router = TestRouter::new();
    let first = router.register(UI, 9);
    assert_eq!(
        first,
        Delivery { to: UI, response: InternalServiceResponse::ServiceConnectionAccepted { id: UI } }
    );
    assert!(router.is_registered(UI));
    assert_eq!(router.sender(UI), Some(&9));
    assert_eq!(router.connection_count(), 1);
}

#[test]
fn accept_mints_a_random_uuid() {
    let mut router = TestRouter::new();
    let first = router.accept(1).unwrap();
    let second = router.accept(2).unwrap();
    assert_ne!(first.to, second.to);
    for delivery in [first, second] {
        let id = delivery.to;
        assert_eq!(
            delivery.response,
            InternalServiceResponse::ServiceConnectionAccepted { id }
        );
        assert_eq!((id >> 76) & 0xf, 4);
        assert_eq!((id >> 62) & 0x3, 2);
        let uuid = Uuid::from_u128(id);
        assert_eq!(uuid.get_version_num(), 4);
        assert_eq!(uuid.get_variant(), Variant::RFC4122);
        assert!(router.is_registered(id));
    }
    assert_eq!(router.connection_count(), 2);
}

#[test]
fn a_taken_id_is_refused() {
    let mut router = router_with_ui();
    assert_eq!(router.register_fresh(UI, 5), None);
    assert_eq!(router.sender(UI), Some(&1));
    assert_eq!(router.connection_count(), 1);
    assert_eq!(
        router.register_fresh(OTHER_UI, 6),
        Some(Delivery {
            to: OTHER_UI,
            response: InternalServiceResponse::ServiceConnectionAccepted { id: OTHER_UI }
        })
    );
    assert_eq!(router.sender(OTHER_UI), Some(&6));
    assert_eq!(router.connection_count(), 2);
    router.unregister(UI);
    assert!(router.register_fresh(UI, 7).is_some());
    assert_eq!(router.sender(UI), Some(&7));
}

#[test]
fn accepted_ids_are_new() {
    let mut router = TestRouter::new();
    let mut seen = Vec::new();
    for sender in 0..50u32 {
        let before = router.connection_count();
        match router.accept(sender) {
            Some(first) => {
                assert!(!seen.contains(&first.to));
                assert_eq!(router.sender(first.to), Some(&sender));
                assert_eq!(router.connection_count(), before + 1);
                seen.push(first.to);
            }
            None => assert_eq!(router.connection_count(), before),
        }
    }
    assert_eq!(router.connection_count(), seen.len());
}

#[test]
fn registering_an_id_again_replaces_the_sender() {
    let mut router = router_with_ui();
    router.register(UI, 5);
    assert_eq!(router.sender(UI), Some(&5));
    assert_eq!(router.connection_count(), 1);
}

#[test]
fn unregister_hands_back_the_sender() {
    let mut router = router_with_ui();
    assert_eq!(router.unregister(UI), Some(1));
    assert!(!router.is_registered(UI));
    assert_eq!(router.unregister(UI), None);
}

#[test]
fn request_of_a_closed_connection_is_dropped() {
    let mut router = router_with_session(7);
    router.unregister(UI);
    assert_eq!(router.dispatch(message(UI, 7, None)), Dispatch::Drop);
    assert_eq!(
        router.dispatch(InternalServicePayload::Disconnect { uuid: UI, cid: 7 }),
        Dispatch::Drop
    );
    assert!(router.has_session(7));
}

#[test]
fn message_to_unknown_cid_fails() {
    let mut router = router_with_ui();
    let decision = router.dispatch(message(UI, 9999, None));
    assert_eq!(
        decision,
        reply(
            UI,
            InternalServiceResponse::MessageSendError {
                cid: 9999,
                message: String::from("Connection for 9999 not found"),
            }
        )
    );
    match decision {
        Dispatch::Reply(delivery) => match delivery.response {
            InternalServiceResponse::MessageSendError { cid, message } => {
                assert_eq!(cid, 9999);
                assert!(message.contains("not found"));
            }
            _ => panic!("wrong response"),
        },
        _ => panic!("wrong decision"),
    }
}

#[test]
fn message_to_unknown_peer_fails() {
    let mut router = router_with_session(7);
    assert_eq!(
        router.dispatch(message(UI, 7, Some(4242))),
        reply(
            UI,
            InternalServiceResponse::MessageSendError {
                cid: 7,
                message: String::from("Peer connection for 4242 not found"),
            }
        )
    );
}

#[test]
fn message_to_known_session_is_performed() {
    let mut router = router_with_session(7);
    assert_eq!(router.dispatch(message(UI, 7, None)), Dispatch::Perform(message(UI, 7, None)));
    router.peer_connect_completed(UI, 7, 8, Ok("peer"));
    assert_eq!(
        router.dispatch(message(UI, 7, Some(8))),
        Dispatch::Perform(message(UI, 7, Some(8)))
    );
    assert_eq!(
        router.message_completed(UI, 7, Some(8), Ok(())),
        Some(Delivery {
            to: UI,
            response: InternalServiceResponse::MessageSent { cid: 7, peer_cid: Some(8) }
        })
    );
    assert_eq!(
        router.message_completed(UI, 7, None, Err(String::from("channel closed"))),
        Some(Delivery {
            to: UI,
            response: InternalServiceResponse::MessageSendError {
                cid: 7,
                message: String::from("channel closed"),
            }
        })
    );
}

#[test]
fn any_live_ui_may_use_a_session() {
    let mut router = router_with_session(7);
    router.register(OTHER_UI, 2);
    assert_eq!(
        router.dispatch(message(OTHER_UI, 7, None)),
        Dispatch::Perform(message(OTHER_UI, 7, None))
    );
}

#[test]
fn register_outcomes() {
    let mut router = router_with_ui();
    assert_eq!(
        router.register_completed(UI, Ok(())),
        Some(Delivery { to: UI, response: InternalServiceResponse::RegisterSuccess { id: UI } })
    );
    assert_eq!(
        router.register_completed(UI, Err(String::from("username taken"))),
        Some(Delivery {
            to: UI,
            response: InternalServiceResponse::RegisterFailure {
                message: String::from("username taken"),
            }
        })
    );
    assert_eq!(router.register_completed(OTHER_UI, Ok(())), None);
}

#[test]
fn connect_outcomes() {
    let mut router = router_with_ui();
    assert_eq!(
        router.connect_completed(UI, String::from("john_doe"), Err(String::from("bad password"))),
        Some(Delivery {
            to: UI,
            response: InternalServiceResponse::ConnectionFailure {
                message: String::from("bad password"),
            }
        })
    );
    assert!(!router.has_session(7));
    assert_eq!(
        router.connect_completed(UI, String::from("john_doe"), Ok((7, "server"))),
        Some(Delivery { to: UI, response: InternalServiceResponse::ConnectSuccess { cid: 7 } })
    );
    let session = router.session(7).unwrap();
    assert_eq!(session.origin(), UI);
    assert_eq!(session.username(), "john_doe");
    assert_eq!(session.channel(), &"server");
    assert_eq!(session.peer_count(), 0);
}

#[test]
fn a_source_is_announced_exactly_when_it_is_stored() {
    let mut router = router_with_ui();
    let failed = router.connect_completed(UI, String::from("john_doe"), Err(String::from("no")));
    assert!(!failed.unwrap().announces_source());
    assert_eq!(router.session_count(), 0);
    let opened = router.connect_completed(UI, String::from("john_doe"), Ok((7, "server")));
    assert!(opened.unwrap().announces_source());
    assert_eq!(router.session_count(), 1);
    let lost = router.peer_connect_completed(UI, 8, 9, Ok("peer"));
    assert!(!lost.unwrap().announces_source());
    assert!(!router.has_source(8, Some(9)));
    let joined = router.peer_connect_completed(UI, 7, 9, Ok("peer"));
    assert!(joined.unwrap().announces_source());
    assert!(router.has_source(7, Some(9)));
    let sent = router.message_completed(UI, 7, None, Ok(()));
    assert!(!sent.unwrap().announces_source());
    assert_eq!(router.session_count(), 1);
}

#[test]
fn one_session_per_cid() {
    let mut router = router_with_session(7);
    router.register(OTHER_UI, 2);
    router.connect_completed(OTHER_UI, String::from("jane"), Ok((7, "newer")));
    let session = router.session(7).unwrap();
    assert_eq!(session.origin(), OTHER_UI);
    assert_eq!(session.channel(), &"newer");
    assert_eq!(router.session_count(), 1);
    router.connect_completed(UI, String::from("john_doe"), Ok((8, "other")));
    assert!(router.has_session(7));
    assert!(router.has_session(8));
    assert_eq!(router.session_count(), 2);
}

#[test]
fn one_entry_per_peer() {
    let mut router = router_with_session(7);
    router.peer_connect_completed(UI, 7, 8, Ok("first"));
    router.peer_connect_completed(UI, 7, 8, Ok("second"));
    router.peer_connect_completed(UI, 7, 9, Ok("third"));
    let session = router.session(7).unwrap();
    assert_eq!(session.peer_count(), 2);
    assert_eq!(session.peer(8).unwrap().channel, "second");
    assert_eq!(session.peer(9).unwrap().channel, "third");
    assert!(session.has_peer(8));
    assert!(!session.has_peer(10));
}

#[test]
fn connect_for_a_closed_connection_leaves_no_session() {
    let mut router = router_with_ui();
    let request = InternalServicePayload::Disconnect { uuid: UI, cid: 1 };
    let _ = router.dispatch(request);
    router.unregister(UI);
    assert_eq!(router.connect_completed(UI, String::from("john_doe"), Ok((7, "server"))), None);
    assert!(!router.has_session(7));
    assert_eq!(router.connect_completed(UI, String::from("john_doe"), Err(String::from("x"))), None);
}

#[test]
fn disconnect_removes_the_session_at_once() {
    let mut router = router_with_session(7);
    let request = InternalServicePayload::Disconnect { uuid: UI, cid: 7 };
    assert_eq!(router.dispatch(request.clone()), Dispatch::Perform(request));
    assert!(!router.has_session(7));
    assert_eq!(
        router.dispatch(message(UI, 7, None)),
        reply(
            UI,
            InternalServiceResponse::MessageSendError {
                cid: 7,
                message: String::from("Connection for 7 not found"),
            }
        )
    );
    assert_eq!(
        router.disconnect_completed(UI, 7, Err(String::from("Generic(\"no session\")"))),
        Some(Delivery {
            to: UI,
            response: InternalServiceResponse::DisconnectFailure {
                cid: 7,
                message: String::from("Failed to disconnect Generic(\"no session\")"),
            }
        })
    );
}

#[test]
fn second_disconnect_fails() {
    let mut router = router_with_session(7);
    let request = InternalServicePayload::Disconnect { uuid: UI, cid: 7 };
    assert_eq!(router.dispatch(request.clone()), Dispatch::Perform(request.clone()));
    assert_eq!(
        router.disconnect_completed(UI, 7, Ok(())),
        Some(Delivery { to: UI, response: InternalServiceResponse::DisconnectSuccess { cid: 7 } })
    );
    assert_eq!(
        router.dispatch(request),
        reply(
            UI,
            InternalServiceResponse::DisconnectFailure {
                cid: 7,
                message: String::from("Connection for 7 not found"),
            }
        )
    );
}

#[test]
fn connect_then_disconnect_restores_the_tables() {
    let mut router = router_with_session(1);
    router.connect_completed(UI, String::from("john_doe"), Ok((7, "server")));
    assert!(router.has_session(7));
    let _ = router.dispatch(InternalServicePayload::Disconnect { uuid: UI, cid: 7 });
    assert!(!router.has_session(7));
    assert!(router.has_session(1));
    assert_eq!(router.connection_count(), 1);
    assert_eq!(router.sender(UI), Some(&1));
}

#[test]
fn download_file_is_answered_with_a_failure() {
    let mut router = router_with_session(7);
    assert_eq!(
        router.dispatch(InternalServicePayload::DownloadFile {
            uuid: UI,
            cid: 7,
            virtual_path: String::from("/vfs/a.txt"),
            transfer_security_level: SecurityLevel::High,
            delete_on_pull: true,
        }),
        reply(
            UI,
            InternalServiceResponse::DownloadFileFailure {
                cid: 7,
                message: String::from("File download is not available"),
            }
        )
    );
}

#[test]
fn send_file_and_start_group_are_performed_without_a_lookup() {
    let mut router = router_with_ui();
    let send_file = InternalServicePayload::SendFile {
        uuid: UI,
        source_path: String::from("/tmp/a.txt"),
        cid: 5,
        peer_cid: None,
        chunk_size: Some(4096),
        transfer_type: TransferType::FileTransfer,
    };
    assert_eq!(router.dispatch(send_file.clone()), Dispatch::Perform(send_file));
    assert_eq!(
        router.send_file_completed(UI, 5, Ok(())),
        Some(Delivery { to: UI, response: InternalServiceResponse::SendFileSuccess { cid: 5 } })
    );
    assert_eq!(
        router.send_file_completed(UI, 5, Err(String::from("no such file"))),
        Some(Delivery {
            to: UI,
            response: InternalServiceResponse::SendFileFailure {
                cid: 5,
                message: String::from("no such file"),
            }
        })
    );
    let start_group = InternalServicePayload::StartGroup {
        uuid: UI,
        cid: 5,
        initial_users_to_invite: Some(vec![
            UserIdentifier::Id(3),
            UserIdentifier::Username(String::from("peer_test")),
        ]),
    };
    assert_eq!(router.dispatch(start_group.clone()), Dispatch::Perform(start_group));
}

#[test]
fn start_group_outcomes() {
    let mut router = router_with_ui();
    assert_eq!(
        router.start_group_completed(UI, 5, Ok(())),
        Some(Delivery { to: UI, response: InternalServiceResponse::StartGroupSuccess { cid: 5 } })
    );
    assert_eq!(
        router.start_group_completed(UI, 5, Err(String::from("no such session"))),
        Some(Delivery {
            to: UI,
            response: InternalServiceResponse::StartGroupFailure {
                cid: 5,
                message: String::from("no such session"),
            }
        })
    );
    assert_eq!(router.start_group_completed(OTHER_UI, 5, Ok(())), None);
    router.unregister(UI);
    assert_eq!(router.start_group_completed(UI, 5, Err(String::from("late"))), None);
}

#[test]
fn peer_requests_for_an_unknown_session_fail() {
    let mut router = router_with_ui();
    let text = String::from("Server connection not found");
    assert_eq!(
        router.dispatch(InternalServicePayload::PeerRegister {
            uuid: UI,
            cid: 3,
            peer_id: UserIdentifier::Id(4),
            connect_after_register: false,
        }),
        reply(UI, InternalServiceResponse::PeerRegisterFailure { cid: 3, message: text.clone() })
    );
    assert_eq!(
        router.dispatch(InternalServicePayload::PeerDisconnect { uuid: UI, cid: 3, peer_cid: 4 }),
        reply(UI, InternalServiceResponse::PeerDisconnectFailure { cid: 3, message: text.clone() })
    );
    assert_eq!(
        router.peer_register_completed(UI, 3, Ok(4)),
        Some(Delivery {
            to: UI,
            response: InternalServiceResponse::PeerRegisterFailure { cid: 3, message: text.clone() }
        })
    );
    assert_eq!(
        router.peer_connect_completed(UI, 3, 4, Ok("peer")),
        Some(Delivery {
            to: UI,
            response: InternalServiceResponse::PeerConnectFailure { cid: 3, message: text }
        })
    );
    assert!(!router.has_session(3));
}

#[test]
fn peer_disconnect_of_unknown_peer_fails() {
    let mut router = router_with_session(7);
    assert_eq!(
        router.dispatch(InternalServicePayload::PeerDisconnect { uuid: UI, cid: 7, peer_cid: 4242 }),
        reply(
            UI,
            InternalServiceResponse::PeerDisconnectFailure {
                cid: 7,
                message: String::from("Peer connection for 4242 not found"),
            }
        )
    );
}

#[test]
fn the_peer_zero_is_refused() {
    let mut router = router_with_session(7);
    let text = String::from("The peer cid 0 stands for the server");
    let request = InternalServicePayload::PeerConnect {
        uuid: UI,
        cid: 7,
        username: String::from("john_doe"),
        peer_cid: 0,
        peer_username: String::from("peer_test"),
        udp_mode: UdpMode::Disabled,
        session_security_settings: settings(),
    };
    assert_eq!(
        router.dispatch(request),
        reply(UI, InternalServiceResponse::PeerConnectFailure { cid: 7, message: text.clone() })
    );
    assert_eq!(
        router.peer_connect_completed(UI, 7, 0, Ok("peer")),
        Some(Delivery {
            to: UI,
            response: InternalServiceResponse::PeerConnectFailure { cid: 7, message: text }
        })
    );
    assert!(!router.has_source(7, Some(0)));
    assert_eq!(router.session(7).unwrap().peer_count(), 0);
    assert_eq!(router.inbound(7, Some(0), b"x".to_vec()), None);
    assert_eq!(
        router.dispatch(message(UI, 7, Some(0))),
        reply(
            UI,
            InternalServiceResponse::MessageSendError {
                cid: 7,
                message: String::from("Peer connection for 0 not found"),
            }
        )
    );
    let unknown = InternalServicePayload::PeerConnect {
        uuid: UI,
        cid: 8,
        username: String::from("john_doe"),
        peer_cid: 0,
        peer_username: String::from("peer_test"),
        udp_mode: UdpMode::Disabled,
        session_security_settings: settings(),
    };
    assert_eq!(
        router.dispatch(unknown),
        reply(
            UI,
            InternalServiceResponse::PeerConnectFailure {
                cid: 8,
                message: String::from("Server connection not found"),
            }
        )
    );
}

#[test]
fn peer_connect_to_another_peer_is_performed() {
    let mut router = router_with_session(7);
    let request = InternalServicePayload::PeerConnect {
        uuid: UI,
        cid: 7,
        username: String::from("john_doe"),
        peer_cid: 8,
        peer_username: String::from("peer_test"),
        udp_mode: UdpMode::Enabled,
        session_security_settings: settings(),
    };
    assert_eq!(router.dispatch(request.clone()), Dispatch::Perform(request));
}

#[test]
fn a_router_without_connections_always_accepts() {
    for _ in 0..20 {
        let mut router = TestRouter::new();
        assert!(router.accept(1).is_some());
    }
}

#[test]
fn peer_disconnect_outcomes() {
    let mut router = router_with_session(7);
    router.peer_connect_completed(UI, 7, 8, Ok("peer"));
    let request = InternalServicePayload::PeerDisconnect { uuid: UI, cid: 7, peer_cid: 8 };
    assert_eq!(router.dispatch(request.clone()), Dispatch::Perform(request));
    assert_eq!(
        router.peer_disconnect_completed(UI, 7, 8, Err(String::from("Timeout"))),
        Some(Delivery {
            to: UI,
            response: InternalServiceResponse::PeerDisconnectFailure {
                cid: 7,
                message: String::from("Failed to disconnect Timeout"),
            }
        })
    );
    assert!(router.has_source(7, Some(8)));
    assert_eq!(
        router.peer_disconnect_completed(UI, 7, 8, Ok(12345)),
        Some(Delivery {
            to: UI,
            response: InternalServiceResponse::PeerDisconnectSuccess { cid: 7, ticket: 12345 }
        })
    );
    assert!(!router.has_source(7, Some(8)));
    assert!(router.has_session(7));
}

#[test]
fn peer_connect_failure_and_closed_origin() {
    let mut router = router_with_session(7);
    assert_eq!(
        router.peer_connect_completed(UI, 7, 8, Err(String::from("peer offline"))),
        Some(Delivery {
            to: UI,
            response: InternalServiceResponse::PeerConnectFailure {
                cid: 7,
                message: String::from("peer offline"),
            }
        })
    );
    assert!(!router.has_source(7, Some(8)));
    router.unregister(UI);
    assert_eq!(router.peer_connect_completed(UI, 7, 8, Ok("peer")), None);
    assert!(!router.has_source(7, Some(8)));
}

#[test]
fn inbound_goes_to_the_ui_that_opened_the_source() {
    let mut router = router_with_session(7);
    router.register(OTHER_UI, 2);
    router.peer_connect_completed(OTHER_UI, 7, 8, Ok("peer"));
    assert_eq!(router.source_origin(7, None), Some(UI));
    assert_eq!(router.source_origin(7, Some(8)), Some(OTHER_UI));
    assert_eq!(router.source_origin(7, Some(9)), None);
    assert_eq!(
        router.inbound(7, None, b"pong".to_vec()),
        Some(Delivery {
            to: UI,
            response: InternalServiceResponse::MessageReceived {
                message: b"pong".to_vec(),
                cid: 7,
                peer_cid: 0,
            }
        })
    );
    assert_eq!(
        router.inbound(7, Some(8), b"hello".to_vec()),
        Some(Delivery {
            to: OTHER_UI,
            response: InternalServiceResponse::MessageReceived {
                message: b"hello".to_vec(),
                cid: 7,
                peer_cid: 8,
            }
        })
    );
}

#[test]
fn inbound_without_subscriber_or_source_is_skipped() {
    let mut router = router_with_session(7);
    assert_eq!(router.inbound(9, None, b"x".to_vec()), None);
    assert_eq!(router.inbound(7, Some(1), b"x".to_vec()), None);
    router.unregister(UI);
    assert_eq!(router.inbound(7, None, b"x".to_vec()), None);
    assert!(router.has_session(7));
}

#[test]
fn empty_stream_ends_cleanly() {
    let mut router = router_with_session(7);
    assert_eq!(
        router.stream_ended(7, None),
        Some(Delivery {
            to: UI,
            response: InternalServiceResponse::Disconnected { cid: 7, peer_cid: None }
        })
    );
    assert!(!router.has_session(7));
    assert_eq!(router.stream_ended(7, None), None);
    assert_eq!(
        router.dispatch(message(UI, 7, None)),
        reply(
            UI,
            InternalServiceResponse::MessageSendError {
                cid: 7,
                message: String::from("Connection for 7 not found"),
            }
        )
    );
}

#[test]
fn peer_stream_end_removes_only_the_peer() {
    let mut router = router_with_session(7);
    router.peer_connect_completed(UI, 7, 8, Ok("peer"));
    router.peer_connect_completed(UI, 7, 9, Ok("other"));
    assert_eq!(
        router.stream_ended(7, Some(8)),
        Some(Delivery {
            to: UI,
            response: InternalServiceResponse::Disconnected { cid: 7, peer_cid: Some(8) }
        })
    );
    assert!(!router.has_source(7, Some(8)));
    assert!(router.has_source(7, Some(9)));
    assert!(router.has_session(7));
    assert_eq!(router.stream_ended(7, Some(8)), None);
    router.unregister(UI);
    assert_eq!(router.stream_ended(7, Some(9)), None);
    assert!(!router.has_source(7, Some(9)));
}

#[test]
fn routing_failure_changes_nothing() {
    let router = router_with_ui();
    assert_eq!(
        router.routing_failure(&message(UI, 3, None)),
        Some(InternalServiceResponse::MessageSendError {
            cid: 3,
            message: String::from("Connection for 3 not found"),
        })
    );
    assert_eq!(
        router.routing_failure(&InternalServicePayload::Disconnect { uuid: UI, cid: 3 }),
        Some(InternalServiceResponse::DisconnectFailure {
            cid: 3,
            message: String::from("Connection for 3 not found"),
        })
    );
    let router = router_with_session(3);
    assert_eq!(router.routing_failure(&message(UI, 3, None)), None);
    assert_eq!(
        router.routing_failure(&InternalServicePayload::Disconnect { uuid: UI, cid: 3 }),
        None
    );
    assert!(router.has_session(3));
}
