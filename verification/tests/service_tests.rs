use citadel_workspace_service::router::{Delivery, Dispatch, Router};
use citadel_workspace_service::types::{
    ConnectMode, CryptoParameters, EncryptionAlgorithm, HeaderObfuscatorSettings,
    InternalServicePayload, InternalServiceResponse, KemAlgorithm, SecrecyMode, SecurityLevel,
    ServerAddress, SessionSecuritySettings, SigAlgorithm, UdpMode, UserIdentifier,
};

type TestRouter = Router<&'static str, &'static str, &'static str>;

fn default_settings() -> SessionSecuritySettings {
    SessionSecuritySettings {
        security_level: SecurityLevel::Standard,
        secrecy_mode: SecrecyMode::BestEffort,
        crypto_params: CryptoParameters {
            encryption_algorithm: EncryptionAlgorithm::AesGcm256,
            kem_algorithm: KemAlgorithm::MlKem,
            sig_algorithm: SigAlgorithm::Unsigned,
        },
        header_obfuscator_settings: HeaderObfuscatorSettings::Disabled,
    }
}

fn server_bind_address() -> ServerAddress {
    ServerAddress::V4 { octets: [127, 0, 0, 1], port: 55556 }
}

fn register_command(id: u128, full_name: &str, username: &str) -> InternalServicePayload {
    InternalServicePayload::Register {
        uuid: id,
        server_addr: server_bind_address(),
        full_name: String::from(full_name),
        username: String::from(username),
        proposed_password: String::from("test12345").into_bytes(),
        connect_after_register: false,
        default_security_settings: default_settings(),
    }
}

fn connect_command(id: u128, username: &str) -> InternalServicePayload {
    InternalServicePayload::Connect {
        uuid: id,
        username: String::from(username),
        password: String::from("test12345").into_bytes(),
        connect_mode: ConnectMode::Standard { force_login: false },
        udp_mode: UdpMode::Disabled,
        keep_alive_timeout: None,
        session_security_settings: default_settings(),
    }
}

/// Registers and connects `username` on a fresh UI connection, with a
/// session network that says yes, and returns the id of the UI connection.
fn register_and_connect(
    router: &mut TestRouter,
    full_name: &str,
    username: &str,
    cid: u64,
) -> u128 {
    let greeter_packet = router.accept("ui queue").unwrap().response;
    let id = match greeter_packet {
        InternalServiceResponse::ServiceConnectionAccepted { id } => id,
        _ => panic!("Wrong packet type"),
    };

    let command = register_command(id, full_name, username);
    assert_eq!(router.dispatch(command.clone()), Dispatch::Perform(command));
    let response_packet = router.register_completed(id, Ok(())).unwrap();
    assert_eq!(response_packet.to, id);
    match response_packet.response {
        InternalServiceResponse::RegisterSuccess { id: registered } => assert_eq!(registered, id),
        _ => panic!("Registration to server was not a success"),
    }

    let command = connect_command(id, username);
    assert_eq!(router.dispatch(command.clone()), Dispatch::Perform(command));
    let response_packet = router
        .connect_completed(id, String::from(username), Ok((cid, "server channel")))
        .unwrap();
    assert_eq!(response_packet.to, id);
    match response_packet.response {
        InternalServiceResponse::ConnectSuccess { cid: connected } => assert_eq!(connected, cid),
        _ => panic!("Connection to server was not a success"),
    }
    id
}

fn disconnect(router: &mut TestRouter, id: u128, cid: u64) {
    let disconnect_command = InternalServicePayload::Disconnect { uuid: id, cid };
    assert_eq!(
        router.dispatch(disconnect_command.clone()),
        Dispatch::Perform(disconnect_command)
    );
    let response_disconnect_packet = router.disconnect_completed(id, cid, Ok(())).unwrap();
    assert_eq!(response_disconnect_packet.to, id);
    match response_disconnect_packet.response {
        InternalServiceResponse::DisconnectSuccess { cid: disconnected } => {
            assert_eq!(disconnected, cid);
            println!("Disconnected {cid}");
        }
        _ => panic!("Disconnection failed"),
    }
}

#[test]
fn test_citadel_workspace_service() {
    let mut router = TestRouter::new();
    let id = register_and_connect(&mut router, "John", "john_doe", 2000);
    assert!(router.has_session(2000));
    disconnect(&mut router, id, 2000);
    assert!(!router.has_session(2000));
}

#[test]
fn message_test() {
    let mut router = TestRouter::new();
    let id = register_and_connect(&mut router, "John", "john_doe", 2000);
    let cid = 2000;

    let serialized_message = bincode2::serialize("hi").unwrap();
    let message_command = InternalServicePayload::Message {
        uuid: id,
        message: serialized_message,
        cid,
        peer_cid: None,
        security_level: SecurityLevel::Standard,
    };
    assert_eq!(
        router.dispatch(message_command.clone()),
        Dispatch::Perform(message_command)
    );
    assert_eq!(router.session(cid).unwrap().channel(), &"server channel");

    let response_message_packet = router.message_completed(id, cid, None, Ok(())).unwrap();
    println!("{response_message_packet:?}");
    assert_eq!(response_message_packet.to, id);
    match response_message_packet.response {
        InternalServiceResponse::MessageSent { cid: sent, peer_cid } => {
            assert_eq!(sent, cid);
            assert_eq!(peer_cid, None);
        }
        _ => panic!("Message sending failed"),
    }

    let response_message_packet = router.inbound(cid, None, b"pong".to_vec()).unwrap();
    assert_eq!(response_message_packet.to, id);
    match response_message_packet.response {
        InternalServiceResponse::MessageReceived { message, cid: from, peer_cid } => {
            println!("{message:?}");
            assert_eq!(b"pong".to_vec(), message);
            assert_eq!(from, cid);
            assert_eq!(peer_cid, 0);
        }
        _ => panic!("Message sending is not right"),
    }
}

#[test]
fn test_citadel_workspace_service_peer_test() {
    let mut router = TestRouter::new();
    let peer_id = register_and_connect(&mut router, "Perry", "peer_test", 3000);
    let id = register_and_connect(&mut router, "John", "john_doe", 2000);
    assert_ne!(peer_id, id);
    let cid = 2000;

    let peer_register_command = InternalServicePayload::PeerRegister {
        uuid: id,
        cid,
        peer_id: UserIdentifier::Username(String::from("peer_test")),
        connect_after_register: false,
    };
    assert_eq!(
        router.dispatch(peer_register_command.clone()),
        Dispatch::Perform(peer_register_command)
    );
    let peer_response_packet = router.peer_register_completed(id, cid, Ok(3000)).unwrap();
    assert_eq!(
        peer_response_packet,
        Delivery {
            to: id,
            response: InternalServiceResponse::PeerRegisterSuccess {
                cid: 2000,
                peer_cid: 3000,
                username: String::from("john_doe"),
            },
        }
    );
    let (peer_cid, username) = match peer_response_packet.response {
        InternalServiceResponse::PeerRegisterSuccess { cid, peer_cid, username } => {
            println!("User {cid} Registered Peer {peer_cid}");
            (peer_cid, username)
        }
        _ => panic!("Peer Register Failed!"),
    };

    let peer_connect_command = InternalServicePayload::PeerConnect {
        uuid: id,
        cid,
        username,
        peer_cid,
        peer_username: String::from("peer_test"),
        udp_mode: UdpMode::Disabled,
        session_security_settings: default_settings(),
    };
    assert_eq!(
        router.dispatch(peer_connect_command.clone()),
        Dispatch::Perform(peer_connect_command)
    );
    let peer_response_packet = router
        .peer_connect_completed(id, cid, peer_cid, Ok("peer channel"))
        .unwrap();
    assert_eq!(peer_response_packet.to, id);
    match peer_response_packet.response {
        InternalServiceResponse::PeerConnectSuccess { cid: connected } => {
            assert_eq!(connected, cid);
            println!("User {cid} Connected to Peer {peer_cid}");
        }
        _ => panic!("Peer Connect Failed!"),
    }
    assert!(router.has_source(cid, Some(peer_cid)));
    assert_eq!(router.session(cid).unwrap().peer(peer_cid).unwrap().channel, "peer channel");
    assert_eq!(router.session(cid).unwrap().peer(peer_cid).unwrap().origin, id);

    disconnect(&mut router, id, cid);
    disconnect(&mut router, peer_id, 3000);
    assert!(!router.has_session(2000));
    assert!(!router.has_session(3000));
}
