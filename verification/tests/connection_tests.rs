use citadel_workspace_service::connection::UiConnection;
use citadel_workspace_service::frame::FrameError;
use citadel_workspace_service::types::InternalServicePayload;

#[test]
fn new_connection_is_open_and_empty() {
    let mut connection = UiConnection::new(42);
    assert_eq!(connection.id(), 42);
    assert!(!connection.is_closed());
    assert_eq!(connection.next_payload(), Ok(None));
}

#[test]
fn payloads_come_out_frame_by_frame() {
    let mut connection = UiConnection::new(1);
    connection.receive(&[0, 0, 0, 2, 10]);
    assert_eq!(connection.next_payload(), Ok(None));
    connection.receive(&[11, 0, 0, 0, 0]);
    assert_eq!(connection.next_payload(), Ok(Some(vec![10, 11])));
    assert_eq!(connection.next_payload(), Ok(Some(vec![])));
    assert_eq!(connection.next_payload(), Ok(None));
    assert!(!connection.is_closed());
}

#[test]
fn oversize_frame_closes_the_connection() {
    let mut connection = UiConnection::new(1);
    connection.receive(&[4, 0, 0, 1]);
    assert_eq!(
        connection.next_payload(),
        Err(FrameError::FrameTooLong { length: 67_108_865 })
    );
    assert!(connection.is_closed());
    assert_eq!(connection.next_payload(), Ok(None));
    connection.receive(&[0, 0, 0, 1, 7]);
    assert_eq!(connection.next_payload(), Ok(None));
}

#[test]
fn closed_connection_yields_nothing() {
    let mut connection = UiConnection::new(1);
    connection.receive(&[0, 0, 0, 1, 7]);
    connection.close();
    assert!(connection.is_closed());
    assert_eq!(connection.next_payload(), Ok(None));
}

#[test]
fn stamp_overwrites_the_origin() {
    let connection = UiConnection::new(77);
    let stamped = connection.stamp(InternalServicePayload::Disconnect { uuid: 5, cid: 9 });
    assert_eq!(stamped, InternalServicePayload::Disconnect { uuid: 77, cid: 9 });
    let stamped = connection.stamp(InternalServicePayload::PeerDisconnect {
        uuid: 77,
        cid: 9,
        peer_cid: 3,
    });
    assert_eq!(
        stamped,
        InternalServicePayload::PeerDisconnect { uuid: 77, cid: 9, peer_cid: 3 }
    );
}

#[test]
fn frame_response_prefixes_the_length() {
    let connection = UiConnection::new(77);
    assert_eq!(connection.frame_response(b"ok"), Ok(vec![0, 0, 0, 2, b'o', b'k']));
}

#[test]
fn forward_stamps_requests_and_closes_on_garbage() {
    let mut connection = UiConnection::new(77);
    assert_eq!(
        connection.forward(Some(InternalServicePayload::Disconnect { uuid: 5, cid: 9 })),
        Some(InternalServicePayload::Disconnect { uuid: 77, cid: 9 })
    );
    assert!(!connection.is_closed());
    assert_eq!(connection.forward(None), None);
    assert!(connection.is_closed());
    assert_eq!(
        connection.forward(Some(InternalServicePayload::Disconnect { uuid: 5, cid: 9 })),
        None
    );
    assert!(connection.is_closed());
}
