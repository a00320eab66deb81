use ring::agreement::{agree_ephemeral, UnparsedPublicKey, X25519};
use secure_session::error::{ErrorKind, SessionError};
use secure_session::session::{generate_key_pair, steps_for, Phase, Session};
use secure_session::wire::{
    Expect, Frame, HandshakeOutcome, HandshakePlan, HandshakeStep, Reply, Role, TERMINAL_FLAG,
};

/// Runs the key agreement that the transport would run for one side.
fn derive(plan: HandshakePlan, peer_public_key: &[u8]) -> Vec<u8> {
    let peer = UnparsedPublicKey::new(&X25519, peer_public_key.to_vec());
    agree_ephemeral(plan.private_key, &peer, |secret| secret.to_vec()).unwrap()
}

/// An initiator and a responder after a handshake over a faithful wire.
fn established_pair(header: &str) -> (Session, Session) {
    let mut initiator = Session::new_with_header(header, 1_700_000_000_000).unwrap();
    let mut responder = Session::new(1_700_000_000_000).unwrap();
    let first = initiator.handshake(0).unwrap();
    let second = responder.handshake(1).unwrap();
    let sent_header = first.header.clone().unwrap();
    let first_public = first.public_key.clone();
    let second_public = second.public_key.clone();
    let first_key = derive(first, &second_public);
    let second_key = derive(second, &first_public);
    initiator.establish(HandshakeOutcome::Initiator { key: first_key }).unwrap();
    responder
        .establish(HandshakeOutcome::Responder {
            peer: "127.0.0.1".to_string(),
            header: sent_header,
            key: second_key,
        })
        .unwrap();
    (initiator, responder)
}

/// Carries frames over a faithful wire into the receiver.
fn carry(frames: Vec<Frame>, receiver: &mut Session) -> secure_session::wire::Delivery {
    let reads = receiver.recv().unwrap();
    assert_eq!(frames.len(), reads.len());
    let mut markers: Vec<u32> = Vec::new();
    let mut content: Vec<u8> = Vec::new();
    for (frame, read) in frames.into_iter().zip(reads.into_iter()) {
        match (frame, read) {
            (Frame::Marker(code), Expect::Marker) => markers.push(code),
            (Frame::Encrypted { key, payload }, Expect::Encrypted { key: expected }) => {
                assert_eq!(key, expected);
                content = payload;
            }
            _ => panic!("frame and expected packet differ in kind"),
        }
    }
    receiver.assemble(markers, content).unwrap()
}

#[test]
fn fresh_session_has_no_key_and_is_open() {
    let s = Session::new(1_700_000_000_000).unwrap();
    assert!(!s.closed());
    assert_eq!(s.phase(), Phase::Uninitialized);
    assert_eq!(s.symmetric_key(), None);
    assert_eq!(s.public_key().len(), 32);
    assert_eq!(s.request_time(), 1_700_000_000_000);
}

#[test]
fn new_with_header_keeps_header() {
    let s = Session::new_with_header("GET /resource", 1_700_000_000_000).unwrap();
    assert_eq!(s.header(), "GET /resource");
    assert_eq!(s.phase(), Phase::Uninitialized);
}

#[test]
fn with_key_pair_holds_the_given_key() {
    let (private_key, public_key) = generate_key_pair().unwrap();
    let expected = private_key.compute_public_key().unwrap().as_ref().to_vec();
    assert_eq!(public_key, expected);
    let s = Session::with_key_pair(Some("GET /a".to_string()), private_key, public_key, 42);
    assert_eq!(s.public_key(), expected);
    assert_eq!(s.request_time(), 42);
    assert_eq!(s.header(), "GET /a");
}

#[test]
fn sequential_sessions_have_different_keys() {
    let mut a = Session::new(1_700_000_000_000).unwrap();
    let mut b = Session::new(1_700_000_000_000).unwrap();
    assert_ne!(a.public_key(), b.public_key());
    let (_, peer_public) = generate_key_pair().unwrap();
    let key_a = derive(a.handshake(1).unwrap(), &peer_public);
    let key_b = derive(b.handshake(1).unwrap(), &peer_public);
    assert_ne!(key_a, key_b);
}

#[test]
fn handshake_steps_of_each_role() {
    assert_eq!(
        steps_for(Role::Initiator),
        vec![
            HandshakeStep::SendHeader,
            HandshakeStep::SendSaltedMaterial,
            HandshakeStep::ReceiveCompletion
        ]
    );
    assert_eq!(
        steps_for(Role::Responder),
        vec![
            HandshakeStep::ReadPeerAddress,
            HandshakeStep::ReadHeader,
            HandshakeStep::ParseRequest,
            HandshakeStep::SendSaltedMaterial,
            HandshakeStep::ReceiveCompletion
        ]
    );
}

#[test]
fn initiator_plan_carries_header_and_key() {
    let mut s = Session::new_with_header("GET /resource", 1_700_000_000_000).unwrap();
    let public_key = s.public_key();
    let plan = s.handshake(0).unwrap();
    assert_eq!(plan.role, Role::Initiator);
    assert_eq!(plan.steps, steps_for(Role::Initiator));
    assert_eq!(plan.header, Some("GET /resource".to_string()));
    assert_eq!(plan.public_key, public_key);
    assert_eq!(s.phase(), Phase::KeyExchanging(Role::Initiator));
}

#[test]
fn responder_plan_has_no_header() {
    let mut s = Session::new(1_700_000_000_000).unwrap();
    let plan = s.second_hand().unwrap();
    assert_eq!(plan.role, Role::Responder);
    assert_eq!(plan.steps, steps_for(Role::Responder));
    assert_eq!(plan.header, None);
    assert_eq!(s.phase(), Phase::KeyExchanging(Role::Responder));
}

#[test]
fn unknown_flag_is_refused_and_changes_nothing() {
    let mut s = Session::new_with_header("GET /resource", 1_700_000_000_000).unwrap();
    for flag in [2u8, 3, 17, 255] {
        assert_eq!(s.handshake(flag).err(), Some(SessionError::UnknownHandshakeFlag));
        assert_eq!(s.phase(), Phase::Uninitialized);
    }
    assert!(s.handshake(0).is_ok());
}

#[test]
fn initiator_without_header_is_refused() {
    let mut s = Session::new(1_700_000_000_000).unwrap();
    assert_eq!(s.first_hand().err(), Some(SessionError::MissingHeader));
    assert_eq!(s.handshake(0).err(), Some(SessionError::MissingHeader));
    assert_eq!(s.phase(), Phase::Uninitialized);
    assert!(s.handshake(1).is_ok());
}

#[test]
fn second_handshake_is_refused() {
    let mut s = Session::new_with_header("GET /resource", 1_700_000_000_000).unwrap();
    assert!(s.handshake(0).is_ok());
    assert_eq!(s.handshake(0).err(), Some(SessionError::KeyConsumed));
    assert_eq!(s.handshake(1).err(), Some(SessionError::KeyConsumed));
    assert_eq!(s.phase(), Phase::KeyExchanging(Role::Initiator));
}

#[test]
fn outcome_without_handshake_is_refused() {
    let mut s = Session::new(1_700_000_000_000).unwrap();
    let r = s.establish(HandshakeOutcome::Initiator { key: vec![1, 2, 3] });
    assert_eq!(r, Err(SessionError::UnexpectedOutcome));
    assert_eq!(s.symmetric_key(), None);
    assert_eq!(s.phase(), Phase::Uninitialized);
}

#[test]
fn outcome_of_the_other_role_is_refused() {
    let mut s = Session::new_with_header("GET /resource", 1_700_000_000_000).unwrap();
    s.handshake(0).unwrap();
    let r = s.establish(HandshakeOutcome::Responder {
        peer: "10.0.0.1".to_string(),
        header: "GET /x".to_string(),
        key: vec![9; 32],
    });
    assert_eq!(r, Err(SessionError::UnexpectedOutcome));
    assert_eq!(s.symmetric_key(), None);
    assert_eq!(s.header(), "GET /resource");
}

#[test]
fn key_is_set_once() {
    let mut s = Session::new_with_header("GET /resource", 1_700_000_000_000).unwrap();
    s.handshake(0).unwrap();
    assert_eq!(s.establish(HandshakeOutcome::Initiator { key: vec![7; 32] }), Ok(()));
    assert_eq!(s.symmetric_key(), Some(vec![7; 32]));
    assert_eq!(s.phase(), Phase::Established);
    let again = s.establish(HandshakeOutcome::Initiator { key: vec![8; 32] });
    assert_eq!(again, Err(SessionError::UnexpectedOutcome));
    assert_eq!(s.symmetric_key(), Some(vec![7; 32]));
}

#[test]
fn failed_handshake_leaves_session_unusable() {
    let mut s = Session::new(1_700_000_000_000).unwrap();
    s.handshake(1).unwrap();
    assert_eq!(s.establish(HandshakeOutcome::Failed), Ok(()));
    assert_eq!(s.phase(), Phase::Failed);
    assert_eq!(s.handshake(1).err(), Some(SessionError::KeyConsumed));
    assert_eq!(s.send(vec![1], 200), Err(SessionError::NotEstablished));
    assert_eq!(s.recv(), Err(SessionError::NotEstablished));
}

#[test]
fn send_before_handshake_is_refused() {
    let s = Session::new(1_700_000_000_000).unwrap();
    assert_eq!(s.send(vec![1, 2], 200), Err(SessionError::NotEstablished));
    assert_eq!(s.recv(), Err(SessionError::NotEstablished));
}

#[test]
fn handshake_pair_derives_identical_keys() {
    let (initiator, responder) = established_pair("GET /resource");
    let first = initiator.symmetric_key().unwrap();
    let second = responder.symmetric_key().unwrap();
    assert_eq!(first.len(), 32);
    assert_eq!(first, second);
    assert_eq!(initiator.phase(), Phase::Established);
    assert_eq!(responder.phase(), Phase::Established);
}

#[test]
fn responder_learns_header_and_peer() {
    let (initiator, responder) = established_pair("GET /resource");
    assert_eq!(responder.header(), "GET /resource");
    assert_eq!(initiator.header(), "GET /resource");
    assert_eq!(responder.get_ip(), "127.0.0.1");
}

#[test]
fn send_frames_a_message() {
    let (initiator, _) = established_pair("GET /resource");
    let key = initiator.symmetric_key().unwrap();
    let frames = initiator.send(vec![10, 20, 30], 404).unwrap();
    assert_eq!(
        frames,
        vec![
            Frame::Marker(0),
            Frame::Encrypted { key, payload: vec![10, 20, 30] },
            Frame::Marker(404)
        ]
    );
}

#[test]
fn recv_names_three_packets() {
    let (_, responder) = established_pair("GET /resource");
    let key = responder.symmetric_key().unwrap();
    assert_eq!(
        responder.recv().unwrap(),
        vec![Expect::Marker, Expect::Encrypted { key }, Expect::Marker]
    );
}

#[test]
fn sent_message_is_received() {
    let (initiator, mut responder) = established_pair("GET /resource");
    let payload: Vec<u8> = (0u8..=255).collect();
    let delivery = carry(initiator.send(payload.clone(), 201).unwrap(), &mut responder);
    assert_eq!(delivery.response.content, payload);
    assert_eq!(delivery.response.status_code, 201);
    assert_eq!(delivery.response.flag, 0);
    assert!(!delivery.close_socket);
    assert!(!responder.closed());
}

#[test]
fn empty_payload_is_received() {
    let (mut initiator, responder) = established_pair("GET /resource");
    let delivery = carry(responder.send(Vec::new(), 0).unwrap(), &mut initiator);
    assert_eq!(delivery.response.content, Vec::<u8>::new());
    assert_eq!(delivery.response.status_code, 0);
}

#[test]
fn send_json_is_received_as_compact_text() {
    let (initiator, mut responder) = established_pair("GET /resource");
    let mut object = serde_json::Map::new();
    object.insert("x".to_string(), serde_json::Value::from(1));
    let frames = initiator.send_json(serde_json::Value::Object(object), 200).unwrap();
    let delivery = carry(frames, &mut responder);
    assert_eq!(delivery.response.content, "{\"x\":1}".as_bytes().to_vec());
    assert_eq!(delivery.response.status_code, 200);
}

#[test]
fn response_frames_body_and_status() {
    let (_, responder) = established_pair("GET /resource");
    let key = responder.symmetric_key().unwrap();
    let frames = responder.response(Reply { body: vec![1, 2, 3], status_code: 500 }).unwrap();
    assert_eq!(
        frames,
        vec![
            Frame::Marker(0),
            Frame::Encrypted { key, payload: vec![1, 2, 3] },
            Frame::Marker(500)
        ]
    );
}

#[test]
fn close_is_idempotent() {
    let (mut initiator, _) = established_pair("GET /resource");
    assert!(!initiator.closed());
    assert!(initiator.close());
    assert!(initiator.closed());
    assert!(!initiator.close());
    assert!(initiator.closed());
}

#[test]
fn closed_session_refuses_messages() {
    let (mut initiator, _) = established_pair("GET /resource");
    initiator.close();
    assert_eq!(initiator.send(vec![1], 200), Err(SessionError::ChannelClosed));
    assert_eq!(initiator.recv(), Err(SessionError::ChannelClosed));
    assert_eq!(
        initiator.send_json(serde_json::Value::Null, 200),
        Err(SessionError::ChannelClosed)
    );
    assert_eq!(
        initiator.response(Reply { body: vec![], status_code: 200 }),
        Err(SessionError::ChannelClosed)
    );
}

#[test]
fn closed_wins_over_missing_key() {
    let mut s = Session::new(1_700_000_000_000).unwrap();
    s.close();
    assert_eq!(s.send(vec![1], 200), Err(SessionError::ChannelClosed));
    assert_eq!(s.recv(), Err(SessionError::ChannelClosed));
}

#[test]
fn terminal_flag_closes_the_receiver() {
    let (_, mut responder) = established_pair("GET /resource");
    assert_eq!(TERMINAL_FLAG, 1);
    let delivery = responder.deliver(1, vec![5, 6], 200);
    assert_eq!(delivery.response.content, vec![5, 6]);
    assert_eq!(delivery.response.status_code, 200);
    assert_eq!(delivery.response.flag, 1);
    assert!(delivery.close_socket);
    assert!(responder.closed());
    assert_eq!(responder.send(vec![1], 200), Err(SessionError::ChannelClosed));
    assert!(!responder.close());
}

#[test]
fn terminal_flag_on_closed_session_closes_no_socket() {
    let (_, mut responder) = established_pair("GET /resource");
    responder.close();
    let delivery = responder.deliver(1, vec![], 200);
    assert!(!delivery.close_socket);
    assert!(responder.closed());
}

#[test]
fn other_flags_keep_the_receiver_open() {
    let (_, mut responder) = established_pair("GET /resource");
    for flag in [0u32, 2, 200, u32::MAX] {
        let delivery = responder.deliver(flag, vec![1], 7);
        assert_eq!(delivery.response.flag, flag);
        assert!(!delivery.close_socket);
        assert!(!responder.closed());
    }
}

#[test]
fn errors_fall_into_families() {
    assert_eq!(SessionError::ChannelClosed.kind(), ErrorKind::ChannelClosed);
    assert_eq!(SessionError::UnknownHandshakeFlag.kind(), ErrorKind::HandshakeFailure);
    assert_eq!(SessionError::KeyConsumed.kind(), ErrorKind::HandshakeFailure);
    assert_eq!(SessionError::MissingHeader.kind(), ErrorKind::HandshakeFailure);
    assert_eq!(SessionError::UnexpectedOutcome.kind(), ErrorKind::HandshakeFailure);
    assert_eq!(SessionError::KeyGeneration.kind(), ErrorKind::HandshakeFailure);
    assert_eq!(SessionError::NotEstablished.kind(), ErrorKind::HandshakeFailure);
    assert_ne!(ErrorKind::TransportFailure, ErrorKind::ProtocolDesync);
}

#[test]
fn header_and_request_are_known_when_set() {
    let fresh = Session::new(1_700_000_000_000).unwrap();
    assert!(!fresh.has_header());
    assert!(!fresh.has_request());
    let (initiator, responder) = established_pair("GET /resource");
    assert!(initiator.has_header());
    assert!(!initiator.has_request());
    assert!(responder.has_header());
    assert!(responder.has_request());
}

#[test]
fn closing_keeps_the_key_and_the_header() {
    let (mut initiator, _) = established_pair("GET /resource");
    let key = initiator.symmetric_key();
    initiator.close();
    assert_eq!(initiator.symmetric_key(), key);
    assert_eq!(initiator.header(), "GET /resource");
    assert_eq!(initiator.phase(), Phase::Established);
}

#[test]
fn assemble_takes_flag_then_status() {
    let (_, mut responder) = established_pair("GET /resource");
    let delivery = responder.assemble(vec![0, 200], vec![4, 5, 6]).unwrap();
    assert_eq!(delivery.response.flag, 0);
    assert_eq!(delivery.response.status_code, 200);
    assert_eq!(delivery.response.content, vec![4, 5, 6]);
    assert!(!delivery.close_socket);
    assert!(!responder.closed());
    let last = responder.assemble(vec![1, 0], vec![]).unwrap();
    assert_eq!(last.response.flag, 1);
    assert_eq!(last.response.status_code, 0);
    assert!(last.close_socket);
    assert!(responder.closed());
}

#[test]
fn assemble_refuses_other_marker_counts() {
    let (_, mut responder) = established_pair("GET /resource");
    assert_eq!(responder.assemble(vec![], vec![1]), None);
    assert_eq!(responder.assemble(vec![1], vec![1]), None);
    assert_eq!(responder.assemble(vec![1, 200, 3], vec![1]), None);
    assert!(!responder.closed());
}

#[test]
fn new_with_header_keeps_the_given_time() {
    let s = Session::new_with_header("GET /resource", -5).unwrap();
    assert_eq!(s.request_time(), -5);
}

#[test]
fn sessions_keep_the_keys_their_exchanges_reported() {
    let mut a = Session::new_with_header("GET /resource", 0).unwrap();
    let mut b = Session::new_with_header("GET /resource", 0).unwrap();
    a.handshake(0).unwrap();
    b.handshake(0).unwrap();
    a.establish(HandshakeOutcome::Initiator { key: vec![1; 32] }).unwrap();
    b.establish(HandshakeOutcome::Initiator { key: vec![2; 32] }).unwrap();
    assert_eq!(a.symmetric_key(), Some(vec![1; 32]));
    assert_eq!(b.symmetric_key(), Some(vec![2; 32]));
    assert_ne!(a.symmetric_key(), b.symmetric_key());
}
