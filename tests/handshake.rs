use qpipe::{
    draw_token, handshake_step, parse_role, read_port_token, role_byte, tokens_match,
    write_port_token, HandshakeAction, HandshakeError, HandshakeEvent, HandshakeState, Role,
    REPLY_LEN, ROLE_CONSUMER, ROLE_PRODUCER,
};

const T: [u8; 16] = [1, 2, 3, 4, 5, 6, 7, 8, 9, 10, 11, 12, 13, 14, 15, 16];

#[test]
fn role_bytes() {
    assert_eq!(ROLE_PRODUCER, b'P');
    assert_eq!(ROLE_CONSUMER, b'C');
    assert_eq!(parse_role(0x50), Ok(Role::Producer));
    assert_eq!(parse_role(0x43), Ok(Role::Consumer));
    assert_eq!(role_byte(Role::Consumer), b'C');
}

#[test]
fn rejected_role() {
    assert_eq!(parse_role(0x58), Err(HandshakeError::UnknownRole));
    let (s, a) = handshake_step(HandshakeState::AwaitRole, HandshakeEvent::RoleByte(0x58));
    assert_eq!(s, HandshakeState::Closed);
    assert_eq!(a, HandshakeAction::Close(HandshakeError::UnknownRole));
}

#[test]
fn full_handshake() {
    let (s, a) = handshake_step(HandshakeState::AwaitRole, HandshakeEvent::RoleByte(b'P'));
    assert_eq!(a, HandshakeAction::BindListener);
    let (s, a) = handshake_step(s, HandshakeEvent::Bound(40000));
    assert_eq!(a, HandshakeAction::DrawToken);
    let (s, a) = handshake_step(s, HandshakeEvent::TokenDrawn(T));
    assert_eq!(a, HandshakeAction::Reply(40000, T));
    let mut wrong = T.to_vec();
    wrong[15] = 0;
    let (s, a) = handshake_step(s, HandshakeEvent::Presented(wrong));
    assert_eq!(a, HandshakeAction::Refuse);
    assert_eq!(s, HandshakeState::AwaitData(Role::Producer, T));
    let (s, a) = handshake_step(s, HandshakeEvent::ReadFailed);
    assert_eq!(a, HandshakeAction::Refuse);
    let (s, a) = handshake_step(s, HandshakeEvent::Presented(T[..8].to_vec()));
    assert_eq!(a, HandshakeAction::Refuse);
    let (s, a) = handshake_step(s, HandshakeEvent::Presented(T.to_vec()));
    assert_eq!(a, HandshakeAction::Start(Role::Producer));
    assert_eq!(s, HandshakeState::Worker(Role::Producer));
    let (s, _) = handshake_step(s, HandshakeEvent::RoleByte(b'C'));
    assert_eq!(s, HandshakeState::Worker(Role::Producer));
}

#[test]
fn entropy_failure_closes() {
    let s = HandshakeState::IssueToken(Role::Consumer, 1);
    let (s, a) = handshake_step(s, HandshakeEvent::TokenFailed(HandshakeError::NoEntropy));
    assert_eq!(s, HandshakeState::Closed);
    assert_eq!(a, HandshakeAction::Close(HandshakeError::NoEntropy));
}

#[test]
fn out_of_order_event_closes() {
    let (s, a) = handshake_step(HandshakeState::AwaitRole, HandshakeEvent::Bound(5));
    assert_eq!(s, HandshakeState::Closed);
    assert_eq!(a, HandshakeAction::Close(HandshakeError::OutOfOrder));
}

#[test]
fn reply_round_trip() {
    let reply = write_port_token(0xABCD, &T);
    assert_eq!(reply.len(), REPLY_LEN);
    assert_eq!(&reply[..2], &[0xAB, 0xCD]);
    assert_eq!(read_port_token(&reply), Ok((0xABCD, T)));
    assert_eq!(read_port_token(&reply[..17]), Err(HandshakeError::ShortReply));
}

#[test]
fn token_comparison() {
    assert!(tokens_match(&T, &T));
    assert!(!tokens_match(&T[..15], &T));
    assert!(!tokens_match(&[0u8; 16], &T));
}

#[test]
fn tokens_are_drawn_fresh() {
    let a = draw_token().unwrap();
    let b = draw_token().unwrap();
    assert_ne!(a, b);
}
