//! Session establishment: role byte on the control port, then a one-time
//! token that a client presents on a per-session data port.
use vstd::prelude::*;
use rand::rngs::SysRng;
use rand::TryRng;

verus! {

/// Role byte of a producer (`'P'`).
pub const ROLE_PRODUCER: u8 = 0x50;

/// Role byte of a consumer (`'C'`).
pub const ROLE_CONSUMER: u8 = 0x43;

/// Length of a session token.
pub const TOKEN_LEN: usize = 16;

/// Length of the server's reply on the control port: port, then token.
pub const REPLY_LEN: usize = 18;

/// How long a connection to the data port may take to present its token.
pub const AUTH_TIMEOUT_SECS: u64 = 5;

#[derive(Clone, Copy, Debug, PartialEq, Eq, Structural)]
pub enum Role {
    Producer,
    Consumer,
}

/// Ways in which a session can fail before its worker starts.
#[derive(Clone, Copy, Debug, PartialEq, Eq, Structural)]
pub enum HandshakeError {
    /// The role byte is neither `ROLE_PRODUCER` nor `ROLE_CONSUMER`.
    UnknownRole,
    /// The operating system gave no random bytes for the token.
    NoEntropy,
    /// The control reply is shorter than `REPLY_LEN`.
    ShortReply,
    /// An event came that the current state does not expect.
    OutOfOrder,
}

/// The role that a role byte names, if any.
pub open spec fn role_of(b: u8) -> Option<Role> {
    if b == ROLE_PRODUCER {
        Some(Role::Producer)
    } else if b == ROLE_CONSUMER {
        Some(Role::Consumer)
    } else {
        None
    }
}

pub open spec fn role_byte_spec(role: Role) -> u8 {
    match role {
        Role::Producer => ROLE_PRODUCER,
        Role::Consumer => ROLE_CONSUMER,
    }
}

/// Reads a role byte; anything but `ROLE_PRODUCER` or `ROLE_CONSUMER` is refused.
pub fn parse_role(b: u8) -> (r: Result<Role, HandshakeError>)
    ensures
        r == match role_of(b) {
            Some(role) => Ok::<Role, HandshakeError>(role),
            None => Err(HandshakeError::UnknownRole),
        },
{
    if b == ROLE_PRODUCER {
        Ok(Role::Producer)
    } else if b == ROLE_CONSUMER {
        Ok(Role::Consumer)
    } else {
        Err(HandshakeError::UnknownRole)
    }
}

/// The byte a client sends to ask for `role`.
pub fn role_byte(role: Role) -> (r: u8)
    ensures
        r == role_byte_spec(role),
        role_of(r) == Some(role),
{
    match role {
        Role::Producer => ROLE_PRODUCER,
        Role::Consumer => ROLE_CONSUMER,
    }
}

/// The control reply: the port as two big-endian bytes, then the token.
pub open spec fn reply_bytes(port: u16, token: Seq<u8>) -> Seq<u8> {
    seq![(port / 256) as u8, (port % 256) as u8] + token
}

/// Encodes the control reply for a session on `port` with `token`.
pub fn write_port_token(port: u16, token: &[u8; TOKEN_LEN]) -> (r: Vec<u8>)
    ensures
        r@ == reply_bytes(port, token@),
        r@.len() == REPLY_LEN,
{
    let mut r: Vec<u8> = Vec::with_capacity(REPLY_LEN);
    r.push((port / 256) as u8);
    r.push((port % 256) as u8);
    let mut i: usize = 0;
    while i < TOKEN_LEN
        invariant
            i <= TOKEN_LEN,
            token@.len() == TOKEN_LEN,
            r@ == seq![(port / 256) as u8, (port % 256) as u8] + token@.subrange(0, i as int),
        decreases TOKEN_LEN - i,
    {
        r.push(token[i]);
        i = i + 1;
        assert(r@ =~= seq![(port / 256) as u8, (port % 256) as u8] + token@.subrange(0, i as int));
    }
    assert(token@.subrange(0, TOKEN_LEN as int) =~= token@);
    r
}

/// Decodes the control reply that a client reads: the port of its data
/// connection and the token to present there. Bytes after the first
/// `REPLY_LEN` are not looked at.
pub fn read_port_token(reply: &[u8]) -> (r: Result<(u16, [u8; TOKEN_LEN]), HandshakeError>)
    ensures
        reply@.len() < REPLY_LEN ==> r == Err::<(u16, [u8; TOKEN_LEN]), HandshakeError>(
            HandshakeError::ShortReply,
        ),
        reply@.len() >= REPLY_LEN ==> (r matches Ok((port, token)) && port == reply@[0] as int
            * 256 + reply@[1] as int && token@ == reply@.subrange(2, REPLY_LEN as int)),
{
    if reply.len() < REPLY_LEN {
        return Err(HandshakeError::ShortReply);
    }
    let port: u16 = reply[0] as u16 * 256 + reply[1] as u16;
    let mut token = [0u8; TOKEN_LEN];
    let mut i: usize = 0;
    while i < TOKEN_LEN
        invariant
            i <= TOKEN_LEN,
            reply@.len() >= REPLY_LEN,
            token@.len() == TOKEN_LEN,
            forall|k: int| 0 <= k < i ==> token@[k] == reply@[k + 2],
        decreases TOKEN_LEN - i,
    {
        token[i] = reply[i + 2];
        i = i + 1;
    }
    assert(token@ =~= reply@.subrange(2, REPLY_LEN as int));
    Ok((port, token))
}

/// Whether `got` is exactly `token`.
pub fn tokens_match(got: &[u8], token: &[u8; TOKEN_LEN]) -> (r: bool)
    ensures
        r == (got@ == token@),
{
    if got.len() != TOKEN_LEN {
        return false;
    }
    let mut i: usize = 0;
    while i < TOKEN_LEN
        invariant
            i <= TOKEN_LEN,
            got@.len() == TOKEN_LEN,
            token@.len() == TOKEN_LEN,
            forall|k: int| 0 <= k < i ==> got@[k] == token@[k],
        decreases TOKEN_LEN - i,
    {
        if got[i] != token[i] {
            return false;
        }
        i = i + 1;
    }
    assert(got@ =~= token@);
    true
}

#[verifier::external_type_specification]
#[verifier::external_body]
pub struct ExSysError(rand::rngs::SysError);

/// Relies on rand's `SysRng::try_fill_bytes` (getrandom's `fill`): fills the
/// buffer from the operating system's random source, or reports its error.
/// Nothing is known of the bytes drawn.
#[verifier::external_body]
fn fill_from_os(buf: &mut [u8; TOKEN_LEN]) -> (r: Result<(), rand::rngs::SysError>) {
    SysRng.try_fill_bytes(buf)
}

/// Draws a fresh session token from the operating system's random source.
pub fn draw_token() -> (r: Result<[u8; TOKEN_LEN], HandshakeError>)
    ensures
        r matches Err(e) ==> e == HandshakeError::NoEntropy,
{
    let mut token = [0u8; TOKEN_LEN];
    match fill_from_os(&mut token) {
        Ok(()) => Ok(token),
        Err(_) => Err(HandshakeError::NoEntropy),
    }
}

/// Where the server side of a session stands.
#[derive(Debug, PartialEq, Eq)]
pub enum HandshakeState {
    /// Waiting for the role byte on the control socket.
    AwaitRole,
    /// Role known; a data listener is to be bound.
    BindEphemeral(Role),
    /// Data listener bound on this port; a token is to be drawn.
    IssueToken(Role, u16),
    /// Reply sent; waiting for a data connection that presents the token.
    AwaitData(Role, [u8; TOKEN_LEN]),
    /// Authenticated: the worker for the role runs. Final.
    Worker(Role),
    /// The session ended without a worker. Final.
    Closed,
}

/// What the session's driver observed.
#[derive(Debug, PartialEq, Eq)]
pub enum HandshakeEvent {
    /// The role byte read from the control socket.
    RoleByte(u8),
    /// The data listener was bound on this port.
    Bound(u16),
    /// A token was drawn.
    TokenDrawn([u8; TOKEN_LEN]),
    /// No token could be drawn.
    TokenFailed(HandshakeError),
    /// The bytes a data connection presented (at most `TOKEN_LEN`).
    Presented(Vec<u8>),
    /// A data connection sent too little before the timeout or failed.
    ReadFailed,
}

/// What the driver must do next.
#[derive(Debug, PartialEq, Eq)]
pub enum HandshakeAction {
    /// Close the control socket; the session ends without a worker.
    Close(HandshakeError),
    /// Bind a data listener on the control socket's address, port chosen by the system.
    BindListener,
    /// Draw a token.
    DrawToken,
    /// Send `write_port_token(port, token)` on the control socket and close it,
    /// then accept data connections, each with a read timeout of
    /// `AUTH_TIMEOUT_SECS`.
    Reply(u16, [u8; TOKEN_LEN]),
    /// Close this data connection and accept the next; the listener stays open.
    Refuse,
    /// Clear the read timeout, close the listener and run the worker for the role.
    Start(Role),
}

/// The server side's next state and action on `ev` in state `s`.
pub open spec fn handshake_next(s: HandshakeState, ev: HandshakeEvent) -> (
    HandshakeState,
    HandshakeAction,
) {
    match (s, ev) {
        (HandshakeState::AwaitRole, HandshakeEvent::RoleByte(b)) => match role_of(b) {
            Some(role) => (HandshakeState::BindEphemeral(role), HandshakeAction::BindListener),
            None => (HandshakeState::Closed, HandshakeAction::Close(HandshakeError::UnknownRole)),
        },
        (HandshakeState::BindEphemeral(role), HandshakeEvent::Bound(port)) => (
            HandshakeState::IssueToken(role, port),
            HandshakeAction::DrawToken,
        ),
        (HandshakeState::IssueToken(role, port), HandshakeEvent::TokenDrawn(t)) => (
            HandshakeState::AwaitData(role, t),
            HandshakeAction::Reply(port, t),
        ),
        (HandshakeState::IssueToken(_, _), HandshakeEvent::TokenFailed(e)) => (
            HandshakeState::Closed,
            HandshakeAction::Close(e),
        ),
        (HandshakeState::AwaitData(role, t), HandshakeEvent::Presented(got)) => if got@ == t@ {
            (HandshakeState::Worker(role), HandshakeAction::Start(role))
        } else {
            (HandshakeState::AwaitData(role, t), HandshakeAction::Refuse)
        },
        (HandshakeState::AwaitData(role, t), HandshakeEvent::ReadFailed) => (
            HandshakeState::AwaitData(role, t),
            HandshakeAction::Refuse,
        ),
        (HandshakeState::Worker(role), _) => (
            HandshakeState::Worker(role),
            HandshakeAction::Close(HandshakeError::OutOfOrder),
        ),
        _ => (HandshakeState::Closed, HandshakeAction::Close(HandshakeError::OutOfOrder)),
    }
}

/// A reply encoded with `write_port_token` decodes with `read_port_token` to
/// the same port and token.
pub proof fn lemma_reply_round_trip(port: u16, token: Seq<u8>)
    requires
        token.len() == TOKEN_LEN,
    ensures
        reply_bytes(port, token).len() == REPLY_LEN,
        reply_bytes(port, token)[0] as int * 256 + reply_bytes(port, token)[1] as int == port,
        reply_bytes(port, token).subrange(2, REPLY_LEN as int) == token,
{
    assert(reply_bytes(port, token).subrange(2, REPLY_LEN as int) =~= token);
}

/// A role byte other than `ROLE_PRODUCER` and `ROLE_CONSUMER` closes the
/// session at once: no data listener is bound.
pub proof fn lemma_unknown_role_closes(b: u8)
    requires
        b != ROLE_PRODUCER,
        b != ROLE_CONSUMER,
    ensures
        handshake_next(HandshakeState::AwaitRole, HandshakeEvent::RoleByte(b)) == (
            HandshakeState::Closed,
            HandshakeAction::Close(HandshakeError::UnknownRole),
        ),
{
}

/// A data connection that presents anything but the issued token, or that
/// fails to present sixteen bytes in time, is closed, and the session keeps
/// waiting on the same listener for the same token.
pub proof fn lemma_wrong_token_refused(role: Role, token: [u8; TOKEN_LEN], got: Vec<u8>)
    requires
        got@ != token@,
    ensures
        handshake_next(HandshakeState::AwaitData(role, token), HandshakeEvent::Presented(got)) == (
            HandshakeState::AwaitData(role, token),
            HandshakeAction::Refuse,
        ),
        handshake_next(HandshakeState::AwaitData(role, token), HandshakeEvent::ReadFailed) == (
            HandshakeState::AwaitData(role, token),
            HandshakeAction::Refuse,
        ),
{
}

/// A worker starts only on a data connection that presents the issued token,
/// and once started a session never leaves the worker state.
pub proof fn lemma_worker_only_by_token(s: HandshakeState, ev: HandshakeEvent)
    ensures
        (handshake_next(s, ev).0 is Worker && !(s is Worker)) ==> (s is AwaitData
            && ev is Presented && ev->Presented_0@ == s->AwaitData_1@
            && handshake_next(s, ev).1 == HandshakeAction::Start(s->AwaitData_0)),
        s is Worker ==> handshake_next(s, ev).0 == s,
{
}

/// Advances the server side of a session by one event.
pub fn handshake_step(s: HandshakeState, ev: HandshakeEvent) -> (r: (
    HandshakeState,
    HandshakeAction,
))
    ensures
        r == handshake_next(s, ev),
{
    match s {
        HandshakeState::AwaitRole => match ev {
            HandshakeEvent::RoleByte(b) => match parse_role(b) {
                Ok(role) => (HandshakeState::BindEphemeral(role), HandshakeAction::BindListener),
                Err(e) => (HandshakeState::Closed, HandshakeAction::Close(e)),
            },
            _ => (HandshakeState::Closed, HandshakeAction::Close(HandshakeError::OutOfOrder)),
        },
        HandshakeState::BindEphemeral(role) => match ev {
            HandshakeEvent::Bound(port) => (
                HandshakeState::IssueToken(role, port),
                HandshakeAction::DrawToken,
            ),
            _ => (HandshakeState::Closed, HandshakeAction::Close(HandshakeError::OutOfOrder)),
        },
        HandshakeState::IssueToken(role, port) => match ev {
            HandshakeEvent::TokenDrawn(t) => (
                HandshakeState::AwaitData(role, t),
                HandshakeAction::Reply(port, t),
            ),
            HandshakeEvent::TokenFailed(e) => (HandshakeState::Closed, HandshakeAction::Close(e)),
            _ => (HandshakeState::Closed, HandshakeAction::Close(HandshakeError::OutOfOrder)),
        },
        HandshakeState::AwaitData(role, t) => match ev {
            HandshakeEvent::Presented(got) => {
                if tokens_match(got.as_slice(), &t) {
                    (HandshakeState::Worker(role), HandshakeAction::Start(role))
                } else {
                    (HandshakeState::AwaitData(role, t), HandshakeAction::Refuse)
                }
            },
            HandshakeEvent::ReadFailed => (
                HandshakeState::AwaitData(role, t),
                HandshakeAction::Refuse,
            ),
            _ => (HandshakeState::Closed, HandshakeAction::Close(HandshakeError::OutOfOrder)),
        },
        HandshakeState::Worker(role) => (
            HandshakeState::Worker(role),
            HandshakeAction::Close(HandshakeError::OutOfOrder),
        ),
        HandshakeState::Closed => (
            HandshakeState::Closed,
            HandshakeAction::Close(HandshakeError::OutOfOrder),
        ),
    }
}

} // verus!
