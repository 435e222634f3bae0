//! Session negotiation: the handshake that yields the session token.
//!
//! The handshake is one exchange over a fresh TCP connection. `handshake`
//! says whether the mode asks for it and what it consists of; the caller
//! performs it and hands the reply to `HandshakeExchange::complete`.

use crate::discovery::{
    connect_request_text, discovery_address_text, ConnectionRequest,
};
use crate::models::{address, address_text, SessionState, SessionView, TransportMode};
use crate::text::{decimal, decimal_text, join, joined};
use vstd::bytes::{spec_u64_from_le_bytes, u64_from_le_bytes};
use vstd::prelude::*;
use vstd::slice::{slice_subrange, slice_to_vec};
use vstd::string::StringExecFns;

verus! {

/// The time that each read and each write of the handshake may take.
pub const HANDSHAKE_TIMEOUT_SECS: u64 = 5;

/// The length of a session token on the wire.
pub const TOKEN_LEN: usize = 8;

/// The request that opens the handshake: the bytes of `AUTH_REQUEST`.
pub open spec fn auth_request() -> Seq<u8> {
    seq![
        0x41u8, 0x55u8, 0x54u8, 0x48u8, 0x5fu8, 0x52u8, 0x45u8, 0x51u8, 0x55u8, 0x45u8, 0x53u8,
        0x54u8,
    ]
}

/// What leads the receiver's reply: the bytes of `AUTH_OK`.
pub open spec fn auth_ok() -> Seq<u8> {
    seq![0x41u8, 0x55u8, 0x54u8, 0x48u8, 0x5fu8, 0x4fu8, 0x4bu8]
}

/// The request that opens the handshake.
pub fn auth_request_bytes() -> (bytes: Vec<u8>)
    ensures
        bytes@ == auth_request(),
{
    let bytes = vec![
        0x41u8, 0x55u8, 0x54u8, 0x48u8, 0x5fu8, 0x52u8, 0x45u8, 0x51u8, 0x55u8, 0x45u8, 0x53u8,
        0x54u8,
    ];
    bytes
}

/// What leads the receiver's reply.
pub fn auth_ok_bytes() -> (bytes: Vec<u8>)
    ensures
        bytes@ == auth_ok(),
{
    let bytes = vec![0x41u8, 0x55u8, 0x54u8, 0x48u8, 0x5fu8, 0x4fu8, 0x4bu8];
    bytes
}

/// The decimal forms of a run of bytes.
pub open spec fn decimals(bytes: Seq<u8>) -> Seq<Seq<char>> {
    Seq::new(bytes.len(), |i: int| decimal(bytes[i] as nat))
}

/// A run of bytes as a list in brackets: `[65, 85, 84]`.
pub open spec fn byte_list_text(bytes: Seq<u8>) -> Seq<char> {
    seq!['['] + joined(decimals(bytes), ", "@) + seq![']']
}

/// A run of bytes as a list in brackets.
pub fn byte_list(bytes: &[u8]) -> (text: String)
    ensures
        text@ == byte_list_text(bytes@),
{
    let mut items: Vec<String> = Vec::new();
    let mut i: usize = 0;
    while i < bytes.len()
        invariant
            i <= bytes.len(),
            items.deep_view() == decimals(bytes@.take(i as int)),
        decreases bytes.len() - i,
    {
        let ghost before = items.deep_view();
        items.push(decimal_text(bytes[i] as u64));
        assert(items.deep_view() =~= decimals(bytes@.take(i + 1))) by {
            assert(items.deep_view() =~= before.push(decimal(bytes@[i as int] as nat)));
        }
        i = i + 1;
    }
    assert(bytes@.take(i as int) =~= bytes@);
    let mut text = String::from_str("[");
    let inner = join(&items, ", ");
    text.append(inner.as_str());
    text.append("]");
    proof {
        reveal_strlit("[");
        reveal_strlit("]");
    }
    text
}

/// Why a handshake failed. A failed handshake is final for its stream
/// request; nothing here tries again.
#[derive(Debug)]
pub enum HandshakeError {
    /// The receiver could not be reached.
    Connect { cause: String },
    /// A timeout could not be set on the connection.
    SetTimeout { cause: String },
    /// The request was not written.
    SendRequest { cause: String },
    /// The request was written but not flushed.
    Flush { cause: String },
    /// The reply did not come in full.
    ReadResponse { cause: String },
    /// The reply came but does not begin with `AUTH_OK`; `received` is what
    /// stood in its place.
    InvalidResponse { received: Vec<u8> },
}

impl HandshakeError {
    /// The error in words.
    pub open spec fn message_text(&self) -> Seq<char> {
        match self {
            HandshakeError::Connect { cause } => "Handshake connection failed: "@ + cause@,
            HandshakeError::SetTimeout { cause } => "Failed to set timeout: "@ + cause@,
            HandshakeError::SendRequest { cause } => "Failed to send AUTH_REQUEST: "@ + cause@,
            HandshakeError::Flush { cause } => "Failed to flush: "@ + cause@,
            HandshakeError::ReadResponse { cause } => "Failed to read AUTH_OK: "@ + cause@,
            HandshakeError::InvalidResponse { received } => "Invalid handshake response: "@
                + byte_list_text(received@),
        }
    }

    /// The error in words.
    pub fn message(&self) -> (text: String)
        ensures
            text@ == self.message_text(),
    {
        match self {
            HandshakeError::Connect { cause } => String::from_str(
                "Handshake connection failed: ",
            ).concat(cause.as_str()),
            HandshakeError::SetTimeout { cause } => String::from_str(
                "Failed to set timeout: ",
            ).concat(cause.as_str()),
            HandshakeError::SendRequest { cause } => String::from_str(
                "Failed to send AUTH_REQUEST: ",
            ).concat(cause.as_str()),
            HandshakeError::Flush { cause } => String::from_str("Failed to flush: ").concat(
                cause.as_str(),
            ),
            HandshakeError::ReadResponse { cause } => String::from_str(
                "Failed to read AUTH_OK: ",
            ).concat(cause.as_str()),
            HandshakeError::InvalidResponse { received } => {
                let list = byte_list(received.as_slice());
                String::from_str("Invalid handshake response: ").concat(list.as_str())
            },
        }
    }
}

/// The one exchange of a handshake, and the session that waits for its
/// outcome.
#[derive(Debug)]
pub struct HandshakeExchange {
    /// Where to connect: `host:port`.
    pub address: String,
    /// What to write, and then flush.
    pub request: Vec<u8>,
    /// How many bytes to read, no fewer.
    pub response_len: usize,
    /// The timeout of each read and each write, in seconds.
    pub timeout_secs: u64,
    pub target_ip: String,
    pub target_port: u16,
    pub mode: TransportMode,
}

/// What `handshake` decides.
#[derive(Debug)]
pub enum HandshakeStep {
    /// The mode has no handshake: the session stands, without a token, and
    /// nothing is to be sent or read.
    Established(SessionState),
    /// The mode has a handshake: this exchange is to be made.
    Exchange(HandshakeExchange),
}

/// The exchange that negotiates a session with `target_ip:target_port`.
pub open spec fn exchange_for(
    exchange: HandshakeExchange,
    target_ip: Seq<char>,
    target_port: u16,
    mode: TransportMode,
) -> bool {
    &&& exchange.address@ == address_text(target_ip, target_port)
    &&& exchange.request@ == auth_request()
    &&& exchange.response_len == auth_ok().len() + TOKEN_LEN
    &&& exchange.timeout_secs == HANDSHAKE_TIMEOUT_SECS
    &&& exchange.target_ip@ == target_ip
    &&& exchange.target_port == target_port
    &&& exchange.mode == mode
}

/// Opens the negotiation of a session. For `TcpOnly` and `TcpUdp` the session
/// is there at once, without a token and without any traffic. For the
/// authenticated modes the result is the exchange to make.
pub fn handshake(target_ip: String, target_port: u16, mode: TransportMode) -> (step: HandshakeStep)
    ensures
        if mode.needs_handshake() {
            step matches HandshakeStep::Exchange(exchange) && exchange_for(
                exchange,
                target_ip@,
                target_port,
                mode,
            )
        } else {
            step matches HandshakeStep::Established(session) && session@ == (SessionView {
                token: None,
                target_ip: target_ip@,
                target_port,
                mode,
            })
        },
{
    if !mode.requires_handshake() {
        return HandshakeStep::Established(
            SessionState { token: None, target_ip, target_port, mode },
        );
    }
    HandshakeStep::Exchange(
        HandshakeExchange {
            address: address(target_ip.as_str(), target_port),
            request: auth_request_bytes(),
            response_len: 15,
            timeout_secs: HANDSHAKE_TIMEOUT_SECS,
            target_ip,
            target_port,
            mode,
        },
    )
}

/// Whether a reply is a grant: `AUTH_OK`, then the eight bytes of a token.
pub open spec fn is_grant(response: Seq<u8>) -> bool {
    response.len() >= auth_ok().len() + TOKEN_LEN && auth_ok().is_prefix_of(response)
}

/// The token that a grant carries, read in little-endian order.
pub open spec fn granted_token(response: Seq<u8>) -> u64 {
    spec_u64_from_le_bytes(
        response.subrange(auth_ok().len() as int, auth_ok().len() + TOKEN_LEN),
    )
}

/// The cause that stands for a reply that ended early.
pub open spec fn short_reply_cause() -> Seq<char> {
    "failed to fill whole buffer"@
}

/// The session that a negotiation with a token yields.
pub open spec fn session_with(
    target_ip: Seq<char>,
    target_port: u16,
    mode: TransportMode,
    token: u64,
) -> SessionView {
    SessionView { token: Some(token), target_ip, target_port, mode }
}

/// The token that an exchange brought, where it brought a grant.
pub open spec fn granted(response: Result<Vec<u8>, HandshakeError>) -> Option<u64> {
    match response {
        Ok(bytes) => if is_grant(bytes@) {
            Some(granted_token(bytes@))
        } else {
            None
        },
        Err(_) => None,
    }
}

/// Whether `error` is what an exchange without a grant comes to. A failure
/// of the exchange is handed on as it is. A reply shorter than asked for
/// counts as not read in full, a reply that does not begin with `AUTH_OK`
/// as invalid.
pub open spec fn refused_as(
    response: Result<Vec<u8>, HandshakeError>,
    error: HandshakeError,
) -> bool {
    match response {
        Err(e) => error == e,
        Ok(bytes) => if bytes@.len() < auth_ok().len() + TOKEN_LEN {
            error matches HandshakeError::ReadResponse { cause } && cause@ == short_reply_cause()
        } else {
            error matches HandshakeError::InvalidResponse { received } && received@
                == bytes@.take(auth_ok().len() as int)
        },
    }
}

/// What a negotiation comes to, given what its exchange brought: the
/// session with the granted token, or the error that says why there is no
/// grant.
pub open spec fn negotiated(
    target_ip: Seq<char>,
    target_port: u16,
    mode: TransportMode,
    response: Result<Vec<u8>, HandshakeError>,
    done: Result<SessionState, HandshakeError>,
) -> bool {
    match granted(response) {
        Some(token) => done.is_ok() && done.unwrap()@ == session_with(
            target_ip,
            target_port,
            mode,
            token,
        ),
        None => done.is_err() && refused_as(response, done.unwrap_err()),
    }
}

/// Closes the negotiation of a session with `target_ip:target_port` with
/// what the exchange brought: the bytes read, or the failure of one of its
/// steps.
pub fn complete_handshake(
    target_ip: String,
    target_port: u16,
    mode: TransportMode,
    response: Result<Vec<u8>, HandshakeError>,
) -> (done: Result<SessionState, HandshakeError>)
    ensures
        negotiated(target_ip@, target_port, mode, response, done),
{
    let bytes = match response {
        Ok(bytes) => bytes,
        Err(e) => {
            return Err(e);
        },
    };
    if bytes.len() < 15 {
        return Err(
            HandshakeError::ReadResponse { cause: String::from_str("failed to fill whole buffer") },
        );
    }
    let expected = auth_ok_bytes();
    let mut i: usize = 0;
    while i < 7
        invariant
            i <= 7,
            bytes.len() >= 15,
            response == Ok::<Vec<u8>, HandshakeError>(bytes),
            expected@ == auth_ok(),
            forall|k: int| 0 <= k < i ==> bytes@[k] == auth_ok()[k],
        decreases 7 - i,
    {
        if bytes[i] != expected[i] {
            return Err(
                HandshakeError::InvalidResponse {
                    received: slice_to_vec(slice_subrange(bytes.as_slice(), 0, 7)),
                },
            );
        }
        i = i + 1;
    }
    assert(auth_ok().is_prefix_of(bytes@));
    let token = u64_from_le_bytes(slice_subrange(bytes.as_slice(), 7, 15));
    Ok(SessionState { token: Some(token), target_ip, target_port, mode })
}

impl HandshakeExchange {
    /// Closes the negotiation with what this exchange brought.
    pub fn complete(self, response: Result<Vec<u8>, HandshakeError>) -> (done: Result<
        SessionState,
        HandshakeError,
    >)
        ensures
            negotiated(self.target_ip@, self.target_port, self.mode, response, done),
    {
        complete_handshake(self.target_ip, self.target_port, self.mode, response)
    }
}

/// Whether a session holds a token only where its mode has a handshake.
pub open spec fn token_fits_mode(session: SessionView) -> bool {
    session.token.is_some() ==> session.mode.needs_handshake()
}

/// A session has a token exactly where its mode has a handshake and the
/// exchange brought a grant: the session that `handshake` gives at once has
/// none, and the one that closes the exchange it asked for has one.
pub proof fn lemma_token_only_after_handshake(
    target_ip: Seq<char>,
    target_port: u16,
    mode: TransportMode,
    exchange: HandshakeExchange,
    response: Result<Vec<u8>, HandshakeError>,
    done: Result<SessionState, HandshakeError>,
)
    requires
        mode.needs_handshake(),
        exchange_for(exchange, target_ip, target_port, mode),
        negotiated(exchange.target_ip@, exchange.target_port, exchange.mode, response, done),
    ensures
        done.is_ok() <==> granted(response).is_some(),
        done.is_ok() ==> done.unwrap()@.token == granted(response) && token_fits_mode(
            done.unwrap()@,
        ) && done.unwrap()@.target_ip == target_ip && done.unwrap()@.target_port == target_port
            && done.unwrap()@.mode == mode,
{
}

/// A grant carries its token unchanged: the token read from it, written
/// back in little-endian order, gives the eight bytes that followed
/// `AUTH_OK`.
pub proof fn lemma_granted_token_bytes(response: Seq<u8>)
    requires
        is_grant(response),
    ensures
        vstd::bytes::spec_u64_to_le_bytes(granted_token(response)) == response.subrange(
            auth_ok().len() as int,
            auth_ok().len() + TOKEN_LEN,
        ),
{
    vstd::bytes::lemma_auto_spec_u64_to_from_le_bytes();
}

/// `AUTH_OK` followed by a token in little-endian order is a grant of that
/// token.
pub proof fn lemma_grant_of_token(token: u64)
    ensures
        is_grant(auth_ok() + vstd::bytes::spec_u64_to_le_bytes(token)),
        granted_token(auth_ok() + vstd::bytes::spec_u64_to_le_bytes(token)) == token,
{
    vstd::bytes::lemma_auto_spec_u64_to_from_le_bytes();
    let bytes = vstd::bytes::spec_u64_to_le_bytes(token);
    let response = auth_ok() + bytes;
    assert(response.subrange(auth_ok().len() as int, auth_ok().len() + TOKEN_LEN) =~= bytes);
}

/// Opens a request to `host` for leave to connect, in the name of
/// `device_name`, that waits `timeout_secs` for its answer and notes it
/// under the mark of this module.
pub fn request_connection(host: &str, device_name: &str, timeout_secs: u64) -> (request:
    ConnectionRequest)
    ensures
        request.target@ == discovery_address_text(host@),
        request.message@ == connect_request_text(device_name@),
        request.timeout_secs == timeout_secs,
        request.note_prefix@ == "[session] "@,
        request.outcome.is_none(),
{
    ConnectionRequest::new(host, device_name, timeout_secs, "[session] ")
}

} // verus!
