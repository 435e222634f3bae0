//! The wire transports: what each `send` puts on the wire, and which
//! transport a session gets.
//!
//! A transport here owns no socket. `send` returns the wire units of one
//! payload, in order; the caller writes each to its socket and stops at the
//! first that fails. Over TCP a unit is written in full and flushed; over UDP
//! a unit is one datagram.

use crate::models::{address, address_text, SessionState, TransportMode};
use vstd::bytes::{spec_u64_to_le_bytes, u64_to_le_bytes};
use vstd::prelude::*;
use vstd::slice::{slice_subrange, slice_to_vec};
use vstd::string::StringExecFns;

verus! {

/// The largest datagram that a UDP transport sends, in bytes.
pub const CHUNK_SIZE: usize = 1400;

/// What a list of wire units holds.
pub open spec fn units_of(units: Seq<Vec<u8>>) -> Seq<Seq<u8>> {
    Seq::new(units.len(), |i: int| units[i]@)
}

/// The number of datagrams that carry `len` bytes.
pub open spec fn datagram_count(len: nat) -> nat {
    ((len + CHUNK_SIZE - 1) / (CHUNK_SIZE as int)) as nat
}

/// The datagram at position `i` of a payload: `CHUNK_SIZE` bytes from the
/// end of the one before it, or fewer where the payload ends first.
pub open spec fn datagram(data: Seq<u8>, i: int) -> Seq<u8> {
    data.subrange(
        CHUNK_SIZE * i,
        if CHUNK_SIZE * (i + 1) <= data.len() {
            CHUNK_SIZE * (i + 1)
        } else {
            data.len() as int
        },
    )
}

/// The datagrams of a payload, in order. An empty payload has none.
pub open spec fn datagrams(data: Seq<u8>) -> Seq<Seq<u8>> {
    Seq::new(datagram_count(data.len()), |i: int| datagram(data, i))
}

/// A payload behind the session token in little-endian order.
pub open spec fn with_token(token: u64, data: Seq<u8>) -> Seq<u8> {
    spec_u64_to_le_bytes(token) + data
}

/// Cuts a payload into datagrams of at most `CHUNK_SIZE` bytes.
pub fn chunk_payload(data: &[u8]) -> (units: Vec<Vec<u8>>)
    ensures
        units_of(units@) == datagrams(data@),
{
    let mut units: Vec<Vec<u8>> = Vec::new();
    let mut start: usize = 0;
    while start < data.len()
        invariant
            start <= data.len(),
            start == CHUNK_SIZE * units.len(),
            units.len() <= datagram_count(data@.len()),
            forall|i: int| 0 <= i < units.len() ==> (#[trigger] units@[i])@ == datagram(data@, i),
        decreases data.len() - start,
    {
        let end: usize = if data.len() - start > CHUNK_SIZE {
            start + CHUNK_SIZE
        } else {
            data.len()
        };
        let unit = slice_to_vec(slice_subrange(data, start, end));
        units.push(unit);
        if end == data.len() {
            return units;
        }
        start = end;
    }
    units
}

/// Why a transport could not be made or could not deliver.
#[derive(Debug)]
pub enum TransportError {
    /// An authenticated mode reached the factory without a session token.
    MissingToken,
    /// The connection to `target` was refused or timed out.
    Connect { target: String, cause: String },
    /// The connection stands but could not be set to send at once.
    NoDelay { cause: String },
    /// No local datagram socket could be had.
    Bind { cause: String },
    /// A unit was not written in full.
    Write { cause: String },
    /// A written unit was not flushed.
    Flush { cause: String },
    /// A datagram was not sent.
    Send { cause: String },
}

impl TransportError {
    /// The error in words.
    pub open spec fn message_text(&self) -> Seq<char> {
        match self {
            TransportError::MissingToken => "Session token required for authenticated mode"@,
            TransportError::Connect { target, cause } => "Failed to connect to "@ + target@ + ": "@
                + cause@,
            TransportError::NoDelay { cause } => "Failed to set TCP_NODELAY: "@ + cause@,
            TransportError::Bind { cause } => "Failed to bind UDP socket: "@ + cause@,
            TransportError::Write { cause } => "Write error: "@ + cause@,
            TransportError::Flush { cause } => "Flush error: "@ + cause@,
            TransportError::Send { cause } => "UDP send error: "@ + cause@,
        }
    }

    /// The error in words.
    pub fn message(&self) -> (text: String)
        ensures
            text@ == self.message_text(),
    {
        match self {
            TransportError::MissingToken => String::from_str(
                "Session token required for authenticated mode",
            ),
            TransportError::Connect { target, cause } => {
                let mut text = String::from_str("Failed to connect to ");
                text.append(target.as_str());
                text.append(": ");
                text.append(cause.as_str());
                text
            },
            TransportError::NoDelay { cause } => String::from_str(
                "Failed to set TCP_NODELAY: ",
            ).concat(cause.as_str()),
            TransportError::Bind { cause } => String::from_str(
                "Failed to bind UDP socket: ",
            ).concat(cause.as_str()),
            TransportError::Write { cause } => String::from_str("Write error: ").concat(
                cause.as_str(),
            ),
            TransportError::Flush { cause } => String::from_str("Flush error: ").concat(
                cause.as_str(),
            ),
            TransportError::Send { cause } => String::from_str("UDP send error: ").concat(
                cause.as_str(),
            ),
        }
    }
}

/// Whether a transport writes into a connection or sends datagrams.
#[derive(Debug, Clone, Copy, PartialEq, Eq, Structural)]
pub enum WireKind {
    /// One TCP connection, set to send at once; each unit is written in full
    /// and flushed.
    Stream,
    /// One UDP socket connected to the target; each unit is one datagram.
    Datagram,
}

/// A way to put payloads on the wire.
pub trait AudioTransport: Send + Sync + Sized {
    /// The wire units that `send` makes of `data`, in order.
    spec fn wire_units(&self, data: Seq<u8>) -> Seq<Seq<u8>>;

    /// The number of payloads sent so far; it wraps around at `usize::MAX`.
    spec fn packets(&self) -> usize;

    /// Counts one payload and returns its wire units, in order.
    fn send(&mut self, data: &[u8]) -> (units: Vec<Vec<u8>>)
        ensures
            units_of(units@) == old(self).wire_units(data@),
            final(self).packets() == if old(self).packets() == usize::MAX {
                0usize
            } else {
                (old(self).packets() + 1) as usize
            },
            forall|d: Seq<u8>| #[trigger] final(self).wire_units(d) == old(self).wire_units(d),
    ;

    /// Ends the use of the transport. Closing is advisory: it always
    /// succeeds and changes nothing; the socket goes with its owner.
    fn close(&mut self) -> (closed: Result<(), TransportError>)
        ensures
            closed is Ok,
            *final(self) == *old(self),
    ;
}

/// The stream written into one TCP connection, without framing.
#[derive(Debug)]
pub struct TcpTransport {
    pub target: String,
    pub packet_count: usize,
}

impl TcpTransport {
    /// A transport for the connection to `target`, with nothing sent yet.
    pub fn new(target: &str) -> (transport: TcpTransport)
        ensures
            transport.target@ == target@,
            transport.packet_count == 0,
    {
        TcpTransport { target: String::from_str(target), packet_count: 0 }
    }

    /// Whether the payload with this count is worth a diagnostic line: each
    /// of the first twenty, then every hundredth.
    pub fn reports(count: usize) -> (report: bool)
        ensures
            report == (count < 20 || count % 100 == 0),
    {
        count < 20 || count % 100 == 0
    }
}

impl AudioTransport for TcpTransport {
    /// The whole payload as one unit, even where it is empty.
    open spec fn wire_units(&self, data: Seq<u8>) -> Seq<Seq<u8>> {
        seq![data]
    }

    open spec fn packets(&self) -> usize {
        self.packet_count
    }

    fn send(&mut self, data: &[u8]) -> (units: Vec<Vec<u8>>)
        ensures
            final(self).target == old(self).target,
    {
        self.packet_count = self.packet_count.wrapping_add(1);
        let mut units: Vec<Vec<u8>> = Vec::new();
        units.push(slice_to_vec(data));
        units
    }

    fn close(&mut self) -> (closed: Result<(), TransportError>) {
        Ok(())
    }
}

/// Datagrams to one receiver, without sequence numbers or repeats.
#[derive(Debug)]
pub struct UdpTransport {
    pub target: String,
    pub packet_count: usize,
}

impl UdpTransport {
    /// A transport for datagrams to `target`, with nothing sent yet.
    pub fn new(target: &str) -> (transport: UdpTransport)
        ensures
            transport.target@ == target@,
            transport.packet_count == 0,
    {
        UdpTransport { target: String::from_str(target), packet_count: 0 }
    }

    /// Whether the payload with this count is worth a diagnostic line: the
    /// first, then every five hundredth.
    pub fn reports(count: usize) -> (report: bool)
        ensures
            report == (count % 500 == 0),
    {
        count == 0 || count % 500 == 0
    }
}

impl AudioTransport for UdpTransport {
    open spec fn wire_units(&self, data: Seq<u8>) -> Seq<Seq<u8>> {
        datagrams(data)
    }

    open spec fn packets(&self) -> usize {
        self.packet_count
    }

    fn send(&mut self, data: &[u8]) -> (units: Vec<Vec<u8>>)
        ensures
            final(self).target == old(self).target,
    {
        self.packet_count = self.packet_count.wrapping_add(1);
        chunk_payload(data)
    }

    fn close(&mut self) -> (closed: Result<(), TransportError>) {
        Ok(())
    }
}

/// Datagrams to one receiver, each payload behind the session token.
#[derive(Debug)]
pub struct AuthenticatedUdpTransport {
    pub inner: UdpTransport,
    pub token: u64,
}

impl AuthenticatedUdpTransport {
    /// A transport for datagrams to `target` under the session `token`.
    pub fn new(target: &str, token: u64) -> (transport: AuthenticatedUdpTransport)
        ensures
            transport.inner.target@ == target@,
            transport.inner.packet_count == 0,
            transport.token == token,
    {
        AuthenticatedUdpTransport { inner: UdpTransport::new(target), token }
    }
}

impl AudioTransport for AuthenticatedUdpTransport {
    /// The datagrams of the payload with the token before it. The token is
    /// cut like any other byte: it shares the first datagram with the start
    /// of the payload.
    open spec fn wire_units(&self, data: Seq<u8>) -> Seq<Seq<u8>> {
        datagrams(with_token(self.token, data))
    }

    open spec fn packets(&self) -> usize {
        self.inner.packet_count
    }

    fn send(&mut self, data: &[u8]) -> (units: Vec<Vec<u8>>)
        ensures
            final(self).inner.target == old(self).inner.target,
            final(self).token == old(self).token,
    {
        let mut packet = u64_to_le_bytes(self.token);
        packet.extend_from_slice(data);
        assert(packet@ =~= with_token(self.token, data@));
        self.inner.send(packet.as_slice())
    }

    fn close(&mut self) -> (closed: Result<(), TransportError>) {
        self.inner.close()
    }
}

/// The transport of a session: one of the three wire strategies.
#[derive(Debug)]
pub enum Transport {
    Tcp(TcpTransport),
    Udp(UdpTransport),
    AuthenticatedUdp(AuthenticatedUdpTransport),
}

impl Transport {
    /// The address that the transport sends to.
    pub open spec fn target_text(&self) -> Seq<char> {
        match self {
            Transport::Tcp(t) => t.target@,
            Transport::Udp(t) => t.target@,
            Transport::AuthenticatedUdp(t) => t.inner.target@,
        }
    }

    /// How the transport's units travel.
    pub open spec fn wire_kind(&self) -> WireKind {
        match self {
            Transport::Tcp(_) => WireKind::Stream,
            _ => WireKind::Datagram,
        }
    }

    /// The address that the transport sends to.
    pub fn target(&self) -> (target: &str)
        ensures
            target@ == self.target_text(),
    {
        match self {
            Transport::Tcp(t) => t.target.as_str(),
            Transport::Udp(t) => t.target.as_str(),
            Transport::AuthenticatedUdp(t) => t.inner.target.as_str(),
        }
    }

    /// How the transport's units travel.
    pub fn kind(&self) -> (kind: WireKind)
        ensures
            kind == self.wire_kind(),
    {
        match self {
            Transport::Tcp(_) => WireKind::Stream,
            _ => WireKind::Datagram,
        }
    }

    /// The number of payloads sent before the last one: the count under
    /// which the last one is reported.
    pub open spec fn last_count(&self) -> usize {
        if self.packets() == 0 {
            usize::MAX
        } else {
            (self.packets() - 1) as usize
        }
    }

    /// Whether the payload sent last is worth a diagnostic line, by the rule
    /// of its transport.
    pub fn reports_last(&self) -> (report: bool)
        ensures
            report == match self {
                Transport::Tcp(_) => self.last_count() < 20 || self.last_count() % 100 == 0,
                _ => self.last_count() % 500 == 0,
            },
    {
        match self {
            Transport::Tcp(t) => TcpTransport::reports(t.packet_count.wrapping_sub(1)),
            Transport::Udp(t) => UdpTransport::reports(t.packet_count.wrapping_sub(1)),
            Transport::AuthenticatedUdp(t) => UdpTransport::reports(
                t.inner.packet_count.wrapping_sub(1),
            ),
        }
    }
}

impl AudioTransport for Transport {
    open spec fn wire_units(&self, data: Seq<u8>) -> Seq<Seq<u8>> {
        match self {
            Transport::Tcp(t) => t.wire_units(data),
            Transport::Udp(t) => t.wire_units(data),
            Transport::AuthenticatedUdp(t) => t.wire_units(data),
        }
    }

    open spec fn packets(&self) -> usize {
        match self {
            Transport::Tcp(t) => t.packets(),
            Transport::Udp(t) => t.packets(),
            Transport::AuthenticatedUdp(t) => t.packets(),
        }
    }

    fn send(&mut self, data: &[u8]) -> (units: Vec<Vec<u8>>)
        ensures
            final(self).target_text() == old(self).target_text(),
            final(self).wire_kind() == old(self).wire_kind(),
    {
        match self {
            Transport::Tcp(t) => t.send(data),
            Transport::Udp(t) => t.send(data),
            Transport::AuthenticatedUdp(t) => t.send(data),
        }
    }

    fn close(&mut self) -> (closed: Result<(), TransportError>) {
        match self {
            Transport::Tcp(t) => t.close(),
            Transport::Udp(t) => t.close(),
            Transport::AuthenticatedUdp(t) => t.close(),
        }
    }
}

/// The transport that a session's mode asks for.
pub open spec fn transport_for(session: crate::models::SessionView, made: Result<
    Transport,
    TransportError,
>) -> bool {
    let target = address_text(session.target_ip, session.target_port);
    match session.mode {
        TransportMode::TcpOnly => made matches Ok(Transport::Tcp(t)) && t.target@ == target
            && t.packet_count == 0,
        TransportMode::TcpUdp => made matches Ok(Transport::Udp(t)) && t.target@ == target
            && t.packet_count == 0,
        TransportMode::TcpUdpAuth | TransportMode::TlsUdpAuth => match session.token {
            Some(token) => made matches Ok(Transport::AuthenticatedUdp(t)) && t.inner.target@
                == target && t.inner.packet_count == 0 && t.token == token,
            None => made matches Err(TransportError::MissingToken),
        },
    }
}

/// Makes the transport of a session: TCP for `TcpOnly`, plain datagrams for
/// `TcpUdp`, datagrams under the token for the two authenticated modes. An
/// authenticated mode without a token is an error.
pub fn create_transport(session: &SessionState) -> (made: Result<Transport, TransportError>)
    ensures
        transport_for(session@, made),
{
    let target = address(session.target_ip.as_str(), session.target_port);
    match session.mode {
        TransportMode::TcpOnly => Ok(Transport::Tcp(TcpTransport::new(target.as_str()))),
        TransportMode::TcpUdp => Ok(Transport::Udp(UdpTransport::new(target.as_str()))),
        TransportMode::TcpUdpAuth | TransportMode::TlsUdpAuth => match session.token {
            Some(token) => Ok(
                Transport::AuthenticatedUdp(AuthenticatedUdpTransport::new(target.as_str(), token)),
            ),
            None => Err(TransportError::MissingToken),
        },
    }
}

/// Every datagram of a payload holds at least one byte and at most
/// `CHUNK_SIZE`; all but the last are full.
pub proof fn lemma_datagram_sizes(data: Seq<u8>, i: int)
    requires
        0 <= i < datagrams(data).len(),
    ensures
        1 <= datagrams(data)[i].len() <= CHUNK_SIZE,
        i + 1 < datagrams(data).len() ==> datagrams(data)[i].len() == CHUNK_SIZE,
{
}

/// The datagrams of a payload, put end to end, are the payload: cutting
/// loses nothing, adds nothing and keeps the order.
pub proof fn lemma_datagrams_rejoin(data: Seq<u8>)
    ensures
        datagrams(data).flatten() == data,
    decreases data.len(),
{
    let all = datagrams(data);
    if data.len() == 0 {
        assert(all.flatten() =~= data);
    } else if data.len() <= CHUNK_SIZE {
        assert(all.len() == 1);
        assert(all.first() =~= data);
        all.lemma_flatten_one_element();
    } else {
        let rest = data.skip(CHUNK_SIZE as int);
        lemma_datagrams_rejoin(rest);
        assert(all.drop_first() =~= datagrams(rest)) by {
            assert(all.drop_first().len() == datagrams(rest).len());
            assert forall|i: int| 0 <= i < datagrams(rest).len() implies all.drop_first()[i]
                == datagrams(rest)[i] by {
                assert(datagram(data, i + 1) =~= datagram(rest, i));
            }
        }
        assert(all.first() =~= data.take(CHUNK_SIZE as int));
        assert(all.flatten() =~= data.take(CHUNK_SIZE as int) + rest);
        assert(data.take(CHUNK_SIZE as int) + rest =~= data);
    }
}

/// An authenticated payload puts at least one datagram on the wire, and the
/// wire begins with the eight bytes of the token in little-endian order.
/// Where token and payload fit in one datagram, that datagram is all there
/// is: the token, then the payload.
pub proof fn lemma_token_leads_wire(transport: AuthenticatedUdpTransport, payload: Seq<u8>)
    ensures
        transport.wire_units(payload).len() >= 1,
        transport.wire_units(payload)[0].len() >= 8,
        transport.wire_units(payload)[0].take(8) == spec_u64_to_le_bytes(transport.token),
        payload.len() + 8 <= CHUNK_SIZE ==> transport.wire_units(payload) == seq![
            spec_u64_to_le_bytes(transport.token) + payload,
        ],
{
    vstd::bytes::lemma_auto_spec_u64_to_from_le_bytes();
    let token = spec_u64_to_le_bytes(transport.token);
    let packet = with_token(transport.token, payload);
    assert(token.len() == 8);
    assert(datagrams(packet)[0].take(8) =~= token);
    if payload.len() + 8 <= CHUNK_SIZE {
        assert(packet.len() == payload.len() + 8);
        assert(datagram_count(packet.len()) == 1);
        assert(datagram(packet, 0) =~= packet);
        assert(datagrams(packet) =~= seq![packet]);
    }
}

} // verus!
