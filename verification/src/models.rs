//! The data that the modules share: transport modes, session state, stream
//! requests and audio device entries.

use crate::text::{
    decimal, find_char, first_cut, lemma_decimal_reads_back, lemma_first_cut_is, lowercase,
    parse_u16, parsed_u16, push_decimal, same_text, Separator,
};
use vstd::prelude::*;
use vstd::string::{StrSliceExecFns, StringExecFns};

verus! {

/// One audio input device as the host lists it.
#[derive(Debug, Clone)]
pub struct DeviceInfo {
    pub name: String,
    pub index: usize,
    pub is_monitor: bool,
    pub is_default: bool,
}

/// A `DeviceInfo` as contracts see it.
pub struct DeviceInfoView {
    pub name: Seq<char>,
    pub index: usize,
    pub is_monitor: bool,
    pub is_default: bool,
}

impl View for DeviceInfo {
    type V = DeviceInfoView;

    open spec fn view(&self) -> DeviceInfoView {
        DeviceInfoView {
            name: self.name@,
            index: self.index,
            is_monitor: self.is_monitor,
            is_default: self.is_default,
        }
    }
}

impl DeepView for DeviceInfo {
    type V = DeviceInfoView;

    open spec fn deep_view(&self) -> DeviceInfoView {
        self.view()
    }
}

/// How the stream travels to the receiver.
#[derive(Debug, Clone, Copy, PartialEq, Eq, Structural)]
pub enum TransportMode {
    /// The stream itself runs over one TCP connection.
    TcpOnly,
    /// Datagrams without any authentication.
    TcpUdp,
    /// A TCP handshake yields a session token that leads every payload.
    TcpUdpAuth,
    /// Named for a TLS handshake; on the wire it is `TcpUdpAuth`.
    TlsUdpAuth,
}

impl TransportMode {
    /// The mode that a lowercase name stands for.
    pub open spec fn named(name: Seq<char>) -> Option<TransportMode> {
        if name == "tcp"@ || name == "tcp_only"@ {
            Some(TransportMode::TcpOnly)
        } else if name == "tcp_udp"@ {
            Some(TransportMode::TcpUdp)
        } else if name == "tcp_udp_auth"@ {
            Some(TransportMode::TcpUdpAuth)
        } else if name == "tls_udp_auth"@ {
            Some(TransportMode::TlsUdpAuth)
        } else {
            None
        }
    }

    /// Whether a session in this mode starts with a handshake.
    pub open spec fn needs_handshake(&self) -> bool {
        *self == TransportMode::TcpUdpAuth || *self == TransportMode::TlsUdpAuth
    }

    /// Whether the payload travels in datagrams.
    pub open spec fn over_udp(&self) -> bool {
        *self != TransportMode::TcpOnly
    }

    /// The name of the variant, as diagnostics print it.
    pub open spec fn label_text(&self) -> Seq<char> {
        match self {
            TransportMode::TcpOnly => "TcpOnly"@,
            TransportMode::TcpUdp => "TcpUdp"@,
            TransportMode::TcpUdpAuth => "TcpUdpAuth"@,
            TransportMode::TlsUdpAuth => "TlsUdpAuth"@,
        }
    }

    /// Reads a mode from its name in lowercase. Any other text names no mode.
    pub fn from_lowercase(name: &str) -> (mode: Option<TransportMode>)
        ensures
            mode == Self::named(name@),
    {
        if same_text(name, "tcp") || same_text(name, "tcp_only") {
            Some(TransportMode::TcpOnly)
        } else if same_text(name, "tcp_udp") {
            Some(TransportMode::TcpUdp)
        } else if same_text(name, "tcp_udp_auth") {
            Some(TransportMode::TcpUdpAuth)
        } else if same_text(name, "tls_udp_auth") {
            Some(TransportMode::TlsUdpAuth)
        } else {
            None
        }
    }

    /// Reads a mode from its name, in any mix of upper and lower case.
    pub fn from_str(s: &str) -> (mode: Option<TransportMode>)
        ensures
            mode == Self::named(lowercase(s@)),
    {
        let lower = s.to_lowercase();
        Self::from_lowercase(lower.as_str())
    }

    /// Whether a session in this mode starts with a handshake.
    #[verifier::when_used_as_spec(needs_handshake)]
    pub fn requires_handshake(&self) -> (needed: bool)
        ensures
            needed == self.needs_handshake(),
    {
        match self {
            TransportMode::TcpUdpAuth | TransportMode::TlsUdpAuth => true,
            _ => false,
        }
    }

    /// Whether the payload travels in datagrams.
    #[verifier::when_used_as_spec(over_udp)]
    pub fn uses_udp(&self) -> (udp: bool)
        ensures
            udp == self.over_udp(),
    {
        match self {
            TransportMode::TcpOnly => false,
            _ => true,
        }
    }

    /// The name of the variant, as diagnostics print it.
    pub fn label(&self) -> (name: &'static str)
        ensures
            name@ == self.label_text(),
    {
        match self {
            TransportMode::TcpOnly => "TcpOnly",
            TransportMode::TcpUdp => "TcpUdp",
            TransportMode::TcpUdpAuth => "TcpUdpAuth",
            TransportMode::TlsUdpAuth => "TlsUdpAuth",
        }
    }
}

/// What a negotiation leaves behind: where the stream goes, in which mode,
/// and the token that the receiver issued, if the mode has one.
#[derive(Debug, Clone)]
pub struct SessionState {
    pub token: Option<u64>,
    pub target_ip: String,
    pub target_port: u16,
    pub mode: TransportMode,
}

/// A `SessionState` as contracts see it.
pub struct SessionView {
    pub token: Option<u64>,
    pub target_ip: Seq<char>,
    pub target_port: u16,
    pub mode: TransportMode,
}

impl View for SessionState {
    type V = SessionView;

    open spec fn view(&self) -> SessionView {
        SessionView {
            token: self.token,
            target_ip: self.target_ip@,
            target_port: self.target_port,
            mode: self.mode,
        }
    }
}

/// A request to stream: the receiver, the capture device that the caller
/// prefers, and the transport mode.
#[derive(Debug, Clone)]
pub struct StreamConfig {
    pub target_ip: String,
    pub port: u16,
    pub device_name: Option<String>,
    pub mode: TransportMode,
}

/// A `StreamConfig` as contracts see it.
pub struct StreamConfigView {
    pub target_ip: Seq<char>,
    pub port: u16,
    pub device_name: Option<Seq<char>>,
    pub mode: TransportMode,
}

impl View for StreamConfig {
    type V = StreamConfigView;

    open spec fn view(&self) -> StreamConfigView {
        StreamConfigView {
            target_ip: self.target_ip@,
            port: self.port,
            device_name: match self.device_name {
                Some(name) => Some(name@),
                None => None,
            },
            mode: self.mode,
        }
    }
}

/// The address `host:port` as text.
pub open spec fn address_text(host: Seq<char>, port: u16) -> Seq<char> {
    host + seq![':'] + decimal(port as nat)
}

/// The address `host:port` as text.
pub fn address(host: &str, port: u16) -> (text: String)
    ensures
        text@ == address_text(host@, port),
{
    let mut text = String::from_str(host);
    text.push(':');
    push_decimal(&mut text, port as u64);
    text
}

/// The stream port of a target that names none.
pub const DEFAULT_STREAM_PORT: u16 = 5000;

/// The host of a target: what stands before its first colon, or all of it.
pub open spec fn target_host(target: Seq<char>) -> Seq<char> {
    target.take(first_cut(target, Separator::Char(':')))
}

/// The port of a target: the number after its first colon, or
/// `DEFAULT_STREAM_PORT` where there is no colon or no number after it.
pub open spec fn target_port(target: Seq<char>) -> u16 {
    let at = first_cut(target, Separator::Char(':'));
    if at < target.len() {
        match parsed_u16(target.skip(at + 1)) {
            Some(port) => port,
            None => DEFAULT_STREAM_PORT,
        }
    } else {
        DEFAULT_STREAM_PORT
    }
}

impl StreamConfig {
    /// The request that a target, a device preference and a mode make up.
    pub open spec fn requested(
        target: Seq<char>,
        device_name: Option<Seq<char>>,
        mode: TransportMode,
    ) -> StreamConfigView {
        StreamConfigView {
            target_ip: target_host(target),
            port: target_port(target),
            device_name,
            mode,
        }
    }

    /// Reads a target of the form `host` or `host:port` and joins it with
    /// the rest of the request.
    pub fn new(target: &str, device_name: Option<String>, mode: TransportMode) -> (config:
        StreamConfig)
        ensures
            config@ == Self::requested(
                target@,
                match device_name {
                    Some(name) => Some(name@),
                    None => None,
                },
                mode,
            ),
    {
        match find_char(target, ':') {
            Some(at) => {
                let chars: usize = target.unicode_len();
                let host = target.substring_char(0, at);
                let rest = target.substring_char(at + 1, chars);
                let port = match parse_u16(rest) {
                    Some(port) => port,
                    None => DEFAULT_STREAM_PORT,
                };
                StreamConfig { target_ip: String::from_str(host), port, device_name, mode }
            },
            None => {
                assert(target@.take(target@.len() as int) =~= target@);
                StreamConfig {
                    target_ip: String::from_str(target),
                    port: DEFAULT_STREAM_PORT,
                    device_name,
                    mode,
                }
            },
        }
    }
}

/// A target that `address_text` wrote is read back as it was written: the
/// host as it stood, provided it holds no colon, and the port.
pub proof fn lemma_target_reads_back(host: Seq<char>, port: u16)
    requires
        forall|i: int| 0 <= i < host.len() ==> host[i] != ':',
    ensures
        target_host(address_text(host, port)) == host,
        target_port(address_text(host, port)) == port,
{
    let target = address_text(host, port);
    let colon = Separator::Char(':');
    assert forall|j: int| 0 <= j < host.len() implies !colon.cuts(#[trigger] target[j]) by {}
    lemma_first_cut_is(target, colon, host.len() as int);
    assert(target.skip(host.len() as int + 1) =~= decimal(port as nat));
    lemma_decimal_reads_back(port as nat);
}

} // verus!
