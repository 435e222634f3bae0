//! Finding receivers by broadcast, and asking one of them for leave to
//! connect.
//!
//! Both exchanges are rounds of "receive, then decide". The types here hold
//! what was decided so far and say what to do next; the caller owns the
//! socket and the clock.

use crate::logs::{logged, push_log, NativeLogs};
use crate::models::{address, address_text};
use crate::text::{
    decimal, lemma_split_first, lemma_split_whole, lossy_text, same_text, split, split_text,
    starts_with, utf8_lossy, Separator,
};
use vstd::prelude::*;
use vstd::string::{StrSliceExecFns, StringExecFns};
use vstd::utf8::encode_utf8;

verus! {

/// The port on which receivers listen for discovery and connect requests.
pub const DISCOVERY_PORT: u16 = 5002;

/// The longest that one receive may wait, in milliseconds.
pub const POLL_TIMEOUT_MS: u64 = 500;

/// The pause after a receive that brought nothing, in milliseconds.
pub const RETRY_PAUSE_MS: u64 = 50;

/// The pause that ends each round of a discovery, in milliseconds.
pub const ROUND_PAUSE_MS: u64 = 10;

/// The room for one datagram of a discovery, in bytes; what is longer is
/// cut by the receive.
pub const DISCOVERY_BUFFER_LEN: usize = 1500;

/// The room for one answer to a connect request, in bytes.
pub const REPLY_BUFFER_LEN: usize = 1024;

/// The local address of a socket on any free port.
pub const ANY_PORT_ADDRESS: &'static str = "0.0.0.0:0";

/// The local address of a socket on the discovery port.
pub const DISCOVERY_BIND_ADDRESS: &'static str = "0.0.0.0:5002";

/// The outside address whose route tells the local address.
pub const PROBE_ADDRESS: &'static str = "8.8.8.8:80";

/// The address that reaches every host of the local segment.
pub const LIMITED_BROADCAST: &'static str = "255.255.255.255";

/// The address of the discovery port on `host`.
pub open spec fn discovery_address_text(host: Seq<char>) -> Seq<char> {
    address_text(host, DISCOVERY_PORT)
}

/// The address of the discovery port on `host`.
pub fn discovery_address(host: &str) -> (text: String)
    ensures
        text@ == discovery_address_text(host@),
{
    address(host, DISCOVERY_PORT)
}

/// The socket of a connect request is bound, where it can be, to the very
/// port that requests go to, so that an answer to the port finds it.
pub proof fn lemma_bind_address_is_discovery_port()
    ensures
        DISCOVERY_BIND_ADDRESS@ == discovery_address_text("0.0.0.0"@),
{
    reveal_strlit("0.0.0.0:5002");
    reveal_strlit("0.0.0.0");
    reveal_with_fuel(decimal, 5);
}

/// The broadcast address of the subnet of `local_ip`: its first three
/// fields, then `255`. An address that does not have four fields between
/// dots has none.
pub open spec fn subnet_broadcast(local_ip: Seq<char>) -> Option<Seq<char>> {
    let fields = split(local_ip, Separator::Char('.'));
    if fields.len() == 4 {
        Some(fields[0] + "."@ + fields[1] + "."@ + fields[2] + ".255"@)
    } else {
        None
    }
}

/// The hosts that a discovery request goes to: the limited broadcast
/// address and, where the local address is known and gives another one, the
/// broadcast address of its subnet.
pub open spec fn broadcast_targets_of(local_ip: Option<Seq<char>>) -> Seq<Seq<char>> {
    match local_ip {
        Some(ip) => match subnet_broadcast(ip) {
            Some(subnet) => if subnet == LIMITED_BROADCAST@ {
                seq![LIMITED_BROADCAST@]
            } else {
                seq![LIMITED_BROADCAST@, subnet]
            },
            None => seq![LIMITED_BROADCAST@],
        },
        None => seq![LIMITED_BROADCAST@],
    }
}

/// The hosts that a discovery request goes to. `local_ip` is the address of
/// the local end of the route to `PROBE_ADDRESS`, or `None` where the probe
/// failed.
pub fn broadcast_targets(local_ip: Option<&str>) -> (targets: Vec<String>)
    ensures
        targets.deep_view() == broadcast_targets_of(
            match local_ip {
                Some(ip) => Some(ip@),
                None => None,
            },
        ),
{
    let mut targets: Vec<String> = Vec::new();
    targets.push(String::from_str(LIMITED_BROADCAST));
    if let Some(ip) = local_ip {
        let fields = split_text(ip, Separator::Char('.'));
        if fields.len() == 4 {
            let mut subnet = String::from_str(fields[0].as_str());
            subnet.append(".");
            subnet.append(fields[1].as_str());
            subnet.append(".");
            subnet.append(fields[2].as_str());
            subnet.append(".255");
            assert(Some(subnet@) == subnet_broadcast(ip@));
            if !same_text(subnet.as_str(), LIMITED_BROADCAST) {
                targets.push(subnet);
            }
        }
    }
    targets
}

/// The request that asks every receiver to announce itself.
pub open spec fn discover_request() -> Seq<u8> {
    encode_utf8("AURELAY_DISCOVER"@)
}

/// The request that asks every receiver to announce itself.
pub fn discover_request_bytes() -> (bytes: Vec<u8>)
    ensures
        bytes@ == discover_request(),
{
    "AURELAY_DISCOVER".as_bytes_vec()
}

/// A receiver that announced itself: the address its datagram came from,
/// and the stream port and display name that the datagram names. The port
/// is kept as the text it came as.
#[derive(Debug, Clone)]
pub struct DiscoveredReceiver {
    pub ip: String,
    pub port: String,
    pub name: String,
}

/// A `DiscoveredReceiver` as contracts see it.
pub struct ReceiverView {
    pub ip: Seq<char>,
    pub port: Seq<char>,
    pub name: Seq<char>,
}

impl View for DiscoveredReceiver {
    type V = ReceiverView;

    open spec fn view(&self) -> ReceiverView {
        ReceiverView { ip: self.ip@, port: self.port@, name: self.name@ }
    }
}

impl DeepView for DiscoveredReceiver {
    type V = ReceiverView;

    open spec fn deep_view(&self) -> ReceiverView {
        self.view()
    }
}

/// A receiver as one line of a discovery result: `ip:port;name`.
pub open spec fn entry_text(receiver: ReceiverView) -> Seq<char> {
    receiver.ip + ":"@ + receiver.port + ";"@ + receiver.name
}

/// The lines of a list of receivers.
pub open spec fn entries_of(receivers: Seq<ReceiverView>) -> Seq<Seq<char>> {
    Seq::new(receivers.len(), |i: int| entry_text(receivers[i]))
}

impl DiscoveredReceiver {
    /// The receiver as one line of a discovery result.
    pub fn entry(&self) -> (line: String)
        ensures
            line@ == entry_text(self@),
    {
        let mut line = String::from_str(self.ip.as_str());
        line.append(":");
        line.append(self.port.as_str());
        line.append(";");
        line.append(self.name.as_str());
        line
    }
}

/// The receiver that a datagram announces, where its text is an
/// announcement: it begins with `AURELAY_RESPONSE` and has at least three
/// fields between semicolons, of which the second is the port and the third
/// the name. Further fields are ignored.
pub open spec fn announced(text: Seq<char>, source_ip: Seq<char>) -> Option<ReceiverView> {
    let fields = split(text, Separator::Char(';'));
    if "AURELAY_RESPONSE"@.is_prefix_of(text) && fields.len() >= 3 {
        Some(ReceiverView { ip: source_ip, port: fields[1], name: fields[2] })
    } else {
        None
    }
}

/// The text in which a receiver announces its stream port and its name.
pub open spec fn announcement_text(port: Seq<char>, name: Seq<char>) -> Seq<char> {
    "AURELAY_RESPONSE"@ + seq![';'] + port + seq![';'] + name
}

/// An announcement is read back as it was written: the port and the name
/// come out as they went in, provided neither holds a semicolon.
pub proof fn lemma_announcement_reads_back(port: Seq<char>, name: Seq<char>, source_ip: Seq<char>)
    requires
        forall|i: int| 0 <= i < port.len() ==> port[i] != ';',
        forall|i: int| 0 <= i < name.len() ==> name[i] != ';',
    ensures
        announced(announcement_text(port, name), source_ip) == Some(
            ReceiverView { ip: source_ip, port, name },
        ),
{
    let semicolon = Separator::Char(';');
    let marker = "AURELAY_RESPONSE"@;
    let text = announcement_text(port, name);
    reveal_strlit("AURELAY_RESPONSE");
    assert(text =~= marker + seq![';'] + (port + seq![';'] + name));
    lemma_split_first(marker, ';', port + seq![';'] + name, semicolon);
    lemma_split_first(port, ';', name, semicolon);
    lemma_split_whole(name, semicolon);
    assert(marker.is_prefix_of(text));
}

/// Reads the text of a datagram that came from `source_ip` as an
/// announcement.
pub fn parse_response(text: &str, source_ip: &str) -> (receiver: Option<DiscoveredReceiver>)
    ensures
        match announced(text@, source_ip@) {
            Some(expected) => receiver.is_some() && receiver.unwrap()@ == expected,
            None => receiver.is_none(),
        },
{
    if !starts_with(text, "AURELAY_RESPONSE") {
        return None;
    }
    let fields = split_text(text, Separator::Char(';'));
    if fields.len() < 3 {
        return None;
    }
    Some(
        DiscoveredReceiver {
            ip: String::from_str(source_ip),
            port: String::from_str(fields[1].as_str()),
            name: String::from_str(fields[2].as_str()),
        },
    )
}

/// Whether `receiver` would add a line that `found` does not have yet.
pub open spec fn is_new(found: Seq<ReceiverView>, receiver: ReceiverView) -> bool {
    !entries_of(found).contains(entry_text(receiver))
}

/// The receivers known after a datagram with this text came from
/// `source_ip`: one more where the text announces a receiver whose line is
/// new, the same as before otherwise.
pub open spec fn found_after(
    found: Seq<ReceiverView>,
    text: Seq<char>,
    source_ip: Seq<char>,
) -> Seq<ReceiverView> {
    match announced(text, source_ip) {
        Some(receiver) => if is_new(found, receiver) {
            found.push(receiver)
        } else {
            found
        },
        None => found,
    }
}

/// The diagnostic sink after such a datagram: each new receiver is noted
/// once.
pub open spec fn noted_after(
    logs: Seq<Seq<char>>,
    found: Seq<ReceiverView>,
    text: Seq<char>,
    source_ip: Seq<char>,
) -> Seq<Seq<char>> {
    match announced(text, source_ip) {
        Some(receiver) => if is_new(found, receiver) {
            logged(logs, "Discovered: "@ + entry_text(receiver))
        } else {
            logs
        },
        None => logs,
    }
}

/// What a discovery does next.
#[derive(Debug, Clone, Copy, PartialEq, Eq, Structural)]
pub enum DiscoveryAction {
    /// Wait for one datagram, no longer than `POLL_TIMEOUT_MS`, and report
    /// it or its absence.
    Receive,
    /// The time is up: take the result.
    Finish,
}

/// One run of discovery: the time it may take and the receivers found so
/// far, in the order in which they were first seen.
pub struct DiscoveryRun {
    timeout_secs: u64,
    found: Vec<DiscoveredReceiver>,
}

impl DiscoveryRun {
    /// The time that the run may take, in seconds.
    pub closed spec fn timeout(&self) -> u64 {
        self.timeout_secs
    }

    /// The receivers found so far, first seen first.
    pub closed spec fn receivers(&self) -> Seq<ReceiverView> {
        self.found.deep_view()
    }

    /// The result lines of the run so far.
    pub open spec fn entries(&self) -> Seq<Seq<char>> {
        entries_of(self.receivers())
    }

    /// No line stands twice in the result.
    pub open spec fn wf(&self) -> bool {
        self.entries().no_duplicates()
    }

    /// A run that has found nothing yet.
    pub fn new(timeout_secs: u64) -> (run: DiscoveryRun)
        ensures
            run.wf(),
            run.timeout() == timeout_secs,
            run.receivers() == Seq::<ReceiverView>::empty(),
    {
        let run = DiscoveryRun { timeout_secs, found: Vec::new() };
        run
    }

    /// What the run does once `elapsed_secs` full seconds have passed
    /// since the requests went out: receive while the time is not up,
    /// finish from then on.
    pub open spec fn action_at(&self, elapsed_secs: u64) -> DiscoveryAction {
        if elapsed_secs < self.timeout() {
            DiscoveryAction::Receive
        } else {
            DiscoveryAction::Finish
        }
    }

    /// What to do once `elapsed_secs` full seconds have passed since the
    /// requests went out.
    pub fn next_action(&self, elapsed_secs: u64) -> (action: DiscoveryAction)
        ensures
            action == self.action_at(elapsed_secs),
    {
        if elapsed_secs < self.timeout_secs {
            DiscoveryAction::Receive
        } else {
            DiscoveryAction::Finish
        }
    }

    fn knows(&self, line: &str) -> (known: bool)
        ensures
            known == self.entries().contains(line@),
    {
        let mut i: usize = 0;
        while i < self.found.len()
            invariant
                i <= self.found.len(),
                forall|k: int| 0 <= k < i ==> self.entries()[k] != line@,
            decreases self.found.len() - i,
        {
            let other = self.found[i].entry();
            assert(other@ == self.entries()[i as int]);
            if same_text(other.as_str(), line) {
                return true;
            }
            i = i + 1;
        }
        false
    }

    /// Takes in the text of a datagram that came from `source_ip`. A
    /// receiver whose line is new joins the result and is noted in `logs`;
    /// any other text changes nothing.
    pub fn on_text(&mut self, text: &str, source_ip: &str, logs: &mut NativeLogs)
        ensures
            old(self).wf() ==> final(self).wf(),
            final(self).timeout() == old(self).timeout(),
            final(self).receivers() == found_after(old(self).receivers(), text@, source_ip@),
            final(logs)@ == noted_after(old(logs)@, old(self).receivers(), text@, source_ip@),
    {
        if let Some(receiver) = parse_response(text, source_ip) {
            let line = receiver.entry();
            if !self.knows(line.as_str()) {
                let mut note = String::from_str("Discovered: ");
                note.append(line.as_str());
                push_log(logs, note.as_str());
                let ghost before = self.receivers();
                let ghost added = receiver@;
                self.found.push(receiver);
                assert(self.receivers() =~= before.push(added));
                assert(entries_of(before.push(added)) =~= entries_of(before).push(
                    entry_text(added),
                ));
            }
        }
    }

    /// Takes in a datagram that came from `source_ip` and returns the pause
    /// before the next round, in milliseconds. An empty datagram changes
    /// nothing and is followed at once by the next round; any other is read
    /// as text, leniently, and handled as `on_text` says.
    pub fn on_datagram(
        &mut self,
        payload: &[u8],
        source_ip: &str,
        logs: &mut NativeLogs,
    ) -> (pause_ms: u64)
        ensures
            old(self).wf() ==> final(self).wf(),
            final(self).timeout() == old(self).timeout(),
            payload@.len() == 0 ==> pause_ms == 0 && final(self).receivers() == old(
                self,
            ).receivers() && final(logs)@ == old(logs)@,
            payload@.len() > 0 ==> pause_ms == ROUND_PAUSE_MS && final(self).receivers()
                == found_after(old(self).receivers(), utf8_lossy(payload@), source_ip@)
                && final(logs)@ == noted_after(
                old(logs)@,
                old(self).receivers(),
                utf8_lossy(payload@),
                source_ip@,
            ),
            vstd::utf8::valid_utf8(payload@) ==> utf8_lossy(payload@) == vstd::utf8::decode_utf8(
                payload@,
            ),
    {
        let text = lossy_text(payload);
        if payload.len() == 0 {
            return 0;
        }
        self.on_text(text.as_str(), source_ip, logs);
        ROUND_PAUSE_MS
    }

    /// The pause after a receive that brought nothing, in milliseconds: the
    /// retry pause, then the pause that ends the round.
    pub fn on_receive_failed(&self) -> (pause_ms: u64)
        ensures
            pause_ms == RETRY_PAUSE_MS + ROUND_PAUSE_MS,
    {
        RETRY_PAUSE_MS + ROUND_PAUSE_MS
    }

    /// The result lines of the run so far, first seen first.
    pub fn results(&self) -> (lines: Vec<String>)
        ensures
            lines.deep_view() == self.entries(),
    {
        let mut lines: Vec<String> = Vec::new();
        let mut i: usize = 0;
        while i < self.found.len()
            invariant
                i <= self.found.len(),
                lines.deep_view() == self.entries().take(i as int),
            decreases self.found.len() - i,
        {
            let ghost before = lines.deep_view();
            let line = self.found[i].entry();
            let ghost text = line@;
            lines.push(line);
            assert(lines.deep_view() =~= before.push(text));
            i = i + 1;
        }
        lines
    }
}

/// No two receivers of a run are the same in address, port and name.
pub proof fn lemma_receivers_distinct(run: DiscoveryRun, i: int, j: int)
    requires
        run.wf(),
        0 <= i < run.receivers().len(),
        0 <= j < run.receivers().len(),
        i != j,
    ensures
        run.receivers()[i] != run.receivers()[j],
{
    assert(run.entries()[i] == entry_text(run.receivers()[i]));
    assert(run.entries()[j] == entry_text(run.receivers()[j]));
}

/// A run ends on time whatever came in: a run that took in a datagram
/// finishes at the same moment as if it had not, and from the end of its
/// time on it asks for no further receive.
pub proof fn lemma_discovery_ends_on_time(
    before: DiscoveryRun,
    after: DiscoveryRun,
    elapsed_secs: u64,
)
    requires
        after.timeout() == before.timeout(),
    ensures
        after.action_at(elapsed_secs) == before.action_at(elapsed_secs),
        elapsed_secs >= before.timeout() ==> after.action_at(elapsed_secs)
            == DiscoveryAction::Finish,
{
}

/// How a request for leave to connect ended.
#[derive(Debug, Clone, Copy, PartialEq, Eq, Structural)]
pub enum ConnectOutcome {
    /// The receiver agreed.
    Accepted,
    /// The receiver declined.
    Rejected,
    /// No answer came in time, or the request could not be sent at all.
    Timeout,
}

impl ConnectOutcome {
    /// The outcome as the host reads it.
    pub open spec fn word(&self) -> Seq<char> {
        match self {
            ConnectOutcome::Accepted => "accepted"@,
            ConnectOutcome::Rejected => "rejected"@,
            ConnectOutcome::Timeout => "timeout"@,
        }
    }

    /// The outcome as the host reads it.
    pub fn as_str(&self) -> (word: &'static str)
        ensures
            word@ == self.word(),
    {
        match self {
            ConnectOutcome::Accepted => "accepted",
            ConnectOutcome::Rejected => "rejected",
            ConnectOutcome::Timeout => "timeout",
        }
    }

    /// The answer of the receiver in a word, where it gave one.
    pub fn answer(&self) -> (word: Option<String>)
        ensures
            match self {
                ConnectOutcome::Timeout => word.is_none(),
                _ => word.is_some() && word.unwrap()@ == self.word(),
            },
    {
        match self {
            ConnectOutcome::Timeout => None,
            _ => Some(String::from_str(self.as_str())),
        }
    }
}

/// The answer that a text gives to a connect request: it agrees where it
/// begins with `AURELAY_ACCEPT`, declines where it begins with
/// `AURELAY_REJECT`, and is no answer otherwise.
pub open spec fn answer_of(text: Seq<char>) -> Option<ConnectOutcome> {
    if "AURELAY_ACCEPT"@.is_prefix_of(text) {
        Some(ConnectOutcome::Accepted)
    } else if "AURELAY_REJECT"@.is_prefix_of(text) {
        Some(ConnectOutcome::Rejected)
    } else {
        None
    }
}

/// Reads a text as the answer to a connect request.
pub fn classify_reply(text: &str) -> (answer: Option<ConnectOutcome>)
    ensures
        answer == answer_of(text@),
{
    if starts_with(text, "AURELAY_ACCEPT") {
        Some(ConnectOutcome::Accepted)
    } else if starts_with(text, "AURELAY_REJECT") {
        Some(ConnectOutcome::Rejected)
    } else {
        None
    }
}

/// The text of the request that names the sender: `AURELAY_CONNECT;`, then
/// the device name.
pub open spec fn connect_request_text(device_name: Seq<char>) -> Seq<char> {
    "AURELAY_CONNECT;"@ + device_name
}

/// The line that notes an answer in the diagnostic sink.
pub open spec fn answer_note(
    prefix: Seq<char>,
    answer: ConnectOutcome,
    source_ip: Seq<char>,
) -> Seq<char> {
    prefix + (if answer == ConnectOutcome::Accepted {
        "Connection ACCEPTED by "@
    } else {
        "Connection REJECTED by "@
    }) + source_ip
}

/// What a connect request does next.
#[derive(Debug, Clone, Copy, PartialEq, Eq, Structural)]
pub enum ConnectAction {
    /// Wait for one datagram, no longer than `POLL_TIMEOUT_MS`, and report
    /// it or its absence.
    Receive,
    /// The request is over, with this outcome.
    Finish(ConnectOutcome),
}

/// One request for leave to connect. The socket for it is bound to
/// `DISCOVERY_BIND_ADDRESS` so that the answer finds it, or to
/// `ANY_PORT_ADDRESS` where that port is taken; `message` then goes to
/// `target`.
#[derive(Debug)]
pub struct ConnectionRequest {
    /// Where the request goes: the discovery port of the host.
    pub target: String,
    /// The text of the request.
    pub message: String,
    /// The time to wait for an answer, in seconds.
    pub timeout_secs: u64,
    /// What leads each line that the request notes in the diagnostic sink.
    pub note_prefix: String,
    /// The outcome, once there is one. It never changes after that.
    pub outcome: Option<ConnectOutcome>,
}

impl ConnectionRequest {
    /// A request to `host` in the name of `device_name` that waits
    /// `timeout_secs` for its answer.
    pub fn new(host: &str, device_name: &str, timeout_secs: u64, note_prefix: &str) -> (request:
        ConnectionRequest)
        ensures
            request.target@ == discovery_address_text(host@),
            request.message@ == connect_request_text(device_name@),
            request.timeout_secs == timeout_secs,
            request.note_prefix@ == note_prefix@,
            request.outcome.is_none(),
    {
        ConnectionRequest {
            target: discovery_address(host),
            message: String::from_str("AURELAY_CONNECT;").concat(device_name),
            timeout_secs,
            note_prefix: String::from_str(note_prefix),
            outcome: None,
        }
    }

    /// The datagram that carries the request: its text in UTF-8.
    pub fn datagram(&self) -> (bytes: Vec<u8>)
        ensures
            bytes@ == encode_utf8(self.message@),
    {
        self.message.as_str().as_bytes_vec()
    }

    /// Gives the request up where no socket could be bound or the datagram
    /// could not be sent: it then counts as unanswered. An outcome that is
    /// there already stays.
    pub fn abandon(&mut self)
        ensures
            final(self).outcome == Some(
                match old(self).outcome {
                    Some(outcome) => outcome,
                    None => ConnectOutcome::Timeout,
                },
            ),
            final(self).target == old(self).target,
            final(self).message == old(self).message,
            final(self).timeout_secs == old(self).timeout_secs,
            final(self).note_prefix == old(self).note_prefix,
    {
        if self.outcome.is_none() {
            self.outcome = Some(ConnectOutcome::Timeout);
        }
    }

    /// What the request does once `elapsed_secs` full seconds have passed
    /// since it went out: finish where there is an outcome, receive while
    /// the time is not up, and finish unanswered from then on.
    pub open spec fn action_at(&self, elapsed_secs: u64) -> ConnectAction {
        match self.outcome {
            Some(outcome) => ConnectAction::Finish(outcome),
            None => if elapsed_secs < self.timeout_secs {
                ConnectAction::Receive
            } else {
                ConnectAction::Finish(ConnectOutcome::Timeout)
            },
        }
    }

    /// What to do once `elapsed_secs` full seconds have passed since the
    /// request went out.
    pub fn next_action(&self, elapsed_secs: u64) -> (action: ConnectAction)
        ensures
            action == self.action_at(elapsed_secs),
    {
        match self.outcome {
            Some(outcome) => ConnectAction::Finish(outcome),
            None => if elapsed_secs < self.timeout_secs {
                ConnectAction::Receive
            } else {
                ConnectAction::Finish(ConnectOutcome::Timeout)
            },
        }
    }

    /// The outcome after a datagram with this text: the first answer
    /// decides, and nothing that comes later changes it.
    pub open spec fn outcome_after(&self, text: Seq<char>) -> Option<ConnectOutcome> {
        match self.outcome {
            Some(outcome) => Some(outcome),
            None => answer_of(text),
        }
    }

    /// The diagnostic sink after a datagram with this text came from
    /// `source_ip`: the answer that decides is noted, nothing else.
    pub open spec fn noted_after(
        &self,
        logs: Seq<Seq<char>>,
        text: Seq<char>,
        source_ip: Seq<char>,
    ) -> Seq<Seq<char>> {
        match (self.outcome, answer_of(text)) {
            (None, Some(answer)) => logged(
                logs,
                answer_note(self.note_prefix@, answer, source_ip),
            ),
            _ => logs,
        }
    }

    /// Takes in the text of a datagram that came from `source_ip`.
    pub fn on_text(&mut self, text: &str, source_ip: &str, logs: &mut NativeLogs)
        ensures
            final(self).outcome == old(self).outcome_after(text@),
            final(logs)@ == old(self).noted_after(old(logs)@, text@, source_ip@),
            final(self).target == old(self).target,
            final(self).message == old(self).message,
            final(self).timeout_secs == old(self).timeout_secs,
            final(self).note_prefix == old(self).note_prefix,
    {
        if self.outcome.is_some() {
            return ;
        }
        if let Some(answer) = classify_reply(text) {
            let mut note = String::from_str(self.note_prefix.as_str());
            match answer {
                ConnectOutcome::Accepted => note.append("Connection ACCEPTED by "),
                _ => note.append("Connection REJECTED by "),
            }
            note.append(source_ip);
            push_log(logs, note.as_str());
            self.outcome = Some(answer);
        }
    }

    /// Takes in a datagram that came from `source_ip`. An empty datagram
    /// changes nothing; any other is read as text, leniently, and handled as
    /// `on_text` says.
    pub fn on_datagram(&mut self, payload: &[u8], source_ip: &str, logs: &mut NativeLogs)
        ensures
            payload@.len() == 0 ==> final(self).outcome == old(self).outcome && final(logs)@ == old(
                logs,
            )@,
            payload@.len() > 0 ==> final(self).outcome == old(self).outcome_after(
                utf8_lossy(payload@),
            ) && final(logs)@ == old(self).noted_after(
                old(logs)@,
                utf8_lossy(payload@),
                source_ip@,
            ),
            vstd::utf8::valid_utf8(payload@) ==> utf8_lossy(payload@) == vstd::utf8::decode_utf8(
                payload@,
            ),
            final(self).target == old(self).target,
            final(self).message == old(self).message,
            final(self).timeout_secs == old(self).timeout_secs,
            final(self).note_prefix == old(self).note_prefix,
    {
        let text = lossy_text(payload);
        if payload.len() == 0 {
            return ;
        }
        self.on_text(text.as_str(), source_ip, logs);
    }

    /// The pause after a receive that brought nothing, in milliseconds.
    pub fn on_receive_failed(&self) -> (pause_ms: u64)
        ensures
            pause_ms == RETRY_PAUSE_MS,
    {
        RETRY_PAUSE_MS
    }
}

/// Opens a request to `host` for leave to connect, in the name of
/// `device_name`, that waits `timeout_secs` for its answer.
pub fn request_connect_and_wait_impl(
    host: String,
    timeout_secs: u64,
    device_name: String,
) -> (request: ConnectionRequest)
    ensures
        request.target@ == discovery_address_text(host@),
        request.message@ == connect_request_text(device_name@),
        request.timeout_secs == timeout_secs,
        request.note_prefix@ == Seq::<char>::empty(),
        request.outcome.is_none(),
{
    proof {
        reveal_strlit("");
    }
    ConnectionRequest::new(host.as_str(), device_name.as_str(), timeout_secs, "")
}

/// Opens a discovery that listens for `timeout_secs`.
pub fn discover_receivers_impl(timeout_secs: u64) -> (run: DiscoveryRun)
    ensures
        run.wf(),
        run.timeout() == timeout_secs,
        run.receivers() == Seq::<ReceiverView>::empty(),
{
    DiscoveryRun::new(timeout_secs)
}

} // verus!
