use vstd::prelude::*;
use vstd::utf8::encode_utf8;

use crate::error::VmError;
use crate::json::{json_get, json_map_keys, json_nested_str, json_nested_string, json_object_keys, parse_json_object};
use crate::text::opt_view;

verus! {

/// Pause between two attempts to connect to the QMP socket.
pub const CONNECT_RETRY_MS: u64 = 100;

/// The newline byte that ends each QMP message.
pub const NEWLINE: u8 = 10;

/// The commands this client issues.
#[derive(Debug, Clone, Copy, PartialEq, Eq, Structural)]
pub enum QmpCommand {
    Capabilities,
    QueryStatus,
    SystemPowerdown,
    Stop,
    Cont,
    Quit,
}

/// The QMP name of a command.
pub open spec fn command_name(c: QmpCommand) -> Seq<char> {
    match c {
        QmpCommand::Capabilities => "qmp_capabilities"@,
        QmpCommand::QueryStatus => "query-status"@,
        QmpCommand::SystemPowerdown => "system_powerdown"@,
        QmpCommand::Stop => "stop"@,
        QmpCommand::Cont => "cont"@,
        QmpCommand::Quit => "quit"@,
    }
}

/// The line that issues a command: `{"execute":"<name>"}` and a newline.
pub open spec fn command_text(c: QmpCommand) -> Seq<char> {
    "{\"execute\":\""@ + command_name(c) + "\"}\n"@
}

impl QmpCommand {
    /// The QMP name of the command.
    pub fn name(&self) -> (r: &'static str)
        ensures
            r@ == command_name(*self),
    {
        match self {
            QmpCommand::Capabilities => "qmp_capabilities",
            QmpCommand::QueryStatus => "query-status",
            QmpCommand::SystemPowerdown => "system_powerdown",
            QmpCommand::Stop => "stop",
            QmpCommand::Cont => "cont",
            QmpCommand::Quit => "quit",
        }
    }

    /// The bytes sent on the socket to issue the command.
    pub fn encode(&self) -> (r: Vec<u8>)
        ensures
            r@ == encode_utf8(command_text(*self)),
    {
        let mut s = String::from_str("{\"execute\":\"");
        s.append(self.name());
        s.append("\"}\n");
        s.as_str().as_bytes_vec()
    }
}

/// Index of the first newline byte at or after `i`, or the length.
pub open spec fn newline_at(b: Seq<u8>, i: nat) -> nat
    decreases b.len() - i,
{
    if i >= b.len() || b[i as int] == NEWLINE {
        i
    } else {
        newline_at(b, i + 1)
    }
}

/// Splits off the first complete line of `b`: the bytes before its first
/// newline, and what follows that newline. `None` while no newline arrived.
pub open spec fn take_line(b: Seq<u8>) -> Option<(Seq<u8>, Seq<u8>)> {
    let e = newline_at(b, 0);
    if e < b.len() {
        Some((b.subrange(0, e as int), b.subrange((e + 1) as int, b.len() as int)))
    } else {
        None
    }
}

proof fn lemma_newline_at(b: Seq<u8>, i: nat, j: nat)
    requires
        i <= j <= b.len(),
        forall|k: int| i <= k < j ==> b[k] != NEWLINE,
        j == b.len() || b[j as int] == NEWLINE,
    ensures
        newline_at(b, i) == j,
    decreases j - i,
{
    if i < j {
        lemma_newline_at(b, i + 1, j);
    }
}

/// A line sent with its newline, followed by anything, is taken back whole:
/// framing loses nothing and adds nothing.
pub proof fn lemma_frame_round_trip(line: Seq<u8>, rest: Seq<u8>)
    requires
        !line.contains(NEWLINE),
    ensures
        take_line(line + seq![NEWLINE] + rest) == Some((line, rest)),
{
    let b = line + seq![NEWLINE] + rest;
    assert forall|k: int| 0 <= k < line.len() implies b[k] != NEWLINE by {
        if b[k] == NEWLINE {
            assert(line[k] == NEWLINE);
            assert(line.contains(NEWLINE));
        }
    }
    lemma_newline_at(b, 0, line.len());
    assert(b.subrange(0, line.len() as int) =~= line);
    assert(b.subrange((line.len() + 1) as int, b.len() as int) =~= rest);
}

/// Bytes received from a QMP socket that do not yet form a complete line.
pub struct LineBuffer {
    pub buf: Vec<u8>,
}

impl LineBuffer {
    /// An empty buffer.
    pub fn new() -> (r: Self)
        ensures
            r.buf@ == Seq::<u8>::empty(),
    {
        LineBuffer { buf: Vec::new() }
    }

    /// Appends received bytes.
    pub fn push_bytes(&mut self, data: &[u8])
        ensures
            final(self).buf@ == old(self).buf@ + data@,
    {
        let mut i: usize = 0;
        while i < data.len()
            invariant
                i <= data@.len(),
                self.buf@ == old(self).buf@ + data@.subrange(0, i as int),
            decreases data@.len() - i,
        {
            self.buf.push(data[i]);
            i = i + 1;
            assert(self.buf@ =~= old(self).buf@ + data@.subrange(0, i as int));
        }
        assert(data@.subrange(0, i as int) =~= data@);
    }

    /// Takes the first complete line, without its newline, out of the buffer.
    pub fn next_line(&mut self) -> (r: Option<Vec<u8>>)
        ensures
            match take_line(old(self).buf@) {
                Some((line, rest)) => r matches Some(l) && l@ == line && final(self).buf@ == rest,
                None => r is None && final(self).buf@ == old(self).buf@,
            },
    {
        let n = self.buf.len();
        let mut e: usize = 0;
        while e < n && self.buf[e] != NEWLINE
            invariant
                n == self.buf@.len(),
                e <= n,
                forall|k: int| 0 <= k < e ==> self.buf@[k] != NEWLINE,
            decreases n - e,
        {
            e = e + 1;
        }
        proof {
            lemma_newline_at(self.buf@, 0, e as nat);
        }
        if e == n {
            return None;
        }
        let mut line: Vec<u8> = Vec::new();
        let mut i: usize = 0;
        while i < e
            invariant
                n == self.buf@.len(),
                e < n,
                i <= e,
                line@ == self.buf@.subrange(0, i as int),
            decreases e - i,
        {
            line.push(self.buf[i]);
            i = i + 1;
            assert(line@ =~= self.buf@.subrange(0, i as int));
        }
        let mut rest: Vec<u8> = Vec::new();
        let mut j: usize = e + 1;
        while j < n
            invariant
                n == self.buf@.len(),
                e < j <= n,
                rest@ == self.buf@.subrange(e + 1, j as int),
            decreases n - j,
        {
            rest.push(self.buf[j]);
            j = j + 1;
            assert(rest@ =~= self.buf@.subrange(e + 1, j as int));
        }
        self.buf = rest;
        Some(line)
    }
}

/// What kind of message a QMP line is.
#[derive(Debug, Clone, Copy, PartialEq, Eq, Structural)]
pub enum ReplyKind {
    Greeting,
    Return,
    Error,
    Event,
    Malformed,
}

/// A QMP message, as far as this client reads it.
#[derive(Debug, Clone)]
pub enum QmpReply {
    /// The server greeting, with its `QMP` key.
    Greeting,
    /// A successful reply; for `query-status`, the `status` it returned.
    Return { status: Option<String> },
    /// A failed command, with the error's `desc`.
    Error { desc: String },
    /// An asynchronous event, which a command discards.
    Event,
    /// A line that is no JSON object or carries none of the known keys.
    Malformed,
}

impl QmpReply {
    /// The kind of the message.
    pub open spec fn kind(self) -> ReplyKind {
        match self {
            QmpReply::Greeting => ReplyKind::Greeting,
            QmpReply::Return { .. } => ReplyKind::Return,
            QmpReply::Error { .. } => ReplyKind::Error,
            QmpReply::Event => ReplyKind::Event,
            QmpReply::Malformed => ReplyKind::Malformed,
        }
    }
}

/// The kind of a JSON object with the given keys: an `event` is an event
/// whatever else it holds; then `return`, `error` and the `QMP` greeting.
pub open spec fn kind_of_keys(keys: Option<Set<Seq<char>>>) -> ReplyKind {
    match keys {
        Some(k) => if k.contains("event"@) {
            ReplyKind::Event
        } else if k.contains("return"@) {
            ReplyKind::Return
        } else if k.contains("error"@) {
            ReplyKind::Error
        } else if k.contains("QMP"@) {
            ReplyKind::Greeting
        } else {
            ReplyKind::Malformed
        },
        None => ReplyKind::Malformed,
    }
}

/// The description of a failed command: the error's `desc`, or a fixed text
/// without one.
pub open spec fn error_desc(desc: Option<Seq<char>>) -> Seq<char> {
    match desc {
        Some(d) => d,
        None => "QMP error without description"@,
    }
}

/// Builds a QMP message from the keys of its JSON object, the `status` of
/// its `return` object and the `desc` of its `error` object.
pub fn reply_from_parts(
    keys: &serde_json::Map<String, serde_json::Value>,
    status: Option<String>,
    desc: Option<String>,
) -> (r: QmpReply)
    ensures
        r.kind() == kind_of_keys(Some(json_map_keys(*keys))),
        r matches QmpReply::Return { status: s } ==> opt_view(s) == opt_view(status),
        r matches QmpReply::Error { desc: d } ==> d@ == error_desc(opt_view(desc)),
{
    if json_get(keys, "event").is_some() {
        QmpReply::Event
    } else if json_get(keys, "return").is_some() {
        QmpReply::Return { status }
    } else if json_get(keys, "error").is_some() {
        let desc = match desc {
            Some(d) => d,
            None => String::from_str("QMP error without description"),
        };
        QmpReply::Error { desc }
    } else if json_get(keys, "QMP").is_some() {
        QmpReply::Greeting
    } else {
        QmpReply::Malformed
    }
}

/// Reads one QMP line (without its newline).
pub fn parse_reply(line: &[u8]) -> (r: QmpReply)
    ensures
        r.kind() == kind_of_keys(json_object_keys(line@)),
        r matches QmpReply::Return { status } ==> opt_view(status) == json_nested_string(
            line@,
            "return"@,
            "status"@,
        ),
        r matches QmpReply::Error { desc } ==> desc@ == error_desc(
            json_nested_string(line@, "error"@, "desc"@),
        ),
{
    match parse_json_object(line) {
        Some(m) => {
            let status = json_nested_str(line, "return", "status");
            let desc = json_nested_str(line, "error", "desc");
            proof {
                assert(opt_view(status) == json_nested_string(line@, "return"@, "status"@));
                assert(opt_view(desc) == json_nested_string(line@, "error"@, "desc"@));
            }
            reply_from_parts(&m, status, desc)
        },
        None => QmpReply::Malformed,
    }
}

/// What a command returns once its reply is known: the `query-status`
/// status on success, the error description on failure.
pub open spec fn reply_result(r: QmpReply) -> Result<Option<Seq<char>>, Seq<char>> {
    match r {
        QmpReply::Return { status } => Ok(
            match status {
                Some(s) => Some(s@),
                None => None,
            },
        ),
        QmpReply::Error { desc } => Err(desc@),
        _ => Err("unexpected QMP message"@),
    }
}

/// The reply that answers a command: the first message that is no event.
pub open spec fn first_reply(rs: Seq<QmpReply>) -> Option<QmpReply>
    decreases rs.len(),
{
    if rs.len() == 0 {
        None
    } else if rs[0] is Event {
        first_reply(rs.drop_first())
    } else {
        Some(rs[0])
    }
}

/// The messages without the events.
pub open spec fn strip_events(rs: Seq<QmpReply>) -> Seq<QmpReply>
    decreases rs.len(),
{
    if rs.len() == 0 {
        rs
    } else if rs[0] is Event {
        strip_events(rs.drop_first())
    } else {
        seq![rs[0]] + strip_events(rs.drop_first())
    }
}

/// What a command that read the messages `rs` returns, `None` while its
/// reply has not arrived.
pub open spec fn command_outcome(rs: Seq<QmpReply>) -> Option<Result<Option<Seq<char>>, Seq<char>>> {
    match first_reply(rs) {
        Some(r) => Some(reply_result(r)),
        None => None,
    }
}

/// Events interleaved with the replies change no command's result: the
/// outcome is the same with the events stripped.
pub proof fn lemma_events_ignored(rs: Seq<QmpReply>)
    ensures
        command_outcome(rs) == command_outcome(strip_events(rs)),
    decreases rs.len(),
{
    if rs.len() > 0 {
        lemma_events_ignored(rs.drop_first());
        if !(rs[0] is Event) {
            let s = seq![rs[0]] + strip_events(rs.drop_first());
            assert(s[0] == rs[0]);
        }
    }
}

/// The result of a command from its (non-event) reply; a failure is
/// `QmpProtocol`.
pub fn call_result(reply: QmpReply) -> (r: Result<Option<String>, VmError>)
    requires
        !(reply is Event),
    ensures
        match (r, reply_result(reply)) {
            (Ok(Some(s)), Ok(Some(t))) => s@ == t,
            (Ok(None), Ok(None)) => true,
            (Err(VmError::QmpProtocol { detail }), Err(d)) => detail@ == d,
            _ => false,
        },
{
    match reply {
        QmpReply::Return { status } => Ok(status),
        QmpReply::Error { desc } => Err(VmError::QmpProtocol { detail: desc }),
        _ => Err(VmError::QmpProtocol { detail: String::from_str("unexpected QMP message") }),
    }
}

/// One message read while a command waits: `None` to read on (an event),
/// else the command's result.
pub fn on_command_reply(reply: QmpReply) -> (r: Option<Result<Option<String>, VmError>>)
    ensures
        reply is Event <==> r is None,
        r matches Some(res) ==> match (res, reply_result(reply)) {
            (Ok(Some(s)), Ok(Some(t))) => s@ == t,
            (Ok(None), Ok(None)) => true,
            (Err(VmError::QmpProtocol { detail }), Err(d)) => detail@ == d,
            _ => false,
        },
{
    match reply {
        QmpReply::Event => None,
        _ => Some(call_result(reply)),
    }
}

/// The index of the message that answers a command among `rs`.
pub fn first_reply_index(rs: &Vec<QmpReply>) -> (r: Option<usize>)
    ensures
        match (r, first_reply(rs@)) {
            (Some(i), Some(x)) => i < rs@.len() && rs@[i as int] == x,
            (None, None) => true,
            _ => false,
        },
{
    let mut i: usize = 0;
    assert(rs@.subrange(0, rs@.len() as int) =~= rs@);
    while i < rs.len()
        invariant
            i <= rs@.len(),
            first_reply(rs@) == first_reply(rs@.subrange(i as int, rs@.len() as int)),
        decreases rs@.len() - i,
    {
        let ghost rest = rs@.subrange(i as int, rs@.len() as int);
        if !(matches!(rs[i], QmpReply::Event)) {
            assert(rest[0] == rs@[i as int]);
            return Some(i);
        }
        assert(rest.drop_first() =~= rs@.subrange(i + 1, rs@.len() as int));
        i = i + 1;
    }
    None
}

/// The status string of a `query-status` result; a reply without one is a
/// protocol failure.
pub fn status_of(result: Result<Option<String>, VmError>) -> (r: Result<String, VmError>)
    ensures
        match result {
            Ok(Some(s)) => r matches Ok(t) && t@ == s@,
            Ok(None) => r matches Err(e) && e is QmpProtocol,
            Err(e) => r matches Err(f) && f == e,
        },
{
    match result {
        Ok(Some(s)) => Ok(s),
        Ok(None) => Err(VmError::QmpProtocol { detail: String::from_str("query-status reply without status") }),
        Err(e) => Err(e),
    }
}

/// Where capability negotiation stands.
#[derive(Debug, Clone, Copy, PartialEq, Eq, Structural)]
pub enum Handshake {
    /// Connected; the greeting is due.
    AwaitGreeting,
    /// `qmp_capabilities` was sent; its empty return is due.
    AwaitCapabilities,
    /// Commands are accepted.
    Ready,
}

/// The handshake: a greeting, then the reply to `qmp_capabilities`. Anything
/// else fails the session.
pub open spec fn handshake_next(h: Handshake, k: ReplyKind) -> Option<Handshake> {
    match (h, k) {
        (Handshake::AwaitGreeting, ReplyKind::Greeting) => Some(Handshake::AwaitCapabilities),
        (Handshake::AwaitCapabilities, ReplyKind::Return) => Some(Handshake::Ready),
        _ => None,
    }
}

/// One line of the handshake: the next state, and the command to send then
/// (`qmp_capabilities` after the greeting). Fails with `QmpProtocol`.
pub fn handshake_step(h: Handshake, reply: &QmpReply) -> (r: Result<(Handshake, Option<QmpCommand>), VmError>)
    ensures
        match (r, handshake_next(h, reply.kind())) {
            (Ok((n, send)), Some(m)) => n == m && (send == if h == Handshake::AwaitGreeting {
                Some(QmpCommand::Capabilities)
            } else {
                None::<QmpCommand>
            }),
            (Err(e), None) => e is QmpProtocol,
            _ => false,
        },
{
    match (h, reply) {
        (Handshake::AwaitGreeting, QmpReply::Greeting) => Ok((Handshake::AwaitCapabilities, Some(QmpCommand::Capabilities))),
        (Handshake::AwaitCapabilities, QmpReply::Return { .. }) => Ok((Handshake::Ready, None)),
        (Handshake::AwaitGreeting, _) => Err(VmError::QmpProtocol { detail: String::from_str("expected QMP greeting") }),
        _ => Err(VmError::QmpProtocol { detail: String::from_str("capability negotiation failed") }),
    }
}

/// Whether to try connecting again: after `CONNECT_RETRY_MS` while the
/// timeout has not passed, else `QmpConnectTimeout` for `path`.
pub fn connect_retry(path: &str, elapsed_ms: u64, timeout_ms: u64) -> (r: Result<u64, VmError>)
    ensures
        elapsed_ms < timeout_ms ==> r == Ok::<u64, VmError>(CONNECT_RETRY_MS),
        elapsed_ms >= timeout_ms ==> (r matches Err(VmError::QmpConnectTimeout { path: p }) && p@ == path@),
{
    if elapsed_ms < timeout_ms {
        Ok(CONNECT_RETRY_MS)
    } else {
        Err(VmError::QmpConnectTimeout { path: path.to_owned() })
    }
}

} // verus!
