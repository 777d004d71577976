use vstd::prelude::*;
use vstd::string::*;
use vstd::utf8::*;

use crate::handshake::{
    endpoint, endpoint_text, readiness, readiness_of, ready_line_reads_back, ready_line_text, Readiness,
};
use crate::text::{debug_quoted, debug_text, i32_to_decimal, joined, signed_decimal, IntErrorKind};

verus! {

broadcast use vstd::string::group_string_axioms;

/// How the host reaches a running sidecar: its loopback port and the token
/// that the sidecar demands.
pub struct SidecarConnection {
    port: u16,
    auth_token: String,
}

impl SidecarConnection {
    pub closed spec fn port(self) -> u16 {
        self.port
    }

    pub closed spec fn token(self) -> Seq<char> {
        self.auth_token@
    }

    pub fn new(port: u16, auth_token: String) -> (c: Self)
        ensures
            c.port() == port,
            c.token() == auth_token@,
    {
        SidecarConnection { port, auth_token }
    }

    /// The address of the sidecar: `http://127.0.0.1:<port>`.
    pub fn endpoint(&self) -> (url: String)
        ensures
            url@ == endpoint_text(self.port()),
    {
        endpoint(self.port)
    }

    /// The token that the sidecar demands.
    pub fn auth_token(&self) -> (t: &str)
        ensures
            t@ == self.token(),
    {
        self.auth_token.as_str()
    }
}

/// The text that `ParseIntError` displays for each kind.
pub open spec fn int_error_text(kind: IntErrorKind) -> Seq<char> {
    match kind {
        IntErrorKind::Empty => "cannot parse integer from empty string"@,
        IntErrorKind::InvalidDigit => "invalid digit found in string"@,
        IntErrorKind::PosOverflow => "number too large to fit in target type"@,
    }
}

/// Writes what `ParseIntError` displays for `kind`.
pub fn int_error_message(kind: IntErrorKind) -> (m: String)
    ensures
        m@ == int_error_text(kind),
{
    match kind {
        IntErrorKind::Empty => "cannot parse integer from empty string".to_owned(),
        IntErrorKind::InvalidDigit => "invalid digit found in string".to_owned(),
        IntErrorKind::PosOverflow => "number too large to fit in target type".to_owned(),
    }
}

/// Why a sidecar started by hand did not become ready.
#[derive(Debug, PartialEq)]
pub enum ReadinessFailure {
    /// Its output ended before the readiness line.
    Exited,
    /// Its readiness line was wrong, for this reason.
    Invalid(String),
}

/// What the host makes of the first line of a sidecar it started by hand:
/// the port it announces, or why it failed.
pub fn announced_port(line: &str, bytes_read: usize) -> (r: Result<u16, ReadinessFailure>)
    ensures
        bytes_read == 0 ==> r == Err::<u16, ReadinessFailure>(ReadinessFailure::Exited),
        bytes_read > 0 ==> match readiness_of(line@) {
            Readiness::Ready(p) => r == Ok::<u16, ReadinessFailure>(p),
            Readiness::NotReady => (r matches Err(ReadinessFailure::Invalid(m)) && m@
                == "invalid sidecar readiness: "@ + debug_text(line@)),
            Readiness::BadPort(kind) => (r matches Err(ReadinessFailure::Invalid(m)) && m@
                == "invalid sidecar port: "@ + int_error_text(kind)),
        },
{
    if bytes_read == 0 {
        return Err(ReadinessFailure::Exited);
    }
    match readiness(line) {
        Readiness::Ready(p) => Ok(p),
        Readiness::NotReady => Err(
            ReadinessFailure::Invalid(
                joined("invalid sidecar readiness: ", debug_quoted(line).as_str()),
            ),
        ),
        Readiness::BadPort(kind) => Err(
            ReadinessFailure::Invalid(
                joined("invalid sidecar port: ", int_error_message(kind).as_str()),
            ),
        ),
    }
}

/// What a bundled sidecar reports while the host waits on it.
#[derive(Debug, PartialEq)]
pub enum SidecarEvent {
    Stdout(Vec<u8>),
    Stderr(Vec<u8>),
    Error(String),
    Terminated(Option<i32>),
    /// The sidecar's event stream ended.
    Closed,
    Other,
}

/// What the host does with one event while it waits for a bundled sidecar.
#[derive(Debug, PartialEq)]
pub enum LaunchStep {
    /// The sidecar listens on this port.
    Ready(u16),
    /// Pass the sidecar's error output on, and wait on.
    Log(Vec<u8>),
    /// Wait on.
    Wait,
    /// The sidecar failed to start, for this reason.
    Fail(String),
}

/// The text that `FromUtf8Error` displays for bytes that are not UTF-8.
pub uninterp spec fn utf8_error_text(bytes: Seq<u8>) -> Seq<char>;

/// `String::from_utf8`, with the error displayed as text. Valid UTF-8 gives
/// the text that it encodes; anything else gives the error's text, which is
/// named, not described.
#[verifier::external_body]
fn utf8_text(bytes: Vec<u8>) -> (r: Result<String, String>)
    ensures
        r is Ok <==> valid_utf8(bytes@),
        r matches Ok(s) ==> s@ == decode_utf8(bytes@),
        r matches Err(m) ==> m@ == utf8_error_text(bytes@),
{
    String::from_utf8(bytes).map_err(|error| error.to_string())
}

/// The text that `Debug` writes for an exit code: `None`, or `Some(`, the
/// code in decimal with its sign, and `)`.
pub open spec fn exit_code_text(code: Option<i32>) -> Seq<char> {
    match code {
        None => "None"@,
        Some(v) => "Some("@ + signed_decimal(v as int) + ")"@,
    }
}

/// Writes what `format!("{:?}", code)` gives for an exit code.
pub fn exit_code_debug(code: Option<i32>) -> (t: String)
    ensures
        t@ == exit_code_text(code),
{
    match code {
        None => "None".to_owned(),
        Some(v) => {
            let mut t = joined("Some(", i32_to_decimal(v).as_str());
            t.append(")");
            t
        },
    }
}

/// What a line of standard output means while the host waits for a bundled
/// sidecar: the first line must be the readiness line.
pub open spec fn launch_answer(text: Result<Seq<char>, Seq<char>>) -> Result<u16, Seq<char>> {
    match text {
        Err(m) => Err(m),
        Ok(line) => match readiness_of(line) {
            Readiness::Ready(p) => Ok(p),
            Readiness::NotReady => Err("invalid sidecar readiness: "@ + debug_text(line)),
            Readiness::BadPort(kind) => Err(int_error_text(kind)),
        },
    }
}

/// Answers one event while the host waits for a bundled sidecar to announce its port.
pub fn launch_step(event: SidecarEvent) -> (step: LaunchStep)
    ensures
        event matches SidecarEvent::Stdout(bytes) ==> match launch_answer(
            if valid_utf8(bytes@) {
                Ok::<Seq<char>, Seq<char>>(decode_utf8(bytes@))
            } else {
                Err::<Seq<char>, Seq<char>>(utf8_error_text(bytes@))
            },
        ) {
            Ok(p) => step == LaunchStep::Ready(p),
            Err(m) => (step matches LaunchStep::Fail(f) && f@ == m),
        },
        event matches SidecarEvent::Stderr(bytes) ==> step == LaunchStep::Log(bytes),
        event matches SidecarEvent::Error(e) ==> step == LaunchStep::Fail(e),
        event matches SidecarEvent::Terminated(code) ==> (step matches LaunchStep::Fail(f) && f@
            == "sidecar exited before becoming ready: "@ + exit_code_text(code)),
        event is Closed ==> (step matches LaunchStep::Fail(f) && f@
            == "sidecar closed before becoming ready"@),
        event is Other ==> step == LaunchStep::Wait,
{
    match event {
        SidecarEvent::Stdout(bytes) => match utf8_text(bytes) {
            Err(m) => LaunchStep::Fail(m),
            Ok(line) => match readiness(line.as_str()) {
                Readiness::Ready(p) => LaunchStep::Ready(p),
                Readiness::NotReady => LaunchStep::Fail(
                    joined("invalid sidecar readiness: ", debug_quoted(line.as_str()).as_str()),
                ),
                Readiness::BadPort(kind) => LaunchStep::Fail(int_error_message(kind)),
            },
        },
        SidecarEvent::Stderr(bytes) => LaunchStep::Log(bytes),
        SidecarEvent::Error(e) => LaunchStep::Fail(e),
        SidecarEvent::Terminated(code) => LaunchStep::Fail(
            joined("sidecar exited before becoming ready: ", exit_code_debug(code).as_str()),
        ),
        SidecarEvent::Closed => LaunchStep::Fail("sidecar closed before becoming ready".to_owned()),
        SidecarEvent::Other => LaunchStep::Wait,
    }
}

/// What the host does with one event while it waits for a bundled sidecar to stop.
#[derive(Debug, PartialEq)]
pub enum StopStep {
    /// The sidecar ended, with this exit code.
    Exited(Option<i32>),
    /// Pass the sidecar's error output on, and wait on.
    Log(Vec<u8>),
    /// Wait on.
    Wait,
    /// Waiting failed, for this reason.
    Fail(String),
}

/// Answers one event while the host waits for a bundled sidecar to stop.
pub fn stop_step(event: SidecarEvent) -> (step: StopStep)
    ensures
        event matches SidecarEvent::Terminated(code) ==> step == StopStep::Exited(code),
        event matches SidecarEvent::Stderr(bytes) ==> step == StopStep::Log(bytes),
        event matches SidecarEvent::Error(e) ==> step == StopStep::Fail(e),
        event is Closed ==> (step matches StopStep::Fail(f) && f@ == "sidecar event stream closed"@),
        event is Stdout || event is Other ==> step == StopStep::Wait,
{
    match event {
        SidecarEvent::Terminated(code) => StopStep::Exited(code),
        SidecarEvent::Stderr(bytes) => StopStep::Log(bytes),
        SidecarEvent::Error(e) => StopStep::Fail(e),
        SidecarEvent::Closed => StopStep::Fail("sidecar event stream closed".to_owned()),
        _ => StopStep::Wait,
    }
}

/// Whether a bundled sidecar stopped well: only exit code 0 is success.
pub fn exit_outcome(code: Option<i32>) -> (r: Result<(), String>)
    ensures
        code == Some(0i32) <==> r is Ok,
        r matches Err(m) ==> m@ == "sidecar exited with status "@ + exit_code_text(code),
{
    match code {
        Some(0) => Ok(()),
        _ => Err(joined("sidecar exited with status ", exit_code_debug(code).as_str())),
    }
}

/// Whatever port the system gave the sidecar, its readiness line makes the
/// host ready on exactly that port: the bytes of `READY <port>` and a line
/// end, read as the first line of a bundled sidecar's output, answer `port`.
pub proof fn every_announced_port_is_taken(port: u16)
    ensures
        ({
            let bytes = encode_utf8(ready_line_text(port) + "\n"@);
            &&& valid_utf8(bytes)
            &&& decode_utf8(bytes) == ready_line_text(port) + "\n"@
            &&& launch_answer(Ok(decode_utf8(bytes))) == Ok::<u16, Seq<char>>(port)
        }),
{
    let line = ready_line_text(port) + "\n"@;
    encode_utf8_valid_utf8(line);
    encode_utf8_decode_utf8(line);
    ready_line_reads_back(port);
}

} // verus!
