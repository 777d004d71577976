use vstd::prelude::*;
use vstd::string::*;

use crate::text::{
    decimal, digit_char, is_ascii_digit, is_white_space, joined, lemma_decimal_scans_back,
    lemma_parse_decimal_u16, lemma_trim_bounds, parse_u16, parsed_u16, same_text, strip_prefix,
    trim, trimmed, u16_to_decimal, without_prefix, IntErrorKind,
};

verus! {

broadcast use vstd::string::group_string_axioms;

/// How the sidecar was asked to run, from its command line.
#[derive(Debug, PartialEq)]
pub struct SidecarOptions {
    /// The loopback port to listen on; 0 lets the system choose.
    pub port: u16,
    /// Whether to stop when standard input ends or says `SHUTDOWN`.
    pub shutdown_on_stdin: bool,
    /// The directory of the mind whose lenses the sidecar writes.
    pub mind_root: String,
}

/// A command line that the sidecar refuses: the value given for `--port` is no port.
#[derive(Debug, PartialEq)]
pub struct PortArgumentError {
    pub value: String,
    pub kind: IntErrorKind,
}

/// The options that the arguments from position `i` on give, starting from
/// `port`, `shutdown` and `root`: `--port` and `--mind-root` take the next
/// argument as their value (and are ignored when none follows),
/// `--shutdown-on-stdin` stands alone, and anything else is skipped.
pub open spec fn options_from(
    args: Seq<Seq<char>>,
    i: int,
    port: u16,
    shutdown: bool,
    root: Seq<char>,
) -> Result<(u16, bool, Seq<char>), (Seq<char>, IntErrorKind)>
    decreases args.len() - i,
{
    if i < 0 || i >= args.len() {
        Ok((port, shutdown, root))
    } else if args[i] == "--port"@ {
        if i + 1 < args.len() {
            match parsed_u16(args[i + 1]) {
                Ok(p) => options_from(args, i + 2, p, shutdown, root),
                Err(kind) => Err((args[i + 1], kind)),
            }
        } else {
            Ok((port, shutdown, root))
        }
    } else if args[i] == "--shutdown-on-stdin"@ {
        options_from(args, i + 1, port, true, root)
    } else if args[i] == "--mind-root"@ {
        if i + 1 < args.len() {
            options_from(args, i + 2, port, shutdown, args[i + 1])
        } else {
            Ok((port, shutdown, root))
        }
    } else {
        options_from(args, i + 1, port, shutdown, root)
    }
}

/// The options that a whole command line gives: by default port 0, no
/// shutdown on standard input, and the current directory as mind root.
pub open spec fn sidecar_options(args: Seq<Seq<char>>) -> Result<(u16, bool, Seq<char>), (Seq<char>, IntErrorKind)> {
    options_from(args, 0, 0, false, "."@)
}

/// Reads the sidecar's command line (the arguments after the program name).
pub fn parse_options(args: &Vec<String>) -> (r: Result<SidecarOptions, PortArgumentError>)
    ensures
        r matches Ok(o) ==> sidecar_options(args@.map_values(|a: String| a@)) == Ok::<
            (u16, bool, Seq<char>),
            (Seq<char>, IntErrorKind),
        >((o.port, o.shutdown_on_stdin, o.mind_root@)),
        r matches Err(e) ==> sidecar_options(args@.map_values(|a: String| a@)) == Err::<
            (u16, bool, Seq<char>),
            (Seq<char>, IntErrorKind),
        >((e.value@, e.kind)),
{
    let ghost texts = args@.map_values(|a: String| a@);
    let mut port: u16 = 0;
    let mut shutdown_on_stdin = false;
    let mut mind_root = ".".to_owned();
    let mut i: usize = 0;
    let n = args.len();
    while i < n
        invariant
            n == args@.len(),
            texts == args@.map_values(|a: String| a@),
            i <= n,
            sidecar_options(texts) == options_from(texts, i as int, port, shutdown_on_stdin, mind_root@),
        decreases n - i,
    {
        let arg = args[i].as_str();
        assert(texts[i as int] == arg@);
        if same_text(arg, "--port") {
            if i + 1 < n {
                let value = args[i + 1].as_str();
                assert(texts[i + 1] == value@);
                match parse_u16(value) {
                    Ok(p) => {
                        port = p;
                        i = i + 2;
                    },
                    Err(kind) => {
                        return Err(PortArgumentError { value: value.to_owned(), kind });
                    },
                }
            } else {
                i = n;
            }
        } else if same_text(arg, "--shutdown-on-stdin") {
            shutdown_on_stdin = true;
            i = i + 1;
        } else if same_text(arg, "--mind-root") {
            if i + 1 < n {
                let value = args[i + 1].as_str();
                assert(texts[i + 1] == value@);
                mind_root = value.to_owned();
                i = i + 2;
            } else {
                i = n;
            }
        } else {
            i = i + 1;
        }
    }
    Ok(SidecarOptions { port, shutdown_on_stdin, mind_root })
}

/// Why the sidecar could not read the token line.
#[derive(Debug, PartialEq)]
pub enum AuthLineError {
    /// Standard input ended before a line came.
    UnexpectedEof,
    /// The line, trimmed, does not start with `AUTH `.
    Malformed(String),
}

/// What the sidecar makes of the first line on its standard input: `bytes_read`
/// bytes were read, and `line` is what they say. The token is what follows
/// `AUTH ` in the trimmed line, trimmed in turn.
pub open spec fn auth_token_of(line: Seq<char>, bytes_read: nat) -> Result<Seq<char>, Option<Seq<char>>> {
    if bytes_read == 0 {
        Err(None)
    } else {
        match without_prefix(trimmed(line), "AUTH "@) {
            Some(rest) => Ok(trimmed(rest)),
            None => Err(Some(trimmed(line))),
        }
    }
}

/// Reads the token from the first line on the sidecar's standard input.
pub fn auth_token_from_line(line: &str, bytes_read: usize) -> (r: Result<String, AuthLineError>)
    ensures
        r matches Ok(t) ==> auth_token_of(line@, bytes_read as nat) == Ok::<Seq<char>, Option<Seq<char>>>(t@),
        r matches Err(AuthLineError::UnexpectedEof) ==> auth_token_of(line@, bytes_read as nat)
            == Err::<Seq<char>, Option<Seq<char>>>(None),
        r matches Err(AuthLineError::Malformed(l)) ==> auth_token_of(line@, bytes_read as nat)
            == Err::<Seq<char>, Option<Seq<char>>>(Some(l@)),
{
    if bytes_read == 0 {
        return Err(AuthLineError::UnexpectedEof);
    }
    let trimmed_line = trim(line);
    match strip_prefix(trimmed_line, "AUTH ") {
        Some(rest) => Ok(trim(rest).to_owned()),
        None => Err(AuthLineError::Malformed(trimmed_line.to_owned())),
    }
}

/// Taking `--mind-root` and its value does not end the reading: the
/// arguments that follow are read as if the mind root had been given from
/// the start.
pub proof fn mind_root_does_not_end_the_options(
    args: Seq<Seq<char>>,
    i: int,
    port: u16,
    shutdown: bool,
    root: Seq<char>,
)
    requires
        0 <= i,
        i + 1 < args.len(),
        args[i] == "--mind-root"@,
    ensures
        options_from(args, i, port, shutdown, root) == options_from(args, i + 2, port, shutdown, args[i + 1]),
{
    reveal_strlit("--mind-root");
    reveal_strlit("--port");
    reveal_strlit("--shutdown-on-stdin");
    assert("--port"@.len() != "--mind-root"@.len());
    assert("--shutdown-on-stdin"@.len() != "--mind-root"@.len());
}

/// A port given after the mind root is still taken: `--mind-root <root>
/// --port <p>` gives port `p` and mind root `root`, without shutdown on
/// standard input; and so does the other order.
pub proof fn options_in_either_order(root: Seq<char>, port: u16)
    ensures
        sidecar_options(seq!["--mind-root"@, root, "--port"@, decimal(port as nat)]) == Ok::<
            (u16, bool, Seq<char>),
            (Seq<char>, IntErrorKind),
        >((port, false, root)),
        sidecar_options(seq!["--port"@, decimal(port as nat), "--mind-root"@, root]) == Ok::<
            (u16, bool, Seq<char>),
            (Seq<char>, IntErrorKind),
        >((port, false, root)),
{
    reveal_strlit("--mind-root");
    reveal_strlit("--port");
    reveal_strlit("--shutdown-on-stdin");
    assert("--port"@.len() != "--mind-root"@.len());
    assert("--shutdown-on-stdin"@.len() != "--mind-root"@.len());
    lemma_parse_decimal_u16(port);
    let a = seq!["--mind-root"@, root, "--port"@, decimal(port as nat)];
    assert(options_from(a, 4, port, false, root) == Ok::<(u16, bool, Seq<char>), (Seq<char>, IntErrorKind)>((port, false, root)));
    assert(options_from(a, 2, 0, false, root) == options_from(a, 4, port, false, root));
    assert(options_from(a, 0, 0, false, "."@) == options_from(a, 2, 0, false, root));
    let b = seq!["--port"@, decimal(port as nat), "--mind-root"@, root];
    assert(options_from(b, 4, port, false, root) == Ok::<(u16, bool, Seq<char>), (Seq<char>, IntErrorKind)>((port, false, root)));
    assert(options_from(b, 2, port, false, "."@) == options_from(b, 4, port, false, root));
    assert(options_from(b, 0, 0, false, "."@) == options_from(b, 2, port, false, "."@));
}

/// The line with which the host hands the sidecar its token.
pub open spec fn auth_line_text(token: Seq<char>) -> Seq<char> {
    "AUTH "@ + token + "\n"@
}

/// Writes the line with which the host hands the sidecar its token.
pub fn auth_line(token: &str) -> (line: String)
    ensures
        line@ == auth_line_text(token@),
{
    let mut line = joined("AUTH ", token);
    line.append("\n");
    line
}

/// The line (without its end) with which the sidecar tells the host it
/// listens on `port`.
pub open spec fn ready_line_text(port: u16) -> Seq<char> {
    "READY "@ + decimal(port as nat)
}

/// Writes the line with which the sidecar tells the host its port.
pub fn ready_line(port: u16) -> (line: String)
    ensures
        line@ == ready_line_text(port),
{
    joined("READY ", u16_to_decimal(port).as_str())
}

/// What the host makes of the sidecar's first output line.
#[derive(Debug, PartialEq)]
pub enum Readiness {
    /// The sidecar listens on this port.
    Ready(u16),
    /// The trimmed line does not start with `READY `.
    NotReady,
    /// What follows `READY ` is no port.
    BadPort(IntErrorKind),
}

/// The readiness that a line reports: `READY ` and a port, once trimmed.
pub open spec fn readiness_of(line: Seq<char>) -> Readiness {
    match without_prefix(trimmed(line), "READY "@) {
        None => Readiness::NotReady,
        Some(rest) => match parsed_u16(rest) {
            Ok(p) => Readiness::Ready(p),
            Err(kind) => Readiness::BadPort(kind),
        },
    }
}

/// Reads the sidecar's readiness line.
pub fn readiness(line: &str) -> (r: Readiness)
    ensures
        r == readiness_of(line@),
{
    match strip_prefix(trim(line), "READY ") {
        None => Readiness::NotReady,
        Some(rest) => match parse_u16(rest) {
            Ok(p) => Readiness::Ready(p),
            Err(kind) => Readiness::BadPort(kind),
        },
    }
}

/// The line with which the host asks the sidecar to stop.
pub fn shutdown_line() -> (line: &'static str)
    ensures
        line@ == "SHUTDOWN\n"@,
{
    "SHUTDOWN\n"
}

/// Whether a line read from standard input (of `bytes_read` bytes) asks the
/// sidecar to stop: the input ended, or the trimmed line is `SHUTDOWN`.
pub open spec fn asks_to_stop(line: Seq<char>, bytes_read: nat) -> bool {
    bytes_read == 0 || trimmed(line) == "SHUTDOWN"@
}

/// Decides whether a line read from standard input asks the sidecar to stop.
pub fn is_shutdown_request(line: &str, bytes_read: usize) -> (stop: bool)
    ensures
        stop == asks_to_stop(line@, bytes_read as nat),
{
    bytes_read == 0 || same_text(trim(line), "SHUTDOWN")
}

/// The address at which the host reaches a sidecar that listens on `port`.
pub open spec fn endpoint_text(port: u16) -> Seq<char> {
    "http://127.0.0.1:"@ + decimal(port as nat)
}

/// Writes the address at which the host reaches a sidecar on `port`.
pub fn endpoint(port: u16) -> (url: String)
    ensures
        url@ == endpoint_text(port),
{
    joined("http://127.0.0.1:", u16_to_decimal(port).as_str())
}

/// The host reads back the port that the sidecar announces: the readiness
/// line, with its line end, reports exactly that port.
pub proof fn ready_line_reads_back(port: u16)
    ensures
        readiness_of(ready_line_text(port) + "\n"@) == Readiness::Ready(port),
{
    reveal_strlit("READY ");
    reveal_strlit("\n");
    let digits = decimal(port as nat);
    lemma_decimal_scans_back(port as nat);
    lemma_parse_decimal_u16(port);
    let line = ready_line_text(port) + "\n"@;
    let n = line.len() as int;
    assert(line[n - 1] == '\n');
    assert(line[n - 2] == digits[digits.len() - 1]);
    assert(is_ascii_digit(digits[digits.len() - 1])) by {
        lemma_last_digit(port as nat);
    }
    lemma_trim_bounds(line, 0, n - 1);
    let t = line.subrange(0, n - 1);
    assert(t =~= "READY "@ + digits);
    assert("READY "@.is_prefix_of(t));
    assert(t.subrange(6, t.len() as int) =~= digits);
}

proof fn lemma_last_digit(n: nat)
    requires
        n <= u16::MAX,
    ensures
        is_ascii_digit(decimal(n)[decimal(n).len() - 1]),
    decreases n,
{
    lemma_decimal_scans_back(n);
    if n >= 10 {
        assert(decimal(n).last() == digit_char(n % 10));
    }
}

/// The sidecar reads back the token that the host hands it: for a token
/// without white space at either end, the token line yields exactly the token.
pub proof fn auth_line_reads_back(token: Seq<char>, bytes_read: nat)
    requires
        token.len() > 0,
        !is_white_space(token[0]),
        !is_white_space(token.last()),
        bytes_read > 0,
    ensures
        auth_token_of(auth_line_text(token), bytes_read) == Ok::<Seq<char>, Option<Seq<char>>>(token),
{
    reveal_strlit("AUTH ");
    reveal_strlit("\n");
    let line = auth_line_text(token);
    let n = line.len() as int;
    assert(line[n - 1] == '\n');
    assert(line[n - 2] == token.last());
    lemma_trim_bounds(line, 0, n - 1);
    let t = line.subrange(0, n - 1);
    assert(t =~= "AUTH "@ + token);
    assert("AUTH "@.is_prefix_of(t));
    assert(t.subrange(5, t.len() as int) =~= token);
    lemma_trim_bounds(token, 0, token.len() as int);
    assert(token.subrange(0, token.len() as int) =~= token);
}

/// The sidecar takes the host's shutdown line as a request to stop.
pub proof fn shutdown_line_stops(bytes_read: nat)
    ensures
        asks_to_stop("SHUTDOWN\n"@, bytes_read),
{
    reveal_strlit("SHUTDOWN\n");
    reveal_strlit("SHUTDOWN");
    let line = "SHUTDOWN\n"@;
    lemma_trim_bounds(line, 0, 8);
    assert(line.subrange(0, 8) =~= "SHUTDOWN"@);
}

/// The address that the sidecar listens on: loopback only, at `port`.
pub open spec fn bind_address_text(port: u16) -> Seq<char> {
    "127.0.0.1:"@ + decimal(port as nat)
}

/// Writes the loopback address that the sidecar listens on.
pub fn bind_address(port: u16) -> (addr: String)
    ensures
        addr@ == bind_address_text(port),
{
    joined("127.0.0.1:", u16_to_decimal(port).as_str())
}

/// The lowercase hexadecimal digit for `d < 16`.
pub open spec fn hex_char(d: nat) -> char {
    if d < 10 {
        digit_char(d)
    } else {
        (d - 10 + 'a' as nat) as char
    }
}

/// The lowercase hexadecimal text of some bytes, two digits per byte, most
/// significant digit first.
pub open spec fn hex_text(bytes: Seq<u8>) -> Seq<char>
    decreases bytes.len(),
{
    if bytes.len() == 0 {
        Seq::empty()
    } else {
        hex_text(bytes.drop_last()) + seq![
            hex_char((bytes.last() / 16) as nat),
            hex_char((bytes.last() % 16) as nat),
        ]
    }
}

fn hex_digit(d: u8) -> (t: &'static str)
    requires
        d < 16,
    ensures
        t@ == seq![hex_char(d as nat)],
{
    proof {
        reveal_strlit("0");
        reveal_strlit("1");
        reveal_strlit("2");
        reveal_strlit("3");
        reveal_strlit("4");
        reveal_strlit("5");
        reveal_strlit("6");
        reveal_strlit("7");
        reveal_strlit("8");
        reveal_strlit("9");
        reveal_strlit("a");
        reveal_strlit("b");
        reveal_strlit("c");
        reveal_strlit("d");
        reveal_strlit("e");
        reveal_strlit("f");
    }
    match d {
        0 => "0",
        1 => "1",
        2 => "2",
        3 => "3",
        4 => "4",
        5 => "5",
        6 => "6",
        7 => "7",
        8 => "8",
        9 => "9",
        10 => "a",
        11 => "b",
        12 => "c",
        13 => "d",
        14 => "e",
        _ => "f",
    }
}

/// Writes a token for a sidecar from random bytes: their lowercase
/// hexadecimal text.
pub fn auth_token_from_bytes(bytes: &[u8]) -> (token: String)
    ensures
        token@ == hex_text(bytes@),
{
    let mut token = String::new();
    let mut i: usize = 0;
    while i < bytes.len()
        invariant
            i <= bytes@.len(),
            token@ == hex_text(bytes@.take(i as int)),
        decreases bytes@.len() - i,
    {
        let b = bytes[i];
        token.append(hex_digit(b / 16));
        token.append(hex_digit(b % 16));
        assert(bytes@.take(i + 1).drop_last() =~= bytes@.take(i as int));
        assert(token@ =~= hex_text(bytes@.take(i + 1)));
        i = i + 1;
    }
    assert(bytes@.take(i as int) =~= bytes@);
    token
}

proof fn lemma_hex_text_has_no_white_space(bytes: Seq<u8>)
    ensures
        hex_text(bytes).len() == 2 * bytes.len(),
        forall|i: int| 0 <= i < hex_text(bytes).len() ==> !is_white_space(#[trigger] hex_text(bytes)[i]),
    decreases bytes.len(),
{
    if bytes.len() > 0 {
        lemma_hex_text_has_no_white_space(bytes.drop_last());
        let hi = (bytes.last() / 16) as nat;
        let lo = (bytes.last() % 16) as nat;
        assert(!is_white_space(hex_char(hi)));
        assert(!is_white_space(hex_char(lo)));
        let t = hex_text(bytes);
        let r = hex_text(bytes.drop_last());
        assert forall|i: int| 0 <= i < t.len() implies !is_white_space(#[trigger] t[i]) by {
            if i < r.len() {
                assert(t[i] == r[i]);
            }
        }
    }
}

/// A token made from at least one random byte reaches the sidecar intact:
/// its token line yields exactly the token.
pub proof fn generated_token_reads_back(bytes: Seq<u8>, bytes_read: nat)
    requires
        bytes.len() > 0,
        bytes_read > 0,
    ensures
        auth_token_of(auth_line_text(hex_text(bytes)), bytes_read) == Ok::<Seq<char>, Option<Seq<char>>>(
            hex_text(bytes),
        ),
{
    lemma_hex_text_has_no_white_space(bytes);
    let t = hex_text(bytes);
    assert(!is_white_space(t[t.len() - 1]));
    auth_line_reads_back(t, bytes_read);
}

} // verus!
