use chamber_agent::handshake::{
    auth_line, auth_token_from_line, endpoint, is_shutdown_request, parse_options, readiness,
    ready_line, shutdown_line, AuthLineError, PortArgumentError, Readiness, SidecarOptions,
};
use chamber_agent::text::IntErrorKind;

fn args(list: &[&str]) -> Vec<String> {
    list.iter().map(|a| a.to_string()).collect()
}

#[test]
fn options_default() {
    assert_eq!(
        parse_options(&args(&[])),
        Ok(SidecarOptions { port: 0, shutdown_on_stdin: false, mind_root: ".".to_owned() })
    );
}

#[test]
fn options_all_flags() {
    assert_eq!(
        parse_options(&args(&["--port", "5051", "--shutdown-on-stdin", "--mind-root", "/minds/a", "--verbose"])),
        Ok(SidecarOptions { port: 5051, shutdown_on_stdin: true, mind_root: "/minds/a".to_owned() })
    );
}

#[test]
fn options_value_missing_at_end() {
    assert_eq!(
        parse_options(&args(&["--mind-root", "x", "--port"])),
        Ok(SidecarOptions { port: 0, shutdown_on_stdin: false, mind_root: "x".to_owned() })
    );
}

#[test]
fn options_flag_taken_as_value() {
    // The value of `--mind-root` is the next argument, whatever it says.
    assert_eq!(
        parse_options(&args(&["--mind-root", "--shutdown-on-stdin"])),
        Ok(SidecarOptions { port: 0, shutdown_on_stdin: false, mind_root: "--shutdown-on-stdin".to_owned() })
    );
}

#[test]
fn options_bad_port() {
    assert_eq!(
        parse_options(&args(&["--port", "70000"])),
        Err(PortArgumentError { value: "70000".to_owned(), kind: IntErrorKind::PosOverflow })
    );
    assert_eq!(
        parse_options(&args(&["--port", "x1"])),
        Err(PortArgumentError { value: "x1".to_owned(), kind: IntErrorKind::InvalidDigit })
    );
    assert_eq!(
        parse_options(&args(&["--port", ""])),
        Err(PortArgumentError { value: "".to_owned(), kind: IntErrorKind::Empty })
    );
}

#[test]
fn auth_token_lines() {
    assert_eq!(auth_token_from_line("AUTH abc123\n", 12), Ok("abc123".to_owned()));
    assert_eq!(auth_token_from_line("  AUTH   tok  \r\n", 16), Ok("tok".to_owned()));
    assert_eq!(auth_token_from_line("", 0), Err(AuthLineError::UnexpectedEof));
    assert_eq!(
        auth_token_from_line("HELLO there\n", 12),
        Err(AuthLineError::Malformed("HELLO there".to_owned()))
    );
    assert_eq!(
        auth_token_from_line("AUTH \n", 6),
        Err(AuthLineError::Malformed("AUTH".to_owned()))
    );
}

#[test]
fn auth_line_round_trip() {
    let line = auth_line("0123abcdef");
    assert_eq!(line, "AUTH 0123abcdef\n");
    assert_eq!(auth_token_from_line(&line, line.len()), Ok("0123abcdef".to_owned()));
}

#[test]
fn ready_line_round_trip() {
    for port in [0u16, 7, 10, 443, 5051, 65535] {
        let line = format!("{}\n", ready_line(port));
        assert_eq!(line, format!("READY {port}\n"));
        assert_eq!(readiness(&line), Readiness::Ready(port));
    }
}

#[test]
fn readiness_failures() {
    assert_eq!(readiness("hello\n"), Readiness::NotReady);
    assert_eq!(readiness("READY\n"), Readiness::NotReady);
    assert_eq!(readiness("READY x\n"), Readiness::BadPort(IntErrorKind::InvalidDigit));
    assert_eq!(readiness("READY 65536"), Readiness::BadPort(IntErrorKind::PosOverflow));
    assert_eq!(readiness(" READY +80 "), Readiness::Ready(80));
    assert_eq!(readiness("READY -80"), Readiness::BadPort(IntErrorKind::InvalidDigit));
}

#[test]
fn shutdown_requests() {
    assert!(is_shutdown_request(shutdown_line(), shutdown_line().len()));
    assert!(is_shutdown_request("", 0));
    assert!(is_shutdown_request("  SHUTDOWN \r\n", 13));
    assert!(!is_shutdown_request("shutdown\n", 9));
    assert!(!is_shutdown_request("SHUTDOWN NOW\n", 13));
}

#[test]
fn endpoint_address() {
    assert_eq!(endpoint(5051), "http://127.0.0.1:5051");
    assert_eq!(endpoint(0), "http://127.0.0.1:0");
}

#[test]
fn bind_address_is_loopback() {
    assert_eq!(chamber_agent::handshake::bind_address(0), "127.0.0.1:0");
    assert_eq!(chamber_agent::handshake::bind_address(5051), "127.0.0.1:5051");
}

#[test]
fn generated_tokens_are_hex_and_read_back() {
    let token = chamber_agent::handshake::auth_token_from_bytes(&[0x00, 0x9f, 0xa0, 0xff]);
    assert_eq!(token, "009fa0ff");
    let line = auth_line(&token);
    assert_eq!(auth_token_from_line(&line, line.len()), Ok(token));
    assert_eq!(chamber_agent::handshake::auth_token_from_bytes(&[]), "");
}
