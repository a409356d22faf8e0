use qft_send::port::{free_port_command, needs_port_advisory, parse_free_port, NegotiationError};

#[test]
fn reply_with_trailing_text_gives_port() {
    assert_eq!(parse_free_port(b"54321 done\n"), Ok(54321));
}

#[test]
fn reply_without_number_is_parse_error() {
    assert_eq!(parse_free_port(b"not-a-port"), Err(NegotiationError::Parse));
}

#[test]
fn reply_above_sixteen_bits_is_parse_error() {
    assert_eq!(parse_free_port(b"70000"), Err(NegotiationError::Parse));
}

#[test]
fn empty_reply_is_parse_error() {
    assert_eq!(parse_free_port(b""), Err(NegotiationError::Parse));
}

#[test]
fn largest_port_parses_and_next_does_not() {
    assert_eq!(parse_free_port(b"65535"), Ok(65535));
    assert_eq!(parse_free_port(b"65536\n"), Err(NegotiationError::Parse));
}

#[test]
fn leading_zeros_and_glued_text() {
    assert_eq!(parse_free_port(b"00080x"), Ok(80));
    assert_eq!(parse_free_port(b"0"), Ok(0));
}

#[test]
fn very_long_digit_run_is_parse_error() {
    assert_eq!(
        parse_free_port(b"123456789012345678901234567890"),
        Err(NegotiationError::Parse)
    );
}

#[test]
fn leading_space_is_parse_error() {
    assert_eq!(parse_free_port(b" 8080"), Err(NegotiationError::Parse));
}

#[test]
fn command_line_has_range_and_quiet_flag() {
    assert_eq!(
        free_port_command(49152, 65535),
        "qft get-free-port --start-port 49152 --end-port 65535 -q"
    );
    assert_eq!(
        free_port_command(0, 9),
        "qft get-free-port --start-port 0 --end-port 9 -q"
    );
}

#[test]
fn low_start_port_only_advises() {
    assert!(needs_port_advisory(100));
    assert_eq!(
        free_port_command(100, 200),
        "qft get-free-port --start-port 100 --end-port 200 -q"
    );
    assert_eq!(parse_free_port(b"150\n"), Ok(150));
}

#[test]
fn dynamic_range_start_needs_no_advisory() {
    assert!(!needs_port_advisory(49152));
    assert!(needs_port_advisory(49151));
}
