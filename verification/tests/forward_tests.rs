use port_proxy::forward::{decimal_string, parse_port, validate_forward, ForwardError};

#[test]
fn forward_reads_two_ports() {
    assert_eq!(validate_forward("8080:80"), Ok((8080, 80)));
    assert_eq!(validate_forward("0:65535"), Ok((0, 65535)));
}

#[test]
fn forward_ignores_fields_after_the_second() {
    assert_eq!(validate_forward("1:2:3"), Ok((1, 2)));
    assert_eq!(validate_forward("1:2:"), Ok((1, 2)));
}

#[test]
fn forward_without_colon_misses_remote() {
    assert_eq!(validate_forward("8080"), Err(ForwardError::MissingRemote));
    assert_eq!(validate_forward(""), Err(ForwardError::MissingRemote));
    assert_eq!(validate_forward("abc"), Err(ForwardError::MissingRemote));
}

#[test]
fn forward_reports_invalid_local_first() {
    assert_eq!(
        validate_forward("abc:x"),
        Err(ForwardError::InvalidLocal("abc".to_string()))
    );
    assert_eq!(validate_forward(":80"), Err(ForwardError::InvalidLocal(String::new())));
    assert_eq!(
        validate_forward("65536:80"),
        Err(ForwardError::InvalidLocal("65536".to_string()))
    );
}

#[test]
fn forward_reports_invalid_remote() {
    assert_eq!(
        validate_forward("80:-1"),
        Err(ForwardError::InvalidRemote("-1".to_string()))
    );
    assert_eq!(validate_forward("80:"), Err(ForwardError::InvalidRemote(String::new())));
    assert_eq!(
        validate_forward("80:端口"),
        Err(ForwardError::InvalidRemote("端口".to_string()))
    );
}

#[test]
fn forward_error_texts() {
    assert_eq!(ForwardError::MissingRemote.message(), "remote port is required");
    assert_eq!(
        ForwardError::InvalidLocal("x".to_string()).message(),
        "invalid local port: x"
    );
    assert_eq!(
        ForwardError::InvalidRemote("y".to_string()).message(),
        "invalid remote port: y"
    );
}

#[test]
fn parse_port_agrees_with_std() {
    let samples = [
        "", "+", "-", "+5", "++5", "-0", "0", "007", "65535", "65536", "99999999999", " 1", "1 ", "1a", "٣",
    ];
    for s in samples {
        assert_eq!(parse_port(s), s.parse::<u16>().ok(), "{s:?}");
    }
}

#[test]
fn decimal_text_of_ports() {
    assert_eq!(decimal_string(0), "0");
    assert_eq!(decimal_string(7), "7");
    assert_eq!(decimal_string(10), "10");
    assert_eq!(decimal_string(8080), "8080");
    assert_eq!(decimal_string(65535), "65535");
}

#[test]
fn written_forward_is_read_back() {
    for (l, r) in [(0u16, 0u16), (1, 65535), (8080, 80), (12345, 54321)] {
        let text = format!("{}:{}", decimal_string(l), decimal_string(r));
        assert_eq!(validate_forward(&text), Ok((l, r)));
    }
}
