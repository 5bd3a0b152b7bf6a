use gaveloc::error::Error;
use gaveloc::otp::{
    not_found_response, otp_from_request_line, otp_response, OtpListenerState, OTP_PORT, OTP_REPLY,
};

#[test]
fn test_otp_from_request_line() {
    assert_eq!(otp_from_request_line("GET /ffxivlauncher/123456 HTTP/1.1"), Some("123456".to_string()));
    assert_eq!(otp_from_request_line("GET /ffxivlauncher/123456?x=1 HTTP/1.1"), Some("123456".to_string()));
    assert_eq!(otp_from_request_line("GET /ffxivlauncher/abc"), Some("abc".to_string()));
    for line in [
        "",
        "GET",
        "GET /",
        "GET /ffxivlauncher HTTP/1.1",
        "GET /ffxivlauncher/ HTTP/1.1",
        "GET /ffxivlauncher/1/2 HTTP/1.1",
        "GET ffxivlauncher/123456 HTTP/1.1",
        "GET /other/123456 HTTP/1.1",
        "GET /FFXIVLAUNCHER/123456 HTTP/1.1",
        "POST /ffxivlauncher/123456 HTTP/1.1",
        "get /ffxivlauncher/123456 HTTP/1.1",
        " GET /ffxivlauncher/123456 HTTP/1.1",
        "GET  /ffxivlauncher/123456 HTTP/1.1",
    ] {
        assert_eq!(otp_from_request_line(line), None, "for {:?}", line);
    }
}

#[test]
fn test_otp_listener_lifecycle() {
    let mut listener = OtpListenerState::new();
    assert!(!listener.is_running());

    // Start listener
    listener.start().unwrap();
    assert!(listener.is_running());

    // Stop listener
    listener.stop();
    assert!(!listener.is_running());
    // stopping again changes nothing
    listener.stop();
    assert!(!listener.is_running());
}

#[test]
fn test_cannot_start_twice() {
    let mut listener = OtpListenerState::new();
    listener.start().unwrap();

    // Second start should fail
    let result = listener.start();
    assert!(result.is_err());
    match result {
        Err(Error::Other(m)) => assert_eq!(m, "OTP listener already running"),
        other => panic!("expected Other, got {:?}", other),
    }
    assert!(listener.is_running());
    listener.stop();
    assert!(listener.start().is_ok());
}

#[test]
fn test_otp_reception() {
    let mut listener = OtpListenerState::new();
    assert_eq!(listener.on_request("GET /ffxivlauncher/123456 HTTP/1.1"), None);
    listener.start().unwrap();
    assert_eq!(listener.on_request("GET /favicon.ico HTTP/1.1"), None);
    assert!(listener.is_running());
    assert_eq!(
        listener.on_request("GET /ffxivlauncher/123456 HTTP/1.1"),
        Some("123456".to_string())
    );
    // Listener should have stopped
    assert!(!listener.is_running());
    assert_eq!(listener.on_request("GET /ffxivlauncher/654321 HTTP/1.1"), None);
}

#[test]
fn test_otp_responses() {
    assert_eq!(OTP_PORT, 4646);
    assert_eq!(
        otp_response(),
        format!(
            "HTTP/1.1 200 OK\r\nContent-Type: text/plain; charset=utf-8\r\nContent-Length: {}\r\nConnection: close\r\n\r\n{}",
            OTP_REPLY.len(),
            OTP_REPLY
        )
    );
    assert!(not_found_response().starts_with("HTTP/1.1 404 "));
}
