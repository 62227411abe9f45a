use devproxy::{
    access_line, decimal_text, screen, startup_lines, status_text, status_text_with,
    zero_padded_text, Action, Dispatch, Event, HttpVersion, Incoming, LocalTime, RequestUri,
    Screening, ServeMode, SessionSlot, Stage,
};

fn at(year: u16, month: u16, day: u16, hour: u16, minute: u16, second: u16) -> LocalTime {
    LocalTime { year, month, day, hour, minute, second }
}

fn origin_form(path: &str) -> RequestUri {
    RequestUri { scheme: None, authority: None, path_and_query: Some(path.to_string()) }
}

fn line_of(a: Action) -> (bool, String) {
    match a {
        Action::Respond { log_line } => (true, log_line),
        Action::Fail { log_line } => (false, log_line),
        Action::RewriteHeaders => panic!("expected a line, got a rewrite"),
        Action::Ignore => panic!("expected a line, got nothing"),
    }
}

#[test]
fn absolute_uri_forwards_path_and_query() {
    let u = RequestUri {
        scheme: Some("http".to_string()),
        authority: Some("localhost:8787".to_string()),
        path_and_query: Some("/foo?x=1".to_string()),
    };
    assert_eq!(u.forward_path(), "/foo?x=1");
}

#[test]
fn origin_form_uri_forwards_unchanged() {
    assert_eq!(origin_form("/a/b?c=d&e").forward_path(), "/a/b?c=d&e");
}

#[test]
fn uri_without_path_forwards_empty() {
    let u = RequestUri {
        scheme: Some("http".to_string()),
        authority: Some("localhost:8787".to_string()),
        path_and_query: None,
    };
    assert_eq!(u.forward_path(), "");
}

#[test]
fn get_status_is_forwarded_and_logged() {
    let slot = SessionSlot::new("abc".to_string());
    let (mut d, call) = Dispatch::begin(
        "localhost:8787",
        "GET",
        &origin_form("/status"),
        HttpVersion::Http11,
        &at(2020, 4, 20, 15, 25, 54),
        &slot,
    );
    assert_eq!(call.path, "/status");
    assert_eq!(call.session_id, "abc");
    assert_eq!(call.upstream_uri("preview.example"), "https://preview.example/status");
    assert_eq!(d.stage, Stage::Forwarding);
    assert!(matches!(d.step(Event::Forwarded(Ok(200))), Action::RewriteHeaders));
    assert_eq!(d.stage, Stage::Rewriting);
    let (served, line) = line_of(d.step(Event::Rewritten(Ok(()))));
    assert!(served);
    assert_eq!(line, "[2020-04-20 15:25:54] GET localhost:8787/status HTTP/1.1 200 OK");
    assert!(line.contains("GET") && line.contains("localhost:8787") && line.contains("/status"));
    assert!(line.contains("200"));
    assert_eq!(d.stage, Stage::Responded);
}

#[test]
fn forward_failure_is_one_failed_line() {
    let slot = SessionSlot::new("abc".to_string());
    let (mut d, _) = Dispatch::begin(
        "localhost:8787",
        "POST",
        &origin_form("/submit"),
        HttpVersion::H2,
        &at(2021, 1, 2, 3, 4, 5),
        &slot,
    );
    let (served, line) = line_of(d.step(Event::Forwarded(Err("connection refused".to_string()))));
    assert!(!served);
    assert_eq!(
        line,
        "[2021-01-02 03:04:05] POST localhost:8787/submit HTTP/2.0 failed: connection refused"
    );
    assert_eq!(d.stage, Stage::Failed);
    assert!(matches!(d.step(Event::Forwarded(Ok(200))), Action::Ignore));
    assert!(matches!(d.step(Event::Rewritten(Ok(()))), Action::Ignore));
    assert_eq!(d.stage, Stage::Failed);

    let (mut next, call) = Dispatch::begin(
        "localhost:8787",
        "GET",
        &origin_form("/"),
        HttpVersion::Http11,
        &at(2021, 1, 2, 3, 4, 6),
        &slot,
    );
    assert_eq!(call.path, "/");
    assert!(matches!(next.step(Event::Forwarded(Ok(404))), Action::RewriteHeaders));
    let (served, line) = line_of(next.step(Event::Rewritten(Ok(()))));
    assert!(served);
    assert_eq!(line, "[2021-01-02 03:04:06] GET localhost:8787/ HTTP/1.1 404 Not Found");
}

#[test]
fn rewrite_failure_fails_the_request() {
    let slot = SessionSlot::new("id".to_string());
    let (mut d, _) = Dispatch::begin(
        "example.com",
        "GET",
        &origin_form("/x"),
        HttpVersion::Http10,
        &at(1999, 12, 31, 23, 59, 59),
        &slot,
    );
    assert!(matches!(d.step(Event::Forwarded(Ok(302))), Action::RewriteHeaders));
    assert_eq!(d.status, 302);
    let (served, line) = line_of(d.step(Event::Rewritten(Err("bad header".to_string()))));
    assert!(!served);
    assert_eq!(line, "[1999-12-31 23:59:59] GET example.com/x HTTP/1.0 failed: bad header");
    assert!(matches!(d.step(Event::Rewritten(Ok(()))), Action::Ignore));
}

#[test]
fn early_rewrite_report_is_ignored() {
    let slot = SessionSlot::new("id".to_string());
    let (mut d, _) = Dispatch::begin(
        "h",
        "GET",
        &origin_form("/"),
        HttpVersion::Http11,
        &at(2020, 1, 1, 0, 0, 0),
        &slot,
    );
    assert!(matches!(d.step(Event::Rewritten(Ok(()))), Action::Ignore));
    assert_eq!(d.stage, Stage::Forwarding);
}

#[test]
fn session_update_leaves_in_flight_copy() {
    let mut slot = SessionSlot::new("abc".to_string());
    let (_, in_flight) = Dispatch::begin(
        "localhost:8787",
        "GET",
        &origin_form("/"),
        HttpVersion::Http11,
        &at(2020, 4, 20, 15, 25, 54),
        &slot,
    );
    slot.replace("def".to_string());
    assert_eq!(in_flight.session_id, "abc");
    let (_, later) = Dispatch::begin(
        "localhost:8787",
        "GET",
        &origin_form("/"),
        HttpVersion::Http11,
        &at(2020, 4, 20, 15, 25, 55),
        &slot,
    );
    assert_eq!(later.session_id, "def");
    assert_eq!(slot.read(), "def");
}

#[test]
fn failed_handshake_drops_with_hint_and_next_is_served() {
    match screen(&Incoming::HandshakeFailed("unknown ca".to_string())) {
        Screening::Drop { lines } => {
            assert_eq!(lines.len(), 2);
            assert_eq!(lines[0], "Client connection error unknown ca");
            assert_eq!(lines[1], "Make sure to use https and `--insecure` with curl");
        }
        Screening::Serve => panic!("a failed handshake must not be served"),
    }
    assert!(matches!(screen(&Incoming::Ready), Screening::Serve));
}

#[test]
fn failed_accept_is_dropped() {
    match screen(&Incoming::AcceptFailed("too many open files".to_string())) {
        Screening::Drop { lines } => {
            assert_eq!(lines, vec!["Failed to accept client too many open files".to_string()]);
        }
        Screening::Serve => panic!("a failed accept must not be served"),
    }
}

#[test]
fn startup_announces_scheme() {
    assert_eq!(
        startup_lines(ServeMode::Plain, "127.0.0.1:8787"),
        vec!["\u{1f442} Listening on http://127.0.0.1:8787".to_string()]
    );
    let secure = startup_lines(ServeMode::Secure, "127.0.0.1:8787");
    assert_eq!(secure.len(), 2);
    assert_eq!(secure[0], "\u{1f442} Listening on https://127.0.0.1:8787");
    assert!(secure[1].contains("not verified"));
}

#[test]
fn status_text_uses_reason_phrases() {
    assert_eq!(status_text(200), "200 OK");
    assert_eq!(status_text(404), "404 Not Found");
    assert_eq!(status_text(500), "500 Internal Server Error");
    assert_eq!(status_text(599), "599 <unknown status code>");
    assert_eq!(status_text(42), "42 <unknown status code>");
}

#[test]
fn status_text_with_given_reason() {
    assert_eq!(status_text_with(418, Some("I'm a teapot")), "418 I'm a teapot");
    assert_eq!(status_text_with(799, None), "799 <unknown status code>");
}

#[test]
fn decimal_edges() {
    assert_eq!(decimal_text(0), "0");
    assert_eq!(decimal_text(9), "9");
    assert_eq!(decimal_text(10), "10");
    assert_eq!(decimal_text(65535), "65535");
}

#[test]
fn zero_padding() {
    assert_eq!(zero_padded_text(7, 4), "0007");
    assert_eq!(zero_padded_text(0, 2), "00");
    assert_eq!(zero_padded_text(12345, 2), "12345");
    assert_eq!(zero_padded_text(5, 0), "5");
}

#[test]
fn time_stamp_layout() {
    assert_eq!(at(2020, 4, 20, 15, 25, 54).stamp_text(), "2020-04-20 15:25:54");
    assert_eq!(at(7, 1, 1, 0, 0, 0).stamp_text(), "0007-01-01 00:00:00");
}

#[test]
fn version_labels() {
    assert_eq!(HttpVersion::Http09.label(), "HTTP/0.9");
    assert_eq!(HttpVersion::Http10.label(), "HTTP/1.0");
    assert_eq!(HttpVersion::Http11.label(), "HTTP/1.1");
    assert_eq!(HttpVersion::H2.label(), "HTTP/2.0");
    assert_eq!(HttpVersion::H3.label(), "HTTP/3.0");
}

#[test]
fn access_line_layout() {
    assert_eq!(
        access_line("2020-04-20 15:25:54", "GET", "example.com", "/", HttpVersion::Http11, "200 OK"),
        "[2020-04-20 15:25:54] GET example.com/ HTTP/1.1 200 OK"
    );
}
