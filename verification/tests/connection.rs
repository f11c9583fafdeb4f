use tauri_plugin_oauth::connection::{
    classify, handle_connection, ConnectionState, BUFFER_SIZE,
};
use tauri_plugin_oauth::request::{Header, ParsedRequest};

const LOCAL: &str =
    r#"<script>fetch("http://localhost:9999/cb",{headers:{"Full-Url":window.location.href}})</script>"#;
const LOOPBACK: &str =
    r#"<script>fetch("http://127.0.0.1:9999/cb",{headers:{"Full-Url":window.location.href}})</script>"#;

fn header(name: &str, value: &[u8]) -> Header {
    Header { name: name.as_bytes().to_vec(), value: value.to_vec() }
}

fn request(path: Option<&str>, headers: Vec<Header>) -> Option<ParsedRequest> {
    Some(ParsedRequest {
        method: Some(b"GET".to_vec()),
        path: path.map(|p| p.as_bytes().to_vec()),
        headers,
    })
}

fn own_page(script: &str) -> Vec<u8> {
    let body = format!(
        "<html><head>{}</head><body>Please return to the app.</body></html>",
        script
    );
    format!("HTTP/1.1 200 OK\r\nContent-Length: {}\r\n\r\n{}", body.len(), body).into_bytes()
}

fn first_phase(localhost: bool, lacks_header: bool) -> ConnectionState {
    ConnectionState::NeedsScriptRoundTrip { localhost, lacks_header }
}

#[test]
fn buffer_size_is_fixed() {
    assert_eq!(BUFFER_SIZE, 4048);
}

#[test]
fn classify_sees_the_sentinel_before_anything_else() {
    let parsed = request(Some("/"), vec![header("Full-Url", b"http://x")]);
    assert_eq!(classify(&[1, 3, 3, 7], parsed), ConnectionState::ShutdownSentinel);
    assert_eq!(classify(&[1, 3, 3, 7, 1], None), ConnectionState::ShutdownSentinel);
}

#[test]
fn classify_without_a_request_is_malformed() {
    assert_eq!(classify(b"garbage", None), ConnectionState::MalformedRequest);
    assert_eq!(classify(b"", None), ConnectionState::MalformedRequest);
}

#[test]
fn classify_knows_the_exit_path() {
    let parsed = request(Some("/exit"), vec![header("Full-Url", b"http://x")]);
    assert_eq!(classify(b"", parsed), ConnectionState::ShutdownPath);
}

#[test]
fn classify_takes_only_the_exact_exit_path() {
    assert_eq!(classify(b"", request(Some("/exit/"), vec![])), first_phase(false, false));
    assert_eq!(classify(b"", request(Some("/exit?now"), vec![])), first_phase(false, false));
    assert_eq!(classify(b"", request(Some("/Exit"), vec![])), first_phase(false, false));
}

#[test]
fn classify_takes_the_first_full_url() {
    let parsed = request(
        Some("/cb"),
        vec![
            header("Host", b"localhost"),
            header("Full-Url", b"http://first/#a"),
            header("Full-Url", b"http://second/#b"),
        ],
    );
    assert_eq!(
        classify(b"", parsed),
        ConnectionState::FullUrlHeaderPresent { url: "http://first/#a".to_string() }
    );
}

#[test]
fn classify_takes_the_full_url_on_any_path() {
    let parsed = request(Some("/elsewhere"), vec![header("Full-Url", b"http://x/#t")]);
    assert_eq!(
        classify(b"", parsed),
        ConnectionState::FullUrlHeaderPresent { url: "http://x/#t".to_string() }
    );
}

#[test]
fn classify_matches_the_header_name_by_case() {
    let parsed = request(Some("/cb"), vec![header("full-url", b"http://x/#t")]);
    assert_eq!(classify(b"", parsed), first_phase(false, true));
}

#[test]
fn classify_keeps_text_that_is_valid_utf8() {
    let parsed = request(Some("/cb"), vec![header("Full-Url", "http://x/ä#ö".as_bytes())]);
    assert_eq!(
        classify(b"", parsed),
        ConnectionState::FullUrlHeaderPresent { url: "http://x/ä#ö".to_string() }
    );
}

#[test]
fn classify_replaces_bytes_that_are_no_utf8() {
    let parsed = request(Some("/cb"), vec![header("Full-Url", b"http://x/\xff#t")]);
    assert_eq!(
        classify(b"", parsed),
        ConnectionState::FullUrlHeaderPresent { url: "http://x/\u{fffd}#t".to_string() }
    );
}

#[test]
fn classify_reads_the_host() {
    let localhost = request(Some("/"), vec![header("Host", b"localhost")]);
    assert_eq!(classify(b"", localhost), first_phase(true, false));
    let with_port = request(Some("/"), vec![header("Host", b"localhost:3000")]);
    assert_eq!(classify(b"", with_port), first_phase(true, false));
    let address = request(Some("/"), vec![header("Host", b"127.0.0.1:3000")]);
    assert_eq!(classify(b"", address), first_phase(false, false));
    let upper = request(Some("/"), vec![header("Host", b"LOCALHOST")]);
    assert_eq!(classify(b"", upper), first_phase(false, false));
    let short = request(Some("/"), vec![header("Host", b"localhos")]);
    assert_eq!(classify(b"", short), first_phase(false, false));
    let none = request(Some("/"), vec![header("Accept", b"localhost")]);
    assert_eq!(classify(b"", none), first_phase(false, false));
}

#[test]
fn classify_lets_the_last_host_decide() {
    let last_local = request(
        Some("/"),
        vec![header("Host", b"127.0.0.1"), header("Host", b"localhost")],
    );
    assert_eq!(classify(b"", last_local), first_phase(true, false));
    let last_address = request(
        Some("/"),
        vec![header("Host", b"localhost"), header("Host", b"127.0.0.1")],
    );
    assert_eq!(classify(b"", last_address), first_phase(false, false));
}

#[test]
fn classify_marks_the_callback_path_without_header() {
    assert_eq!(classify(b"", request(Some("/cb"), vec![])), first_phase(false, true));
    assert_eq!(classify(b"", request(Some("/cb/"), vec![])), first_phase(false, false));
}

#[test]
fn classify_reads_a_missing_path_as_empty() {
    assert_eq!(classify(b"", request(None, vec![])), first_phase(false, false));
}

#[test]
fn captured_of_each_state() {
    assert_eq!(ConnectionState::ShutdownSentinel.captured(), Some(String::new()));
    assert_eq!(ConnectionState::ShutdownPath.captured(), Some(String::new()));
    assert_eq!(ConnectionState::MalformedRequest.captured(), None);
    assert_eq!(first_phase(true, true).captured(), None);
    assert_eq!(
        ConnectionState::FullUrlHeaderPresent { url: "http://x".to_string() }.captured(),
        Some("http://x".to_string())
    );
}

#[test]
fn reply_of_each_state() {
    assert_eq!(ConnectionState::ShutdownSentinel.reply(None, 9999), None);
    assert_eq!(ConnectionState::ShutdownPath.reply(None, 9999), None);
    assert_eq!(ConnectionState::MalformedRequest.reply(None, 9999), None);
    assert_eq!(first_phase(true, false).reply(None, 9999), Some(own_page(LOCAL)));
    assert_eq!(first_phase(false, true).reply(None, 9999), Some(own_page(LOOPBACK)));
    assert_eq!(
        ConnectionState::FullUrlHeaderPresent { url: "http://x".to_string() }.reply(None, 9999),
        Some(b"HTTP/1.1 200 OK\r\nContent-Length: 0\r\n\r\n".to_vec())
    );
}

#[test]
fn reply_uses_the_template() {
    let page = "<html><head></head><body>Done</body></html>";
    let body = format!("<html><head>{}</head><body>Done</body></html>", LOOPBACK);
    let expected =
        format!("HTTP/1.1 200 OK\r\nContent-Length: {}\r\n\r\n{}", body.len(), body).into_bytes();
    assert_eq!(first_phase(false, false).reply(Some(page.as_bytes()), 9999), Some(expected));
}

#[test]
fn handle_connection_shuts_down_on_the_sentinel() {
    let handled = handle_connection(&[1, 3, 3, 7], None, 9999);
    assert_eq!(handled.state, ConnectionState::ShutdownSentinel);
    assert_eq!(handled.reply, None);
}

#[test]
fn handle_connection_shuts_down_on_the_sentinel_in_a_padded_buffer() {
    let mut buffer = [0u8; 4048];
    buffer[..4].copy_from_slice(&[1, 3, 3, 7]);
    let handled = handle_connection(&buffer, None, 9999);
    assert_eq!(handled.state, ConnectionState::ShutdownSentinel);
    assert_eq!(handled.reply, None);
}

#[test]
fn handle_connection_shuts_down_on_the_exit_path() {
    let handled = handle_connection(b"GET /exit HTTP/1.1\r\n\r\n", None, 9999);
    assert_eq!(handled.state, ConnectionState::ShutdownPath);
    assert_eq!(handled.reply, None);
    assert_eq!(handled.state.captured(), Some(String::new()));
}

#[test]
fn handle_connection_drops_what_is_no_request() {
    let inputs: [&[u8]; 4] =
        [b"\x00\x01\x02garbage", &[0u8; 4048], b"\xff\xff\xff\xff", b"GET / HTTP/1.1\r\nHost: lo\x00"];
    for data in inputs {
        let handled = handle_connection(data, None, 9999);
        assert_eq!(handled.state, ConnectionState::MalformedRequest);
        assert_eq!(handled.reply, None);
        assert_eq!(handled.state.captured(), None);
    }
}

#[test]
fn handle_connection_answers_nothing_read_with_the_page() {
    let handled = handle_connection(b"", None, 9999);
    assert_eq!(handled.state, first_phase(false, false));
    assert_eq!(handled.reply, Some(own_page(LOOPBACK)));
}

#[test]
fn handle_connection_sends_the_script_to_a_first_request() {
    let handled = handle_connection(b"GET / HTTP/1.1\r\nHost: localhost\r\n\r\n", None, 9999);
    assert_eq!(handled.state, first_phase(true, false));
    assert_eq!(handled.reply, Some(own_page(LOCAL)));
    let handled = handle_connection(b"GET / HTTP/1.1\r\nHost: 127.0.0.1:9999\r\n\r\n", None, 9999);
    assert_eq!(handled.state, first_phase(false, false));
    assert_eq!(handled.reply, Some(own_page(LOOPBACK)));
}

#[test]
fn handle_connection_captures_the_full_url() {
    let handled = handle_connection(
        b"GET /cb HTTP/1.1\r\nHost: 127.0.0.1:9999\r\nFull-Url: http://127.0.0.1:9999/callback#token=abc\r\n\r\n",
        None,
        9999,
    );
    assert_eq!(
        handled.state,
        ConnectionState::FullUrlHeaderPresent {
            url: "http://127.0.0.1:9999/callback#token=abc".to_string()
        }
    );
    assert_eq!(handled.reply, Some(b"HTTP/1.1 200 OK\r\nContent-Length: 0\r\n\r\n".to_vec()));
}

#[test]
fn handle_connection_captures_from_an_unfinished_head() {
    let handled =
        handle_connection(b"GET /cb HTTP/1.1\r\nFull-Url: http://x/#y\r\nHost: loc", None, 9999);
    assert_eq!(
        handled.state,
        ConnectionState::FullUrlHeaderPresent { url: "http://x/#y".to_string() }
    );
}

#[test]
fn handle_connection_marks_a_callback_without_header() {
    let handled = handle_connection(b"GET /cb HTTP/1.1\r\nHost: localhost:1\r\n\r\n", None, 9999);
    assert_eq!(handled.state, first_phase(true, true));
    assert_eq!(handled.reply, Some(own_page(LOCAL)));
}

#[test]
fn handle_connection_reads_an_empty_full_url_as_a_shutdown() {
    let handled = handle_connection(b"GET /cb HTTP/1.1\r\nFull-Url:\r\n\r\n", None, 9999);
    assert_eq!(handled.state, ConnectionState::FullUrlHeaderPresent { url: String::new() });
    assert_eq!(handled.state.captured(), Some(String::new()));
}
