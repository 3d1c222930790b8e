use lazypost::app::{App, CurrentScreen, CurrentlyEditing, RequestError, RequestMethod};
use lazypost::codec::pretty_body;
use lazypost::view::{
    editing_label, error_text, history_line, history_lines, key_hint, mode_label, response_text,
};

fn editing_with(url: &str) -> App {
    let mut app = App::new();
    app.begin_edit();
    for c in url.chars() {
        app.append_to_draft(c);
    }
    app
}

fn fetch_ok(app: &mut App, url: &str, body: &str) -> Result<(), RequestError> {
    app.begin_edit();
    for c in url.chars() {
        app.append_to_draft(c);
    }
    let sent = app.submit();
    assert_eq!(sent.as_deref(), Some(url));
    app.complete_request(Ok((200, body.as_bytes().to_vec())))
}

#[test]
fn new_session_is_empty() {
    let app = App::new();
    assert_eq!(app.url_input, "");
    assert_eq!(app.request_method_input, RequestMethod::GET);
    assert!(app.requests.is_empty());
    assert_eq!(app.current_screen, CurrentScreen::Main);
    assert_eq!(app.currently_editing, None);
    assert!(!app.in_flight);
    let d = App::default();
    assert_eq!(d.current_screen, CurrentScreen::Main);
    assert!(d.requests.is_empty());
}

#[test]
fn edits_apply_in_order() {
    let mut app = editing_with("htp");
    app.backspace_draft();
    app.append_to_draft('x');
    assert_eq!(app.url_input, "htx");
    app.backspace_draft();
    app.backspace_draft();
    app.backspace_draft();
    app.backspace_draft();
    assert_eq!(app.url_input, "");
}

#[test]
fn edits_outside_editing_are_ignored() {
    let mut app = editing_with("ab");
    app.cancel_edit();
    app.append_to_draft('c');
    app.backspace_draft();
    assert_eq!(app.url_input, "ab");
    app.request_exit();
    app.append_to_draft('c');
    assert_eq!(app.url_input, "ab");
}

#[test]
fn begin_then_cancel_keeps_history_and_draft() {
    let mut app = App::new();
    fetch_ok(&mut app, "http://a", "[1]").unwrap();
    app.begin_edit();
    assert_eq!(app.current_screen, CurrentScreen::Editing);
    assert_eq!(app.currently_editing, Some(CurrentlyEditing::Url));
    app.append_to_draft('z');
    app.cancel_edit();
    assert_eq!(app.current_screen, CurrentScreen::Main);
    assert_eq!(app.currently_editing, None);
    assert_eq!(app.url_input, "z");
    assert_eq!(app.requests.len(), 1);
    assert_eq!(app.requests[0].url, "http://a");
}

#[test]
fn begin_edit_only_from_main() {
    let mut app = App::new();
    app.request_exit();
    app.begin_edit();
    assert_eq!(app.current_screen, CurrentScreen::Exiting);
    assert_eq!(app.currently_editing, None);
}

#[test]
fn decline_exit_returns_to_main() {
    let mut app = editing_with("q");
    app.cancel_edit();
    app.request_exit();
    assert_eq!(app.current_screen, CurrentScreen::Exiting);
    assert!(!app.confirm_exit(false));
    assert_eq!(app.current_screen, CurrentScreen::Main);
    assert_eq!(app.url_input, "q");
    assert!(app.requests.is_empty());
}

#[test]
fn accept_exit_ends_session() {
    let mut app = App::new();
    assert!(!app.confirm_exit(true));
    app.request_exit();
    assert!(app.confirm_exit(true));
}

#[test]
fn submit_needs_editing_and_a_draft() {
    let mut app = App::new();
    assert_eq!(app.submit(), None);
    app.begin_edit();
    assert_eq!(app.submit(), None);
    app.append_to_draft('u');
    assert_eq!(app.submit(), Some("u".to_string()));
    assert!(app.in_flight);
    assert_eq!(app.submit(), None);
    app.append_to_draft('v');
    app.cancel_edit();
    assert_eq!(app.url_input, "u");
    assert_eq!(app.current_screen, CurrentScreen::Editing);
}

#[test]
fn success_with_json_body_is_committed() {
    let mut app = App::new();
    fetch_ok(&mut app, "https://example.com/api", "{\"foo\":1}").unwrap();
    assert_eq!(app.requests.len(), 1);
    assert_eq!(app.requests[0].url, "https://example.com/api");
    assert_eq!(app.requests[0].method, RequestMethod::GET);
    assert_eq!(app.requests[0].response, "{\n  \"foo\": 1\n}");
    assert_eq!(app.url_input, "");
    assert_eq!(app.current_screen, CurrentScreen::Main);
    assert_eq!(app.currently_editing, None);
    assert!(!app.in_flight);
}

#[test]
fn not_found_is_reported_and_session_stays() {
    let mut app = editing_with("https://example.com/missing");
    app.submit().unwrap();
    let r = app.complete_request(Ok((404, b"{}".to_vec())));
    assert_eq!(r, Err(RequestError::NonSuccessStatus(404)));
    assert!(app.requests.is_empty());
    assert_eq!(app.url_input, "https://example.com/missing");
    assert_eq!(app.current_screen, CurrentScreen::Main);
    assert_eq!(app.last_error, Some(RequestError::NonSuccessStatus(404)));
    assert_eq!(
        response_text(&app).as_deref(),
        Some("Request failed: status 404")
    );
}

#[test]
fn non_json_body_is_a_parse_error() {
    let mut app = editing_with("http://x");
    app.submit().unwrap();
    let r = app.complete_request(Ok((200, b"<html>".to_vec())));
    assert_eq!(r, Err(RequestError::BodyParseError));
    assert!(app.requests.is_empty());
    assert_eq!(app.url_input, "http://x");
}

#[test]
fn network_error_and_timeout_are_passed_on() {
    let mut app = editing_with("http://x");
    app.submit().unwrap();
    assert_eq!(
        app.complete_request(Err(RequestError::NetworkError)),
        Err(RequestError::NetworkError)
    );
    assert_eq!(app.last_error, Some(RequestError::NetworkError));
    app.begin_edit();
    app.submit().unwrap();
    assert_eq!(
        app.complete_request(Err(RequestError::Timeout)),
        Err(RequestError::Timeout)
    );
    assert!(app.requests.is_empty());
}

#[test]
fn any_2xx_status_is_success() {
    let mut app = editing_with("http://x");
    app.submit().unwrap();
    assert_eq!(app.complete_request(Ok((204, b"true".to_vec()))), Ok(()));
    assert_eq!(app.requests[0].response, "true");
    let mut app = editing_with("http://y");
    app.submit().unwrap();
    assert_eq!(
        app.complete_request(Ok((300, b"true".to_vec()))),
        Err(RequestError::NonSuccessStatus(300))
    );
}

#[test]
fn finish_with_body_commits_or_fails() {
    let mut app = editing_with("http://x");
    app.submit().unwrap();
    assert_eq!(app.finish_with_body(None), Err(RequestError::BodyParseError));
    assert!(app.requests.is_empty());
    app.begin_edit();
    app.submit().unwrap();
    assert_eq!(app.finish_with_body(Some("[]".to_string())), Ok(()));
    assert_eq!(app.requests[0].response, "[]");
    assert_eq!(app.last_error, None);
}

#[test]
fn two_requests_kept_in_order() {
    let mut app = App::new();
    assert_eq!(response_text(&app), None);
    fetch_ok(&mut app, "http://one", "{\"a\":1}").unwrap();
    assert_eq!(response_text(&app).as_deref(), Some("{\n  \"a\": 1\n}"));
    fetch_ok(&mut app, "http://two", "[2]").unwrap();
    assert_eq!(app.requests.len(), 2);
    assert_eq!(app.requests[0].url, "http://one");
    assert_eq!(app.requests[1].url, "http://two");
    assert_eq!(response_text(&app).as_deref(), Some("[\n  2\n]"));
    assert_eq!(
        history_lines(&app),
        vec!["GET | http://one".to_string(), "GET | http://two".to_string()]
    );
}

#[test]
fn pretty_printing_is_idempotent() {
    let body = b"{\"b\": [1, {\"c\": null}], \"a\": \"x\"}".to_vec();
    let once = pretty_body(&body).unwrap();
    assert_eq!(once, "{\n  \"a\": \"x\",\n  \"b\": [\n    1,\n    {\n      \"c\": null\n    }\n  ]\n}");
    let twice = pretty_body(&once.as_bytes().to_vec()).unwrap();
    assert_eq!(twice, once);
}

#[test]
fn pretty_body_rejects_non_json() {
    assert_eq!(pretty_body(&b"{\"a\":".to_vec()), None);
    assert_eq!(pretty_body(&Vec::new()), None);
}

#[test]
fn method_names_round_trip() {
    let all = [
        RequestMethod::GET,
        RequestMethod::POST,
        RequestMethod::PUT,
        RequestMethod::DELETE,
        RequestMethod::PATCH,
    ];
    let names = ["GET", "POST", "PUT", "DELETE", "PATCH"];
    for (m, n) in all.iter().zip(names.iter()) {
        assert_eq!(m.as_str(), *n);
        assert_eq!(RequestMethod::from_text(n), Some(*m));
    }
    assert_eq!(RequestMethod::from_text("get"), None);
    assert_eq!(RequestMethod::from_text(""), None);
}

#[test]
fn footer_texts() {
    assert_eq!(mode_label(CurrentScreen::Main), "Normal Mode");
    assert_eq!(mode_label(CurrentScreen::Editing), "Editing Mode");
    assert_eq!(mode_label(CurrentScreen::Exiting), "Exiting");
    assert_eq!(editing_label(Some(CurrentlyEditing::Url)), "Editing URL");
    assert_eq!(editing_label(None), "Not Editing Anything");
    assert_eq!(
        key_hint(CurrentScreen::Editing),
        "(ESC) to cancel/(Tab) to switch boxes/enter to complete"
    );
    assert_eq!(key_hint(CurrentScreen::Main), "(q) to quit / (e) to make new pair");
}

#[test]
fn error_messages() {
    assert_eq!(error_text(RequestError::NonSuccessStatus(0)), "Request failed: status 0");
    assert_eq!(error_text(RequestError::NonSuccessStatus(65535)), "Request failed: status 65535");
    assert_eq!(error_text(RequestError::NetworkError), "Request failed: network error");
    assert_eq!(error_text(RequestError::Timeout), "Request failed: timed out");
    assert_eq!(
        error_text(RequestError::BodyParseError),
        "Request failed: the response body is not JSON"
    );
}

#[test]
fn history_line_format() {
    let mut app = App::new();
    app.request_method_input = RequestMethod::PATCH;
    app.begin_edit();
    app.append_to_draft('u');
    app.save_request_values("r".to_string());
    assert_eq!(history_line(&app.requests[0]), "PATCH | u");
    assert_eq!(app.current_screen, CurrentScreen::Main);
    assert_eq!(app.url_input, "");
}
