//! The client of the remote store.

use clippybara::api::{is_success, ApiClient, ClipboardRequest, HttpReply, REQUEST_TIMEOUT_SECS};
use clippybara::error::SyncError;
use clippybara::text::trim_trailing;

fn reply(status: u16, text: Option<&str>) -> Option<HttpReply> {
    Some(HttpReply { status, payload: text.map(|t| ClipboardRequest { text: t.to_string() }) })
}

fn client(url: &str) -> ApiClient {
    let mut c = ApiClient::new();
    c.set_server_url(url);
    c
}

#[test]
fn new_client_has_no_server() {
    let c = ApiClient::new();
    assert_eq!(c.get_server_url(), "");
    assert!(!c.is_connected());
    let d = ApiClient::default();
    assert_eq!(d.get_server_url(), "");
    assert!(!d.is_connected());
    assert_eq!(REQUEST_TIMEOUT_SECS, 5);
}

#[test]
fn server_url_loses_its_trailing_slashes() {
    assert_eq!(client("http://host:8000/").get_server_url(), "http://host:8000");
    assert_eq!(client("http://host:8000///").get_server_url(), "http://host:8000");
    assert_eq!(client("http://host:8000").get_server_url(), "http://host:8000");
    assert_eq!(client("http://host/a/b/").get_server_url(), "http://host/a/b");
    assert_eq!(client("///").get_server_url(), "");
    assert_eq!(client("").get_server_url(), "");
}

#[test]
fn endpoint_is_the_clipboard_resource() {
    assert_eq!(client("http://host:8000/").endpoint(), Ok("http://host:8000/api/clipboard".to_string()));
    assert_eq!(client("h").endpoint(), Ok("h/api/clipboard".to_string()));
}

#[test]
fn unconfigured_client_fails_fast() {
    let mut c = ApiClient::new();
    assert_eq!(c.endpoint(), Err(SyncError::NotConfigured));
    assert_eq!(c.get_clipboard(reply(200, Some("t"))), Err(SyncError::NotConfigured));
    assert_eq!(c.get_clipboard(None), Err(SyncError::NotConfigured));
    assert_eq!(c.send_clipboard(Some(200)), Err(SyncError::NotConfigured));
    assert_eq!(c.test_connection(Some(200)), Err(SyncError::NotConfigured));
    assert!(!c.is_connected());
    assert_eq!(client("//").endpoint(), Err(SyncError::NotConfigured));
}

#[test]
fn status_of_success_is_the_two_hundreds() {
    assert!(!is_success(199));
    assert!(is_success(200));
    assert!(is_success(204));
    assert!(is_success(299));
    assert!(!is_success(300));
    assert!(!is_success(404));
    assert!(!is_success(0));
    assert!(!is_success(u16::MAX));
}

#[test]
fn probe_sets_the_connection_state() {
    let mut c = client("http://host");
    assert_eq!(c.test_connection(Some(200)), Ok(true));
    assert!(c.is_connected());
    assert_eq!(c.test_connection(Some(500)), Ok(false));
    assert!(!c.is_connected());
    assert_eq!(c.test_connection(Some(204)), Ok(true));
    assert!(c.is_connected());
    assert_eq!(c.test_connection(None), Err(SyncError::Transport));
    assert!(!c.is_connected());
}

#[test]
fn probe_without_server_leaves_the_state() {
    let mut c = client("http://host");
    assert_eq!(c.test_connection(Some(200)), Ok(true));
    c.set_server_url("");
    assert!(c.is_connected());
    assert_eq!(c.test_connection(None), Err(SyncError::NotConfigured));
    assert!(c.is_connected());
}

#[test]
fn fetch_answers_the_text_of_the_payload() {
    let c = client("http://host");
    assert_eq!(c.get_clipboard(reply(200, Some("hello"))), Ok("hello".to_string()));
    assert_eq!(c.get_clipboard(reply(200, Some(""))), Ok(String::new()));
    assert_eq!(c.get_clipboard(reply(201, Some("x"))), Ok("x".to_string()));
}

#[test]
fn fetch_tells_transport_from_protocol() {
    let c = client("http://host");
    assert_eq!(c.get_clipboard(None), Err(SyncError::Transport));
    assert_eq!(c.get_clipboard(reply(404, Some("x"))), Err(SyncError::Protocol));
    assert_eq!(c.get_clipboard(reply(500, None)), Err(SyncError::Protocol));
    assert_eq!(c.get_clipboard(reply(200, None)), Err(SyncError::Protocol));
}

#[test]
fn push_is_accepted_by_any_status_of_success() {
    let c = client("http://host");
    assert_eq!(c.send_clipboard(Some(200)), Ok(()));
    assert_eq!(c.send_clipboard(Some(201)), Ok(()));
    assert_eq!(c.send_clipboard(Some(299)), Ok(()));
    assert_eq!(c.send_clipboard(Some(300)), Err(SyncError::Protocol));
    assert_eq!(c.send_clipboard(Some(503)), Err(SyncError::Protocol));
    assert_eq!(c.send_clipboard(None), Err(SyncError::Transport));
}

#[test]
fn fetch_and_push_leave_the_connection_state() {
    let mut c = client("http://host");
    assert_eq!(c.test_connection(Some(200)), Ok(true));
    assert_eq!(c.get_clipboard(None), Err(SyncError::Transport));
    assert_eq!(c.send_clipboard(Some(500)), Err(SyncError::Protocol));
    assert!(c.is_connected());
}

#[test]
fn trailing_run_is_cut() {
    assert_eq!(trim_trailing("a/b//", '/'), "a/b");
    assert_eq!(trim_trailing("a/b", '/'), "a/b");
    assert_eq!(trim_trailing("////", '/'), "");
    assert_eq!(trim_trailing("", '/'), "");
    assert_eq!(trim_trailing("/a", '/'), "/a");
    assert_eq!(trim_trailing("xyzzz", 'z'), "xy");
    assert_eq!(trim_trailing("h\u{e9}t\u{e9}\u{e9}", '\u{e9}'), "h\u{e9}t");
    assert_eq!(trim_trailing("\u{1f600}//", '/'), "\u{1f600}");
}
