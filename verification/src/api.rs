//! The client side of the remote store.
//!
//! The store is one text value behind `GET` and `POST` on
//! `<base>/api/clipboard`, carried as a JSON object with the field `text`.
//! Sending the requests is the caller's business. This module holds the
//! state of the client (the base URL and whether the server was reached),
//! says where a request goes, and judges the replies.

use vstd::prelude::*;
use vstd::string::StringExecFns;
use crate::error::SyncError;
use crate::text::{strip_trailing, strip_trailing_idempotent, strip_trailing_shape, trim_trailing};

verus! {

/// Seconds after which a request is given up.
pub const REQUEST_TIMEOUT_SECS: u64 = 5;

/// The payload of the clipboard resource, in both directions.
#[derive(Debug, Clone)]
pub struct ClipboardRequest {
    pub text: String,
}

/// The status object that the server sends on other resources.
#[derive(Debug, Clone)]
pub struct StatusResponse {
    pub status: String,
    pub error: Option<String>,
}

/// A reply of the server as far as the client looks at it.
#[derive(Debug)]
pub struct HttpReply {
    /// The HTTP status code.
    pub status: u16,
    /// The body, where it was a well-formed clipboard payload.
    pub payload: Option<ClipboardRequest>,
}

/// The path of the clipboard resource below the base URL.
pub open spec fn clipboard_path() -> Seq<char> {
    "/api/clipboard"@
}

/// Whether a status code is one of success (2xx).
pub open spec fn status_ok(status: u16) -> bool {
    200 <= status < 300
}

/// Whether a status code is one of success (2xx).
#[verifier::when_used_as_spec(status_ok)]
pub fn is_success(status: u16) -> (r: bool)
    ensures
        r == status_ok(status),
{
    200 <= status && status < 300
}

/// The state of a client as a mathematical value.
pub struct ClientView {
    /// The base URL; empty where none is set.
    pub server_url: Seq<char>,
    /// Outcome of the most recent probe.
    pub connected: bool,
}

/// What a probe answers, given the reply if one came.
pub open spec fn probe_result(c: ClientView, status: Option<u16>) -> Result<bool, SyncError> {
    if c.server_url.len() == 0 {
        Err(SyncError::NotConfigured)
    } else {
        match status {
            None => Err(SyncError::Transport),
            Some(code) => Ok(status_ok(code)),
        }
    }
}

/// The connection state after a probe.
pub open spec fn probed(c: ClientView, status: Option<u16>) -> ClientView {
    if c.server_url.len() == 0 {
        c
    } else {
        ClientView {
            connected: match status {
                None => false,
                Some(code) => status_ok(code),
            },
            ..c
        }
    }
}

/// What a fetch answers, given the reply as status and parsed text.
pub open spec fn fetch_result(c: ClientView, reply: Option<(u16, Option<Seq<char>>)>) -> Result<
    Seq<char>,
    SyncError,
> {
    if c.server_url.len() == 0 {
        Err(SyncError::NotConfigured)
    } else {
        match reply {
            None => Err(SyncError::Transport),
            Some((code, payload)) => if status_ok(code) && payload is Some {
                Ok(payload->Some_0)
            } else {
                Err(SyncError::Protocol)
            },
        }
    }
}

/// What a push answers, given the status of the reply if one came.
pub open spec fn push_result(c: ClientView, status: Option<u16>) -> Result<(), SyncError> {
    if c.server_url.len() == 0 {
        Err(SyncError::NotConfigured)
    } else {
        match status {
            None => Err(SyncError::Transport),
            Some(code) => if status_ok(code) {
                Ok(())
            } else {
                Err(SyncError::Protocol)
            },
        }
    }
}

/// The mathematical value of a reply to a fetch.
pub open spec fn reply_view(reply: Option<HttpReply>) -> Option<(u16, Option<Seq<char>>)> {
    match reply {
        None => None,
        Some(r) => Some(
            (
                r.status,
                match r.payload {
                    None => None,
                    Some(p) => Some(p.text@),
                },
            ),
        ),
    }
}

/// The client of the remote store: the base URL of the server and the
/// connection state. The base URL never ends in a slash.
#[derive(Debug)]
pub struct ApiClient {
    server_url: String,
    connected: bool,
}

impl View for ApiClient {
    type V = ClientView;

    closed spec fn view(&self) -> ClientView {
        ClientView { server_url: self.server_url@, connected: self.connected }
    }
}

impl ApiClient {
    #[verifier::type_invariant]
    spec fn normalized(self) -> bool {
        strip_trailing(self.server_url@, '/') == self.server_url@
    }

    /// A client without a server, not connected.
    pub fn new() -> (c: Self)
        ensures
            c@ == (ClientView { server_url: Seq::empty(), connected: false }),
    {
        ApiClient { server_url: String::new(), connected: false }
    }

    /// Sets the base URL, without its trailing slashes. The connection state
    /// stays as it is until the next probe.
    pub fn set_server_url(&mut self, url: &str)
        ensures
            final(self)@ == (ClientView {
                server_url: strip_trailing(url@, '/'),
                ..old(self)@
            }),
    {
        proof {
            strip_trailing_idempotent(url@, '/');
        }
        self.server_url = trim_trailing(url, '/');
    }

    /// The base URL; empty where none is set. It does not end in a slash.
    pub fn get_server_url(&self) -> (url: String)
        ensures
            url@ == self@.server_url,
            url@.len() > 0 ==> url@.last() != '/',
    {
        proof {
            use_type_invariant(self);
            strip_trailing_shape(self.server_url@, '/');
        }
        self.server_url.clone()
    }

    /// Whether the most recent probe reached the server.
    pub fn is_connected(&self) -> (r: bool)
        ensures
            r == self@.connected,
    {
        self.connected
    }

    /// Where the requests go: the base URL followed by the path of the
    /// clipboard resource. Without a base URL there is nothing to ask, and no
    /// request is to be made.
    pub fn endpoint(&self) -> (r: Result<String, SyncError>)
        ensures
            match r {
                Ok(url) => self@.server_url.len() > 0 && url@ == self@.server_url
                    + clipboard_path(),
                Err(e) => self@.server_url.len() == 0 && e == SyncError::NotConfigured,
            },
    {
        if self.server_url.as_str().is_empty() {
            Err(SyncError::NotConfigured)
        } else {
            let mut url = self.server_url.clone();
            url.append("/api/clipboard");
            Ok(url)
        }
    }

    /// Takes the outcome of a probe: `status` is the status code of the reply
    /// to a `GET` on the endpoint, or `None` where no reply came. The
    /// connection state becomes whether the reply was one of success, which
    /// is also the answer; without a reply the client is disconnected and the
    /// answer is a transport failure. A client without a base URL makes no
    /// probe: the answer is `NotConfigured` and the state stays as it is.
    pub fn test_connection(&mut self, status: Option<u16>) -> (r: Result<bool, SyncError>)
        ensures
            r == probe_result(old(self)@, status),
            final(self)@ == probed(old(self)@, status),
    {
        proof {
            use_type_invariant(&*self);
        }
        if self.server_url.as_str().is_empty() {
            return Err(SyncError::NotConfigured);
        }
        match status {
            Some(code) => {
                let success = is_success(code);
                self.connected = success;
                Ok(success)
            },
            None => {
                self.connected = false;
                Err(SyncError::Transport)
            },
        }
    }

    /// Takes the outcome of a fetch: `reply` is the reply to a `GET` on the
    /// endpoint, or `None` where no reply came. The answer is the text of the
    /// payload where the status is one of success and the payload is
    /// well-formed, a protocol failure for any other reply, and a transport
    /// failure without a reply. A client without a base URL answers
    /// `NotConfigured` whatever it is handed.
    pub fn get_clipboard(&self, reply: Option<HttpReply>) -> (r: Result<String, SyncError>)
        ensures
            crate::clipboard::outcome_view(r) == fetch_result(self@, reply_view(reply)),
    {
        if self.server_url.as_str().is_empty() {
            return Err(SyncError::NotConfigured);
        }
        match reply {
            None => Err(SyncError::Transport),
            Some(HttpReply { status, payload }) => {
                if !is_success(status) {
                    return Err(SyncError::Protocol);
                }
                match payload {
                    Some(data) => Ok(data.text),
                    None => Err(SyncError::Protocol),
                }
            },
        }
    }

    /// Takes the outcome of a push: `status` is the status code of the reply
    /// to a `POST` of the payload on the endpoint, or `None` where no reply
    /// came. Any status of success is an acceptance; any other is a protocol
    /// failure; no reply is a transport failure. A client without a base URL
    /// answers `NotConfigured` whatever it is handed.
    pub fn send_clipboard(&self, status: Option<u16>) -> (r: Result<(), SyncError>)
        ensures
            r == push_result(self@, status),
    {
        if self.server_url.as_str().is_empty() {
            return Err(SyncError::NotConfigured);
        }
        match status {
            None => Err(SyncError::Transport),
            Some(code) => {
                if !is_success(code) {
                    return Err(SyncError::Protocol);
                }
                Ok(())
            },
        }
    }
}

impl Default for ApiClient {
    fn default() -> (c: Self)
        ensures
            c@ == (ClientView { server_url: Seq::empty(), connected: false }),
    {
        ApiClient::new()
    }
}

} // verus!
