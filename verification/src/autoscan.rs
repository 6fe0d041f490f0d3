//! The scanner's side of the conversation: what is asked of it, and what its
//! answers mean.
//!
//! A [`Request`] says what to send; the program around the library sends it
//! and comes back with a [`Reply`].

use vstd::prelude::*;
use crate::payload::Payload;

verus! {

/// How many requests may wait for the connection at a time. Further requests
/// wait for room instead of failing.
pub const BUFFER: usize = 1024;

/// The name and password that the scanner asks for.
#[derive(Debug)]
pub struct Credentials {
    pub username: String,
    pub password: String,
}

impl Clone for Credentials {
    fn clone(&self) -> (copy: Credentials)
        ensures
            copy == *self,
    {
        Credentials { username: self.username.clone(), password: self.password.clone() }
    }
}

/// The kind of a request.
#[derive(Debug, Clone, Copy, PartialEq, Eq, Structural)]
pub enum Method {
    Get,
    Post,
}

/// One request to the scanner.
#[derive(Debug)]
pub struct Request {
    pub method: Method,
    /// The path of the request below the scanner's address.
    pub path: String,
    /// The credentials to authenticate with, if any.
    pub auth: Option<Credentials>,
    /// The folders to send along, if any.
    pub body: Option<Payload>,
}

/// What came of a request.
#[derive(Debug, PartialEq, Eq)]
pub enum Reply {
    /// No response arrived; the text says why.
    Unreachable(String),
    /// A response arrived with this status code.
    Status(u16),
}

impl Reply {
    /// The scanner answered and reported no error: a status from 200 to 399.
    pub open spec fn healthy(self) -> bool {
        self matches Reply::Status(code) && 200 <= code < 400
    }

    /// The scanner answered and took what it was sent: a status from 200 to
    /// 299.
    pub open spec fn accepted(self) -> bool {
        self matches Reply::Status(code) && 200 <= code < 300
    }
}

/// Why the scanner could not be used.
#[derive(Debug, PartialEq, Eq)]
pub enum AutoscanError {
    /// The request failed; the reply says how.
    Network(Reply),
}

impl AutoscanError {
    /// The error in words.
    pub fn message(&self) -> (text: String)
        ensures
            text@ == "network error"@,
    {
        "network error".to_owned()
    }
}

/// The path that answers whether the scanner is up.
pub open spec fn health_path() -> Seq<char> {
    "/health"@
}

/// The path that takes the changes of the drive `drive_id`.
pub open spec fn trigger_path(drive_id: Seq<char>) -> Seq<char> {
    "/triggers/a-train/"@ + drive_id
}

/// Where the scanner is and how to talk to it.
#[derive(Debug)]
pub struct Autoscan {
    pub auth: Option<Credentials>,
    /// The scanner's address.
    pub url: String,
    /// The proxy through which requests go, if any.
    pub proxy: Option<String>,
}

/// The settings of a scanner that is about to be used.
#[derive(Debug)]
pub struct AutoscanBuilder {
    pub auth: Option<Credentials>,
    pub url: String,
    pub proxy: Option<String>,
}

impl AutoscanBuilder {
    /// Settings for the scanner at `url`, reached without a proxy.
    pub fn new(url: String, auth: Option<Credentials>) -> (builder: AutoscanBuilder)
        ensures
            builder == (AutoscanBuilder { auth, url, proxy: None }),
    {
        AutoscanBuilder { auth, url, proxy: None }
    }

    /// The same settings, with requests going through the proxy at `url`.
    pub fn proxy(self, url: String) -> (builder: AutoscanBuilder)
        ensures
            builder == (AutoscanBuilder { proxy: Some(url), ..self }),
    {
        AutoscanBuilder { auth: self.auth, url: self.url, proxy: Some(url) }
    }

    /// The scanner with these settings.
    pub fn build(self) -> (autoscan: Autoscan)
        ensures
            autoscan == (Autoscan { auth: self.auth, url: self.url, proxy: self.proxy }),
    {
        Autoscan { auth: self.auth, url: self.url, proxy: self.proxy }
    }
}

impl Autoscan {
    /// The scanner at `url`, reached without a proxy.
    pub fn new(auth: Option<Credentials>, url: String) -> (autoscan: Autoscan)
        ensures
            autoscan == (Autoscan { auth, url, proxy: None }),
    {
        Autoscan { auth, url, proxy: None }
    }

    /// Settings to make a scanner from.
    pub fn builder(url: String, auth: Option<Credentials>) -> (builder: AutoscanBuilder)
        ensures
            builder == (AutoscanBuilder { auth, url, proxy: None }),
    {
        AutoscanBuilder::new(url, auth)
    }

    /// The request that asks whether the scanner is up.
    pub fn available() -> (request: Request)
        ensures
            request.method == Method::Get,
            request.path@ == health_path(),
            request.auth is None,
            request.body is None,
    {
        Request { method: Method::Get, path: "/health".to_owned(), auth: None, body: None }
    }

    /// What the answer to [`Autoscan::available`] means: the scanner is up if
    /// it answered with a status from 200 to 399.
    pub fn probed(reply: Reply) -> (verdict: Result<(), AutoscanError>)
        ensures
            verdict == if reply.healthy() {
                Ok::<(), AutoscanError>(())
            } else {
                Err(AutoscanError::Network(reply))
            },
    {
        match reply {
            Reply::Status(code) if 200 <= code && code < 400 => Ok(()),
            other => Err(AutoscanError::Network(other)),
        }
    }

    /// The request that hands the scanner the changes of one drive, with the
    /// credentials where there are any.
    pub fn send_payload(&self, drive_id: &str, payload: Payload) -> (request: Request)
        ensures
            request.method == Method::Post,
            request.path@ == trigger_path(drive_id@),
            request.auth == self.auth,
            request.body == Some(payload),
    {
        let mut path = "/triggers/a-train/".to_owned();
        path.append(drive_id);
        let auth = match &self.auth {
            Some(credentials) => Some(credentials.clone()),
            None => None,
        };
        Request { method: Method::Post, path, auth, body: Some(payload) }
    }

    /// What the answer to [`Autoscan::send_payload`] means: the changes have
    /// arrived if the scanner answered with a status from 200 to 299.
    pub fn delivered(reply: Reply) -> (verdict: Result<(), AutoscanError>)
        ensures
            verdict == if reply.accepted() {
                Ok::<(), AutoscanError>(())
            } else {
                Err(AutoscanError::Network(reply))
            },
    {
        match reply {
            Reply::Status(code) if 200 <= code && code < 300 => Ok(()),
            other => Err(AutoscanError::Network(other)),
        }
    }
}

} // verus!
