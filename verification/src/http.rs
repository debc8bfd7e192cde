//! Configuration of an HTTP client: its timeout and the headers it sends.
//! Performing requests is left to the caller.
use vstd::prelude::*;
use vstd::string::StringExecFns;

use crate::sh::pair_views;

verus! {

/// An HTTP client's settings: an optional timeout in seconds for whole
/// requests, and headers added to every request, in order.
pub struct Client {
    timeout_secs: Option<u64>,
    headers: Vec<(String, String)>,
}

/// The settings of a client, with header strings taken by their characters.
pub struct SpecClient {
    pub timeout_secs: Option<u64>,
    pub headers: Seq<(Seq<char>, Seq<char>)>,
}

impl View for Client {
    type V = SpecClient;

    closed spec fn view(&self) -> SpecClient {
        SpecClient { timeout_secs: self.timeout_secs, headers: pair_views(self.headers@) }
    }
}

/// The value of the header that basic authentication adds.
pub open spec fn basic_auth_value(username: Seq<char>, password: Seq<char>) -> Seq<char> {
    "Basic "@ + username + ":"@ + password
}

/// The headers a request sends: its content type first, if it has a body,
/// then the client's own headers.
pub open spec fn spec_request_headers(client: SpecClient, content_type: Option<Seq<char>>) -> Seq<(Seq<char>, Seq<char>)> {
    match content_type {
        Some(t) => seq![("Content-Type"@, t)] + client.headers,
        None => client.headers,
    }
}

impl Client {
    /// A client with default settings: no timeout and no headers.
    pub fn new() -> (r: Client)
        ensures
            r@ == (SpecClient { timeout_secs: None, headers: Seq::empty() }),
    {
        let r = Client { timeout_secs: None, headers: Vec::new() };
        assert(r@.headers =~= Seq::<(Seq<char>, Seq<char>)>::empty());
        r
    }

    /// Sets the timeout of whole requests, in seconds.
    pub fn timeout(self, seconds: u64) -> (r: Client)
        ensures
            r@ == (SpecClient { timeout_secs: Some(seconds), ..self@ }),
    {
        Client { timeout_secs: Some(seconds), headers: self.headers }
    }

    /// Adds basic authentication: an `Authorization` header whose value is
    /// "Basic " followed by `username:password`.
    pub fn auth(self, username: &str, password: &str) -> (r: Client)
        ensures
            r@ == (SpecClient {
                headers: self@.headers.push(("Authorization"@, basic_auth_value(username@, password@))),
                ..self@
            }),
    {
        let mut value = String::new();
        value.append("Basic ");
        value.append(username);
        value.append(":");
        value.append(password);
        let mut c = self;
        let ghost before = c.headers@;
        c.headers.push(("Authorization".to_owned(), value));
        assert(pair_views(c.headers@) =~= pair_views(before).push(("Authorization"@, basic_auth_value(username@, password@))));
        c
    }

    /// Adds a header to every request.
    pub fn header(self, key: &str, value: &str) -> (r: Client)
        ensures
            r@ == (SpecClient { headers: self@.headers.push((key@, value@)), ..self@ }),
    {
        let mut c = self;
        let ghost before = c.headers@;
        c.headers.push((key.to_owned(), value.to_owned()));
        assert(pair_views(c.headers@) =~= pair_views(before).push((key@, value@)));
        c
    }

    /// The timeout of whole requests, in seconds, if one was set.
    pub fn timeout_secs(&self) -> (r: Option<u64>)
        ensures
            r == self@.timeout_secs,
    {
        self.timeout_secs
    }

    /// The headers a request sends: with a body of type `content_type`, that
    /// content type first, then the client's headers in the order they were added.
    pub fn request_headers(&self, content_type: Option<&str>) -> (r: Vec<(String, String)>)
        ensures
            pair_views(r@) == spec_request_headers(
                self@,
                match content_type {
                    Some(t) => Some(t@),
                    None => None,
                },
            ),
    {
        let mut out: Vec<(String, String)> = Vec::new();
        match content_type {
            Some(t) => out.push(("Content-Type".to_owned(), t.to_owned())),
            None => {},
        }
        let ghost base = pair_views(out@);
        let mut i: usize = 0;
        while i < self.headers.len()
            invariant
                i <= self.headers@.len(),
                pair_views(out@) == base + pair_views(self.headers@.take(i as int)),
            decreases self.headers@.len() - i,
        {
            let (k, v) = &self.headers[i];
            let ghost before = out@;
            out.push((k.clone(), v.clone()));
            assert(pair_views(out@) =~= pair_views(before).push((k@, v@)));
            assert(pair_views(self.headers@.take(i + 1)) =~= pair_views(self.headers@.take(i as int)).push((k@, v@)));
            i = i + 1;
        }
        assert(self.headers@.take(i as int) =~= self.headers@);
        let ghost ct = match content_type {
            Some(t) => Some(t@),
            None => None,
        };
        assert(pair_views(out@) =~= spec_request_headers(self@, ct));
        out
    }
}


/// Why an HTTP request failed, as the transport reported it.
pub enum RequestFailure {
    /// The server answered with a status outside the success range.
    Status { code: u16 },
    /// The request ran out of time; `kind` names the phase that timed out.
    Timeout { kind: String },
    /// The host name could not be resolved.
    HostNotFound,
    /// An I/O error occurred, described by `detail`.
    Io { detail: String },
    /// Any other failure, described by `detail`.
    Other { detail: String },
}

/// The text that reports a failed request to `url`.
pub open spec fn spec_request_failure_message(f: RequestFailure, url: Seq<char>) -> Seq<char> {
    match f {
        RequestFailure::Status { code } => "HTTP request to "@ + url + " failed with status "@
            + crate::text::decimal(code as nat),
        RequestFailure::Timeout { kind } => "HTTP request to "@ + url + " timed out: "@ + kind@,
        RequestFailure::HostNotFound => "Host not found for URL: "@ + url,
        RequestFailure::Io { detail } => "IO error during HTTP request to "@ + url + ": "@ + detail@,
        RequestFailure::Other { detail } => "HTTP request to "@ + url + " failed: "@ + detail@,
    }
}

impl RequestFailure {
    /// The text that reports this failure of a request to `url`.
    pub fn message(&self, url: &str) -> (r: String)
        ensures
            r@ == spec_request_failure_message(*self, url@),
    {
        let mut m = String::new();
        match self {
            RequestFailure::Status { code } => {
                m.append("HTTP request to ");
                m.append(url);
                m.append(" failed with status ");
                let digits = crate::text::decimal_string(*code as usize);
                m.append(digits.as_str());
            },
            RequestFailure::Timeout { kind } => {
                m.append("HTTP request to ");
                m.append(url);
                m.append(" timed out: ");
                m.append(kind.as_str());
            },
            RequestFailure::HostNotFound => {
                m.append("Host not found for URL: ");
                m.append(url);
            },
            RequestFailure::Io { detail } => {
                m.append("IO error during HTTP request to ");
                m.append(url);
                m.append(": ");
                m.append(detail.as_str());
            },
            RequestFailure::Other { detail } => {
                m.append("HTTP request to ");
                m.append(url);
                m.append(" failed: ");
                m.append(detail.as_str());
            },
        }
        m
    }
}

} // verus!
