//! Requests against the panel-control REST service, described as plain values.
use vstd::prelude::*;
use vstd::string::StringExecFns;

use crate::visonic::{ReqLogin, ReqPanelLogin, ReqSetState};

verus! {

/// The protocol version this client speaks.
pub const REST_VERSION: &'static str = "10.0";

/// Application type announced at panel login.
pub const APP_TYPE: &'static str = "com.visonic.PowerMaxApp";

pub const RES_PANEL_LOGIN: &'static str = "/panel/login";
pub const RES_AUTH: &'static str = "/auth";
pub const RES_STATUS: &'static str = "/status";
pub const RES_VERSIONS: &'static str = "/version";
pub const RES_SET_STATE: &'static str = "/set_state";
pub const RES_PROCESS_STATUS: &'static str = "/process_status";
pub const RES_EVENTS: &'static str = "/events";
pub const RES_ALARMS: &'static str = "/alarms";
pub const RES_ALERTS: &'static str = "/alerts";
pub const RES_TROUBLES: &'static str = "/troubles";
pub const RES_PANEL_INFO: &'static str = "/panel_info";
pub const RES_WAKEUP_SMS: &'static str = "/wakeup_sms";
pub const RES_DEVICES: &'static str = "/devices";
pub const RES_LOCATIONS: &'static str = "/locations";

/// `https://{host}/rest_api/{version}{endpoint}`.
pub open spec fn uri_spec(host: Seq<char>, endpoint: Seq<char>) -> Seq<char> {
    "https://"@ + host + "/rest_api/"@ + REST_VERSION@ + endpoint
}

/// Versioned URL of `endpoint` on `hostname`.
pub fn uri(hostname: &String, endpoint: &str) -> (r: String)
    ensures
        r@ == uri_spec(hostname@, endpoint@),
{
    let r = String::from_str("https://");
    let r = r.concat(hostname.as_str());
    let r = r.concat("/rest_api/");
    let r = r.concat(REST_VERSION);
    r.concat(endpoint)
}

/// HTTP method of a request.
#[derive(PartialEq, Eq, Structural, Clone, Copy, Debug)]
pub enum Method {
    Get,
    Post,
}

/// JSON body of a request, if it carries one.
pub enum Body {
    Empty,
    Login(ReqLogin),
    PanelLogin(ReqPanelLogin),
    SetState(ReqSetState),
}

/// One HTTP call to perform: method, full URL, extra headers (name, value) and body.
pub struct Request {
    pub method: Method,
    pub url: String,
    pub headers: Vec<(String, String)>,
    pub body: Body,
}

/// The headers of a request as pairs of character sequences.
pub open spec fn headers_view(hs: Seq<(String, String)>) -> Seq<(Seq<char>, Seq<char>)> {
    hs.map_values(|h: (String, String)| (h.0@, h.1@))
}

pub open spec fn user_token_header() -> Seq<char> {
    "User-Token"@
}

pub open spec fn session_token_header() -> Seq<char> {
    "Session-Token"@
}

impl Request {
    /// A request without headers.
    pub fn new(method: Method, url: String, body: Body) -> (r: Request)
        ensures
            r.method == method,
            r.url == url,
            r.headers@.len() == 0,
            r.body == body,
    {
        Request { method, url, headers: Vec::new(), body }
    }

    /// Adds the `User-Token` header when a token is given.
    pub fn with_user_token(self, user_token: Option<String>) -> (r: Request)
        ensures
            r.method == self.method,
            r.url == self.url,
            r.body == self.body,
            headers_view(r.headers@) == match user_token {
                Some(t) => headers_view(self.headers@).push((user_token_header(), t@)),
                None => headers_view(self.headers@),
            },
    {
        match user_token {
            Some(t) => self.with_header(String::from_str("User-Token"), t),
            None => self,
        }
    }

    /// Adds the `Session-Token` header when a token is given.
    pub fn with_session_token(self, session_token: Option<String>) -> (r: Request)
        ensures
            r.method == self.method,
            r.url == self.url,
            r.body == self.body,
            headers_view(r.headers@) == match session_token {
                Some(t) => headers_view(self.headers@).push((session_token_header(), t@)),
                None => headers_view(self.headers@),
            },
    {
        match session_token {
            Some(t) => self.with_header(String::from_str("Session-Token"), t),
            None => self,
        }
    }

    /// Adds both session headers, user token first.
    pub fn with_user_session_token(self, user_token: String, session_token: String) -> (r:
        Request)
        ensures
            r.method == self.method,
            r.url == self.url,
            r.body == self.body,
            headers_view(r.headers@) == headers_view(self.headers@).push(
                (user_token_header(), user_token@),
            ).push((session_token_header(), session_token@)),
    {
        self.with_user_token(Some(user_token)).with_session_token(Some(session_token))
    }

    fn with_header(self, name: String, value: String) -> (r: Request)
        ensures
            r.method == self.method,
            r.url == self.url,
            r.body == self.body,
            headers_view(r.headers@) == headers_view(self.headers@).push((name@, value@)),
    {
        let Request { method, url, headers, body } = self;
        let mut headers = headers;
        let ghost before = headers@;
        headers.push((name, value));
        proof {
            assert(headers@ == before.push((name, value)));
            assert(headers_view(headers@) =~= headers_view(before).push((name@, value@)));
        }
        Request { method, url, headers, body }
    }
}

} // verus!
