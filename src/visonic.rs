//! The panel's identity, its sessions, and the messages exchanged with the service.
use vstd::prelude::*;
use vstd::string::StringExecFns;

use crate::api::{
    headers_view, session_token_header, uri, uri_spec, user_token_header, Body, Method, Request,
    APP_TYPE, REST_VERSION, RES_ALARMS, RES_ALERTS, RES_AUTH, RES_DEVICES, RES_EVENTS,
    RES_LOCATIONS, RES_PANEL_INFO, RES_PANEL_LOGIN, RES_PROCESS_STATUS, RES_SET_STATE, RES_STATUS,
    RES_TROUBLES, RES_VERSIONS, RES_WAKEUP_SMS,
};

verus! {

/// The configured panel and the account that owns it.
pub struct Visonic {
    pub hostname: String,
    pub user_code: String,
    pub app_id: String,
    pub partition: i8,
    pub user_email: String,
    pub user_password: String,
    pub panel_id: String,
}

/// A logged-in session: the panel with its user token and session token.
pub struct AuthedVisonic {
    pub visonic: Visonic,
    pub user_token: String,
    pub session_token: String,
}

/// Account login body: credentials and application id.
pub struct ReqLogin {
    pub email: String,
    pub password: String,
    pub app_id: String,
}

/// Account login answer.
pub struct RespLogin {
    pub user_token: String,
}

/// Panel login body.
pub struct ReqPanelLogin {
    pub user_code: String,
    pub app_type: String,
    pub app_id: String,
    pub panel_serial: String,
}

/// Panel login answer.
pub struct ResPanelLogin {
    pub session_token: String,
}

/// The protocol versions the service reports.
pub struct RespVersion {
    pub rest_versions: Vec<String>,
}

/// What can go wrong while talking to the panel service.
pub enum VisonicErr {
    /// The service does not offer the protocol version; holds the list it reported.
    VersionNotSupported(String),
    /// A transport, status or decoding failure: HTTP status (0 if none) and message.
    HttpError(u16, String),
    /// The polled state change was not confirmed within the attempt budget.
    RetriesExhausted,
}

/// One partition of the panel, as reported by the status endpoint.
pub struct Partition {
    pub id: u16,
    pub state: String,
    pub status: String,
    pub ready: bool,
}

/// Panel status answer.
pub struct ResStatus {
    pub connected: bool,
    pub partitions: Vec<Partition>,
}

/// State change body: which partition, and the state asked for.
pub struct ReqSetState {
    pub partition: i16,
    pub state: String,
}

/// Answer to a state change: the token of the pending process.
pub struct ResProcessToken {
    pub process_token: String,
}

/// Status of one pending process on the service.
pub struct ResProcessStatus {
    pub token: String,
    pub status: String,
    pub error: Option<String>,
}

/// The views of a list of strings.
pub open spec fn strings_view(v: Seq<String>) -> Seq<Seq<char>> {
    v.map_values(|s: String| s@)
}

/// The text `{:?}` gives for a list of strings.
pub uninterp spec fn debug_list(v: Seq<Seq<char>>) -> Seq<char>;

/// Relies on std's `Debug` for `Vec<String>` (through `format!`): the text depends on
/// the strings alone.
#[verifier::external_body]
fn debug_text(v: &Vec<String>) -> (r: String)
    ensures
        r@ == debug_list(strings_view(v@)),
{
    format!("{:?}", v)
}

/// The reported list holds the supported protocol version.
pub open spec fn supports_version(versions: Seq<String>) -> bool {
    exists|i: int| 0 <= i < versions.len() && (#[trigger] versions[i])@ == REST_VERSION@
}

/// The status that marks a confirmed process.
pub open spec fn succeeded_status() -> Seq<char> {
    "succeeded"@
}

/// Some process in the list has succeeded.
pub open spec fn any_succeeded_spec(statuses: Seq<ResProcessStatus>) -> bool {
    exists|i: int|
        0 <= i < statuses.len() && (#[trigger] statuses[i]).status@ == succeeded_status()
}

/// Whether some process in `statuses` reports `succeeded`.
pub fn any_succeeded(statuses: &Vec<ResProcessStatus>) -> (r: bool)
    ensures
        r == any_succeeded_spec(statuses@),
{
    let target = String::from_str("succeeded");
    let mut i: usize = 0;
    while i < statuses.len()
        invariant
            0 <= i <= statuses@.len(),
            target@ == succeeded_status(),
            forall|j: int| 0 <= j < i ==> (#[trigger] statuses@[j]).status@ != succeeded_status(),
        decreases statuses@.len() - i,
    {
        if statuses[i].status == target {
            return true;
        }
        i = i + 1;
    }
    false
}

/// An unauthenticated GET of `url`.
pub open spec fn is_plain_get(r: Request, url: Seq<char>) -> bool {
    &&& r.method == Method::Get
    &&& r.url@ == url
    &&& r.headers@.len() == 0
    &&& r.body is Empty
}

/// A request carrying the session's two tokens.
pub open spec fn is_authed(r: Request, s: AuthedVisonic, method: Method, url: Seq<char>) -> bool {
    &&& r.method == method
    &&& r.url@ == url
    &&& headers_view(r.headers@) == seq![
        (user_token_header(), s.user_token@),
        (session_token_header(), s.session_token@),
    ]
}

/// `https://{host}/rest_api/version`, the one URL without a version segment.
pub open spec fn version_uri_spec(host: Seq<char>) -> Seq<char> {
    "https://"@ + host + "/rest_api"@ + RES_VERSIONS@
}

/// The request for the list of protocol versions of `v`'s host.
pub open spec fn is_version_request(r: Request, v: Visonic) -> bool {
    is_plain_get(r, version_uri_spec(v.hostname@))
}

/// The account login of `v`: its credentials, with no session headers.
pub open spec fn is_account_login(r: Request, v: Visonic) -> bool {
    &&& r.method == Method::Post
    &&& r.url@ == uri_spec(v.hostname@, RES_AUTH@)
    &&& r.headers@.len() == 0
    &&& r.body == Body::Login(
        ReqLogin { email: v.user_email, password: v.user_password, app_id: v.app_id },
    )
}

/// The panel login of `v`, sent with `user_token`.
pub open spec fn is_panel_login(r: Request, v: Visonic, user_token: Seq<char>) -> bool {
    &&& r.method == Method::Post
    &&& r.url@ == uri_spec(v.hostname@, RES_PANEL_LOGIN@)
    &&& headers_view(r.headers@) == seq![(user_token_header(), user_token)]
    &&& r.body matches Body::PanelLogin(b) && b.user_code == v.user_code && b.app_type@
        == APP_TYPE@ && b.app_id == v.app_id && b.panel_serial == v.panel_id
}

/// The character of decimal digit `d`.
pub open spec fn digit_char(d: nat) -> char {
    seq!['0', '1', '2', '3', '4', '5', '6', '7', '8', '9'][d as int]
}

/// Decimal notation of `n`, without leading zeros.
pub open spec fn decimal(n: nat) -> Seq<char>
    decreases n,
{
    if n < 10 {
        seq![digit_char(n)]
    } else {
        decimal(n / 10).push(digit_char(n % 10))
    }
}

fn digit_str(d: u16) -> (r: &'static str)
    requires
        d < 10,
    ensures
        r@ == seq![digit_char(d as nat)],
{
    let r = match d {
        0 => "0",
        1 => "1",
        2 => "2",
        3 => "3",
        4 => "4",
        5 => "5",
        6 => "6",
        7 => "7",
        8 => "8",
        _ => "9",
    };
    proof {
        reveal_strlit("0");
        reveal_strlit("1");
        reveal_strlit("2");
        reveal_strlit("3");
        reveal_strlit("4");
        reveal_strlit("5");
        reveal_strlit("6");
        reveal_strlit("7");
        reveal_strlit("8");
        reveal_strlit("9");
        assert(r@ =~= seq![digit_char(d as nat)]);
    }
    r
}

/// Decimal notation of `n`.
pub fn decimal_text(n: u16) -> (r: String)
    ensures
        r@ == decimal(n as nat),
    decreases n,
{
    if n < 10 {
        String::from_str(digit_str(n))
    } else {
        let head = decimal_text(n / 10);
        let r = head.concat(digit_str(n % 10));
        assert(r@ =~= decimal(n as nat));
        r
    }
}

/// The text describing an error.
pub open spec fn error_message(e: VisonicErr) -> Seq<char> {
    match e {
        VisonicErr::VersionNotSupported(v) => "VisonicErr::VersionNotSupported("@ + v@ + ")"@,
        VisonicErr::HttpError(code, m) => "VisonicErr::HttpError("@ + decimal(code as nat)
            + ", "@ + m@ + ")"@,
        VisonicErr::RetriesExhausted => "VisonicErr::RetriesExhausted"@,
    }
}

impl VisonicErr {
    /// Describes the error: its variant and what it carries.
    pub fn to_string(&self) -> (r: String)
        ensures
            r@ == error_message(*self),
    {
        match self {
            VisonicErr::VersionNotSupported(v) => {
                String::from_str("VisonicErr::VersionNotSupported(").concat(v.as_str()).concat(
                    ")",
                )
            },
            VisonicErr::HttpError(code, m) => {
                String::from_str("VisonicErr::HttpError(").concat(
                    decimal_text(*code).as_str(),
                ).concat(", ").concat(m.as_str()).concat(")")
            },
            VisonicErr::RetriesExhausted => String::from_str("VisonicErr::RetriesExhausted"),
        }
    }
}

impl Visonic {
    /// The request for the list of protocol versions.
    pub fn version(&self) -> (r: Request)
        ensures
            is_version_request(r, *self),
    {
        let url = String::from_str("https://");
        let url = url.concat(self.hostname.as_str());
        let url = url.concat("/rest_api");
        let url = url.concat(RES_VERSIONS);
        Request::new(Method::Get, url, Body::Empty)
    }

    /// Accepts the reported versions when they hold the supported one; otherwise the
    /// error carries the whole list.
    pub fn check_ver(&self, reported: &RespVersion) -> (r: Result<(), VisonicErr>)
        ensures
            supports_version(reported.rest_versions@) ==> r is Ok,
            !supports_version(reported.rest_versions@) ==> (r matches Err(
                VisonicErr::VersionNotSupported(list),
            ) && list@ == debug_list(strings_view(reported.rest_versions@))),
    {
        let wanted = String::from_str(REST_VERSION);
        let mut i: usize = 0;
        while i < reported.rest_versions.len()
            invariant
                0 <= i <= reported.rest_versions@.len(),
                wanted@ == REST_VERSION@,
                forall|j: int|
                    0 <= j < i ==> (#[trigger] reported.rest_versions@[j])@ != REST_VERSION@,
            decreases reported.rest_versions@.len() - i,
        {
            if reported.rest_versions[i] == wanted {
                assert(reported.rest_versions@[i as int]@ == REST_VERSION@);
                return Ok(());
            }
            i = i + 1;
        }
        Err(VisonicErr::VersionNotSupported(debug_text(&reported.rest_versions)))
    }

    /// The account login request: credentials, no session headers.
    pub fn account_login(&self) -> (r: Request)
        ensures
            is_account_login(r, *self),
    {
        let req = ReqLogin {
            email: self.user_email.clone(),
            password: self.user_password.clone(),
            app_id: self.app_id.clone(),
        };
        Request::new(Method::Post, uri(&self.hostname, RES_AUTH), Body::Login(req))
    }

    /// The panel login request, sent with the user token.
    pub fn panel_login(&self, user_token: &String) -> (r: Request)
        ensures
            is_panel_login(r, *self, user_token@),
    {
        let req = ReqPanelLogin {
            user_code: self.user_code.clone(),
            app_type: String::from_str(APP_TYPE),
            app_id: self.app_id.clone(),
            panel_serial: self.panel_id.clone(),
        };
        let r = Request::new(
            Method::Post,
            uri(&self.hostname, RES_PANEL_LOGIN),
            Body::PanelLogin(req),
        );
        let r = r.with_user_token(Some(user_token.clone()));
        assert(headers_view(r.headers@) =~= seq![(user_token_header(), user_token@)]);
        r
    }

    /// The session that the two login answers open.
    pub fn login(self, account: RespLogin, panel: ResPanelLogin) -> (r: AuthedVisonic)
        ensures
            r.visonic == self,
            r.user_token == account.user_token,
            r.session_token == panel.session_token,
    {
        AuthedVisonic {
            visonic: self,
            user_token: account.user_token,
            session_token: panel.session_token,
        }
    }
}

/// `https://{host}/rest_api/{version}/process_status?process_tokens={token}`.
pub open spec fn process_status_uri_spec(host: Seq<char>, token: Seq<char>) -> Seq<char> {
    uri_spec(host, RES_PROCESS_STATUS@) + "?process_tokens="@ + token
}

/// A state change request of `session` asking for `state` on all partitions.
pub open spec fn is_set_state(r: Request, session: AuthedVisonic, state: Seq<char>) -> bool {
    &&& is_authed(r, session, Method::Post, uri_spec(session.visonic.hostname@, RES_SET_STATE@))
    &&& r.body matches Body::SetState(b) && b.partition == -1 && b.state@ == state
}

/// A poll of the process `token` within `session`.
pub open spec fn is_process_poll(r: Request, session: AuthedVisonic, token: Seq<char>) -> bool {
    &&& is_authed(
        r,
        session,
        Method::Get,
        process_status_uri_spec(session.visonic.hostname@, token),
    )
    &&& r.body is Empty
}

/// An authenticated GET of `endpoint` within `session`.
pub open spec fn is_authed_get(r: Request, session: AuthedVisonic, endpoint: Seq<char>) -> bool {
    &&& is_authed(r, session, Method::Get, uri_spec(session.visonic.hostname@, endpoint))
    &&& r.body is Empty
}

impl AuthedVisonic {
    fn authed(&self, r: Request) -> (out: Request)
        requires
            r.headers@.len() == 0,
        ensures
            out.method == r.method,
            out.url == r.url,
            out.body == r.body,
            headers_view(out.headers@) == seq![
                (user_token_header(), self.user_token@),
                (session_token_header(), self.session_token@),
            ],
    {
        let out = r.with_user_session_token(self.user_token.clone(), self.session_token.clone());
        assert(headers_view(out.headers@) =~= seq![
            (user_token_header(), self.user_token@),
            (session_token_header(), self.session_token@),
        ]);
        out
    }

    /// The request that asks the panel for `state` on all partitions.
    pub fn set_status(&self, state: &str) -> (r: Request)
        ensures
            is_set_state(r, *self, state@),
    {
        let body = ReqSetState { partition: -1, state: String::from_str(state) };
        let r = Request::new(
            Method::Post,
            uri(&self.visonic.hostname, RES_SET_STATE),
            Body::SetState(body),
        );
        self.authed(r)
    }

    /// Full arming (`AWAY`).
    pub fn arm(&self) -> (r: Request)
        ensures
            is_set_state(r, *self, "AWAY"@),
    {
        self.set_status("AWAY")
    }

    /// Disarming (`DISARM`).
    pub fn disarm(&self) -> (r: Request)
        ensures
            is_set_state(r, *self, "DISARM"@),
    {
        self.set_status("DISARM")
    }

    /// Night arming (`NIGHT`).
    pub fn arm_night(&self) -> (r: Request)
        ensures
            is_set_state(r, *self, "NIGHT"@),
    {
        self.set_status("NIGHT")
    }

    /// Home arming (`STAY`).
    pub fn arm_stay(&self) -> (r: Request)
        ensures
            is_set_state(r, *self, "STAY"@),
    {
        self.set_status("STAY")
    }

    /// One poll of the status of process `token`.
    pub fn process_status_once(&self, token: &ResProcessToken) -> (r: Request)
        ensures
            is_process_poll(r, *self, token.process_token@),
    {
        let url = uri(&self.visonic.hostname, RES_PROCESS_STATUS);
        let url = url.concat("?process_tokens=");
        let url = url.concat(token.process_token.as_str());
        self.authed(Request::new(Method::Get, url, Body::Empty))
    }

    /// An authenticated GET of `endpoint`.
    pub fn get_text(&self, endpoint: &str) -> (r: Request)
        ensures
            is_authed_get(r, *self, endpoint@),
    {
        self.authed(Request::new(Method::Get, uri(&self.visonic.hostname, endpoint), Body::Empty))
    }

    /// The panel status, to be read as JSON.
    pub fn status(&self) -> (r: Request)
        ensures
            is_authed_get(r, *self, RES_STATUS@),
    {
        self.get_text(RES_STATUS)
    }

    /// The panel status, to be read as text.
    pub fn status_txt(&self) -> (r: Request)
        ensures
            is_authed_get(r, *self, RES_STATUS@),
    {
        self.get_text(RES_STATUS)
    }

    pub fn events(&self) -> (r: Request)
        ensures
            is_authed_get(r, *self, RES_EVENTS@),
    {
        self.get_text(RES_EVENTS)
    }

    pub fn alarms(&self) -> (r: Request)
        ensures
            is_authed_get(r, *self, RES_ALARMS@),
    {
        self.get_text(RES_ALARMS)
    }

    pub fn alerts(&self) -> (r: Request)
        ensures
            is_authed_get(r, *self, RES_ALERTS@),
    {
        self.get_text(RES_ALERTS)
    }

    pub fn troubles(&self) -> (r: Request)
        ensures
            is_authed_get(r, *self, RES_TROUBLES@),
    {
        self.get_text(RES_TROUBLES)
    }

    pub fn panel_info(&self) -> (r: Request)
        ensures
            is_authed_get(r, *self, RES_PANEL_INFO@),
    {
        self.get_text(RES_PANEL_INFO)
    }

    pub fn wakeup_sms(&self) -> (r: Request)
        ensures
            is_authed_get(r, *self, RES_WAKEUP_SMS@),
    {
        self.get_text(RES_WAKEUP_SMS)
    }

    pub fn devices(&self) -> (r: Request)
        ensures
            is_authed_get(r, *self, RES_DEVICES@),
    {
        self.get_text(RES_DEVICES)
    }

    pub fn locations(&self) -> (r: Request)
        ensures
            is_authed_get(r, *self, RES_LOCATIONS@),
    {
        self.get_text(RES_LOCATIONS)
    }
}

} // verus!
