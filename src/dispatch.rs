//! One inbound command, from its text to the outcome published back: a state machine
//! that names each HTTP call or delay it needs and is fed what came of it.
use vstd::prelude::*;
use vstd::string::StringExecFns;

use crate::api::Request;
use crate::retry::{BoundedRetry, RetryStep, POLL_ATTEMPTS, RETRY_DELAY_SECS};
use crate::visonic::{
    any_succeeded, any_succeeded_spec, debug_list, strings_view, is_account_login, is_panel_login, is_process_poll,
    is_set_state, is_version_request, supports_version, AuthedVisonic, ResPanelLogin,
    ResProcessStatus, ResProcessToken, RespLogin, RespVersion, Visonic, VisonicErr,
};

verus! {

/// The commands the channel understands.
#[derive(PartialEq, Eq, Structural, Clone, Copy, Debug)]
pub enum Command {
    Away,
    Disarm,
    Night,
    Stay,
    Unknown,
}

/// The command that `text` names.
pub open spec fn command_of(text: Seq<char>) -> Command {
    if text == "AWAY"@ {
        Command::Away
    } else if text == "DISARM"@ {
        Command::Disarm
    } else if text == "NIGHT"@ {
        Command::Night
    } else if text == "STAY"@ {
        Command::Stay
    } else {
        Command::Unknown
    }
}

/// The literal published when a command could not be carried out.
pub open spec fn error_text() -> Seq<char> {
    "ERROR"@
}

impl Command {
    /// The command's name, which is also the panel state it asks for.
    pub open spec fn name_spec(self) -> Seq<char> {
        match self {
            Command::Away => "AWAY"@,
            Command::Disarm => "DISARM"@,
            Command::Night => "NIGHT"@,
            Command::Stay => "STAY"@,
            Command::Unknown => Seq::empty(),
        }
    }

    /// Reads a command from inbound text; anything but the four names is `Unknown`.
    pub fn parse(text: &str) -> (c: Command)
        ensures
            c == command_of(text@),
    {
        let t = String::from_str(text);
        if t == String::from_str("AWAY") {
            Command::Away
        } else if t == String::from_str("DISARM") {
            Command::Disarm
        } else if t == String::from_str("NIGHT") {
            Command::Night
        } else if t == String::from_str("STAY") {
            Command::Stay
        } else {
            Command::Unknown
        }
    }

    /// The command's name.
    pub fn name(&self) -> (r: String)
        ensures
            r@ == self.name_spec(),
    {
        match self {
            Command::Away => String::from_str("AWAY"),
            Command::Disarm => String::from_str("DISARM"),
            Command::Night => String::from_str("NIGHT"),
            Command::Stay => String::from_str("STAY"),
            Command::Unknown => String::new(),
        }
    }
}

/// The outcome to publish for command `cmd`: its name on success, `ERROR` on failure.
pub fn log_unwrap(cmd: String, r: Result<(), VisonicErr>) -> (out: Option<String>)
    ensures
        r is Ok ==> out == Some(cmd),
        r is Err ==> (out matches Some(s) && s@ == error_text()),
{
    match r {
        Ok(_) => Some(cmd),
        Err(_) => Some(String::from_str("ERROR")),
    }
}

/// Where a command stands, with what the next step needs.
pub enum Stage {
    /// Waiting for the list of protocol versions.
    CheckingVersion { visonic: Visonic },
    /// Waiting for the account login answer.
    AccountLogin { visonic: Visonic },
    /// Waiting for the panel login answer.
    PanelLogin { visonic: Visonic, user_token: String },
    /// Logged in; waiting for the answer to the state change.
    SettingState { session: AuthedVisonic },
    /// Waiting for the answer to a poll of the process.
    Polling { session: AuthedVisonic, token: ResProcessToken, retry: BoundedRetry },
    /// Waiting out the delay before the next poll.
    Waiting { session: AuthedVisonic, token: ResProcessToken, retry: BoundedRetry },
    /// Nothing more to do; holds the error that ended the command, if one did.
    Done { cause: Option<VisonicErr> },
}

/// What came of the last action.
pub enum Event {
    Versions(Result<RespVersion, VisonicErr>),
    UserToken(Result<RespLogin, VisonicErr>),
    SessionToken(Result<ResPanelLogin, VisonicErr>),
    ProcessToken(Result<ResProcessToken, VisonicErr>),
    Statuses(Result<Vec<ResProcessStatus>, VisonicErr>),
    Elapsed,
}

/// What the runner is to do next.
pub enum Action {
    /// Perform this HTTP call and feed back its answer.
    Send(Request),
    /// Wait until this many seconds have passed since the last request went out, then feed
    /// back `Elapsed`.
    Sleep(u64),
    /// Publish this outcome; the command is over.
    Publish(String),
    /// The command is over and nothing is published.
    Finish,
}

/// A command in progress.
pub struct Dispatch {
    pub command: Command,
    pub stage: Stage,
}

/// `a` publishes exactly `text`.
pub open spec fn publishes(a: Action, text: Seq<char>) -> bool {
    a matches Action::Publish(s) && s@ == text
}

/// What a fresh dispatch of `text` for the panel `visonic` starts with.
pub open spec fn started(text: Seq<char>, visonic: Visonic, d: Dispatch, a: Action) -> bool {
    &&& d.command == command_of(text)
    &&& if d.command is Unknown {
        d.stage == (Stage::Done { cause: None }) && a is Finish
    } else {
        &&& d.stage == (Stage::CheckingVersion { visonic })
        &&& a matches Action::Send(r) && is_version_request(r, visonic)
    }
}

/// The stage is one a running command can be in.
pub open spec fn well_formed(d: Dispatch) -> bool {
    match d.stage {
        Stage::Done { .. } => true,
        Stage::Polling { retry, .. } => {
            &&& !(d.command is Unknown)
            &&& retry.limit == POLL_ATTEMPTS
            &&& retry.attempts < retry.limit
        },
        Stage::Waiting { retry, .. } => {
            &&& !(d.command is Unknown)
            &&& retry.limit == POLL_ATTEMPTS
            &&& retry.attempts < retry.limit
        },
        _ => !(d.command is Unknown),
    }
}

/// Event `e` is an answer to what stage `d` waits for.
pub open spec fn expects(d: Dispatch, e: Event) -> bool {
    match d.stage {
        Stage::CheckingVersion { .. } => e is Versions,
        Stage::AccountLogin { .. } => e is UserToken,
        Stage::PanelLogin { .. } => e is SessionToken,
        Stage::SettingState { .. } => e is ProcessToken,
        Stage::Polling { .. } => e is Statuses,
        Stage::Waiting { .. } => e is Elapsed,
        Stage::Done { .. } => false,
    }
}

/// The command ends here, publishing `ERROR`.
pub open spec fn fails(n: Dispatch, a: Action) -> bool {
    n.stage is Done && publishes(a, error_text())
}

/// The command ends here, publishing `ERROR`, because of `cause`.
pub open spec fn fails_with(n: Dispatch, a: Action, cause: VisonicErr) -> bool {
    n.stage == (Stage::Done { cause: Some(cause) }) && publishes(a, error_text())
}

/// One step: from `d`, on event `e`, the machine moves to `n` and asks for `a`.
pub open spec fn transition(d: Dispatch, e: Event, n: Dispatch, a: Action) -> bool {
    &&& expects(d, e)
    &&& n.command == d.command
    &&& match d.stage {
        Stage::CheckingVersion { visonic } => match e {
            Event::Versions(Ok(v)) => if supports_version(v.rest_versions@) {
                &&& n.stage == (Stage::AccountLogin { visonic })
                &&& a matches Action::Send(r) && is_account_login(r, visonic)
            } else {
                &&& fails(n, a)
                &&& n.stage matches Stage::Done { cause: Some(VisonicErr::VersionNotSupported(list)) }
                    && list@ == debug_list(strings_view(v.rest_versions@))
            },
            Event::Versions(Err(cause)) => fails_with(n, a, cause),
            _ => false,
        },
        Stage::AccountLogin { visonic } => match e {
            Event::UserToken(Ok(l)) => {
                &&& n.stage == (Stage::PanelLogin { visonic, user_token: l.user_token })
                &&& a matches Action::Send(r) && is_panel_login(r, visonic, l.user_token@)
            },
            Event::UserToken(Err(cause)) => fails_with(n, a, cause),
            _ => false,
        },
        Stage::PanelLogin { visonic, user_token } => match e {
            Event::SessionToken(Ok(p)) => {
                let session = AuthedVisonic {
                    visonic,
                    user_token,
                    session_token: p.session_token,
                };
                &&& n.stage == (Stage::SettingState { session })
                &&& a matches Action::Send(r) && is_set_state(r, session, d.command.name_spec())
            },
            Event::SessionToken(Err(cause)) => fails_with(n, a, cause),
            _ => false,
        },
        Stage::SettingState { session } => match e {
            Event::ProcessToken(Ok(t)) => {
                &&& n.stage == (Stage::Polling {
                    session,
                    token: t,
                    retry: BoundedRetry { limit: POLL_ATTEMPTS, attempts: 0 },
                })
                &&& a matches Action::Send(r) && is_process_poll(r, session, t.process_token@)
            },
            Event::ProcessToken(Err(cause)) => fails_with(n, a, cause),
            _ => false,
        },
        Stage::Polling { session, token, retry } => {
            let satisfied = e matches Event::Statuses(Ok(l)) && any_succeeded_spec(l@);
            if satisfied {
                n.stage == (Stage::Done { cause: None }) && publishes(a, d.command.name_spec())
            } else if retry.attempts + 1 < retry.limit {
                &&& n.stage == (Stage::Waiting {
                    session,
                    token,
                    retry: BoundedRetry { limit: retry.limit, attempts: (retry.attempts + 1) as u8 },
                })
                &&& a == Action::Sleep(RETRY_DELAY_SECS)
            } else {
                fails_with(n, a, VisonicErr::RetriesExhausted)
            }
        },
        Stage::Waiting { session, token, retry } => {
            &&& n.stage == (Stage::Polling { session, token, retry })
            &&& a matches Action::Send(r) && is_process_poll(r, session, token.process_token@)
        },
        Stage::Done { .. } => false,
    }
}

fn failed(command: Command, cause: VisonicErr) -> (r: (Dispatch, Action))
    ensures
        r.0.command == command,
        fails_with(r.0, r.1, cause),
{
    (
        Dispatch { command, stage: Stage::Done { cause: Some(cause) } },
        Action::Publish(String::from_str("ERROR")),
    )
}

/// Starts handling the inbound text `command` for the panel `visonic`: a known command
/// begins a fresh login, anything else ends at once with nothing to publish.
pub fn dispatch_command(command: &str, visonic: Visonic) -> (r: (Dispatch, Action))
    ensures
        started(command@, visonic, r.0, r.1),
        well_formed(r.0),
{
    let c = Command::parse(command);
    match c {
        Command::Unknown => (Dispatch { command: c, stage: Stage::Done { cause: None } }, Action::Finish),
        _ => {
            let req = visonic.version();
            (Dispatch { command: c, stage: Stage::CheckingVersion { visonic } }, Action::Send(req))
        },
    }
}

impl Dispatch {
    /// Whether `e` answers what this dispatch waits for.
    pub fn expects(&self, e: &Event) -> (r: bool)
        ensures
            r == expects(*self, *e),
    {
        match (&self.stage, e) {
            (Stage::CheckingVersion { .. }, Event::Versions(_)) => true,
            (Stage::AccountLogin { .. }, Event::UserToken(_)) => true,
            (Stage::PanelLogin { .. }, Event::SessionToken(_)) => true,
            (Stage::SettingState { .. }, Event::ProcessToken(_)) => true,
            (Stage::Polling { .. }, Event::Statuses(_)) => true,
            (Stage::Waiting { .. }, Event::Elapsed) => true,
            _ => false,
        }
    }

    /// Whether the stage is one a running command can be in.
    pub fn is_well_formed(&self) -> (r: bool)
        ensures
            r == well_formed(*self),
    {
        let known = match self.command {
            Command::Unknown => false,
            _ => true,
        };
        match &self.stage {
            Stage::Done { .. } => true,
            Stage::Polling { retry, .. } => known && retry.limit == POLL_ATTEMPTS
                && retry.attempts < retry.limit,
            Stage::Waiting { retry, .. } => known && retry.limit == POLL_ATTEMPTS
                && retry.attempts < retry.limit,
            _ => known,
        }
    }

    /// Whether the command is over.
    pub fn is_done(&self) -> (r: bool)
        ensures
            r == (self.stage is Done),
    {
        match self.stage {
            Stage::Done { .. } => true,
            _ => false,
        }
    }

    /// Feeds the answer `e` to the last action and returns the next stage and action.
    pub fn step(self, e: Event) -> (r: (Dispatch, Action))
        requires
            well_formed(self),
            expects(self, e),
        ensures
            transition(self, e, r.0, r.1),
            well_formed(r.0),
    {
        let command = self.command;
        match self.stage {
            Stage::CheckingVersion { visonic } => match e {
                Event::Versions(Ok(v)) => match visonic.check_ver(&v) {
                    Ok(()) => {
                        let req = visonic.account_login();
                        (Dispatch { command, stage: Stage::AccountLogin { visonic } }, Action::Send(req))
                    },
                    Err(cause) => failed(command, cause),
                },
                Event::Versions(Err(cause)) => failed(command, cause),
                _ => (Dispatch { command, stage: Stage::Done { cause: None } }, Action::Finish),
            },
            Stage::AccountLogin { visonic } => match e {
                Event::UserToken(Ok(l)) => {
                    let req = visonic.panel_login(&l.user_token);
                    (
                        Dispatch {
                            command,
                            stage: Stage::PanelLogin { visonic, user_token: l.user_token },
                        },
                        Action::Send(req),
                    )
                },
                Event::UserToken(Err(cause)) => failed(command, cause),
                _ => (Dispatch { command, stage: Stage::Done { cause: None } }, Action::Finish),
            },
            Stage::PanelLogin { visonic, user_token } => match e {
                Event::SessionToken(Ok(p)) => {
                    let session = visonic.login(RespLogin { user_token }, p);
                    let req = match command {
                        Command::Away => session.arm(),
                        Command::Disarm => session.disarm(),
                        Command::Night => session.arm_night(),
                        _ => session.arm_stay(),
                    };
                    (Dispatch { command, stage: Stage::SettingState { session } }, Action::Send(req))
                },
                Event::SessionToken(Err(cause)) => failed(command, cause),
                _ => (Dispatch { command, stage: Stage::Done { cause: None } }, Action::Finish),
            },
            Stage::SettingState { session } => match e {
                Event::ProcessToken(Ok(token)) => {
                    let (stage, action) = session.process_status(token);
                    (Dispatch { command, stage }, action)
                },
                Event::ProcessToken(Err(cause)) => failed(command, cause),
                _ => (Dispatch { command, stage: Stage::Done { cause: None } }, Action::Finish),
            },
            Stage::Polling { session, token, retry } => {
                let satisfied = match &e {
                    Event::Statuses(Ok(l)) => any_succeeded(l),
                    _ => false,
                };
                let mut retry = retry;
                match retry.record(satisfied) {
                    RetryStep::Accept => {
                        let out = log_unwrap(command.name(), Ok(()));
                        (Dispatch { command, stage: Stage::Done { cause: None } }, Action::Publish(out.unwrap()))
                    },
                    RetryStep::Wait => (
                        Dispatch { command, stage: Stage::Waiting { session, token, retry } },
                        Action::Sleep(RETRY_DELAY_SECS),
                    ),
                    RetryStep::Exhausted => failed(command, VisonicErr::RetriesExhausted),
                }
            },
            Stage::Waiting { session, token, retry } => {
                let req = session.process_status_once(&token);
                (Dispatch { command, stage: Stage::Polling { session, token, retry } }, Action::Send(req))
            },
            Stage::Done { cause } => (Dispatch { command, stage: Stage::Done { cause } }, Action::Finish),
        }
    }
}

impl AuthedVisonic {
    /// Starts polling the process `token` until the panel confirms it or the attempt
    /// budget runs out: the polling stage and its first poll.
    pub fn process_status(self, token: ResProcessToken) -> (r: (Stage, Action))
        ensures
            r.0 == (Stage::Polling {
                session: self,
                token,
                retry: BoundedRetry { limit: POLL_ATTEMPTS, attempts: 0 },
            }),
            r.1 matches Action::Send(req) && is_process_poll(req, self, token.process_token@),
    {
        let req = self.process_status_once(&token);
        (Stage::Polling { session: self, token, retry: BoundedRetry::new(POLL_ATTEMPTS) }, Action::Send(req))
    }
}

} // verus!
