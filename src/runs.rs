//! Whole runs of the dispatch machine, and what holds of every one of them.
use vstd::prelude::*;

use crate::api::Body;
use crate::dispatch::{
    command_of, expects, fails, publishes, started, transition, Action, Dispatch, Event, Stage,
};
use crate::retry::{POLL_ATTEMPTS, RETRY_DELAY_SECS};
use crate::visonic::{
    any_succeeded_spec, is_process_poll, supports_version, AuthedVisonic, ResProcessToken, Visonic,
};

verus! {

/// `states[0]` went through `events`, one by one, into `states[i + 1]`, asking for
/// `actions[i]` on the way.
pub open spec fn is_run(states: Seq<Dispatch>, events: Seq<Event>, actions: Seq<Action>) -> bool {
    &&& states.len() == events.len() + 1
    &&& actions.len() == events.len()
    &&& forall|i: int|
        0 <= i < events.len() ==> transition(
            #[trigger] states[i],
            events[i],
            states[i + 1],
            actions[i],
        )
}

/// An answer that ends the login: a transport error at any of its three calls, or a
/// version list without the supported version.
pub open spec fn login_fails(e: Event) -> bool {
    match e {
        Event::Versions(Ok(v)) => !supports_version(v.rest_versions@),
        Event::Versions(Err(_)) => true,
        Event::UserToken(Err(_)) => true,
        Event::SessionToken(Err(_)) => true,
        _ => false,
    }
}

/// `a` asks for a state change.
pub open spec fn is_state_change(a: Action) -> bool {
    a matches Action::Send(r) && r.body is SetState
}

/// The session a stage holds, if it holds one.
pub open spec fn session_of(s: Stage) -> Option<AuthedVisonic> {
    match s {
        Stage::SettingState { session } => Some(session),
        Stage::Polling { session, .. } => Some(session),
        Stage::Waiting { session, .. } => Some(session),
        _ => None,
    }
}

/// A poll answer that confirms the change.
pub open spec fn confirms(e: Event) -> bool {
    e matches Event::Statuses(Ok(l)) && any_succeeded_spec(l@)
}

/// A known command whose login succeeds, whose state change is accepted, and whose first
/// poll already reports success, asks for its own state and publishes its own name.
pub proof fn lemma_confirmed_command_publishes_name(
    text: Seq<char>,
    visonic: Visonic,
    start: Action,
    states: Seq<Dispatch>,
    events: Seq<Event>,
    actions: Seq<Action>,
)
    requires
        !(command_of(text) is Unknown),
        started(text, visonic, states[0], start),
        is_run(states, events, actions),
        events.len() == 5,
        events[0] matches Event::Versions(Ok(v)) && supports_version(v.rest_versions@),
        events[1] matches Event::UserToken(Ok(_)),
        events[2] matches Event::SessionToken(Ok(_)),
        events[3] matches Event::ProcessToken(Ok(_)),
        confirms(events[4]),
    ensures
        actions[2] matches Action::Send(r) && r.body matches Body::SetState(b)
            && b.state@ == text,
        publishes(actions[4], text),
        states[5].stage is Done,
{
    assert(transition(states[0], events[0], states[1], actions[0]));
    assert(transition(states[1], events[1], states[2], actions[1]));
    assert(transition(states[2], events[2], states[3], actions[2]));
    assert(transition(states[3], events[3], states[4], actions[3]));
    assert(transition(states[4], events[4], states[5], actions[4]));
}

/// When the login of a known command fails at any of its stages, the command publishes
/// `ERROR` right there, takes no further event, and never asks for a state change.
pub proof fn lemma_failed_login_publishes_error(
    text: Seq<char>,
    visonic: Visonic,
    start: Action,
    states: Seq<Dispatch>,
    events: Seq<Event>,
    actions: Seq<Action>,
    k: int,
)
    requires
        !(command_of(text) is Unknown),
        started(text, visonic, states[0], start),
        is_run(states, events, actions),
        0 <= k < events.len(),
        login_fails(events[k]),
    ensures
        events.len() == k + 1,
        fails(states[k + 1], actions[k]),
        !is_state_change(start),
        forall|i: int| 0 <= i < actions.len() ==> !is_state_change(#[trigger] actions[i]),
{
    let n = events.len();
    assert(transition(states[0], events[0], states[1], actions[0]));
    if n > 1 {
        assert(transition(states[1], events[1], states[2], actions[1]));
    }
    if n > 2 {
        assert(transition(states[2], events[2], states[3], actions[2]));
    }
    if n > 3 {
        assert(transition(states[3], events[3], states[4], actions[3]));
    }
}

/// Every stage that holds a session holds the tokens that this run's own account and
/// panel logins returned: a command never reuses the tokens of another.
pub proof fn lemma_session_from_own_login(
    text: Seq<char>,
    visonic: Visonic,
    start: Action,
    states: Seq<Dispatch>,
    events: Seq<Event>,
    actions: Seq<Action>,
)
    requires
        started(text, visonic, states[0], start),
        is_run(states, events, actions),
    ensures
        session_of(states[0].stage) is None,
        forall|i: int|
            0 <= i < states.len() && (#[trigger] session_of(states[i].stage)) is Some ==> {
                &&& events[1] matches Event::UserToken(Ok(l)) && session_of(
                    states[i].stage,
                )->Some_0.user_token == l.user_token
                &&& events[2] matches Event::SessionToken(Ok(p)) && session_of(
                    states[i].stage,
                )->Some_0.session_token == p.session_token
            },
{
    assert forall|i: int|
        0 <= i < states.len() && (#[trigger] session_of(states[i].stage)) is Some implies {
        &&& events[1] matches Event::UserToken(Ok(l)) && session_of(states[i].stage)->Some_0.user_token
            == l.user_token
        &&& events[2] matches Event::SessionToken(Ok(p)) && session_of(
            states[i].stage,
        )->Some_0.session_token == p.session_token
    } by {
        lemma_login_progress(text, visonic, start, states, events, actions, i);
    }
}

/// Where a run stands after `i` events, as far as its login goes.
pub open spec fn login_progress(states: Seq<Dispatch>, events: Seq<Event>, i: int) -> bool {
    match states[i].stage {
        Stage::CheckingVersion { .. } => i == 0,
        Stage::AccountLogin { .. } => i == 1,
        Stage::PanelLogin { user_token, .. } => {
            &&& i == 2
            &&& events[1] matches Event::UserToken(Ok(l)) && l.user_token == user_token
        },
        Stage::Done { .. } => true,
        _ => {
            &&& i >= 3
            &&& events[1] matches Event::UserToken(Ok(l)) && session_of(
                states[i].stage,
            )->Some_0.user_token == l.user_token
            &&& events[2] matches Event::SessionToken(Ok(p)) && session_of(
                states[i].stage,
            )->Some_0.session_token == p.session_token
        },
    }
}

proof fn lemma_login_progress(
    text: Seq<char>,
    visonic: Visonic,
    start: Action,
    states: Seq<Dispatch>,
    events: Seq<Event>,
    actions: Seq<Action>,
    i: int,
)
    requires
        started(text, visonic, states[0], start),
        is_run(states, events, actions),
        0 <= i < states.len(),
    ensures
        login_progress(states, events, i),
    decreases i,
{
    if i > 0 {
        lemma_login_progress(text, visonic, start, states, events, actions, i - 1);
        assert(transition(states[i - 1], events[i - 1], states[i], actions[i - 1]));
    }
}

/// Where a run that entered polling stands after `i` events: polls sit at odd positions,
/// delays at even ones, and the budget is spent after the fifth poll.
pub open spec fn poll_progress(
    states: Seq<Dispatch>,
    actions: Seq<Action>,
    session: AuthedVisonic,
    token: ResProcessToken,
    i: int,
) -> bool {
    &&& match states[i].stage {
        Stage::Polling { session: s, token: t, retry } => {
            &&& s == session
            &&& t == token
            &&& retry.limit == POLL_ATTEMPTS
            &&& i == 2 * retry.attempts + 1
        },
        Stage::Waiting { session: s, token: t, retry } => {
            &&& s == session
            &&& t == token
            &&& retry.limit == POLL_ATTEMPTS
            &&& i == 2 * retry.attempts
        },
        Stage::Done { .. } => i == 2 * POLL_ATTEMPTS && fails(states[i], actions[i - 1]),
        _ => false,
    }
    &&& forall|j: int|
        0 <= j < i ==> {
            &&& j % 2 == 0 ==> (#[trigger] actions[j] matches Action::Send(r) && is_process_poll(
                r,
                session,
                token.process_token@,
            ))
            &&& (j % 2 == 1 && j < 2 * POLL_ATTEMPTS - 1) ==> actions[j] == Action::Sleep(
                RETRY_DELAY_SECS,
            )
        }
}

/// After the state change is accepted, a run in which no poll confirms it polls the
/// process at most five times, one second apart, and once the fifth poll has failed too
/// it publishes `ERROR` and ends.
pub proof fn lemma_unconfirmed_change_exhausts_retries(
    session: AuthedVisonic,
    token: ResProcessToken,
    states: Seq<Dispatch>,
    events: Seq<Event>,
    actions: Seq<Action>,
)
    requires
        states[0].stage == (Stage::SettingState { session }),
        is_run(states, events, actions),
        events.len() >= 1,
        events[0] == Event::ProcessToken(Ok(token)),
        forall|i: int| 0 <= i < events.len() ==> !confirms(#[trigger] events[i]),
    ensures
        events.len() <= 2 * POLL_ATTEMPTS,
        forall|j: int|
            0 <= j < events.len() && j % 2 == 0 ==> (#[trigger] actions[j] matches Action::Send(
                r,
            ) && is_process_poll(r, session, token.process_token@)),
        forall|j: int|
            0 <= j < events.len() && j % 2 == 1 && j < 2 * POLL_ATTEMPTS - 1 ==> #[trigger] actions[j]
                == Action::Sleep(RETRY_DELAY_SECS),
        states[events.len() as int].stage is Done <==> events.len() == 2 * POLL_ATTEMPTS,
        events.len() == 2 * POLL_ATTEMPTS ==> fails(
            states[2 * POLL_ATTEMPTS],
            actions[2 * POLL_ATTEMPTS - 1],
        ),
{
    let n = events.len() as int;
    lemma_poll_progress(session, token, states, events, actions, n);
    if n > 2 * POLL_ATTEMPTS {
        lemma_poll_progress(session, token, states, events, actions, 2 * POLL_ATTEMPTS as int);
        assert(transition(
            states[2 * POLL_ATTEMPTS as int],
            events[2 * POLL_ATTEMPTS as int],
            states[2 * POLL_ATTEMPTS + 1],
            actions[2 * POLL_ATTEMPTS as int],
        ));
    }
    assert forall|j: int| 0 <= j < n && j % 2 == 0 implies (#[trigger] actions[j] matches Action::Send(
        r,
    ) && is_process_poll(r, session, token.process_token@)) by {}
    assert forall|j: int|
        0 <= j < n && j % 2 == 1 && j < 2 * POLL_ATTEMPTS - 1 implies #[trigger] actions[j]
        == Action::Sleep(RETRY_DELAY_SECS) by {}
}

proof fn lemma_poll_progress(
    session: AuthedVisonic,
    token: ResProcessToken,
    states: Seq<Dispatch>,
    events: Seq<Event>,
    actions: Seq<Action>,
    i: int,
)
    requires
        states[0].stage == (Stage::SettingState { session }),
        is_run(states, events, actions),
        events.len() >= 1,
        events[0] == Event::ProcessToken(Ok(token)),
        forall|k: int| 0 <= k < events.len() ==> !confirms(#[trigger] events[k]),
        1 <= i < states.len(),
    ensures
        poll_progress(states, actions, session, token, i),
    decreases i,
{
    assert(transition(states[i - 1], events[i - 1], states[i], actions[i - 1]));
    if i > 1 {
        lemma_poll_progress(session, token, states, events, actions, i - 1);
        assert(!confirms(events[i - 1]));
    }
}

/// A poll answer that confirms the change ends the command at once with its name
/// published: no event, and so no further poll, follows it.
pub proof fn lemma_confirmation_stops_polling(
    states: Seq<Dispatch>,
    events: Seq<Event>,
    actions: Seq<Action>,
    k: int,
)
    requires
        is_run(states, events, actions),
        0 <= k < events.len(),
        states[k].stage is Polling,
        confirms(events[k]),
    ensures
        publishes(actions[k], states[k].command.name_spec()),
        states[k + 1].stage is Done,
        events.len() == k + 1,
{
    assert(transition(states[k], events[k], states[k + 1], actions[k]));
    if events.len() > k + 1 {
        assert(transition(states[k + 1], events[k + 1], states[k + 2], actions[k + 1]));
    }
}

/// Text that names no command publishes nothing, not even `ERROR`, and takes no event.
pub proof fn lemma_unknown_text_publishes_nothing(
    text: Seq<char>,
    visonic: Visonic,
    d: Dispatch,
    a: Action,
    e: Event,
)
    requires
        command_of(text) is Unknown,
        started(text, visonic, d, a),
    ensures
        a is Finish,
        !expects(d, e),
{
}

} // verus!
