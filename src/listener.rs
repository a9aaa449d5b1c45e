//! The one-shot callback listener as a state machine. The program binds the
//! port, waits for a connection, reads the request line and writes the reply;
//! the machine decides what each of those events leads to.

use vstd::prelude::*;
use vstd::string::*;
use crate::callback::{callback_outcome, code_in_request_line};
use crate::error::AuthError;

verus! {

/// The reply written to the browser once the code has arrived.
pub const SUCCESS_RESPONSE: &'static str = "HTTP/1.1 200 OK\r\n\r\nAuthorization successful! You can close this window.";

/// Where the listener stands.
pub enum ListenerState {
    /// Not yet bound.
    Idle,
    /// Bound, waiting for the one connection it accepts.
    Listening,
    /// The callback carried this code.
    CodeReceived(String),
    /// The callback carried no code.
    Denied,
    /// No callback came before the deadline.
    TimedOut,
    /// The port could not be bound.
    BindFailed,
}

/// What the program reports to the listener.
pub enum ListenerEvent {
    /// The port was bound.
    Bound,
    /// The port could not be bound.
    BindError,
    /// A connection arrived and its first line was read.
    RequestLine(String),
    /// A connection arrived but its request line could not be read.
    ConnectionError,
    /// The deadline passed with no connection.
    Deadline,
}

/// What the listener asks the program to do next.
pub enum ListenerAction {
    /// The port is held: the consent page may now be opened; wait, up to
    /// the deadline, for one connection.
    Accept,
    /// Write this reply once on the connection, then close it and release the port.
    Reply(String),
    /// Close any connection and release the port.
    Close,
}

/// The listener's state, with the code as a character sequence.
pub enum Phase {
    Idle,
    Listening,
    CodeReceived(Seq<char>),
    Denied,
    TimedOut,
    BindFailed,
}

/// An event, with the request line as a character sequence.
pub enum EventModel {
    Bound,
    BindError,
    RequestLine(Seq<char>),
    ConnectionError,
    Deadline,
}

/// An action, with the reply as a character sequence.
pub enum ActionModel {
    Accept,
    Reply(Seq<char>),
    Close,
}

impl View for ListenerState {
    type V = Phase;

    open spec fn view(&self) -> Phase {
        match self {
            ListenerState::Idle => Phase::Idle,
            ListenerState::Listening => Phase::Listening,
            ListenerState::CodeReceived(c) => Phase::CodeReceived(c@),
            ListenerState::Denied => Phase::Denied,
            ListenerState::TimedOut => Phase::TimedOut,
            ListenerState::BindFailed => Phase::BindFailed,
        }
    }
}

impl View for ListenerEvent {
    type V = EventModel;

    open spec fn view(&self) -> EventModel {
        match self {
            ListenerEvent::Bound => EventModel::Bound,
            ListenerEvent::BindError => EventModel::BindError,
            ListenerEvent::RequestLine(l) => EventModel::RequestLine(l@),
            ListenerEvent::ConnectionError => EventModel::ConnectionError,
            ListenerEvent::Deadline => EventModel::Deadline,
        }
    }
}

impl View for ListenerAction {
    type V = ActionModel;

    open spec fn view(&self) -> ActionModel {
        match self {
            ListenerAction::Accept => ActionModel::Accept,
            ListenerAction::Reply(r) => ActionModel::Reply(r@),
            ListenerAction::Close => ActionModel::Close,
        }
    }
}

/// Whether the listener is done: it received a code or failed.
pub open spec fn is_terminal(p: Phase) -> bool {
    !(p is Idle) && !(p is Listening)
}

/// One step of the listener: binding leads to waiting for a single
/// connection; that connection, a read failure or the deadline ends it.
/// Any other event changes nothing and asks only that resources be released.
pub open spec fn listener_step(p: Phase, e: EventModel) -> (Phase, ActionModel) {
    match (p, e) {
        (Phase::Idle, EventModel::Bound) => (Phase::Listening, ActionModel::Accept),
        (Phase::Idle, EventModel::BindError) => (Phase::BindFailed, ActionModel::Close),
        (Phase::Listening, EventModel::RequestLine(line)) => match code_in_request_line(line) {
            Some(code) => (Phase::CodeReceived(code), ActionModel::Reply(SUCCESS_RESPONSE@)),
            None => (Phase::Denied, ActionModel::Close),
        },
        (Phase::Listening, EventModel::ConnectionError) => (Phase::Denied, ActionModel::Close),
        (Phase::Listening, EventModel::Deadline) => (Phase::TimedOut, ActionModel::Close),
        _ => (p, ActionModel::Close),
    }
}

/// What a finished listener hands to the flow.
pub open spec fn phase_outcome(p: Phase) -> Option<Result<Seq<char>, AuthError>> {
    match p {
        Phase::CodeReceived(c) => Some(Ok(c)),
        Phase::Denied => Some(Err(AuthError::CallbackDenied)),
        Phase::TimedOut => Some(Err(AuthError::CallbackTimeout)),
        Phase::BindFailed => Some(Err(AuthError::PortUnavailable)),
        _ => None,
    }
}

/// The phase reached and the actions asked for, event by event.
pub open spec fn run(p: Phase, events: Seq<EventModel>) -> (Phase, Seq<ActionModel>)
    decreases events.len(),
{
    if events.len() == 0 {
        (p, Seq::empty())
    } else {
        let (next, action) = listener_step(p, events[0]);
        let (last, rest) = run(next, events.drop_first());
        (last, seq![action] + rest)
    }
}

/// How many of the actions are `Accept`.
pub open spec fn count_accepts(actions: Seq<ActionModel>) -> nat
    decreases actions.len(),
{
    if actions.len() == 0 {
        0
    } else {
        (if actions[0] is Accept { 1nat } else { 0nat }) + count_accepts(actions.drop_first())
    }
}

/// A finished listener stays as it is whatever happens, and asks only that
/// resources be released.
pub proof fn lemma_terminal_absorbs(p: Phase, e: EventModel)
    requires
        is_terminal(p),
    ensures
        listener_step(p, e) == (p, ActionModel::Close),
{
}

proof fn lemma_no_accept_once_left_idle(p: Phase, events: Seq<EventModel>)
    requires
        !(p is Idle),
    ensures
        count_accepts(run(p, events).1) == 0,
        !(run(p, events).0 is Idle),
    decreases events.len(),
{
    if events.len() > 0 {
        let (next, action) = listener_step(p, events[0]);
        lemma_no_accept_once_left_idle(next, events.drop_first());
        let (last, rest) = run(next, events.drop_first());
        assert((seq![action] + rest).drop_first() =~= rest);
    }
}

/// Whatever the program reports, a listener asks to accept a connection at
/// most once: the callback is caught by a single accept or not at all.
pub proof fn lemma_single_accept(events: Seq<EventModel>)
    ensures
        count_accepts(run(Phase::Idle, events).1) <= 1,
    decreases events.len(),
{
    if events.len() > 0 {
        let (next, action) = listener_step(Phase::Idle, events[0]);
        let (last, rest) = run(next, events.drop_first());
        assert((seq![action] + rest).drop_first() =~= rest);
        if next is Idle {
            lemma_single_accept(events.drop_first());
        } else {
            lemma_no_accept_once_left_idle(next, events.drop_first());
        }
    }
}

/// The local listener that catches the provider's redirect.
pub struct RedirectListener {
    pub state: ListenerState,
}

impl RedirectListener {
    pub fn new() -> (r: Self)
        ensures
            r.state@ == Phase::Idle,
    {
        RedirectListener { state: ListenerState::Idle }
    }

    /// Takes in what happened and says what to do next.
    pub fn handle(&mut self, event: ListenerEvent) -> (r: ListenerAction)
        ensures
            (final(self).state@, r@) == listener_step(old(self).state@, event@),
    {
        match (&self.state, event) {
            (ListenerState::Idle, ListenerEvent::Bound) => {
                self.state = ListenerState::Listening;
                ListenerAction::Accept
            },
            (ListenerState::Idle, ListenerEvent::BindError) => {
                self.state = ListenerState::BindFailed;
                ListenerAction::Close
            },
            (ListenerState::Listening, ListenerEvent::RequestLine(line)) => {
                match callback_outcome(line.as_str()) {
                    Ok(code) => {
                        self.state = ListenerState::CodeReceived(code);
                        ListenerAction::Reply(String::from_str(SUCCESS_RESPONSE))
                    },
                    Err(_) => {
                        self.state = ListenerState::Denied;
                        ListenerAction::Close
                    },
                }
            },
            (ListenerState::Listening, ListenerEvent::ConnectionError) => {
                self.state = ListenerState::Denied;
                ListenerAction::Close
            },
            (ListenerState::Listening, ListenerEvent::Deadline) => {
                self.state = ListenerState::TimedOut;
                ListenerAction::Close
            },
            _ => ListenerAction::Close,
        }
    }

    /// The code, or the failure, once the listener is done; `None` before.
    pub fn outcome(&self) -> (r: Option<Result<String, AuthError>>)
        ensures
            match phase_outcome(self.state@) {
                None => r.is_none(),
                Some(Ok(c)) => r is Some && r->Some_0 is Ok && r->Some_0->Ok_0@ == c,
                Some(Err(e)) => r == Some(Err::<String, AuthError>(e)),
            },
    {
        match &self.state {
            ListenerState::CodeReceived(c) => Some(Ok(c.clone())),
            ListenerState::Denied => Some(Err(AuthError::CallbackDenied)),
            ListenerState::TimedOut => Some(Err(AuthError::CallbackTimeout)),
            ListenerState::BindFailed => Some(Err(AuthError::PortUnavailable)),
            _ => None,
        }
    }
}

} // verus!
