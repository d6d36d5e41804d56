use vstd::prelude::*;

use crate::config::{Config, ConfigView};
use crate::mode::Mode;
use crate::schedule::Event;

verus! {

/// What the background process tells the windows about itself.
pub struct State {
    pub config: Config,
    pub mode: Result<Mode, String>,
    pub next: Option<Event>,
    pub launch_at_login: bool,
    pub busy: bool,
}

/// What a window asks the background process for.
pub enum Request {
    Subscribe,
    Save(Config),
    Select(Mode),
    Run { name: String, wait: bool },
    Shortcut(String),
    Launch(bool),
}

/// What the background process sends a window.
pub enum Response {
    State(State),
    Reply(Result<State, String>),
    Error(String),
}

/// The mode part of a state as plain values.
pub open spec fn mode_view(mode: Result<Mode, String>) -> Result<Mode, Seq<char>> {
    match mode {
        Ok(m) => Ok(m),
        Err(e) => Err(e@),
    }
}

/// A state as plain values.
pub struct StateView {
    pub config: ConfigView,
    pub mode: Result<Mode, Seq<char>>,
    pub next: Option<Event>,
    pub launch_at_login: bool,
    pub busy: bool,
}

impl View for State {
    type V = StateView;

    open spec fn view(&self) -> StateView {
        StateView {
            config: self.config@,
            mode: mode_view(self.mode),
            next: self.next,
            launch_at_login: self.launch_at_login,
            busy: self.busy,
        }
    }
}

/// A copy of a mode or of the error that stood for it.
fn clone_mode(mode: &Result<Mode, String>) -> (r: Result<Mode, String>)
    ensures
        mode_view(r) == mode_view(*mode),
{
    match mode {
        Ok(m) => Ok(*m),
        Err(e) => Err(e.clone()),
    }
}

impl Clone for State {
    fn clone(&self) -> (r: Self)
        ensures
            r@ == self@,
    {
        State {
            config: self.config.clone(),
            mode: clone_mode(&self.mode),
            next: match &self.next {
                Some(event) => Some(event.clone()),
                None => None,
            },
            launch_at_login: self.launch_at_login,
            busy: self.busy,
        }
    }
}

/// Whether a request is answered at once. A run that waits for its end, once
/// started, is answered when it ends.
pub fn answered_at_once(request: &Request, result: &Result<(), String>) -> (r: bool)
    ensures
        r == !(request matches Request::Run { wait, .. } && *wait && result is Ok),
{
    match request {
        Request::Run { wait, .. } => !(*wait && result.is_ok()),
        _ => true,
    }
}

/// A window's side of its connection to the background process: the state
/// heard last, whether a request waits for its reply, and, once the
/// connection is gone, why.
pub struct Session {
    state: Option<State>,
    pending: bool,
    closed: Option<String>,
}

/// A session as plain values.
pub struct SessionView {
    pub state: Option<StateView>,
    pub pending: bool,
    pub closed: Option<Seq<char>>,
}

impl View for Session {
    type V = SessionView;

    closed spec fn view(&self) -> SessionView {
        SessionView {
            state: match self.state {
                Some(state) => Some(state@),
                None => None,
            },
            pending: self.pending,
            closed: match self.closed {
                Some(e) => Some(e@),
                None => None,
            },
        }
    }
}

/// What a reply does to a session: the waiting request is answered, and the
/// state that comes with a success is the one heard last.
pub open spec fn after_reply(s: SessionView, state: Option<StateView>) -> SessionView {
    SessionView { state: if state is Some { state } else { s.state }, pending: false, ..s }
}

/// What a lost connection does to a session.
pub open spec fn after_close(s: SessionView, error: Seq<char>) -> SessionView {
    SessionView { pending: false, closed: Some(error), ..s }
}

impl Session {
    /// A session that has heard nothing yet.
    pub fn new() -> (r: Session)
        ensures
            r@ == (SessionView { state: None, pending: false, closed: None }),
    {
        Session { state: None, pending: false, closed: None }
    }

    /// Whether a state was heard.
    pub fn has_state(&self) -> (r: bool)
        ensures
            r == self@.state is Some,
    {
        self.state.is_some()
    }

    /// The state heard last.
    pub fn state(&self) -> (r: &State)
        requires
            self@.state is Some,
        ensures
            Some(r@) == self@.state,
    {
        self.state.as_ref().unwrap()
    }

    /// The background process sent its state.
    pub fn heard(&mut self, state: State)
        ensures
            final(self)@ == (SessionView { state: Some(state@), ..old(self)@ }),
    {
        self.state = Some(state);
    }

    /// The background process answered the waiting request; a new state comes
    /// with a success. Hands back whether a request was waiting for it.
    pub fn replied(&mut self, result: Result<State, String>) -> (r: bool)
        ensures
            final(self)@ == after_reply(old(self)@, match result {
                Ok(state) => Some(state@),
                Err(_) => None,
            }),
            r == old(self)@.pending,
    {
        match result {
            Ok(state) => {
                self.state = Some(state);
            },
            Err(_) => {},
        }
        let waiting = self.pending;
        self.pending = false;
        waiting
    }

    /// The connection is gone, for the given reason. Hands back whether a
    /// request was waiting, so that it is told the reason.
    pub fn lost(&mut self, error: String) -> (r: bool)
        ensures
            final(self)@ == after_close(old(self)@, error@),
            r == old(self)@.pending,
    {
        self.closed = Some(error);
        let waiting = self.pending;
        self.pending = false;
        waiting
    }

    /// A request is about to be sent: it waits for its reply, unless the
    /// connection is gone, when it fails with the reason.
    pub fn begin(&mut self) -> (r: Result<(), String>)
        ensures
            match old(self)@.closed {
                Some(e) => r matches Err(m) && m@ == e && final(self)@ == old(self)@,
                None => r is Ok && final(self)@ == (SessionView { pending: true, ..old(self)@ }),
            },
    {
        match &self.closed {
            Some(error) => Err(error.clone()),
            None => {
                self.pending = true;
                Ok(())
            },
        }
    }
}

/// Once the connection is gone, every later request fails with the reason it
/// went, whatever replies or states arrived in between.
pub proof fn closed_stays_closed(s: SessionView, error: Seq<char>, state: Option<StateView>)
    ensures
        after_close(s, error).closed == Some(error),
        after_reply(after_close(s, error), state).closed == Some(error),
        !after_close(s, error).pending,
{
}

/// The state read is the one that came last, by notification or with a
/// successful reply; a failed reply keeps the state read before, and either
/// reply answers the waiting request.
pub proof fn replies_keep_the_last_state(s: SessionView, state: StateView)
    ensures
        after_reply(s, Some(state)).state == Some(state),
        after_reply(s, None).state == s.state,
        !after_reply(s, Some(state)).pending && !after_reply(s, None).pending,
{
}

} // verus!
