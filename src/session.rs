use vstd::prelude::*;
use crate::message::{Msg, Req};

verus! {

/// Why a chat operation failed.
#[derive(PartialEq, Eq, Structural, Clone, Copy, Debug)]
pub enum ChatError {
    /// The initial handshake with the server failed.
    Connect,
    /// Publishing a message failed.
    Send,
    /// The inbound stream broke.
    Stream,
}

/// What a submit asks the network side to do.
pub enum Action {
    /// Join the chat under the given name.
    Connect(Req),
    /// Publish a message.
    Send(Msg),
}

/// The mathematical value of an `Action`.
pub enum Intent {
    Connect(Seq<char>),
    Send(Seq<char>, Seq<char>),
}

impl View for Action {
    type V = Intent;

    open spec fn view(&self) -> Intent {
        match self {
            Action::Connect(r) => Intent::Connect(r.user_name@),
            Action::Send(m) => Intent::Send(m.user_name@, m.content@),
        }
    }
}

impl Action {
    pub fn duplicate(&self) -> (r: Action)
        ensures
            r@ == self@,
    {
        match self {
            Action::Connect(r) => Action::Connect(Req::new(r.user_name.clone())),
            Action::Send(m) => Action::Send(Msg::new(m.user_name.clone(), m.content.clone())),
        }
    }
}

/// State of the chat input box: the text being typed, the name the user joined
/// under (none until a connect succeeded) and the request still in flight.
pub struct UiState {
    user_input: String,
    username: Option<String>,
    pending: Option<Action>,
}

impl UiState {
    /// The text being typed.
    pub closed spec fn input(&self) -> Seq<char> {
        self.user_input@
    }

    /// The name the user joined under; none while disconnected.
    pub closed spec fn identity(&self) -> Option<Seq<char>> {
        match &self.username {
            Some(s) => Some(s@),
            None => None,
        }
    }

    /// The request handed out by the last submit and not yet answered.
    pub closed spec fn in_flight(&self) -> Option<Intent> {
        match &self.pending {
            Some(a) => Some(a@),
            None => None,
        }
    }

    /// Disconnected, with an empty input and nothing in flight.
    pub fn new() -> (r: UiState)
        ensures
            r.input() == Seq::<char>::empty(),
            r.identity() is None,
            r.in_flight() is None,
    {
        UiState { user_input: String::new(), username: None, pending: None }
    }

    /// Replaces the text being typed.
    pub fn set_input(&mut self, text: String)
        ensures
            final(self).input() == text@,
            final(self).identity() == old(self).identity(),
            final(self).in_flight() == old(self).in_flight(),
    {
        self.user_input = text;
    }

    pub fn user_input(&self) -> (r: &String)
        ensures
            r@ == self.input(),
    {
        &self.user_input
    }

    pub fn username(&self) -> (r: Option<&String>)
        ensures
            r is Some <==> self.identity() is Some,
            r is Some ==> r->Some_0@ == self.identity()->Some_0,
    {
        match &self.username {
            Some(s) => Some(s),
            None => None,
        }
    }

    pub fn is_connected(&self) -> (r: bool)
        ensures
            r == self.identity() is Some,
    {
        self.username.is_some()
    }

    /// A connect request is in flight.
    pub fn connect_pending(&self) -> (r: bool)
        ensures
            r == (self.in_flight() matches Some(Intent::Connect(_))),
    {
        match &self.pending {
            Some(Action::Connect(_)) => true,
            _ => false,
        }
    }

    pub fn is_waiting(&self) -> (r: bool)
        ensures
            r == self.in_flight() is Some,
    {
        self.pending.is_some()
    }

    /// The user pressed submit. While disconnected this asks to join under the
    /// typed text; once connected it asks to send the typed text under the
    /// user's name. Nothing is asked while an earlier request is in flight.
    /// The input is kept until the request succeeds.
    pub fn submit(&mut self) -> (r: Option<Action>)
        ensures
            old(self).in_flight() is Some ==> r is None && *final(self) == *old(self),
            old(self).in_flight() is None ==> r is Some && final(self).in_flight() == Some(
                r->Some_0@,
            ),
            old(self).in_flight() is None && old(self).identity() is None ==> r->Some_0@
                == Intent::Connect(old(self).input()),
            old(self).in_flight() is None && old(self).identity() is Some ==> r->Some_0@
                == Intent::Send(old(self).identity()->Some_0, old(self).input()),
            final(self).input() == old(self).input(),
            final(self).identity() == old(self).identity(),
    {
        if self.pending.is_some() {
            return None;
        }
        let action = match &self.username {
            None => Action::Connect(Req::new(self.user_input.clone())),
            Some(name) => Action::Send(Msg::new(name.clone(), self.user_input.clone())),
        };
        self.pending = Some(action.duplicate());
        Some(action)
    }

    /// The answer to a send came back. On success the input is cleared; on
    /// failure it is kept so that the draft is not lost. Nothing changes unless
    /// a send is in flight.
    pub fn send_finished(&mut self, result: Result<(), ChatError>)
        ensures
            !(old(self).in_flight() matches Some(Intent::Send(_, _))) ==> *final(self) == *old(self),
            old(self).in_flight() matches Some(Intent::Send(_, _)) ==> {
                &&& final(self).in_flight() is None
                &&& final(self).identity() == old(self).identity()
                &&& final(self).input() == if result is Ok {
                    Seq::<char>::empty()
                } else {
                    old(self).input()
                }
            },
    {
        if let Some(Action::Send(_)) = &self.pending {
            self.pending = None;
            if result.is_ok() {
                self.user_input = String::new();
            }
        }
    }

    /// The answer to a connect came back. On success the user is connected
    /// under the requested name and the input is cleared; on failure the state
    /// goes back to disconnected with the input kept, so the user may retry.
    /// Nothing changes unless a connect is in flight.
    pub fn connect_finished(&mut self, result: Result<(), ChatError>)
        ensures
            !(old(self).in_flight() matches Some(Intent::Connect(_))) ==> *final(self) == *old(self),
            old(self).in_flight() matches Some(Intent::Connect(_)) ==> {
                &&& final(self).in_flight() is None
                &&& result is Ok ==> final(self).identity() == Some(
                    old(self).in_flight()->Some_0->Connect_0,
                ) && final(self).input() == Seq::<char>::empty()
                &&& result is Err ==> final(self).identity() == old(self).identity()
                    && final(self).input() == old(self).input()
            },
    {
        if let Some(Action::Connect(req)) = &self.pending {
            if result.is_ok() {
                self.username = Some(req.user_name.clone());
                self.user_input = String::new();
            }
            self.pending = None;
        }
    }
}

} // verus!
