//! The accept loop of a listener, as a machine: each connection is a step
//! that may send a reply, hand a captured address to the callback, and close
//! the listener.

use crate::connection::{
    captured_of, exit_path, handle_connection, keeps_address, reply_of, state_of, text_view,
    ConnectionState, Handled, StateView,
};
use crate::request::{bytes_view, httparse_head, path_of, RequestView};
use crate::sentinel::opens_with_exit;
use vstd::prelude::*;

verus! {

/// What the accept loop does after a connection.
#[derive(Debug, PartialEq, Eq)]
pub enum Action {
    /// Go on accepting.
    Continue,
    /// Leave the loop; the callback is not called.
    Stop,
    /// Call the callback with this address, then leave the loop.
    Deliver(String),
}

/// An `Action` with its text as a sequence of characters.
pub enum ActionView {
    Continue,
    Stop,
    Deliver(Seq<char>),
}

impl View for Action {
    type V = ActionView;

    open spec fn view(&self) -> ActionView {
        match *self {
            Action::Continue => ActionView::Continue,
            Action::Stop => ActionView::Stop,
            Action::Deliver(url) => ActionView::Deliver(url@),
        }
    }
}

/// The action that follows a connection from which `captured` was learnt:
/// nothing learnt, go on; the empty text, stop; an address, deliver it.
pub open spec fn action_of(captured: Option<Seq<char>>) -> ActionView {
    match captured {
        None => ActionView::Continue,
        Some(url) => if url.len() == 0 {
            ActionView::Stop
        } else {
            ActionView::Deliver(url)
        },
    }
}

/// Whether a listener is open after a connection from which `captured` was learnt.
pub open spec fn stays_open(listening: bool, captured: Option<Seq<char>>) -> bool {
    listening && action_of(captured) is Continue
}

/// The address that the callback gets after a connection, if it is called.
pub open spec fn delivered(listening: bool, captured: Option<Seq<char>>) -> Option<Seq<char>> {
    if listening {
        match action_of(captured) {
            ActionView::Deliver(url) => Some(url),
            _ => None,
        }
    } else {
        None
    }
}

/// The addresses that the callback gets, in order, while a listener goes
/// through connections from which `results` were learnt, one after the other.
pub open spec fn deliveries(listening: bool, results: Seq<Option<Seq<char>>>) -> Seq<Seq<char>>
    decreases results.len(),
{
    if results.len() == 0 {
        Seq::empty()
    } else {
        let now = match delivered(listening, results[0]) {
            Some(url) => seq![url],
            None => Seq::empty(),
        };
        now + deliveries(stays_open(listening, results[0]), results.drop_first())
    }
}

/// Decides what the accept loop does after a connection.
pub fn next_action(captured: Option<String>) -> (action: Action)
    ensures
        action@ == action_of(text_view(captured)),
{
    match captured {
        None => Action::Continue,
        Some(url) => if url.as_str().is_empty() {
            Action::Stop
        } else {
            Action::Deliver(url)
        },
    }
}

/// A listener on a port of the loopback interface.
#[derive(Debug)]
pub struct Listener {
    port: u16,
    response: Option<Vec<u8>>,
    listening: bool,
}

/// What a `Listener` holds.
pub struct ListenerView {
    pub port: u16,
    pub response: Option<Seq<u8>>,
    pub listening: bool,
}

/// What one connection comes to: the bytes to send back, if any, what the
/// loop does next, and whether the callback path was asked for without the
/// header that it is for.
#[derive(Debug, PartialEq, Eq)]
pub struct Turn {
    pub reply: Option<Vec<u8>>,
    pub action: Action,
    pub lacks_header: bool,
}

/// Whether a connection in `state` asked for the callback path without the header.
pub open spec fn lacks_header_of(state: StateView) -> bool {
    state matches StateView::NeedsScriptRoundTrip { lacks_header, .. } && lacks_header
}

impl View for Listener {
    type V = ListenerView;

    closed spec fn view(&self) -> ListenerView {
        ListenerView {
            port: self.port,
            response: bytes_view(self.response),
            listening: self.listening,
        }
    }
}

impl Listener {
    /// An open listener on `port` that answers the browser with `response`,
    /// or with a page of its own where there is none.
    pub fn new(port: u16, response: Option<Vec<u8>>) -> (listener: Listener)
        ensures
            listener@ == (ListenerView { port, response: bytes_view(response), listening: true }),
    {
        Listener { port, response, listening: true }
    }

    /// The port that the listener is on.
    pub fn port(&self) -> (port: u16)
        ensures
            port == self@.port,
    {
        self.port
    }

    /// Whether the listener still accepts connections.
    pub fn is_listening(&self) -> (listening: bool)
        ensures
            listening == self@.listening,
    {
        self.listening
    }

    /// Takes one connection, given the bytes read from it.
    ///
    /// An open listener deals with the connection and closes unless nothing
    /// was learnt from it. A closed listener sends nothing, delivers nothing
    /// and stays closed.
    pub fn accept(&mut self, buffer: &[u8]) -> (turn: Turn)
        ensures
            final(self)@.port == old(self)@.port,
            final(self)@.response == old(self)@.response,
            old(self)@.listening ==> {
                let state = state_of(buffer@, httparse_head(buffer@));
                &&& bytes_view(turn.reply) == reply_of(state, old(self)@.response, old(self)@.port)
                &&& turn.action@ == action_of(captured_of(state))
                &&& turn.lacks_header == lacks_header_of(state)
                &&& final(self)@.listening == stays_open(true, captured_of(state))
                &&& keeps_address(state, httparse_head(buffer@))
            },
            !old(self)@.listening ==> {
                &&& turn.reply is None
                &&& turn.action is Stop
                &&& !turn.lacks_header
                &&& !final(self)@.listening
            },
    {
        if !self.listening {
            return Turn { reply: None, action: Action::Stop, lacks_header: false };
        }
        let template: Option<&[u8]> = match &self.response {
            Some(page) => Some(page.as_slice()),
            None => None,
        };
        let Handled { state, reply } = handle_connection(buffer, template, self.port);
        let lacks_header = match &state {
            ConnectionState::NeedsScriptRoundTrip { lacks_header, .. } => *lacks_header,
            _ => false,
        };
        let action = next_action(state.captured());
        self.listening = match &action {
            Action::Continue => true,
            _ => false,
        };
        Turn { reply, action, lacks_header }
    }
}

/// A listener calls its callback at most once.
pub proof fn at_most_one_delivery(listening: bool, results: Seq<Option<Seq<char>>>)
    ensures
        deliveries(listening, results).len() <= 1,
        !listening ==> deliveries(listening, results).len() == 0,
    decreases results.len(),
{
    if results.len() > 0 {
        at_most_one_delivery(stays_open(listening, results[0]), results.drop_first());
    }
}

/// Connections from which nothing is learnt change nothing: the listener is
/// as open after them as before, and what follows is delivered as without them.
pub proof fn idle_connections_change_nothing(
    idle: Seq<Option<Seq<char>>>,
    rest: Seq<Option<Seq<char>>>,
)
    requires
        forall|k: int| 0 <= k < idle.len() ==> idle[k] is None,
    ensures
        deliveries(true, idle + rest) == deliveries(true, rest),
    decreases idle.len(),
{
    if idle.len() == 0 {
        assert(idle + rest =~= rest);
    } else {
        assert((idle + rest)[0] == idle[0]);
        assert((idle + rest).drop_first() =~= idle.drop_first() + rest);
        idle_connections_change_nothing(idle.drop_first(), rest);
    }
}

/// The first connection from which something is learnt decides the run: an
/// address is delivered, once, and a request to shut down delivers nothing,
/// whatever comes after it.
pub proof fn first_result_decides(results: Seq<Option<Seq<char>>>, at: int)
    requires
        0 <= at < results.len(),
        results[at] is Some,
        forall|k: int| 0 <= k < at ==> results[k] is None,
    ensures
        deliveries(true, results) == if results[at]->0.len() == 0 {
            Seq::<Seq<char>>::empty()
        } else {
            seq![results[at]->0]
        },
{
    let idle = results.take(at);
    let rest = results.skip(at);
    assert(idle + rest =~= results);
    idle_connections_change_nothing(idle, rest);
    assert(rest[0] == results[at]);
    at_most_one_delivery(false, rest.drop_first());
}

/// The cancellation message closes an open listener: nothing is sent back and
/// the callback is not called, whatever else the bytes hold.
pub proof fn sentinel_shuts_down(
    data: Seq<u8>,
    parsed: Option<RequestView>,
    template: Option<Seq<u8>>,
    port: u16,
)
    requires
        opens_with_exit(data),
    ensures
        state_of(data, parsed) == StateView::ShutdownSentinel,
        reply_of(state_of(data, parsed), template, port) is None,
        action_of(captured_of(state_of(data, parsed))) == ActionView::Stop,
        !stays_open(true, captured_of(state_of(data, parsed))),
        delivered(true, captured_of(state_of(data, parsed))) is None,
{
}

/// A request for the exit path does to the listener what the cancellation
/// message does.
pub proof fn exit_path_shuts_down(
    data: Seq<u8>,
    request: RequestView,
    template: Option<Seq<u8>>,
    port: u16,
)
    requires
        path_of(request) == exit_path(),
    ensures
        captured_of(state_of(data, Some(request))) == captured_of(StateView::ShutdownSentinel),
        reply_of(state_of(data, Some(request)), template, port) == reply_of(
            StateView::ShutdownSentinel,
            template,
            port,
        ),
        action_of(captured_of(state_of(data, Some(request)))) == ActionView::Stop,
{
}

/// Bytes that are no request head leave an open listener open: nothing is
/// sent back, nothing is delivered, and the next connection is taken.
pub proof fn malformed_keeps_listening(data: Seq<u8>, template: Option<Seq<u8>>, port: u16)
    requires
        !opens_with_exit(data),
    ensures
        state_of(data, None) == StateView::MalformedRequest,
        reply_of(state_of(data, None), template, port) is None,
        action_of(captured_of(state_of(data, None))) == ActionView::Continue,
        stays_open(true, captured_of(state_of(data, None))),
        delivered(true, captured_of(state_of(data, None))) is None,
{
}

} // verus!
