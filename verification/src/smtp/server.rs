//! The server: its name, its shutdown signal and its accept loop.
//!
//! The accept loop is a state machine like the dialog of a connection. It
//! never touches the listening socket: whoever owns the socket hands it
//! one event at a time and carries out the action that comes back.

use super::connection::Connection;
use super::connection::SmtpConnection;
use std::sync::atomic::AtomicBool;
use std::sync::atomic::Ordering;
use vstd::prelude::*;

verus! {

/// The TCP port to listen on: 25, or 2525 for development, where binding
/// a privileged port is not an option.
pub open spec fn listen_port(development: bool) -> u16 {
    if development {
        2525
    } else {
        25
    }
}

/// Where the accept loop stands.
#[derive(Debug, Clone, Copy, PartialEq, Eq, Structural)]
pub enum ListenPhase {
    /// Not started.
    Idle,
    /// The listening socket is being bound.
    Binding,
    /// The shutdown signal is being cleared.
    Opening,
    /// The shutdown signal is being looked at.
    Polling,
    /// A connection is being waited for.
    Accepting,
    /// An accepted connection is being handed to a handler of its own.
    Serving,
    /// The loop is over.
    Stopped,
}

/// What happened on the listening socket or to the shutdown signal.
#[derive(Debug, Clone, Copy, PartialEq, Eq, Structural)]
pub enum ListenEvent {
    /// The server is asked to run; `development` picks the port.
    Start { development: bool },
    /// The listening socket is bound.
    Bound,
    /// The listening socket could not be bound.
    BindFailed,
    /// The shutdown signal is cleared.
    Opened,
    /// The shutdown signal was looked at; `true` when it is set.
    Shutdown(bool),
    /// A connection was accepted.
    Connected,
    /// Accepting failed.
    AcceptFailed,
    /// The accepted connection has a handler of its own.
    Served,
}

/// What to do next on the listening socket.
#[derive(Debug, Clone, Copy, PartialEq, Eq, Structural)]
pub enum ListenAction {
    /// Bind the listening socket to this port on every IPv4 interface,
    /// then report `Bound` or `BindFailed`.
    Bind(u16),
    /// Clear the shutdown signal, then report `Opened`.
    Open,
    /// Look at the shutdown signal, then report `Shutdown`.
    PollShutdown,
    /// Wait for a connection, then report `Connected` or `AcceptFailed`.
    Accept,
    /// Start a handler for the accepted connection, then report `Served`.
    Serve,
    /// Stop; the server ran and was shut down.
    Stop,
    /// Stop and hand on the failure that was just reported.
    Fail,
}

/// One step of the accept loop: the phase after `event`, and what to do
/// next. An event that the phase does not wait for stops the loop.
pub open spec fn listen_step(phase: ListenPhase, event: ListenEvent) -> (ListenPhase, ListenAction) {
    match (phase, event) {
        (ListenPhase::Idle, ListenEvent::Start { development }) => (
            ListenPhase::Binding,
            ListenAction::Bind(listen_port(development)),
        ),
        (ListenPhase::Binding, ListenEvent::Bound) => (ListenPhase::Opening, ListenAction::Open),
        (ListenPhase::Binding, ListenEvent::BindFailed) => (ListenPhase::Stopped, ListenAction::Fail),
        (ListenPhase::Opening, ListenEvent::Opened) => (
            ListenPhase::Polling,
            ListenAction::PollShutdown,
        ),
        (ListenPhase::Polling, ListenEvent::Shutdown(true)) => (
            ListenPhase::Stopped,
            ListenAction::Stop,
        ),
        (ListenPhase::Polling, ListenEvent::Shutdown(false)) => (
            ListenPhase::Accepting,
            ListenAction::Accept,
        ),
        (ListenPhase::Accepting, ListenEvent::Connected) => (
            ListenPhase::Serving,
            ListenAction::Serve,
        ),
        (ListenPhase::Accepting, ListenEvent::AcceptFailed) => (
            ListenPhase::Stopped,
            ListenAction::Fail,
        ),
        (ListenPhase::Serving, ListenEvent::Served) => (
            ListenPhase::Polling,
            ListenAction::PollShutdown,
        ),
        _ => (ListenPhase::Stopped, ListenAction::Stop),
    }
}

/// The phase after each of `events` in turn.
pub open spec fn listen_run(phase: ListenPhase, events: Seq<ListenEvent>) -> ListenPhase
    decreases events.len(),
{
    if events.len() == 0 {
        phase
    } else {
        listen_step(listen_run(phase, events.drop_last()), events.last()).0
    }
}

/// Once the shutdown signal is found set the loop stops, and a stopped
/// loop never again binds, accepts or serves, whatever is reported to it.
pub proof fn lemma_shutdown_stops_accepting(events: Seq<ListenEvent>, event: ListenEvent)
    ensures
        listen_step(ListenPhase::Polling, ListenEvent::Shutdown(true)) == (
            ListenPhase::Stopped,
            ListenAction::Stop,
        ),
        listen_run(ListenPhase::Stopped, events) == ListenPhase::Stopped,
        listen_step(listen_run(ListenPhase::Stopped, events), event) == (
            ListenPhase::Stopped,
            ListenAction::Stop,
        ),
    decreases events.len(),
{
    if events.len() > 0 {
        lemma_shutdown_stops_accepting(events.drop_last(), events.last());
    }
}

/// A connection is waited for only right after the shutdown signal was
/// found clear, and a handler is started only for a connection that was
/// accepted.
pub proof fn lemma_accept_after_poll(phase: ListenPhase, event: ListenEvent)
    ensures
        listen_step(phase, event).1 == ListenAction::Accept <==> phase == ListenPhase::Polling
            && event == ListenEvent::Shutdown(false),
        listen_step(phase, event).1 == ListenAction::Serve <==> phase == ListenPhase::Accepting
            && event == ListenEvent::Connected,
        listen_step(phase, event).1 == ListenAction::Fail <==> (phase == ListenPhase::Binding
            && event == ListenEvent::BindFailed) || (phase == ListenPhase::Accepting && event
            == ListenEvent::AcceptFailed),
{
}

/// The accept loop of a server.
#[derive(Debug, Clone, Copy, PartialEq, Eq)]
pub struct Listener {
    phase: ListenPhase,
}

impl View for Listener {
    type V = ListenPhase;

    closed spec fn view(&self) -> ListenPhase {
        self.phase
    }
}

impl Listener {
    /// An accept loop that has not started.
    pub fn new() -> (listener: Self)
        ensures
            listener@ == ListenPhase::Idle,
    {
        Self { phase: ListenPhase::Idle }
    }

    /// The phase that the loop is in.
    pub fn phase(&self) -> (phase: ListenPhase)
        ensures
            phase == self@,
    {
        self.phase
    }

    /// Takes one event and says what to do next.
    pub fn step(&mut self, event: ListenEvent) -> (action: ListenAction)
        ensures
            (final(self)@, action) == listen_step(old(self)@, event),
    {
        let (phase, action) = match (self.phase, event) {
            (ListenPhase::Idle, ListenEvent::Start { development }) => (
                ListenPhase::Binding,
                ListenAction::Bind(SmtpServer::port(development)),
            ),
            (ListenPhase::Binding, ListenEvent::Bound) => (ListenPhase::Opening, ListenAction::Open),
            (ListenPhase::Binding, ListenEvent::BindFailed) => (
                ListenPhase::Stopped,
                ListenAction::Fail,
            ),
            (ListenPhase::Opening, ListenEvent::Opened) => (
                ListenPhase::Polling,
                ListenAction::PollShutdown,
            ),
            (ListenPhase::Polling, ListenEvent::Shutdown(true)) => (
                ListenPhase::Stopped,
                ListenAction::Stop,
            ),
            (ListenPhase::Polling, ListenEvent::Shutdown(false)) => (
                ListenPhase::Accepting,
                ListenAction::Accept,
            ),
            (ListenPhase::Accepting, ListenEvent::Connected) => (
                ListenPhase::Serving,
                ListenAction::Serve,
            ),
            (ListenPhase::Accepting, ListenEvent::AcceptFailed) => (
                ListenPhase::Stopped,
                ListenAction::Fail,
            ),
            (ListenPhase::Serving, ListenEvent::Served) => (
                ListenPhase::Polling,
                ListenAction::PollShutdown,
            ),
            _ => (ListenPhase::Stopped, ListenAction::Stop),
        };
        self.phase = phase;
        action
    }
}

/// The server: its name and the shutdown signal that its accept loop and
/// all its connections look at.
#[derive(Debug)]
pub struct SmtpServer {
    is_closed: AtomicBool,
    hostname: String,
}

impl SmtpServer {
    /// The name under which the server introduces itself.
    pub closed spec fn name(&self) -> Seq<char> {
        self.hostname@
    }

    /// A server named `smtp.example.com`, with its shutdown signal set
    /// until it runs.
    pub fn new() -> (server: Self)
        ensures
            server.name() == "smtp.example.com"@,
    {
        Self { is_closed: AtomicBool::new(true), hostname: String::from_str("smtp.example.com") }
    }

    /// The name under which the server introduces itself.
    pub fn hostname(&self) -> (hostname: &String)
        ensures
            hostname@ == self.name(),
    {
        &self.hostname
    }

    /// The TCP port to listen on.
    pub fn port(development: bool) -> (port: u16)
        ensures
            port == listen_port(development),
    {
        if development {
            2525
        } else {
            25
        }
    }

    /// The dialog for a connection that this server just accepted.
    pub fn connection(&self) -> (connection: SmtpConnection)
        ensures
            connection@ == Connection::accepted(self.name()),
    {
        SmtpConnection::new(self.hostname.clone())
    }

    /// Clears the shutdown signal: the server is running.
    pub fn open(&self) {
        self.is_closed.store(false, Ordering::Release);
    }

    /// Sets the shutdown signal. Nothing is interrupted: the accept loop
    /// and each connection find the signal set when they next look.
    pub fn close(&self) {
        self.is_closed.store(true, Ordering::Release);
    }

    /// Looks at the shutdown signal. Another thread may set or clear the
    /// signal at any time, so nothing is known of the answer beforehand.
    pub fn is_closed(&self) -> bool {
        self.is_closed.load(Ordering::Acquire)
    }
}

} // verus!
