//! One connection's dialog as a state machine.
//!
//! The machine never touches the socket. Whoever owns the socket hands it
//! one event at a time and carries out the action that comes back: write
//! this reply, look at the shutdown signal, read a line, or close.

use super::command::parse_line;
use super::command::SmtpCommand;
use super::reply::Reply;
use super::reply::SmtpReply;
use super::session::Session;
use super::session::SmtpSession;
use vstd::prelude::*;

verus! {

/// Where a connection stands in its cycle of writing, polling and reading.
#[derive(Debug, Clone, Copy, PartialEq, Eq, Structural)]
pub enum Phase {
    /// Accepted; nothing written yet.
    Opening,
    /// The banner is being written.
    Greeting,
    /// The shutdown signal is being looked at.
    Polling,
    /// The shutdown notice is being written.
    Notifying,
    /// A line is being read.
    Reading,
    /// The reply to a command is being written.
    Replying,
    /// The reply to `QUIT` is being written.
    Leaving,
    /// The dialog is over.
    Closed,
}

/// What happened on the socket or to the shutdown signal.
pub enum Input {
    /// The connection was accepted.
    Opened,
    /// The reply of the last `Send` was written.
    Sent,
    /// The reply of the last `Send` could not be written.
    SendFailed,
    /// The shutdown signal was looked at; `true` when it is set.
    Shutdown(bool),
    /// A line arrived, terminator and all.
    Line(Seq<char>),
    /// The client closed its side.
    EndOfStream,
    /// Reading failed.
    ReadFailed,
}

/// What to do next on the socket.
pub enum Output {
    /// Write this reply in its wire form, then report `Sent` or
    /// `SendFailed`.
    Send(Reply),
    /// Look at the shutdown signal, then report `Shutdown`.
    PollShutdown,
    /// Read a line, then report `Line`, `EndOfStream` or `ReadFailed`.
    ReadLine,
    /// Close the connection; the dialog is over.
    Close,
}

/// A connection: its phase, its session and the name of the server.
pub struct Connection {
    pub phase: Phase,
    pub session: Session,
    pub hostname: Seq<char>,
}

impl Connection {
    /// A connection that was just accepted by the server `hostname`.
    pub open spec fn accepted(hostname: Seq<char>) -> Connection {
        Connection { phase: Phase::Opening, session: Session::fresh(), hostname }
    }

    /// Whether the session keeps the order of the dialog. Every connection
    /// that was accepted does, whatever happened to it since.
    pub open spec fn well_formed(self) -> bool {
        self.session.well_sequenced()
    }

    /// The same connection in another phase.
    pub open spec fn at(self, phase: Phase) -> Connection {
        Connection { phase, session: self.session, hostname: self.hostname }
    }

    /// The connection after the command on `line`, and the reply to it.
    pub open spec fn receive(self, line: Seq<char>) -> (Connection, Output) {
        let command = parse_line(line);
        let reply = self.session.answer(command, self.hostname);
        let next = Connection {
            phase: if reply.close {
                Phase::Leaving
            } else {
                Phase::Replying
            },
            session: self.session.apply(command),
            hostname: self.hostname,
        };
        (next, Output::Send(reply))
    }

    /// One step: the connection after `input`, and what to do next.
    ///
    /// An input that the phase does not wait for, a failed write, a failed
    /// read and the end of the stream all close the connection.
    pub open spec fn step(self, input: Input) -> (Connection, Output) {
        match (self.phase, input) {
            (Phase::Opening, Input::Opened) => (
                self.at(Phase::Greeting),
                Output::Send(Reply::greeting(self.hostname)),
            ),
            (Phase::Greeting, Input::Sent) => (self.at(Phase::Polling), Output::PollShutdown),
            (Phase::Polling, Input::Shutdown(true)) => (
                self.at(Phase::Notifying),
                Output::Send(Reply::shutdown_notice(self.hostname)),
            ),
            (Phase::Polling, Input::Shutdown(false)) => (self.at(Phase::Reading), Output::ReadLine),
            (Phase::Notifying, Input::Sent) => (self.at(Phase::Reading), Output::ReadLine),
            (Phase::Reading, Input::Line(line)) => self.receive(line),
            (Phase::Replying, Input::Sent) => (self.at(Phase::Polling), Output::PollShutdown),
            _ => (self.at(Phase::Closed), Output::Close),
        }
    }

    /// The connection after each of `inputs` in turn.
    pub open spec fn run(self, inputs: Seq<Input>) -> Connection
        decreases inputs.len(),
    {
        if inputs.len() == 0 {
            self
        } else {
            self.run(inputs.drop_last()).step(inputs.last()).0
        }
    }
}

/// The inputs of `schedule` that are addressed to one of two connections:
/// to the first where the flag is `true`, to the second where it is
/// `false`.
pub open spec fn addressed_to(schedule: Seq<(bool, Input)>, first: bool) -> Seq<Input>
    decreases schedule.len(),
{
    if schedule.len() == 0 {
        Seq::<Input>::empty()
    } else {
        let before = addressed_to(schedule.drop_last(), first);
        if schedule.last().0 == first {
            before.push(schedule.last().1)
        } else {
            before
        }
    }
}

/// Two connections after the inputs of `schedule`, each input given to the
/// connection that it is addressed to, in the order of the schedule.
pub open spec fn interleaved(
    first: Connection,
    second: Connection,
    schedule: Seq<(bool, Input)>,
) -> (Connection, Connection)
    decreases schedule.len(),
{
    if schedule.len() == 0 {
        (first, second)
    } else {
        let (a, b) = interleaved(first, second, schedule.drop_last());
        if schedule.last().0 {
            (a.step(schedule.last().1).0, b)
        } else {
            (a, b.step(schedule.last().1).0)
        }
    }
}

/// Two connections do not mix: however their inputs are interleaved, each
/// ends where its own inputs alone would have brought it.
pub proof fn lemma_connections_do_not_mix(
    first: Connection,
    second: Connection,
    schedule: Seq<(bool, Input)>,
)
    ensures
        interleaved(first, second, schedule) == (
            first.run(addressed_to(schedule, true)),
            second.run(addressed_to(schedule, false)),
        ),
    decreases schedule.len(),
{
    if schedule.len() > 0 {
        lemma_connections_do_not_mix(first, second, schedule.drop_last());
        let own = addressed_to(schedule.drop_last(), schedule.last().0);
        assert(own.push(schedule.last().1).drop_last() =~= own);
    }
}

/// A closed connection stays closed and asks for nothing but to be closed.
pub proof fn lemma_closed_is_final(connection: Connection, input: Input)
    requires
        connection.phase == Phase::Closed,
    ensures
        connection.step(input) == (connection, Output::Close),
{
}

/// Every line that is read is answered by exactly one reply: the reply to
/// the command on that line. The session moves as the
/// command says, and the connection goes on unless the command was `QUIT`.
pub proof fn lemma_one_reply_per_line(connection: Connection, line: Seq<char>)
    requires
        connection.phase == Phase::Reading,
    ensures
        ({
            let (next, output) = connection.step(Input::Line(line));
            let reply = connection.session.answer(parse_line(line), connection.hostname);
            &&& output == Output::Send(reply)
            &&& next.session == connection.session.apply(parse_line(line))
            &&& next.phase == if parse_line(line) is Quit {
                Phase::Leaving
            } else {
                Phase::Replying
            }
        }),
{
}

/// Nothing but a line that was read changes the session, and nothing at
/// all changes the server's name.
pub proof fn lemma_session_moves_on_lines_only(connection: Connection, input: Input)
    ensures
        connection.step(input).0.hostname == connection.hostname,
        !(connection.phase == Phase::Reading && input is Line) ==> connection.step(input).0.session
            == connection.session,
{
}

/// A reply is written in three cases only: the banner when the
/// connection opens, the notice when the shutdown signal is found set, and
/// the reply when a line was read.
pub proof fn lemma_when_to_send(connection: Connection, input: Input)
    ensures
        connection.step(input).1 is Send <==> (connection.phase == Phase::Opening && input
            is Opened) || (connection.phase == Phase::Polling && input == Input::Shutdown(true))
            || (connection.phase == Phase::Reading && input is Line),
{
}

/// When the shutdown signal is found set the client is sent the 421
/// notice, and the connection then waits for one more line.
pub proof fn lemma_shutdown_is_announced(connection: Connection)
    requires
        connection.phase == Phase::Polling,
    ensures
        connection.step(Input::Shutdown(true)).1 == Output::Send(
            Reply::shutdown_notice(connection.hostname),
        ),
        Reply::shutdown_notice(connection.hostname).code == 421,
        connection.step(Input::Shutdown(true)).0.step(Input::Sent) == (
            connection.at(Phase::Reading),
            Output::ReadLine,
        ),
{
}

/// A failed write, a failed read and the end of the stream each end the
/// dialog, in whatever phase they come.
pub proof fn lemma_failures_close(connection: Connection, input: Input)
    requires
        input is SendFailed || input is ReadFailed || input is EndOfStream,
    ensures
        connection.step(input) == (connection.at(Phase::Closed), Output::Close),
{
}

/// An accepted connection is well formed, and no input makes a well-formed
/// connection ill formed.
pub proof fn lemma_step_keeps_well_formed(connection: Connection, input: Input)
    requires
        connection.well_formed(),
    ensures
        Connection::accepted(connection.hostname).well_formed(),
        connection.step(input).0.well_formed(),
{
}

/// The order of the dialog holds in every state that an accepted
/// connection can reach, and the server's name stays what it was.
pub proof fn lemma_reachable_is_well_formed(hostname: Seq<char>, inputs: Seq<Input>)
    ensures
        Connection::accepted(hostname).run(inputs).well_formed(),
        Connection::accepted(hostname).run(inputs).hostname == hostname,
    decreases inputs.len(),
{
    if inputs.len() > 0 {
        lemma_reachable_is_well_formed(hostname, inputs.drop_last());
        lemma_step_keeps_well_formed(
            Connection::accepted(hostname).run(inputs.drop_last()),
            inputs.last(),
        );
    }
}

/// No connection holds message text yet, whatever was sent to it: the
/// dialog ends before a message body.
pub proof fn lemma_no_data_yet(hostname: Seq<char>, inputs: Seq<Input>)
    ensures
        Connection::accepted(hostname).run(inputs).session.data.len() == 0,
    decreases inputs.len(),
{
    if inputs.len() > 0 {
        lemma_no_data_yet(hostname, inputs.drop_last());
    }
}

/// An event, as the owner of the socket reports it.
#[derive(Debug, Clone, PartialEq, Eq)]
pub enum ConnectionEvent {
    /// The connection was accepted.
    Opened,
    /// The reply of the last `Send` was written.
    Sent,
    /// The reply of the last `Send` could not be written.
    SendFailed,
    /// The shutdown signal was looked at; `true` when it is set.
    Shutdown(bool),
    /// A line arrived, terminator and all.
    Line(String),
    /// The client closed its side.
    EndOfStream,
    /// Reading failed.
    ReadFailed,
}

impl View for ConnectionEvent {
    type V = Input;

    open spec fn view(&self) -> Input {
        match self {
            ConnectionEvent::Opened => Input::Opened,
            ConnectionEvent::Sent => Input::Sent,
            ConnectionEvent::SendFailed => Input::SendFailed,
            ConnectionEvent::Shutdown(set) => Input::Shutdown(*set),
            ConnectionEvent::Line(line) => Input::Line(line@),
            ConnectionEvent::EndOfStream => Input::EndOfStream,
            ConnectionEvent::ReadFailed => Input::ReadFailed,
        }
    }
}

/// An action, for the owner of the socket to carry out.
#[derive(Debug, Clone, PartialEq, Eq)]
pub enum ConnectionAction {
    /// Write this reply in its wire form, then report `Sent` or
    /// `SendFailed`.
    Send(SmtpReply),
    /// Look at the shutdown signal, then report `Shutdown`.
    PollShutdown,
    /// Read a line, then report `Line`, `EndOfStream` or `ReadFailed`.
    ReadLine,
    /// Close the connection; the dialog is over.
    Close,
}

impl View for ConnectionAction {
    type V = Output;

    open spec fn view(&self) -> Output {
        match self {
            ConnectionAction::Send(reply) => Output::Send(reply@),
            ConnectionAction::PollShutdown => Output::PollShutdown,
            ConnectionAction::ReadLine => Output::ReadLine,
            ConnectionAction::Close => Output::Close,
        }
    }
}

/// The dialog of one accepted connection.
#[derive(Debug, Clone, PartialEq, Eq)]
pub struct SmtpConnection {
    phase: Phase,
    session: SmtpSession,
    hostname: String,
}

impl View for SmtpConnection {
    type V = Connection;

    closed spec fn view(&self) -> Connection {
        Connection { phase: self.phase, session: self.session@, hostname: self.hostname@ }
    }
}

impl SmtpConnection {
    /// The dialog of a connection that the server `hostname` just accepted.
    pub fn new(hostname: String) -> (connection: Self)
        ensures
            connection@ == Connection::accepted(hostname@),
            connection@.well_formed(),
    {
        Self { phase: Phase::Opening, session: SmtpSession::new(), hostname }
    }

    /// The phase that the connection is in.
    pub fn phase(&self) -> (phase: Phase)
        ensures
            phase == self@.phase,
    {
        self.phase
    }

    /// The session of this connection.
    pub fn session(&self) -> (session: &SmtpSession)
        ensures
            session@ == self@.session,
    {
        &self.session
    }

    /// Whether the dialog is over.
    pub fn is_closed(&self) -> (closed: bool)
        ensures
            closed == (self@.phase == Phase::Closed),
    {
        self.phase == Phase::Closed
    }

    /// Reads the command on `line`, carries it out and gives the reply to
    /// write.
    fn receive(&mut self, line: &String) -> (action: ConnectionAction)
        ensures
            (final(self)@, action@) == old(self)@.receive(line@),
    {
        let command = SmtpCommand::parse(line);
        let reply = self.session.apply(command, self.hostname.as_str());
        self.phase = if reply.close {
            Phase::Leaving
        } else {
            Phase::Replying
        };
        ConnectionAction::Send(reply)
    }

    /// Takes one event and says what to do next.
    pub fn step(&mut self, event: ConnectionEvent) -> (action: ConnectionAction)
        ensures
            (final(self)@, action@) == old(self)@.step(event@),
            old(self)@.well_formed() ==> final(self)@.well_formed(),
    {
        match (self.phase, event) {
            (Phase::Opening, ConnectionEvent::Opened) => {
                self.phase = Phase::Greeting;
                ConnectionAction::Send(SmtpReply::greeting(self.hostname.as_str()))
            },
            (Phase::Greeting, ConnectionEvent::Sent) => {
                self.phase = Phase::Polling;
                ConnectionAction::PollShutdown
            },
            (Phase::Polling, ConnectionEvent::Shutdown(true)) => {
                self.phase = Phase::Notifying;
                ConnectionAction::Send(SmtpReply::shutdown_notice(self.hostname.as_str()))
            },
            (Phase::Polling, ConnectionEvent::Shutdown(false)) => {
                self.phase = Phase::Reading;
                ConnectionAction::ReadLine
            },
            (Phase::Notifying, ConnectionEvent::Sent) => {
                self.phase = Phase::Reading;
                ConnectionAction::ReadLine
            },
            (Phase::Reading, ConnectionEvent::Line(line)) => self.receive(&line),
            (Phase::Replying, ConnectionEvent::Sent) => {
                self.phase = Phase::Polling;
                ConnectionAction::PollShutdown
            },
            _ => {
                self.phase = Phase::Closed;
                ConnectionAction::Close
            },
        }
    }
}

} // verus!
