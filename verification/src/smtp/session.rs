//! The state of one connection's dialog, and how commands change it.

use super::command::Command;
use super::command::SmtpCommand;
use super::error::ProtocolError;
use super::error::SmtpError;
use super::reply::Reply;
use super::reply::SmtpReply;
use vstd::prelude::*;

verus! {

/// What a connection has established so far.
pub struct Session {
    /// Whether the client has introduced itself.
    pub greeted: bool,
    /// The sender of the transaction under way, if one was named.
    pub sender: Option<Seq<char>>,
    /// The recipients named so far, in the order given; one may occur
    /// more than once.
    pub recipients: Seq<Seq<char>>,
    /// The message text received so far.
    pub data: Seq<char>,
}

impl Session {
    /// The session of a connection that was just accepted.
    pub open spec fn fresh() -> Session {
        Session {
            greeted: false,
            sender: None,
            recipients: Seq::<Seq<char>>::empty(),
            data: Seq::<char>::empty(),
        }
    }

    /// A greeted session with no transaction under way.
    pub open spec fn greeted_idle() -> Session {
        Session {
            greeted: true,
            sender: None,
            recipients: Seq::<Seq<char>>::empty(),
            data: Seq::<char>::empty(),
        }
    }

    /// The transaction is abandoned; the greeting stands.
    pub open spec fn reset(self) -> Session {
        Session {
            greeted: self.greeted,
            sender: None,
            recipients: Seq::<Seq<char>>::empty(),
            data: Seq::<char>::empty(),
        }
    }

    /// The client has introduced itself. A second introduction abandons
    /// the transaction under way.
    pub open spec fn greet(self) -> Session {
        if self.greeted {
            self.reset()
        } else {
            Session {
                greeted: true,
                sender: self.sender,
                recipients: self.recipients,
                data: self.data,
            }
        }
    }

    /// A sender is named. Naming one while another stands abandons the
    /// transaction under way first.
    pub open spec fn with_sender(self, sender: Seq<char>) -> Session {
        if self.sender is None {
            Session {
                greeted: self.greeted,
                sender: Some(sender),
                recipients: self.recipients,
                data: self.data,
            }
        } else {
            Session {
                greeted: self.greeted,
                sender: Some(sender),
                recipients: Seq::<Seq<char>>::empty(),
                data: Seq::<char>::empty(),
            }
        }
    }

    /// One more recipient is named.
    pub open spec fn with_recipient(self, recipient: Seq<char>) -> Session {
        Session {
            greeted: self.greeted,
            sender: self.sender,
            recipients: self.recipients.push(recipient),
            data: self.data,
        }
    }

    /// More message text has arrived.
    pub open spec fn with_data(self, more: Seq<char>) -> Session {
        Session {
            greeted: self.greeted,
            sender: self.sender,
            recipients: self.recipients,
            data: self.data + more,
        }
    }

    /// The order that the dialog keeps: recipients only behind a sender, a
    /// sender only behind a greeting.
    pub open spec fn well_sequenced(self) -> bool {
        &&& self.recipients.len() > 0 ==> self.sender is Some
        &&& self.sender is Some ==> self.greeted
    }

    /// Whether `command` comes at a point of the dialog where it may be
    /// carried out. Only `MAIL` and `RCPT` depend on what came before.
    pub open spec fn in_sequence(self, command: Command) -> bool {
        match command {
            Command::Mail { .. } => self.greeted,
            Command::Rcpt { .. } => self.greeted && self.sender is Some,
            _ => true,
        }
    }

    /// The session after `command`.
    pub open spec fn apply(self, command: Command) -> Session {
        match command {
            Command::Helo { .. } | Command::Ehlo { .. } => self.greet(),
            Command::Mail { from } => if self.in_sequence(command) {
                self.with_sender(from)
            } else {
                self
            },
            Command::Rcpt { to } => if self.in_sequence(command) {
                self.with_recipient(to)
            } else {
                self
            },
            Command::Rset => self.reset(),
            Command::Noop | Command::Quit | Command::Invalid(_) => self,
        }
    }

    /// The reply to `command`, from a server named `hostname`.
    pub open spec fn answer(self, command: Command, hostname: Seq<char>) -> Reply {
        match command {
            Command::Helo { .. } | Command::Ehlo { .. } => Reply::hello(hostname),
            Command::Mail { .. } | Command::Rcpt { .. } => if self.in_sequence(command) {
                Reply::ok()
            } else {
                Reply::rejection(ProtocolError::BadSequence)
            },
            Command::Rset | Command::Noop => Reply::ok(),
            Command::Quit => Reply::bye(),
            Command::Invalid(error) => Reply::rejection(error),
        }
    }

    /// The session after each of `commands` in turn.
    pub open spec fn apply_all(self, commands: Seq<Command>) -> Session
        decreases commands.len(),
    {
        if commands.len() == 0 {
            self
        } else {
            self.apply_all(commands.drop_last()).apply(commands.last())
        }
    }
}

/// A fresh session keeps the order of the dialog, and no command breaks it.
pub proof fn lemma_apply_keeps_sequence(session: Session, command: Command)
    requires
        session.well_sequenced(),
    ensures
        Session::fresh().well_sequenced(),
        session.apply(command).well_sequenced(),
{
}

/// No run of commands breaks the order of the dialog.
pub proof fn lemma_apply_all_keeps_sequence(session: Session, commands: Seq<Command>)
    requires
        session.well_sequenced(),
    ensures
        session.apply_all(commands).well_sequenced(),
    decreases commands.len(),
{
    if commands.len() > 0 {
        lemma_apply_all_keeps_sequence(session, commands.drop_last());
        lemma_apply_keeps_sequence(session.apply_all(commands.drop_last()), commands.last());
    }
}

/// A command out of sequence is answered with 503 and changes nothing; one
/// in sequence is never answered with 503.
pub proof fn lemma_out_of_sequence(session: Session, command: Command, hostname: Seq<char>)
    ensures
        !session.in_sequence(command) ==> session.apply(command) == session && session.answer(
            command,
            hostname,
        ) == Reply::rejection(ProtocolError::BadSequence) && session.answer(command, hostname).code
            == 503,
        session.in_sequence(command) && !(command matches Command::Invalid(
            ProtocolError::BadSequence,
        )) ==> session.answer(command, hostname).code != 503,
{
}

/// Before the greeting neither `MAIL` nor `RCPT` is carried out: each is
/// answered with 503 and the session stays as it was, also when the
/// `RCPT` follows a `MAIL`.
pub proof fn lemma_nothing_before_greeting(
    session: Session,
    from: Seq<char>,
    to: Seq<char>,
    hostname: Seq<char>,
)
    requires
        !session.greeted,
    ensures
        session.apply(Command::Mail { from }) == session,
        session.answer(Command::Mail { from }, hostname).code == 503,
        session.apply(Command::Rcpt { to }) == session,
        session.answer(Command::Rcpt { to }, hostname).code == 503,
        session.apply(Command::Mail { from }).apply(Command::Rcpt { to }) == session,
        session.apply(Command::Mail { from }).answer(Command::Rcpt { to }, hostname).code == 503,
{
}

/// Once greeted, always greeted: no command takes the greeting back.
pub proof fn lemma_greeting_stands(session: Session, commands: Seq<Command>)
    requires
        session.greeted,
    ensures
        session.apply_all(commands).greeted,
    decreases commands.len(),
{
    if commands.len() > 0 {
        lemma_greeting_stands(session, commands.drop_last());
    }
}

/// A second greeting leaves a greeted session with no transaction, whatever
/// the session was before the first and whatever came between the two.
pub proof fn lemma_second_greeting_resets(
    session: Session,
    first: Command,
    between: Seq<Command>,
    second: Command,
)
    requires
        first is Helo || first is Ehlo,
        second is Helo || second is Ehlo,
    ensures
        session.apply(first).apply_all(between).apply(second) == Session::greeted_idle(),
{
    lemma_greeting_stands(session.apply(first), between);
}

/// `RSET` abandons the transaction and leaves the greeting as it is.
pub proof fn lemma_rset_clears_transaction(session: Session)
    ensures
        session.apply(Command::Rset).greeted == session.greeted,
        session.apply(Command::Rset).sender is None,
        session.apply(Command::Rset).recipients.len() == 0,
        session.apply(Command::Rset).data.len() == 0,
{
}

/// Recipients are kept in the order in which they were named, repeats and
/// all.
pub proof fn lemma_recipients_accumulate(session: Session, to: Seq<char>)
    requires
        session.greeted,
        session.sender is Some,
    ensures
        session.apply(Command::Rcpt { to }).recipients == session.recipients.push(to),
        session.apply(Command::Rcpt { to }).sender == session.sender,
{
}

/// No command brings message text: a session without any stays without.
pub proof fn lemma_apply_brings_no_data(session: Session, command: Command)
    requires
        session.data.len() == 0,
    ensures
        session.apply(command).data.len() == 0,
{
}

/// The state of one connection's dialog as the server holds it.
#[derive(Debug, Clone, PartialEq, Eq)]
pub struct SmtpSession {
    helo_received: bool,
    sender: Option<String>,
    recipients: Vec<String>,
    data: String,
}

/// The texts that a vector of strings holds.
pub open spec fn string_texts(strings: Seq<String>) -> Seq<Seq<char>> {
    Seq::new(strings.len(), |k: int| strings[k]@)
}

/// The text that an optional string holds.
pub open spec fn option_text(string: Option<String>) -> Option<Seq<char>> {
    match string {
        Some(s) => Some(s@),
        None => None,
    }
}

impl View for SmtpSession {
    type V = Session;

    closed spec fn view(&self) -> Session {
        Session {
            greeted: self.helo_received,
            sender: option_text(self.sender),
            recipients: string_texts(self.recipients@),
            data: self.data@,
        }
    }
}

impl SmtpSession {
    pub fn new() -> (session: Self)
        ensures
            session@ == Session::fresh(),
    {
        let session = Self {
            helo_received: false,
            sender: None,
            recipients: Vec::new(),
            data: String::new(),
        };
        assert(string_texts(session.recipients@) =~= Seq::<Seq<char>>::empty());
        session
    }

    pub fn reset(&mut self)
        ensures
            final(self)@ == old(self)@.reset(),
    {
        self.sender = None;
        self.recipients.clear();
        self.data = String::new();
        assert(string_texts(self.recipients@) =~= Seq::<Seq<char>>::empty());
    }

    pub fn is_helo_received(&self) -> (greeted: bool)
        ensures
            greeted == self@.greeted,
    {
        self.helo_received
    }

    pub fn set_helo_received(&mut self)
        ensures
            final(self)@ == old(self)@.greet(),
    {
        if !self.helo_received {
            self.helo_received = true;
        } else {
            self.reset();
            self.helo_received = true;
        }
    }

    pub fn is_sender_set(&self) -> (set: bool)
        ensures
            set == self@.sender is Some,
    {
        self.sender.is_some()
    }

    pub fn get_sender(&self) -> (sender: &Option<String>)
        ensures
            option_text(*sender) == self@.sender,
    {
        &self.sender
    }

    pub fn set_sender(&mut self, sender: String)
        ensures
            final(self)@ == old(self)@.with_sender(sender@),
    {
        if self.sender.is_none() {
            self.sender = Some(sender);
        } else {
            self.reset();
            self.sender = Some(sender);
        }
    }

    pub fn get_recipients(&self) -> (recipients: &Vec<String>)
        ensures
            string_texts(recipients@) == self@.recipients,
    {
        &self.recipients
    }

    pub fn add_recipient(&mut self, recipient: String)
        ensures
            final(self)@ == old(self)@.with_recipient(recipient@),
    {
        self.recipients.push(recipient);
        assert(string_texts(self.recipients@) =~= string_texts(old(self).recipients@).push(
            recipient@,
        ));
    }

    pub fn get_data(&self) -> (data: &String)
        ensures
            data@ == self@.data,
    {
        &self.data
    }

    pub fn append_data(&mut self, buf: &str)
        ensures
            final(self)@ == old(self)@.with_data(buf@),
    {
        self.data.append(buf);
    }

    /// Carries out `command`, as far as the dialog allows it at this point,
    /// and gives the reply for the client. `hostname` is the server's name.
    pub fn apply(&mut self, command: SmtpCommand, hostname: &str) -> (reply: SmtpReply)
        ensures
            final(self)@ == old(self)@.apply(command@),
            reply@ == old(self)@.answer(command@, hostname@),
            old(self)@.well_sequenced() ==> final(self)@.well_sequenced(),
    {
        match command {
            SmtpCommand::HELO(_) => {
                self.set_helo_received();
                SmtpReply::hello(hostname)
            },
            SmtpCommand::EHLO(_) => {
                self.set_helo_received();
                SmtpReply::hello(hostname)
            },
            SmtpCommand::MAIL(mail) => {
                if self.is_helo_received() {
                    self.set_sender(mail.from);
                    SmtpReply::ok()
                } else {
                    SmtpReply::rejection(&SmtpError::BadSequence)
                }
            },
            SmtpCommand::RCPT(rcpt) => {
                if self.is_helo_received() && self.is_sender_set() {
                    self.add_recipient(rcpt.to);
                    SmtpReply::ok()
                } else {
                    SmtpReply::rejection(&SmtpError::BadSequence)
                }
            },
            SmtpCommand::RSET => {
                self.reset();
                SmtpReply::ok()
            },
            SmtpCommand::NOOP => SmtpReply::ok(),
            SmtpCommand::QUIT => SmtpReply::bye(),
            SmtpCommand::Invalid(error) => SmtpReply::rejection(&error),
        }
    }
}

} // verus!
