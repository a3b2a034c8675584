//! Reply lines: what the server answers, and how it looks on the wire.

use super::error::code_prefix;
use super::error::lemma_error_text_begins_with_code;
use super::error::ProtocolError;
use super::error::SmtpError;
use vstd::prelude::*;

verus! {

/// One reply of the server.
pub struct Reply {
    /// The three-digit reply code.
    pub code: int,
    /// The reply line, code first, without the line terminator.
    pub text: Seq<char>,
    /// Whether the connection ends once this reply is written.
    pub close: bool,
}

impl Reply {
    /// The banner that opens a connection.
    pub open spec fn greeting(hostname: Seq<char>) -> Reply {
        Reply { code: 220, text: "220 "@ + hostname + " ESMTP ZephPost"@, close: false }
    }

    /// The answer to `HELO` and `EHLO`.
    pub open spec fn hello(hostname: Seq<char>) -> Reply {
        Reply { code: 250, text: "250 "@ + hostname, close: false }
    }

    /// The answer to a command that was carried out.
    pub open spec fn ok() -> Reply {
        Reply { code: 250, text: "250 OK"@, close: false }
    }

    /// The answer to `QUIT`.
    pub open spec fn bye() -> Reply {
        Reply { code: 221, text: "221 Bye"@, close: true }
    }

    /// The answer that reports `error`.
    pub open spec fn rejection(error: ProtocolError) -> Reply {
        Reply { code: error.code(), text: error.text(), close: false }
    }

    /// The notice sent when the server is found to be shutting down.
    pub open spec fn shutdown_notice(hostname: Seq<char>) -> Reply {
        Reply::rejection(ProtocolError::Shutdown(hostname))
    }

    /// The characters written to the client: the reply line and CR LF.
    pub open spec fn wire(self) -> Seq<char> {
        self.text + seq!['\r', '\n']
    }

    /// Whether the reply line begins with the reply's own code and a space.
    pub open spec fn begins_with_code(self) -> bool {
        self.text.len() >= 4 && self.text.take(4) == code_prefix(self.code)
    }
}

/// Each of the server's replies begins with its code, whatever the host
/// name and whatever the error.
pub proof fn lemma_replies_begin_with_code(hostname: Seq<char>, error: ProtocolError)
    ensures
        Reply::greeting(hostname).begins_with_code(),
        Reply::hello(hostname).begins_with_code(),
        Reply::ok().begins_with_code(),
        Reply::bye().begins_with_code(),
        Reply::rejection(error).begins_with_code(),
        Reply::shutdown_notice(hostname).begins_with_code(),
{
    reveal_strlit("220 ");
    reveal_strlit(" ESMTP ZephPost");
    reveal_strlit("250 ");
    reveal_strlit("250 OK");
    reveal_strlit("221 Bye");
    lemma_error_text_begins_with_code(error);
    lemma_error_text_begins_with_code(ProtocolError::Shutdown(hostname));
    assert(Reply::greeting(hostname).text.take(4) =~= code_prefix(220));
    assert(Reply::hello(hostname).text.take(4) =~= code_prefix(250));
    assert(Reply::ok().text.take(4) =~= code_prefix(250));
    assert(Reply::bye().text.take(4) =~= code_prefix(221));
}

/// A reply as the server holds it.
#[derive(Debug, Clone, PartialEq, Eq)]
pub struct SmtpReply {
    /// The three-digit reply code.
    pub code: u16,
    /// The reply line, code first, without the line terminator.
    pub text: String,
    /// Whether the connection ends once this reply is written.
    pub close: bool,
}

impl View for SmtpReply {
    type V = Reply;

    open spec fn view(&self) -> Reply {
        Reply { code: self.code as int, text: self.text@, close: self.close }
    }
}

impl SmtpReply {
    /// The banner that opens a connection.
    pub fn greeting(hostname: &str) -> (reply: SmtpReply)
        ensures
            reply@ == Reply::greeting(hostname@),
    {
        let mut text = String::from_str("220 ");
        text.append(hostname);
        text.append(" ESMTP ZephPost");
        SmtpReply { code: 220, text, close: false }
    }

    /// The answer to `HELO` and `EHLO`.
    pub fn hello(hostname: &str) -> (reply: SmtpReply)
        ensures
            reply@ == Reply::hello(hostname@),
    {
        let mut text = String::from_str("250 ");
        text.append(hostname);
        SmtpReply { code: 250, text, close: false }
    }

    /// The answer to a command that was carried out.
    pub fn ok() -> (reply: SmtpReply)
        ensures
            reply@ == Reply::ok(),
    {
        SmtpReply { code: 250, text: String::from_str("250 OK"), close: false }
    }

    /// The answer to `QUIT`.
    pub fn bye() -> (reply: SmtpReply)
        ensures
            reply@ == Reply::bye(),
    {
        SmtpReply { code: 221, text: String::from_str("221 Bye"), close: true }
    }

    /// The answer that reports `error`.
    pub fn rejection(error: &SmtpError) -> (reply: SmtpReply)
        ensures
            reply@ == Reply::rejection(error@),
    {
        SmtpReply { code: error.code(), text: error.to_string(), close: false }
    }

    /// The notice sent when the server is found to be shutting down.
    pub fn shutdown_notice(hostname: &str) -> (reply: SmtpReply)
        ensures
            reply@ == Reply::shutdown_notice(hostname@),
    {
        let error = SmtpError::Shutdown(String::from_str(hostname));
        SmtpReply::rejection(&error)
    }

    /// The characters to write to the client: the reply line and CR LF.
    pub fn to_wire(&self) -> (line: String)
        ensures
            line@ == self@.wire(),
    {
        let mut line = self.text.clone();
        line.append("\r\n");
        proof {
            reveal_strlit("\r\n");
            assert("\r\n"@ =~= seq!['\r', '\n']);
        }
        line
    }
}

} // verus!
