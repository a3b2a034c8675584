//! Protocol violations, and the reply line that answers each.

use vstd::prelude::*;

verus! {

/// The ways in which a client, or the server's own state, can keep a
/// command from being carried out.
pub enum ProtocolError {
    /// The server is shutting down; carries the server's host name.
    Shutdown(Seq<char>),
    /// The verb is not one the server knows.
    UnrecognizedCommand,
    /// The verb is known but its arguments are missing or malformed.
    WrongArgument,
    /// The command is not allowed at this point of the dialog.
    BadSequence,
    /// Something follows a well-formed `MAIL FROM:<..>`.
    UnrecognizedMailParameter,
}

impl ProtocolError {
    /// The three-digit reply code.
    pub open spec fn code(self) -> int {
        match self {
            ProtocolError::Shutdown(_) => 421,
            ProtocolError::UnrecognizedCommand => 500,
            ProtocolError::WrongArgument => 501,
            ProtocolError::BadSequence => 503,
            ProtocolError::UnrecognizedMailParameter => 555,
        }
    }

    /// The reply line, code first, without the line terminator.
    pub open spec fn text(self) -> Seq<char> {
        match self {
            ProtocolError::Shutdown(hostname) => "421 "@ + hostname
                + " Service not available, closing transmission channel"@,
            ProtocolError::UnrecognizedCommand => "500 SyntaxError: Command unrecognized"@,
            ProtocolError::WrongArgument => "501 SyntaxError: Wrong parameters or arguments"@,
            ProtocolError::BadSequence => "503 LogicalError: Bad sequence of commands"@,
            ProtocolError::UnrecognizedMailParameter =>
                "555 SyntaxError: MAIL FROM parameters unrecognized"@,
        }
    }
}

/// The decimal digit `d` as a character.
pub open spec fn digit_char(d: int) -> char {
    (('0' as int) + d) as char
}

/// A reply code written as three decimal digits and a space, the way every
/// reply line begins.
pub open spec fn code_prefix(code: int) -> Seq<char> {
    seq![digit_char(code / 100), digit_char((code / 10) % 10), digit_char(code % 10), ' ']
}

/// The reply line of every error begins with that error's own code.
pub proof fn lemma_error_text_begins_with_code(error: ProtocolError)
    ensures
        error.text().len() > 4,
        error.text().take(4) == code_prefix(error.code()),
{
    reveal_strlit("421 ");
    reveal_strlit(" Service not available, closing transmission channel");
    reveal_strlit("500 SyntaxError: Command unrecognized");
    reveal_strlit("501 SyntaxError: Wrong parameters or arguments");
    reveal_strlit("503 LogicalError: Bad sequence of commands");
    reveal_strlit("555 SyntaxError: MAIL FROM parameters unrecognized");
    assert(error.text().take(4) =~= code_prefix(error.code()));
}

/// A protocol violation as the server holds it.
#[derive(Debug, Clone, PartialEq, Eq)]
pub enum SmtpError {
    Shutdown(String),
    UnrecognizedCommand,
    WrongArgument,
    BadSequence,
    UnrecognizedMAILParameter,
}

impl View for SmtpError {
    type V = ProtocolError;

    open spec fn view(&self) -> ProtocolError {
        match self {
            SmtpError::Shutdown(hostname) => ProtocolError::Shutdown(hostname@),
            SmtpError::UnrecognizedCommand => ProtocolError::UnrecognizedCommand,
            SmtpError::WrongArgument => ProtocolError::WrongArgument,
            SmtpError::BadSequence => ProtocolError::BadSequence,
            SmtpError::UnrecognizedMAILParameter => ProtocolError::UnrecognizedMailParameter,
        }
    }
}

impl SmtpError {
    /// The three-digit reply code of this error.
    pub fn code(&self) -> (code: u16)
        ensures
            code == self@.code(),
    {
        match self {
            SmtpError::Shutdown(_) => 421,
            SmtpError::UnrecognizedCommand => 500,
            SmtpError::WrongArgument => 501,
            SmtpError::BadSequence => 503,
            SmtpError::UnrecognizedMAILParameter => 555,
        }
    }

    /// The reply line of this error, code first, without the line
    /// terminator.
    pub fn to_string(&self) -> (text: String)
        ensures
            text@ == self@.text(),
    {
        match self {
            SmtpError::Shutdown(hostname) => {
                let mut text = String::from_str("421 ");
                text.append(hostname.as_str());
                text.append(" Service not available, closing transmission channel");
                text
            },
            SmtpError::UnrecognizedCommand => String::from_str(
                "500 SyntaxError: Command unrecognized",
            ),
            SmtpError::WrongArgument => String::from_str(
                "501 SyntaxError: Wrong parameters or arguments",
            ),
            SmtpError::BadSequence => String::from_str("503 LogicalError: Bad sequence of commands"),
            SmtpError::UnrecognizedMAILParameter => String::from_str(
                "555 SyntaxError: MAIL FROM parameters unrecognized",
            ),
        }
    }
}

} // verus!
