//! Commands, and the parser that reads one from a line.
//!
//! What a line means is given by [`parse_line`], a function on `Seq<char>`;
//! [`SmtpCommand::parse`] computes it.

use super::error::ProtocolError;
use super::error::SmtpError;
use crate::text::chars_of;
use crate::text::drop_line_end;
use crate::text::has_keyword_prefix;
use crate::text::is_keyword;
use crate::text::is_line_end;
use crate::text::join_spaces;
use crate::text::lemma_split_join;
use crate::text::lemma_split_prefixed;
use crate::text::lemma_split_tokens;
use crate::text::lemma_strip_appended;
use crate::text::lemma_strip_prefixed;
use crate::text::lemma_upper_concat;
use crate::text::line_end_free;
use crate::text::lower;
use crate::text::lower_string_of;
use crate::text::slice_of;
use crate::text::space_free;
use crate::text::split_at_spaces;
use crate::text::split_spaces;
use crate::text::starts_with_keyword;
use crate::text::string_of;
use crate::text::strip_line_end;
use crate::text::texts;
use crate::text::upper;
use crate::utils::valid_email_address;
use crate::utils::validate_address_chars;
use vstd::prelude::*;

verus! {

/// A command as the protocol sees it.
pub enum Command {
    Helo { sender_domain: Seq<char> },
    Ehlo { sender_domain: Seq<char> },
    Mail { from: Seq<char> },
    Rcpt { to: Seq<char> },
    Rset,
    Noop,
    Quit,
    Invalid(ProtocolError),
}

/// The address inside `token`, when `token` is `keyword`, an address and a
/// closing angle bracket; `keyword` is `FROM:<` or `TO:<` and is matched
/// without regard to case.
pub open spec fn envelope_address(token: Seq<char>, keyword: Seq<char>) -> Option<Seq<char>> {
    if token.len() > keyword.len() && starts_with_keyword(token, keyword) && token.last() == '>' {
        Some(token.subrange(keyword.len() as int, token.len() - 1))
    } else {
        None
    }
}

/// `HELO` and `EHLO` take exactly one argument, which is kept in lower
/// case.
pub open spec fn greeting_domain(tokens: Seq<Seq<char>>) -> Option<Seq<char>> {
    if tokens.len() == 2 {
        Some(lower(tokens[1]))
    } else {
        None
    }
}

/// `MAIL` wants `FROM:<address>` with an address that passes the syntax
/// check, and nothing behind it.
pub open spec fn parse_mail(tokens: Seq<Seq<char>>) -> Command {
    if tokens.len() < 2 {
        Command::Invalid(ProtocolError::WrongArgument)
    } else {
        match envelope_address(tokens[1], "FROM:<"@) {
            Some(from) => if !valid_email_address(from) {
                Command::Invalid(ProtocolError::WrongArgument)
            } else if tokens.len() == 2 {
                Command::Mail { from }
            } else {
                Command::Invalid(ProtocolError::UnrecognizedMailParameter)
            },
            None => Command::Invalid(ProtocolError::WrongArgument),
        }
    }
}

/// `RCPT` wants `TO:<address>` with an address that passes the syntax
/// check, and nothing behind it.
pub open spec fn parse_rcpt(tokens: Seq<Seq<char>>) -> Command {
    if tokens.len() != 2 {
        Command::Invalid(ProtocolError::WrongArgument)
    } else {
        match envelope_address(tokens[1], "TO:<"@) {
            Some(to) => if valid_email_address(to) {
                Command::Rcpt { to }
            } else {
                Command::Invalid(ProtocolError::WrongArgument)
            },
            None => Command::Invalid(ProtocolError::WrongArgument),
        }
    }
}

/// The command that a line's tokens spell. The first token is the verb and
/// is read without regard to case.
pub open spec fn parse_tokens(tokens: Seq<Seq<char>>) -> Command {
    if tokens.len() == 0 {
        Command::Invalid(ProtocolError::UnrecognizedCommand)
    } else {
        let verb = upper(tokens[0]);
        if verb == "HELO"@ {
            match greeting_domain(tokens) {
                Some(sender_domain) => Command::Helo { sender_domain },
                None => Command::Invalid(ProtocolError::WrongArgument),
            }
        } else if verb == "EHLO"@ {
            match greeting_domain(tokens) {
                Some(sender_domain) => Command::Ehlo { sender_domain },
                None => Command::Invalid(ProtocolError::WrongArgument),
            }
        } else if verb == "MAIL"@ {
            parse_mail(tokens)
        } else if verb == "RCPT"@ {
            parse_rcpt(tokens)
        } else if verb == "RSET"@ {
            if tokens.len() == 1 {
                Command::Rset
            } else {
                Command::Invalid(ProtocolError::WrongArgument)
            }
        } else if verb == "NOOP"@ {
            Command::Noop
        } else if verb == "QUIT"@ {
            Command::Quit
        } else {
            Command::Invalid(ProtocolError::UnrecognizedCommand)
        }
    }
}

/// The command that `line` spells: the line terminator is dropped, what is
/// left is split on single spaces, and the tokens are read.
pub open spec fn parse_line(line: Seq<char>) -> Command {
    parse_tokens(split_spaces(strip_line_end(line)))
}

/// Argument of `HELO`.
#[derive(Debug, Clone, PartialEq, Eq)]
pub struct HELO {
    pub sender: String,
}

impl HELO {
    pub fn new(sender: String) -> (helo: Self)
        ensures
            helo.sender == sender,
    {
        Self { sender: sender }
    }
}

/// Argument of `EHLO`.
#[derive(Debug, Clone, PartialEq, Eq)]
pub struct EHLO {
    pub sender: String,
}

impl EHLO {
    pub fn new(sender: String) -> (ehlo: Self)
        ensures
            ehlo.sender == sender,
    {
        Self { sender: sender }
    }
}

/// Argument of `MAIL`.
#[derive(Debug, Clone, PartialEq, Eq)]
pub struct MAIL {
    pub from: String,
}

impl MAIL {
    pub fn new(from: String) -> (mail: Self)
        ensures
            mail.from == from,
    {
        Self { from: from }
    }
}

/// Argument of `RCPT`.
#[derive(Debug, Clone, PartialEq, Eq)]
pub struct RCPT {
    pub to: String,
}

impl RCPT {
    pub fn new(to: String) -> (rcpt: Self)
        ensures
            rcpt.to == to,
    {
        Self { to: to }
    }
}

/// A command as the server holds it.
#[derive(Debug, Clone, PartialEq, Eq)]
pub enum SmtpCommand {
    HELO(HELO),
    EHLO(EHLO),
    MAIL(MAIL),
    RCPT(RCPT),
    RSET,
    NOOP,
    QUIT,
    Invalid(SmtpError),
}

impl View for SmtpCommand {
    type V = Command;

    open spec fn view(&self) -> Command {
        match self {
            SmtpCommand::HELO(helo) => Command::Helo { sender_domain: helo.sender@ },
            SmtpCommand::EHLO(ehlo) => Command::Ehlo { sender_domain: ehlo.sender@ },
            SmtpCommand::MAIL(mail) => Command::Mail { from: mail.from@ },
            SmtpCommand::RCPT(rcpt) => Command::Rcpt { to: rcpt.to@ },
            SmtpCommand::RSET => Command::Rset,
            SmtpCommand::NOOP => Command::Noop,
            SmtpCommand::QUIT => Command::Quit,
            SmtpCommand::Invalid(error) => Command::Invalid(error@),
        }
    }
}

/// The address that `token` carries behind `keyword`, if it has that shape.
fn address_in(token: &Vec<char>, keyword: &str) -> (address: Option<Vec<char>>)
    ensures
        match address {
            Some(found) => envelope_address(token@, keyword@) == Some(found@),
            None => envelope_address(token@, keyword@) is None,
        },
{
    let k = keyword.unicode_len();
    let n = token.len();
    if n > k && has_keyword_prefix(token, keyword) && token[n - 1] == '>' {
        Some(slice_of(token, k, n - 1))
    } else {
        None
    }
}

/// The argument of `HELO` or `EHLO`, folded to lower case.
fn greeting_argument(tokens: &Vec<Vec<char>>) -> (domain: Option<String>)
    ensures
        match domain {
            Some(name) => greeting_domain(texts(tokens@)) == Some(name@),
            None => greeting_domain(texts(tokens@)) is None,
        },
{
    if tokens.len() == 2 {
        Some(lower_string_of(&tokens[1]))
    } else {
        None
    }
}

/// Reads the arguments of `MAIL`.
fn mail_from(tokens: &Vec<Vec<char>>) -> (command: SmtpCommand)
    ensures
        command@ == parse_mail(texts(tokens@)),
{
    if tokens.len() < 2 {
        return SmtpCommand::Invalid(SmtpError::WrongArgument);
    }
    match address_in(&tokens[1], "FROM:<") {
        Some(from) => {
            if !validate_address_chars(&from) {
                SmtpCommand::Invalid(SmtpError::WrongArgument)
            } else if tokens.len() == 2 {
                SmtpCommand::MAIL(MAIL::new(string_of(&from)))
            } else {
                SmtpCommand::Invalid(SmtpError::UnrecognizedMAILParameter)
            }
        },
        None => SmtpCommand::Invalid(SmtpError::WrongArgument),
    }
}

/// Reads the arguments of `RCPT`.
fn rcpt_to(tokens: &Vec<Vec<char>>) -> (command: SmtpCommand)
    ensures
        command@ == parse_rcpt(texts(tokens@)),
{
    if tokens.len() != 2 {
        return SmtpCommand::Invalid(SmtpError::WrongArgument);
    }
    match address_in(&tokens[1], "TO:<") {
        Some(to) => {
            if validate_address_chars(&to) {
                SmtpCommand::RCPT(RCPT::new(string_of(&to)))
            } else {
                SmtpCommand::Invalid(SmtpError::WrongArgument)
            }
        },
        None => SmtpCommand::Invalid(SmtpError::WrongArgument),
    }
}

impl SmtpCommand {
    /// Reads the command that a line's tokens spell.
    pub fn from_tokens(tokens: &Vec<Vec<char>>) -> (command: SmtpCommand)
        ensures
            command@ == parse_tokens(texts(tokens@)),
    {
        if tokens.len() == 0 {
            return SmtpCommand::Invalid(SmtpError::UnrecognizedCommand);
        }
        let verb = &tokens[0];
        if is_keyword(verb, "HELO") {
            match greeting_argument(tokens) {
                Some(sender) => SmtpCommand::HELO(HELO::new(sender)),
                None => SmtpCommand::Invalid(SmtpError::WrongArgument),
            }
        } else if is_keyword(verb, "EHLO") {
            match greeting_argument(tokens) {
                Some(sender) => SmtpCommand::EHLO(EHLO::new(sender)),
                None => SmtpCommand::Invalid(SmtpError::WrongArgument),
            }
        } else if is_keyword(verb, "MAIL") {
            mail_from(tokens)
        } else if is_keyword(verb, "RCPT") {
            rcpt_to(tokens)
        } else if is_keyword(verb, "RSET") {
            if tokens.len() == 1 {
                SmtpCommand::RSET
            } else {
                SmtpCommand::Invalid(SmtpError::WrongArgument)
            }
        } else if is_keyword(verb, "NOOP") {
            SmtpCommand::NOOP
        } else if is_keyword(verb, "QUIT") {
            SmtpCommand::QUIT
        } else {
            SmtpCommand::Invalid(SmtpError::UnrecognizedCommand)
        }
    }

    /// Reads one line of the dialog. Every line is some command: what
    /// cannot be read is `Invalid` with the reason.
    pub fn parse(line: &String) -> (command: SmtpCommand)
        ensures
            command@ == parse_line(line@),
    {
        let mut chars = chars_of(line.as_str());
        drop_line_end(&mut chars);
        let tokens = split_at_spaces(&chars);
        SmtpCommand::from_tokens(&tokens)
    }
}

/// A line written as tokens with single spaces between them, followed by
/// any run of line-end characters, reads as those tokens.
pub proof fn lemma_parse_joined(tokens: Seq<Seq<char>>, ending: Seq<char>)
    requires
        tokens.len() >= 1,
        forall|k: int| 0 <= k < tokens.len() ==> space_free(#[trigger] tokens[k]),
        tokens.last().len() == 0 || !is_line_end(tokens.last().last()),
        forall|i: int| 0 <= i < ending.len() ==> is_line_end(#[trigger] ending[i]),
    ensures
        parse_line(join_spaces(tokens) + ending) == parse_tokens(tokens),
{
    let body = join_spaces(tokens);
    if body.len() > 0 {
        if tokens.len() == 1 {
            assert(body.last() == tokens.last().last());
        } else if tokens.last().len() > 0 {
            assert(body.last() == tokens.last().last());
        } else {
            assert(body.last() == ' ');
        }
    }
    lemma_strip_appended(body, ending);
    lemma_split_join(tokens);
}

/// The verb is read without regard to case: two lines that differ only in
/// the case of the letters of their verbs spell the same command.
pub proof fn lemma_parse_ignores_verb_case(verb: Seq<char>, other: Seq<char>, rest: Seq<char>)
    requires
        upper(verb) == upper(other),
        space_free(verb),
        space_free(other),
        line_end_free(verb),
        line_end_free(other),
    ensures
        parse_line(verb + rest) == parse_line(other + rest),
{
    let tail = strip_line_end(rest);
    lemma_strip_prefixed(verb, rest);
    lemma_strip_prefixed(other, rest);
    lemma_split_prefixed(verb, tail);
    lemma_split_prefixed(other, tail);
    lemma_split_tokens(tail);
    let first = split_spaces(tail)[0];
    lemma_upper_concat(verb, first);
    lemma_upper_concat(other, first);
    let a = split_spaces(verb + tail);
    let b = split_spaces(other + tail);
    assert(upper(a[0]) == upper(b[0]));
    if a.len() >= 2 {
        assert(a[1] == split_spaces(tail)[1]);
        assert(b[1] == split_spaces(tail)[1]);
    }
}

/// The keyword, in either case, followed by an address and a closing angle
/// bracket holds exactly that address.
pub proof fn lemma_envelope_round_trip(written: Seq<char>, keyword: Seq<char>, address: Seq<char>)
    requires
        upper(written) == keyword,
    ensures
        envelope_address(written + address + seq!['>'], keyword) == Some(address),
{
    let token = written + address + seq!['>'];
    assert(written.len() == keyword.len());
    assert(token.take(keyword.len() as int) =~= written);
    assert(token.subrange(keyword.len() as int, token.len() - 1) =~= address);
}

/// The seven verbs are pairwise different texts, and the two envelope
/// keywords are in upper case.
proof fn lemma_verbs_differ()
    ensures
        "HELO"@ != "EHLO"@,
        "HELO"@ != "MAIL"@,
        "HELO"@ != "RCPT"@,
        "HELO"@ != "RSET"@,
        "HELO"@ != "NOOP"@,
        "HELO"@ != "QUIT"@,
        "EHLO"@ != "MAIL"@,
        "EHLO"@ != "RCPT"@,
        "EHLO"@ != "RSET"@,
        "EHLO"@ != "NOOP"@,
        "EHLO"@ != "QUIT"@,
        "MAIL"@ != "RCPT"@,
        "MAIL"@ != "RSET"@,
        "MAIL"@ != "NOOP"@,
        "MAIL"@ != "QUIT"@,
        "RCPT"@ != "RSET"@,
        "RCPT"@ != "NOOP"@,
        "RCPT"@ != "QUIT"@,
        "RSET"@ != "NOOP"@,
        "RSET"@ != "QUIT"@,
        "NOOP"@ != "QUIT"@,
        upper("FROM:<"@) == "FROM:<"@,
        upper("TO:<"@) == "TO:<"@,
{
    reveal_strlit("HELO");
    reveal_strlit("EHLO");
    reveal_strlit("MAIL");
    reveal_strlit("RCPT");
    reveal_strlit("RSET");
    reveal_strlit("NOOP");
    reveal_strlit("QUIT");
    reveal_strlit("FROM:<");
    reveal_strlit("TO:<");
    assert("HELO"@[0] == 'H');
    assert("EHLO"@[0] == 'E');
    assert("MAIL"@[0] == 'M');
    assert("RCPT"@[0] == 'R' && "RCPT"@[1] == 'C');
    assert("RSET"@[0] == 'R' && "RSET"@[1] == 'S');
    assert("NOOP"@[0] == 'N');
    assert("QUIT"@[0] == 'Q');
    assert(upper("FROM:<"@) =~= "FROM:<"@);
    assert(upper("TO:<"@) =~= "TO:<"@);
}

/// A text that folds to a text without spaces and line-end characters
/// holds none itself.
proof fn lemma_plain_when_folded(text: Seq<char>, folded: Seq<char>)
    requires
        upper(text) == folded,
        space_free(folded),
        line_end_free(folded),
    ensures
        space_free(text),
        line_end_free(text),
{
    assert forall|i: int| 0 <= i < text.len() implies text[i] != ' ' && !is_line_end(
        #[trigger] text[i],
    ) by {
        assert(folded[i] == crate::text::ascii_upper(text[i]));
        assert(!is_line_end(folded[i]));
    }
}

/// A text that folds to `HELO`, `EHLO`, `MAIL` or `RCPT` holds no space and
/// no line-end character, and neither does one that folds to `FROM:<` or
/// `TO:<`.
proof fn lemma_keyword_is_plain(written: Seq<char>)
    requires
        upper(written) == "HELO"@ || upper(written) == "EHLO"@ || upper(written) == "MAIL"@
            || upper(written) == "RCPT"@ || upper(written) == "FROM:<"@ || upper(written)
            == "TO:<"@,
    ensures
        space_free(written),
        line_end_free(written),
{
    reveal_strlit("HELO");
    reveal_strlit("EHLO");
    reveal_strlit("MAIL");
    reveal_strlit("RCPT");
    reveal_strlit("FROM:<");
    reveal_strlit("TO:<");
    let folded = upper(written);
    assert forall|i: int| 0 <= i < folded.len() implies folded[i] != ' ' && !is_line_end(
        #[trigger] folded[i],
    ) by {
        // none of the six texts is longer than six characters
        assert(i == 0 || i == 1 || i == 2 || i == 3 || i == 4 || i == 5);
    }
    lemma_plain_when_folded(written, folded);
}

/// A verb and one argument, joined.
proof fn lemma_join_pair(verb: Seq<char>, argument: Seq<char>)
    ensures
        join_spaces(seq![verb, argument]) == verb + seq![' '] + argument,
{
    let tokens = seq![verb, argument];
    assert(tokens.drop_last() =~= seq![verb]);
    assert(join_spaces(seq![verb]) == verb);
    assert(tokens.last() == argument);
}

/// No line reads as an error of sequence or of shutdown: the parser knows
/// nothing of the session or of the server.
pub proof fn lemma_parse_errors(line: Seq<char>)
    ensures
        parse_line(line) matches Command::Invalid(error) ==> error
            == ProtocolError::UnrecognizedCommand || error == ProtocolError::WrongArgument || error
            == ProtocolError::UnrecognizedMailParameter,
{
}

/// `NOOP` and `QUIT` are read whatever follows them; `RSET` is read only
/// when nothing follows it.
pub proof fn lemma_parse_bare_verbs(tokens: Seq<Seq<char>>)
    requires
        tokens.len() >= 1,
    ensures
        upper(tokens[0]) == "NOOP"@ ==> parse_tokens(tokens) == Command::Noop,
        upper(tokens[0]) == "QUIT"@ ==> parse_tokens(tokens) == Command::Quit,
        upper(tokens[0]) == "RSET"@ ==> parse_tokens(tokens) == if tokens.len() == 1 {
            Command::Rset
        } else {
            Command::Invalid(ProtocolError::WrongArgument)
        },
{
    lemma_verbs_differ();
}

/// A greeting with one argument is read with the argument in lower case,
/// whatever the case of verb and argument on the line and whatever line
/// terminator follows.
pub proof fn lemma_parse_greeting_line(verb: Seq<char>, domain: Seq<char>, ending: Seq<char>)
    requires
        upper(verb) == "HELO"@ || upper(verb) == "EHLO"@,
        space_free(domain),
        domain.len() == 0 || !is_line_end(domain.last()),
        forall|i: int| 0 <= i < ending.len() ==> is_line_end(#[trigger] ending[i]),
    ensures
        parse_line(verb + seq![' '] + domain + ending) == if upper(verb) == "HELO"@ {
            Command::Helo { sender_domain: lower(domain) }
        } else {
            Command::Ehlo { sender_domain: lower(domain) }
        },
{
    lemma_verbs_differ();
    lemma_keyword_is_plain(verb);
    lemma_join_pair(verb, domain);
    lemma_parse_joined(seq![verb, domain], ending);
}

/// A greeting with no argument, or with more than one, is a syntax error.
pub proof fn lemma_parse_greeting_arity(tokens: Seq<Seq<char>>)
    requires
        tokens.len() >= 1,
        tokens.len() != 2,
        upper(tokens[0]) == "HELO"@ || upper(tokens[0]) == "EHLO"@,
    ensures
        parse_tokens(tokens) == Command::Invalid(ProtocolError::WrongArgument),
{
    lemma_verbs_differ();
}

/// Whatever follows a valid `MAIL FROM:<address>` is an unrecognized
/// parameter.
pub proof fn lemma_parse_mail_parameter(
    tokens: Seq<Seq<char>>,
    keyword: Seq<char>,
    address: Seq<char>,
)
    requires
        tokens.len() > 2,
        upper(tokens[0]) == "MAIL"@,
        upper(keyword) == "FROM:<"@,
        tokens[1] == keyword + address + seq!['>'],
        valid_email_address(address),
    ensures
        parse_tokens(tokens) == Command::Invalid(ProtocolError::UnrecognizedMailParameter),
{
    lemma_verbs_differ();
    lemma_envelope_round_trip(keyword, "FROM:<"@, address);
}

/// The line `MAIL FROM:<address>` is read as `Mail` with that address when
/// the address passes the syntax check, and as a syntax error when it does
/// not, whatever the case of the keywords and whatever line terminator
/// follows.
pub proof fn lemma_parse_mail_line(
    verb: Seq<char>,
    keyword: Seq<char>,
    address: Seq<char>,
    ending: Seq<char>,
)
    requires
        upper(verb) == "MAIL"@,
        upper(keyword) == "FROM:<"@,
        space_free(address),
        forall|i: int| 0 <= i < ending.len() ==> is_line_end(#[trigger] ending[i]),
    ensures
        parse_line(verb + seq![' '] + keyword + address + seq!['>'] + ending) == if valid_email_address(
            address,
        ) {
            Command::Mail { from: address }
        } else {
            Command::Invalid(ProtocolError::WrongArgument)
        },
{
    lemma_verbs_differ();
    lemma_keyword_is_plain(verb);
    lemma_keyword_is_plain(keyword);
    let argument = keyword + address + seq!['>'];
    lemma_envelope_round_trip(keyword, "FROM:<"@, address);
    lemma_join_pair(verb, argument);
    assert(verb + seq![' '] + argument =~= verb + seq![' '] + keyword + address + seq!['>']);
    lemma_parse_joined(seq![verb, argument], ending);
}

/// The line `RCPT TO:<address>` is read as `Rcpt` with that address when
/// the address passes the syntax check, and as a syntax error when it does
/// not, whatever the case of the keywords and whatever line terminator
/// follows.
pub proof fn lemma_parse_rcpt_line(
    verb: Seq<char>,
    keyword: Seq<char>,
    address: Seq<char>,
    ending: Seq<char>,
)
    requires
        upper(verb) == "RCPT"@,
        upper(keyword) == "TO:<"@,
        space_free(address),
        forall|i: int| 0 <= i < ending.len() ==> is_line_end(#[trigger] ending[i]),
    ensures
        parse_line(verb + seq![' '] + keyword + address + seq!['>'] + ending) == if valid_email_address(
            address,
        ) {
            Command::Rcpt { to: address }
        } else {
            Command::Invalid(ProtocolError::WrongArgument)
        },
{
    lemma_verbs_differ();
    lemma_keyword_is_plain(verb);
    lemma_keyword_is_plain(keyword);
    let argument = keyword + address + seq!['>'];
    lemma_envelope_round_trip(keyword, "TO:<"@, address);
    lemma_join_pair(verb, argument);
    assert(verb + seq![' '] + argument =~= verb + seq![' '] + keyword + address + seq!['>']);
    lemma_parse_joined(seq![verb, argument], ending);
}

} // verus!
