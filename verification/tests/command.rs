use zephpost::smtp::SmtpCommand;
use zephpost::smtp::SmtpError;
use zephpost::smtp::EHLO;
use zephpost::smtp::HELO;
use zephpost::smtp::MAIL;
use zephpost::smtp::RCPT;

fn parse(line: &str) -> SmtpCommand {
    SmtpCommand::parse(&line.to_string())
}

fn wrong_argument() -> SmtpCommand {
    SmtpCommand::Invalid(SmtpError::WrongArgument)
}

fn unrecognized() -> SmtpCommand {
    SmtpCommand::Invalid(SmtpError::UnrecognizedCommand)
}

#[test]
fn quit_in_any_case() {
    assert_eq!(parse("quit"), SmtpCommand::QUIT);
    assert_eq!(parse("QUIT"), SmtpCommand::QUIT);
    assert_eq!(parse("QuIt"), SmtpCommand::QUIT);
}

#[test]
fn every_verb_in_any_case() {
    assert_eq!(parse("noop"), SmtpCommand::NOOP);
    assert_eq!(parse("NoOp"), SmtpCommand::NOOP);
    assert_eq!(parse("rset"), SmtpCommand::RSET);
    assert_eq!(parse("rSeT"), SmtpCommand::RSET);
    assert_eq!(parse("helo a"), parse("HELO a"));
    assert_eq!(parse("ehlo a"), parse("EHLO a"));
    assert_eq!(parse("mail FROM:<x@y.z>"), parse("MAIL FROM:<x@y.z>"));
    assert_eq!(parse("rcpt TO:<x@y.z>"), parse("RCPT TO:<x@y.z>"));
}

#[test]
fn helo_without_argument() {
    assert_eq!(parse("HELO"), wrong_argument());
}

#[test]
fn helo_with_two_arguments() {
    assert_eq!(parse("HELO a b"), wrong_argument());
}

#[test]
fn helo_argument_is_lowered() {
    assert_eq!(parse("HELO CLIENT"), SmtpCommand::HELO(HELO::new("client".to_string())));
    assert_eq!(
        parse("helo Mail.Example.COM\r\n"),
        SmtpCommand::HELO(HELO::new("mail.example.com".to_string()))
    );
}

#[test]
fn ehlo_like_helo() {
    assert_eq!(parse("EHLO"), wrong_argument());
    assert_eq!(parse("EHLO a b"), wrong_argument());
    assert_eq!(parse("EHLO CLIENT"), SmtpCommand::EHLO(EHLO::new("client".to_string())));
}

#[test]
fn lowering_leaves_other_characters() {
    assert_eq!(
        parse("HELO [192.0.2.1]-Z\u{c9}"),
        SmtpCommand::HELO(HELO::new("[192.0.2.1]-z\u{c9}".to_string()))
    );
}

#[test]
fn mail_with_valid_address() {
    assert_eq!(
        parse("MAIL FROM:<user@example.com>"),
        SmtpCommand::MAIL(MAIL::new("user@example.com".to_string()))
    );
}

#[test]
fn mail_keeps_the_case_of_the_address() {
    assert_eq!(
        parse("mail from:<User@Example.COM>\r\n"),
        SmtpCommand::MAIL(MAIL::new("User@Example.COM".to_string()))
    );
}

#[test]
fn mail_with_invalid_address() {
    assert_eq!(parse("MAIL FROM:<not-an-address>"), wrong_argument());
}

#[test]
fn mail_with_parameter() {
    assert_eq!(
        parse("MAIL FROM:<user@example.com> SIZE=1000"),
        SmtpCommand::Invalid(SmtpError::UnrecognizedMAILParameter)
    );
}

#[test]
fn mail_with_invalid_address_and_parameter() {
    assert_eq!(parse("MAIL FROM:<not-an-address> SIZE=1000"), wrong_argument());
}

#[test]
fn mail_malformed() {
    assert_eq!(parse("MAIL"), wrong_argument());
    assert_eq!(parse("MAIL FROM:<>"), wrong_argument());
    assert_eq!(parse("MAIL FROM:<"), wrong_argument());
    assert_eq!(parse("MAIL FROM:>"), wrong_argument());
    assert_eq!(parse("MAIL FROM:user@example.com"), wrong_argument());
    assert_eq!(parse("MAIL FROM:<user@example.com"), wrong_argument());
    assert_eq!(parse("MAIL TO:<user@example.com>"), wrong_argument());
    assert_eq!(parse("MAIL  FROM:<user@example.com>"), wrong_argument());
    assert_eq!(parse("MAIL F"), wrong_argument());
    assert_eq!(parse("MAIL >"), wrong_argument());
}

#[test]
fn rcpt_with_valid_address() {
    assert_eq!(
        parse("RCPT TO:<p@y.z>"),
        SmtpCommand::RCPT(RCPT::new("p@y.z".to_string()))
    );
    assert_eq!(
        parse("rcpt to:<P@y.z>\r\n"),
        SmtpCommand::RCPT(RCPT::new("P@y.z".to_string()))
    );
}

#[test]
fn rcpt_malformed() {
    assert_eq!(parse("RCPT"), wrong_argument());
    assert_eq!(parse("RCPT TO:<not-an-address>"), wrong_argument());
    assert_eq!(parse("RCPT FROM:<p@y.z>"), wrong_argument());
    assert_eq!(parse("RCPT TO:<p@y.z> NOTIFY=NEVER"), wrong_argument());
    assert_eq!(parse("RCPT TO:<>"), wrong_argument());
}

#[test]
fn rset_takes_no_argument() {
    assert_eq!(parse("RSET"), SmtpCommand::RSET);
    assert_eq!(parse("RSET now"), wrong_argument());
    assert_eq!(parse("RSET "), wrong_argument());
}

#[test]
fn noop_and_quit_ignore_arguments() {
    assert_eq!(parse("NOOP"), SmtpCommand::NOOP);
    assert_eq!(parse("NOOP a b c"), SmtpCommand::NOOP);
    assert_eq!(parse("QUIT"), SmtpCommand::QUIT);
    assert_eq!(parse("QUIT right now"), SmtpCommand::QUIT);
    assert_eq!(parse("QUIT "), SmtpCommand::QUIT);
}

#[test]
fn unknown_verb() {
    assert_eq!(parse("DATA"), unrecognized());
    assert_eq!(parse("HELLO a"), unrecognized());
    assert_eq!(parse("QUITS"), unrecognized());
    assert_eq!(parse("QUI"), unrecognized());
}

#[test]
fn empty_line() {
    assert_eq!(parse(""), unrecognized());
    assert_eq!(parse("\r\n"), unrecognized());
    assert_eq!(parse("\n"), unrecognized());
    assert_eq!(parse(" "), unrecognized());
}

#[test]
fn line_terminator_is_dropped() {
    assert_eq!(parse("QUIT\r\n"), SmtpCommand::QUIT);
    assert_eq!(parse("QUIT\n"), SmtpCommand::QUIT);
    assert_eq!(parse("QUIT\r"), SmtpCommand::QUIT);
    assert_eq!(parse("RSET\r\n\r\n"), SmtpCommand::RSET);
    assert_eq!(parse("HELO a\r\n"), SmtpCommand::HELO(HELO::new("a".to_string())));
}

#[test]
fn only_the_end_of_the_line_is_trimmed() {
    assert_eq!(parse(" QUIT"), unrecognized());
    assert_eq!(parse("\r\nQUIT"), unrecognized());
    assert_eq!(parse("HELO a \r\n"), wrong_argument());
    assert_eq!(parse("HELO \r\n"), SmtpCommand::HELO(HELO::new("".to_string())));
}

#[test]
fn only_ascii_letters_are_folded() {
    assert_eq!(parse("qu\u{131}t"), unrecognized());
    assert_eq!(parse("r\u{17f}et"), unrecognized());
}

#[test]
fn tabs_do_not_separate() {
    assert_eq!(parse("HELO\ta"), unrecognized());
    assert_eq!(parse("NOOP\t"), unrecognized());
}

#[test]
fn constructors_keep_their_argument() {
    assert_eq!(HELO::new("a".to_string()).sender, "a");
    assert_eq!(EHLO::new("b".to_string()).sender, "b");
    assert_eq!(MAIL::new("c@d.e".to_string()).from, "c@d.e");
    assert_eq!(RCPT::new("f@g.h".to_string()).to, "f@g.h");
}

#[test]
fn tokens_spell_a_command() {
    let tokens: Vec<Vec<char>> = vec!["ehlo".chars().collect(), "Host".chars().collect()];
    assert_eq!(
        SmtpCommand::from_tokens(&tokens),
        SmtpCommand::EHLO(EHLO::new("host".to_string()))
    );
    let none: Vec<Vec<char>> = Vec::new();
    assert_eq!(SmtpCommand::from_tokens(&none), unrecognized());
}
