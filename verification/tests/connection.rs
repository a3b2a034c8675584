use zephpost::smtp::ConnectionAction;
use zephpost::smtp::ConnectionEvent;
use zephpost::smtp::Phase;
use zephpost::smtp::SmtpConnection;
use zephpost::smtp::SmtpReply;
use zephpost::smtp::SmtpServer;

/// What the owner of the socket writes for `action`.
fn written(action: ConnectionAction) -> String {
    match action {
        ConnectionAction::Send(reply) => reply.to_wire(),
        other => panic!("no reply but {:?}", other),
    }
}

fn open(hostname: &str) -> SmtpConnection {
    let mut connection = SmtpConnection::new(hostname.to_string());
    assert_eq!(connection.phase(), Phase::Opening);
    let banner = connection.step(ConnectionEvent::Opened);
    assert_eq!(written(banner), format!("220 {} ESMTP ZephPost\r\n", hostname));
    assert_eq!(connection.step(ConnectionEvent::Sent), ConnectionAction::PollShutdown);
    connection
}

/// Sends one line to a connection that waits to poll, and gives the reply.
fn exchange(connection: &mut SmtpConnection, line: &str) -> String {
    assert_eq!(connection.phase(), Phase::Polling);
    assert_eq!(
        connection.step(ConnectionEvent::Shutdown(false)),
        ConnectionAction::ReadLine
    );
    let reply = written(connection.step(ConnectionEvent::Line(line.to_string())));
    if connection.phase() == Phase::Replying {
        assert_eq!(connection.step(ConnectionEvent::Sent), ConnectionAction::PollShutdown);
    }
    reply
}

#[test]
fn whole_dialog() {
    let mut connection = open("smtp.example.com");
    assert_eq!(exchange(&mut connection, "EHLO a\r\n"), "250 smtp.example.com\r\n");
    assert_eq!(exchange(&mut connection, "MAIL FROM:<x@y.z>\r\n"), "250 OK\r\n");
    assert_eq!(exchange(&mut connection, "RCPT TO:<p@y.z>\r\n"), "250 OK\r\n");
    assert_eq!(connection.session().get_sender(), &Some("x@y.z".to_string()));
    assert_eq!(connection.session().get_recipients(), &vec!["p@y.z".to_string()]);
    assert_eq!(exchange(&mut connection, "QUIT\r\n"), "221 Bye\r\n");
    assert_eq!(connection.phase(), Phase::Leaving);
    assert_eq!(connection.step(ConnectionEvent::Sent), ConnectionAction::Close);
    assert!(connection.is_closed());
}

#[test]
fn rcpt_before_helo_on_the_wire() {
    let mut connection = open("smtp.example.com");
    assert_eq!(
        exchange(&mut connection, "RCPT TO:<p@y.z>\r\n"),
        "503 LogicalError: Bad sequence of commands\r\n"
    );
    assert!(connection.session().get_recipients().is_empty());
    assert!(!connection.is_closed());
}

#[test]
fn two_connections_do_not_mix() {
    let mut first = open("smtp.example.com");
    let mut second = open("smtp.example.com");
    assert_eq!(exchange(&mut first, "EHLO a\r\n"), "250 smtp.example.com\r\n");
    assert_eq!(exchange(&mut second, "EHLO b\r\n"), "250 smtp.example.com\r\n");
    assert_eq!(exchange(&mut first, "MAIL FROM:<x@y.z>\r\n"), "250 OK\r\n");
    assert_eq!(exchange(&mut second, "MAIL FROM:<u@v.w>\r\n"), "250 OK\r\n");
    assert_eq!(exchange(&mut first, "RCPT TO:<p@y.z>\r\n"), "250 OK\r\n");
    assert_eq!(exchange(&mut second, "RCPT TO:<q@v.w>\r\n"), "250 OK\r\n");
    assert_eq!(exchange(&mut second, "RCPT TO:<r@v.w>\r\n"), "250 OK\r\n");
    assert_eq!(first.session().get_sender(), &Some("x@y.z".to_string()));
    assert_eq!(first.session().get_recipients(), &vec!["p@y.z".to_string()]);
    assert_eq!(second.session().get_sender(), &Some("u@v.w".to_string()));
    assert_eq!(
        second.session().get_recipients(),
        &vec!["q@v.w".to_string(), "r@v.w".to_string()]
    );
    assert_eq!(exchange(&mut first, "QUIT\r\n"), "221 Bye\r\n");
    assert_eq!(first.step(ConnectionEvent::Sent), ConnectionAction::Close);
    assert!(first.is_closed());
    assert!(!second.is_closed());
    assert_eq!(exchange(&mut second, "QUIT\r\n"), "221 Bye\r\n");
}

#[test]
fn shutdown_is_announced() {
    let mut connection = open("smtp.example.com");
    assert_eq!(exchange(&mut connection, "HELO a\r\n"), "250 smtp.example.com\r\n");
    let notice = connection.step(ConnectionEvent::Shutdown(true));
    assert_eq!(notice, ConnectionAction::Send(SmtpReply::shutdown_notice("smtp.example.com")));
    assert_eq!(
        written(notice),
        "421 smtp.example.com Service not available, closing transmission channel\r\n"
    );
    assert_eq!(connection.phase(), Phase::Notifying);
    // the connection still waits for one more line
    assert_eq!(connection.step(ConnectionEvent::Sent), ConnectionAction::ReadLine);
    assert_eq!(
        written(connection.step(ConnectionEvent::Line("NOOP\r\n".to_string()))),
        "250 OK\r\n"
    );
}

#[test]
fn shutdown_notice_that_cannot_be_written() {
    let mut connection = open("smtp.example.com");
    connection.step(ConnectionEvent::Shutdown(true));
    assert_eq!(connection.step(ConnectionEvent::SendFailed), ConnectionAction::Close);
    assert!(connection.is_closed());
}

#[test]
fn banner_that_cannot_be_written() {
    let mut connection = SmtpConnection::new("h".to_string());
    connection.step(ConnectionEvent::Opened);
    assert_eq!(connection.phase(), Phase::Greeting);
    assert_eq!(connection.step(ConnectionEvent::SendFailed), ConnectionAction::Close);
    assert!(connection.is_closed());
}

#[test]
fn end_of_stream_closes() {
    let mut connection = open("h");
    assert_eq!(connection.step(ConnectionEvent::Shutdown(false)), ConnectionAction::ReadLine);
    assert_eq!(connection.step(ConnectionEvent::EndOfStream), ConnectionAction::Close);
    assert!(connection.is_closed());
}

#[test]
fn read_failure_closes() {
    let mut connection = open("h");
    assert_eq!(connection.step(ConnectionEvent::Shutdown(false)), ConnectionAction::ReadLine);
    assert_eq!(connection.step(ConnectionEvent::ReadFailed), ConnectionAction::Close);
    assert!(connection.is_closed());
}

#[test]
fn reply_that_cannot_be_written() {
    let mut connection = open("h");
    connection.step(ConnectionEvent::Shutdown(false));
    assert_eq!(
        written(connection.step(ConnectionEvent::Line("NOOP\r\n".to_string()))),
        "250 OK\r\n"
    );
    assert_eq!(connection.phase(), Phase::Replying);
    assert_eq!(connection.step(ConnectionEvent::SendFailed), ConnectionAction::Close);
    assert!(connection.is_closed());
}

#[test]
fn quit_closes_even_if_the_reply_is_lost() {
    let mut connection = open("h");
    connection.step(ConnectionEvent::Shutdown(false));
    let bye = connection.step(ConnectionEvent::Line("quit\r\n".to_string()));
    assert_eq!(bye, ConnectionAction::Send(SmtpReply::bye()));
    assert_eq!(written(bye), "221 Bye\r\n");
    assert_eq!(connection.step(ConnectionEvent::SendFailed), ConnectionAction::Close);
    assert!(connection.is_closed());
}

#[test]
fn closed_stays_closed() {
    let mut connection = open("h");
    connection.step(ConnectionEvent::Shutdown(false));
    connection.step(ConnectionEvent::EndOfStream);
    let before = connection.clone();
    assert_eq!(connection.step(ConnectionEvent::Opened), ConnectionAction::Close);
    assert_eq!(connection.step(ConnectionEvent::Sent), ConnectionAction::Close);
    assert_eq!(
        connection.step(ConnectionEvent::Line("HELO a\r\n".to_string())),
        ConnectionAction::Close
    );
    assert_eq!(connection.step(ConnectionEvent::Shutdown(false)), ConnectionAction::Close);
    assert_eq!(connection, before);
}

#[test]
fn event_out_of_turn_closes() {
    let mut connection = SmtpConnection::new("h".to_string());
    assert_eq!(
        connection.step(ConnectionEvent::Line("HELO a\r\n".to_string())),
        ConnectionAction::Close
    );
    assert!(connection.is_closed());
    assert!(!connection.session().is_helo_received());
}

#[test]
fn malformed_lines_are_answered_and_the_dialog_goes_on() {
    let mut connection = open("h");
    assert_eq!(
        exchange(&mut connection, "\r\n"),
        "500 SyntaxError: Command unrecognized\r\n"
    );
    assert_eq!(
        exchange(&mut connection, "HELO\r\n"),
        "501 SyntaxError: Wrong parameters or arguments\r\n"
    );
    assert_eq!(exchange(&mut connection, "HELO a\r\n"), "250 h\r\n");
    assert_eq!(
        exchange(&mut connection, "MAIL FROM:<x@y.z> SIZE=1\r\n"),
        "555 SyntaxError: MAIL FROM parameters unrecognized\r\n"
    );
    assert_eq!(
        exchange(&mut connection, "\u{0}\u{7f}\u{10ffff}\r\n"),
        "500 SyntaxError: Command unrecognized\r\n"
    );
    assert!(!connection.is_closed());
}

#[test]
fn server_names_its_connections() {
    let server = SmtpServer::new();
    let mut connection = server.connection();
    assert_eq!(
        written(connection.step(ConnectionEvent::Opened)),
        "220 smtp.example.com ESMTP ZephPost\r\n"
    );
}
