use zephpost::smtp::ListenAction;
use zephpost::smtp::ListenEvent;
use zephpost::smtp::ListenPhase;
use zephpost::smtp::Listener;
use zephpost::smtp::SmtpServer;

#[test]
fn new_server() {
    let server = SmtpServer::new();
    assert_eq!(server.hostname(), "smtp.example.com");
    assert!(server.is_closed());
}

#[test]
fn open_and_close() {
    let server = SmtpServer::new();
    server.open();
    assert!(!server.is_closed());
    server.close();
    assert!(server.is_closed());
    server.close();
    assert!(server.is_closed());
}

#[test]
fn ports() {
    assert_eq!(SmtpServer::port(false), 25);
    assert_eq!(SmtpServer::port(true), 2525);
}

fn running(development: bool) -> Listener {
    let mut listener = Listener::new();
    assert_eq!(listener.phase(), ListenPhase::Idle);
    let port = if development { 2525 } else { 25 };
    assert_eq!(
        listener.step(ListenEvent::Start { development }),
        ListenAction::Bind(port)
    );
    assert_eq!(listener.step(ListenEvent::Bound), ListenAction::Open);
    assert_eq!(listener.step(ListenEvent::Opened), ListenAction::PollShutdown);
    listener
}

#[test]
fn accept_loop_serves_until_shutdown() {
    let mut listener = running(false);
    for _ in 0..3 {
        assert_eq!(listener.step(ListenEvent::Shutdown(false)), ListenAction::Accept);
        assert_eq!(listener.step(ListenEvent::Connected), ListenAction::Serve);
        assert_eq!(listener.step(ListenEvent::Served), ListenAction::PollShutdown);
    }
    assert_eq!(listener.step(ListenEvent::Shutdown(true)), ListenAction::Stop);
    assert_eq!(listener.phase(), ListenPhase::Stopped);
    assert_eq!(listener.step(ListenEvent::Connected), ListenAction::Stop);
    assert_eq!(listener.step(ListenEvent::Shutdown(false)), ListenAction::Stop);
    assert_eq!(listener.step(ListenEvent::Start { development: true }), ListenAction::Stop);
    assert_eq!(listener.phase(), ListenPhase::Stopped);
}

#[test]
fn bind_failure_is_handed_on() {
    let mut listener = Listener::new();
    assert_eq!(
        listener.step(ListenEvent::Start { development: true }),
        ListenAction::Bind(2525)
    );
    assert_eq!(listener.step(ListenEvent::BindFailed), ListenAction::Fail);
    assert_eq!(listener.phase(), ListenPhase::Stopped);
}

#[test]
fn accept_failure_is_handed_on() {
    let mut listener = running(true);
    assert_eq!(listener.step(ListenEvent::Shutdown(false)), ListenAction::Accept);
    assert_eq!(listener.step(ListenEvent::AcceptFailed), ListenAction::Fail);
    assert_eq!(listener.phase(), ListenPhase::Stopped);
}

#[test]
fn listener_event_out_of_turn_stops() {
    let mut listener = Listener::new();
    assert_eq!(listener.step(ListenEvent::Connected), ListenAction::Stop);
    assert_eq!(listener.phase(), ListenPhase::Stopped);
}
