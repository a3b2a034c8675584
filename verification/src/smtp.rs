//! The SMTP dialog: commands, errors, replies, sessions and the server.

pub mod command;
pub mod connection;
pub mod error;
pub mod reply;
pub mod server;
pub mod session;

pub use self::command::Command;
pub use self::command::SmtpCommand;
pub use self::command::EHLO;
pub use self::command::HELO;
pub use self::command::MAIL;
pub use self::command::RCPT;
pub use self::connection::Connection;
pub use self::connection::ConnectionAction;
pub use self::connection::ConnectionEvent;
pub use self::connection::Input;
pub use self::connection::Output;
pub use self::connection::Phase;
pub use self::connection::SmtpConnection;
pub use self::error::ProtocolError;
pub use self::error::SmtpError;
pub use self::reply::Reply;
pub use self::reply::SmtpReply;
pub use self::server::ListenAction;
pub use self::server::ListenEvent;
pub use self::server::ListenPhase;
pub use self::server::Listener;
pub use self::server::SmtpServer;
pub use self::session::Session;
pub use self::session::SmtpSession;
