//! ZephPost: the envelope dialog of a small mail transfer agent, verified.
//!
//! The library reads command lines, keeps the state of each connection's
//! dialog and says what to answer. It never touches a socket: the dialog of
//! a connection and the accept loop of the server are state machines that
//! take events and give actions, so that whoever owns the sockets has
//! nothing to decide.
//!
//! Each executable type has a mathematical model (`SmtpCommand` has
//! `Command`, `SmtpSession` has `Session`, and so on), and each function's
//! contract says what it computes as a function on the models.

pub mod smtp;
pub mod text;
pub mod utils;
