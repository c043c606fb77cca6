//! An SMTP client for relaying a message through a mail server over TLS, written as a
//! protocol state machine: the library decides what to send and how to read each reply,
//! and the caller performs the network work that each decision asks for. It also turns a
//! submitted web form into the message body to relay.

pub mod command;
pub mod config;
pub mod encoding;
pub mod form;
pub mod reply;
pub mod smtpclient;
pub mod trace;
