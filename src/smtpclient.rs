//! The SMTP session: connect (greeting and `EHLO`), `AUTH LOGIN`, and one mail
//! transaction, as a state machine driven one event at a time.
//!
//! Each operation and each event yields an [`Action`] for the caller: open the TLS
//! transport, read one reply line, write a block and then read one reply line, or stop
//! with the operation's outcome. Exchanges are strictly one at a time.

use vstd::prelude::*;
use crate::command::{
    auth_login, auth_login_line, credential, credential_line, data, data_line, ehlo, ehlo_line,
    mail_from, mail_from_line, message, message_block, rcpt_to, rcpt_to_line,
};
use crate::config::ServerConfig;
use crate::reply::{check_success, is_accepted, is_completion, is_continuation, starts_with};

verus! {

/// Why an operation of the session failed.
#[derive(Debug, Clone, Copy, PartialEq, Eq, Structural)]
pub enum SMTPClientError {
    /// The operation was started or fed in a state that does not take it.
    WrongInit,
    /// The server's greeting could not be read.
    InvalidBuffer,
    /// A line of the `EHLO` reply could not be read.
    CannotRead,
    /// `EHLO` could not be exchanged, or the server refused it.
    HELOFailed,
    /// A step of `AUTH LOGIN` could not be exchanged or was refused.
    AUTHFailed,
    /// A step of the mail transaction could not be exchanged or was refused.
    SendEmailFailed,
    /// The TCP connection or the TLS handshake failed.
    ConnectFailed,
}

/// Where a session stands.
#[derive(Debug, Clone, Copy, PartialEq, Eq, Structural)]
pub enum Phase {
    /// Built, not yet connected.
    Idle,
    /// The transport is being opened.
    Opening,
    /// Waiting for the server's greeting.
    Greeting,
    /// `EHLO` sent, waiting for the first line of its reply.
    Ehlo,
    /// Reading further lines of a multi-line `EHLO` reply.
    Capabilities,
    /// Connected, no exchange in flight.
    Ready,
    /// `AUTH LOGIN` sent.
    AuthLogin,
    /// Username sent.
    AuthUser,
    /// Password sent.
    AuthPass,
    /// `MAIL FROM` sent.
    MailFrom,
    /// `RCPT TO` sent.
    RcptTo,
    /// `DATA` sent.
    DataCmd,
    /// Message block sent.
    Payload,
    /// Failed; the connection is dropped and the session is finished.
    Closed,
}

/// What the caller observed while performing the last action.
#[derive(Debug, PartialEq, Eq)]
pub enum Event {
    /// The transport is open.
    Connected,
    /// The TCP connection, the TLS handshake or the server name failed.
    ConnectFailed,
    /// One line was read (after a write, where the action asked for one).
    Line(String),
    /// Reading or writing failed, or the stream ended before a line terminator.
    IoFailed,
}

pub enum EventView {
    Connected,
    ConnectFailed,
    Line(Seq<char>),
    IoFailed,
}

impl View for Event {
    type V = EventView;

    open spec fn view(&self) -> EventView {
        match self {
            Event::Connected => EventView::Connected,
            Event::ConnectFailed => EventView::ConnectFailed,
            Event::Line(l) => EventView::Line(l@),
            Event::IoFailed => EventView::IoFailed,
        }
    }
}

/// What the caller is to do next.
#[derive(Debug, PartialEq, Eq)]
pub enum Action {
    /// Open a TLS connection to the relay of the session's configuration.
    Open,
    /// Read one line.
    Receive,
    /// Write these characters, flush, then read one line.
    Send(String),
    /// The operation is over, with this outcome.
    Done(Result<(), SMTPClientError>),
}

pub enum ActionView {
    Open,
    Receive,
    Send(Seq<char>),
    Done(Result<(), SMTPClientError>),
}

impl View for Action {
    type V = ActionView;

    open spec fn view(&self) -> ActionView {
        match self {
            Action::Open => ActionView::Open,
            Action::Receive => ActionView::Receive,
            Action::Send(s) => ActionView::Send(s@),
            Action::Done(r) => ActionView::Done(*r),
        }
    }
}

/// The abstract state of a session.
pub struct ClientView {
    /// Host and port of the relay that [`Action::Open`] connects to.
    pub server: Seq<char>,
    pub port: u32,
    pub domain: Seq<char>,
    pub user: Seq<char>,
    pub pass: Seq<char>,
    pub sender: Seq<char>,
    pub rcpt: Seq<char>,
    pub subject: Seq<char>,
    pub phase: Phase,
    /// The message body of the transaction under way.
    pub body: Seq<char>,
}

/// The transport is held, i.e. it was opened and nothing has failed since.
pub open spec fn holds_connection(p: Phase) -> bool {
    !(p == Phase::Idle || p == Phase::Opening || p == Phase::Closed)
}

pub open spec fn fail(e: SMTPClientError) -> (Phase, ActionView) {
    (Phase::Closed, ActionView::Done(Err(e)))
}

/// One reply-gated step: an accepted reply line moves on, anything else fails with `e`.
pub open spec fn gated(ev: EventView, on: (Phase, ActionView), e: SMTPClientError) -> (
    Phase,
    ActionView,
) {
    match ev {
        EventView::Line(l) => if is_accepted(l) {
            on
        } else {
            fail(e)
        },
        _ => fail(e),
    }
}

/// A line of the `EHLO` reply: a continuation asks for the next line, a final `250`
/// line completes the connection, anything else fails.
pub open spec fn ehlo_reply(l: Seq<char>) -> (Phase, ActionView) {
    if is_continuation(l) {
        (Phase::Capabilities, ActionView::Receive)
    } else if is_completion(l) {
        (Phase::Ready, ActionView::Done(Ok(())))
    } else {
        fail(SMTPClientError::HELOFailed)
    }
}

/// The phase and the action that follow event `ev` in session `c`.
pub open spec fn next(c: ClientView, ev: EventView) -> (Phase, ActionView) {
    match c.phase {
        Phase::Opening => match ev {
            EventView::Connected => (Phase::Greeting, ActionView::Receive),
            _ => fail(SMTPClientError::ConnectFailed),
        },
        Phase::Greeting => match ev {
            EventView::Line(_) => (Phase::Ehlo, ActionView::Send(ehlo_line(c.domain))),
            _ => fail(SMTPClientError::InvalidBuffer),
        },
        Phase::Ehlo => match ev {
            EventView::Line(l) => ehlo_reply(l),
            _ => fail(SMTPClientError::HELOFailed),
        },
        Phase::Capabilities => match ev {
            EventView::Line(l) => ehlo_reply(l),
            _ => fail(SMTPClientError::CannotRead),
        },
        Phase::AuthLogin => gated(
            ev,
            (Phase::AuthUser, ActionView::Send(credential_line(c.user))),
            SMTPClientError::AUTHFailed,
        ),
        Phase::AuthUser => gated(
            ev,
            (Phase::AuthPass, ActionView::Send(credential_line(c.pass))),
            SMTPClientError::AUTHFailed,
        ),
        Phase::AuthPass => gated(
            ev,
            (Phase::Ready, ActionView::Done(Ok(()))),
            SMTPClientError::AUTHFailed,
        ),
        Phase::MailFrom => gated(
            ev,
            (Phase::RcptTo, ActionView::Send(rcpt_to_line(c.rcpt))),
            SMTPClientError::SendEmailFailed,
        ),
        Phase::RcptTo => gated(
            ev,
            (Phase::DataCmd, ActionView::Send(data_line())),
            SMTPClientError::SendEmailFailed,
        ),
        Phase::DataCmd => gated(
            ev,
            (Phase::Payload, ActionView::Send(message_block(c.subject, c.body))),
            SMTPClientError::SendEmailFailed,
        ),
        Phase::Payload => gated(
            ev,
            (Phase::Ready, ActionView::Done(Ok(()))),
            SMTPClientError::SendEmailFailed,
        ),
        _ => (c.phase, ActionView::Done(Err(SMTPClientError::WrongInit))),
    }
}

/// The phase and the action that `connect` yields: only a fresh session opens a
/// transport.
pub open spec fn start_connect(c: ClientView) -> (Phase, ActionView) {
    if c.phase == Phase::Idle {
        (Phase::Opening, ActionView::Open)
    } else {
        (c.phase, ActionView::Done(Err(SMTPClientError::WrongInit)))
    }
}

/// The phase and the action that `login` yields: authentication starts only on a
/// connected session with no exchange in flight.
pub open spec fn start_login(c: ClientView) -> (Phase, ActionView) {
    if c.phase == Phase::Ready {
        (Phase::AuthLogin, ActionView::Send(auth_login_line()))
    } else {
        (c.phase, ActionView::Done(Err(SMTPClientError::AUTHFailed)))
    }
}

/// The phase and the action that `send` yields: a transaction starts only on a
/// connected session with no exchange in flight.
pub open spec fn start_send(c: ClientView) -> (Phase, ActionView) {
    if c.phase == Phase::Ready {
        (Phase::MailFrom, ActionView::Send(mail_from_line(c.sender)))
    } else {
        (c.phase, ActionView::Done(Err(SMTPClientError::SendEmailFailed)))
    }
}

/// A session with one relay. Build it with [`SMTPClient::new`], then call
/// [`SMTPClient::connect`], [`SMTPClient::login`] and [`SMTPClient::send`] in turn,
/// feeding each resulting action's outcome to [`SMTPClient::on_event`] until the action
/// is [`Action::Done`].
pub struct SMTPClient {
    config: ServerConfig,
    phase: Phase,
    body: String,
}

impl View for SMTPClient {
    type V = ClientView;

    closed spec fn view(&self) -> ClientView {
        ClientView {
            server: self.config.smtp_server@,
            port: self.config.smtp_port,
            domain: self.config.smtp_domain@,
            user: self.config.smtp_user@,
            pass: self.config.smtp_pass@,
            sender: self.config.sender@,
            rcpt: self.config.rcpt@,
            subject: self.config.subject@,
            phase: self.phase,
            body: self.body@,
        }
    }
}

impl SMTPClient {
    /// The credentials can be encoded (see [`ServerConfig::credentials_fit`]).
    pub closed spec fn wf(&self) -> bool {
        self.config.credentials_fit()
    }

    /// A session for `config`, not yet connected.
    pub fn new(config: ServerConfig) -> (r: SMTPClient)
        requires
            config.credentials_fit(),
        ensures
            r.wf(),
            r@.phase == Phase::Idle,
            r@.body.len() == 0,
            r@.server == config.smtp_server@,
            r@.port == config.smtp_port,
            r@.domain == config.smtp_domain@,
            r@.user == config.smtp_user@,
            r@.pass == config.smtp_pass@,
            r@.sender == config.sender@,
            r@.rcpt == config.rcpt@,
            r@.subject == config.subject@,
    {
        SMTPClient { config, phase: Phase::Idle, body: String::new() }
    }

    /// The configuration of the session, which says where [`Action::Open`] connects.
    pub fn config(&self) -> (r: &ServerConfig)
        ensures
            r.smtp_server@ == self@.server,
            r.smtp_port == self@.port,
            r.smtp_domain@ == self@.domain,
            r.smtp_user@ == self@.user,
            r.smtp_pass@ == self@.pass,
            r.sender@ == self@.sender,
            r.rcpt@ == self@.rcpt,
            r.subject@ == self@.subject,
    {
        &self.config
    }

    pub fn phase(&self) -> (r: Phase)
        ensures
            r == self@.phase,
    {
        self.phase
    }

    /// Whether the session holds an open transport.
    pub fn is_connected(&self) -> (r: bool)
        ensures
            r == holds_connection(self@.phase),
    {
        match self.phase {
            Phase::Idle | Phase::Opening | Phase::Closed => false,
            _ => true,
        }
    }

    /// Starts connecting: the caller opens the transport and reports how that went.
    pub fn connect(&mut self) -> (a: Action)
        requires
            old(self).wf(),
        ensures
            final(self).wf(),
            (final(self)@.phase, a@) == start_connect(old(self)@),
            final(self)@ == (ClientView { phase: final(self)@.phase, ..old(self)@ }),
    {
        match self.phase {
            Phase::Idle => {
                self.phase = Phase::Opening;
                Action::Open
            },
            _ => Action::Done(Err(SMTPClientError::WrongInit)),
        }
    }

    /// Starts `AUTH LOGIN` with the configured username and password.
    pub fn login(&mut self) -> (a: Action)
        requires
            old(self).wf(),
        ensures
            final(self).wf(),
            (final(self)@.phase, a@) == start_login(old(self)@),
            final(self)@ == (ClientView { phase: final(self)@.phase, ..old(self)@ }),
    {
        match self.phase {
            Phase::Ready => {
                self.phase = Phase::AuthLogin;
                Action::Send(auth_login())
            },
            _ => Action::Done(Err(SMTPClientError::AUTHFailed)),
        }
    }

    /// Starts the mail transaction that delivers `body`, inserted as given, under the
    /// configured subject, from the configured sender to the configured recipient.
    pub fn send(&mut self, body: &str) -> (a: Action)
        requires
            old(self).wf(),
        ensures
            final(self).wf(),
            (final(self)@.phase, a@) == start_send(old(self)@),
            final(self)@ == (ClientView {
                phase: final(self)@.phase,
                body: if old(self)@.phase == Phase::Ready {
                    body@
                } else {
                    old(self)@.body
                },
                ..old(self)@
            }),
    {
        match self.phase {
            Phase::Ready => {
                self.phase = Phase::MailFrom;
                self.body = String::from_str(body);
                Action::Send(mail_from(self.config.sender.as_str()))
            },
            _ => Action::Done(Err(SMTPClientError::SendEmailFailed)),
        }
    }

    fn gate(&mut self, ev: &Event, on: Phase, then: Action, e: SMTPClientError) -> (a: Action)
        ensures
            (final(self)@.phase, a@) == gated(ev@, (on, then@), e),
            final(self)@ == (ClientView { phase: final(self)@.phase, ..old(self)@ }),
            final(self).config == old(self).config,
    {
        match ev {
            Event::Line(l) => {
                if check_success(l.as_str()) {
                    self.phase = on;
                    then
                } else {
                    self.phase = Phase::Closed;
                    Action::Done(Err(e))
                }
            },
            _ => {
                self.phase = Phase::Closed;
                Action::Done(Err(e))
            },
        }
    }

    fn ehlo_reply(&mut self, l: &str) -> (a: Action)
        ensures
            (final(self)@.phase, a@) == ehlo_reply(l@),
            final(self)@ == (ClientView { phase: final(self)@.phase, ..old(self)@ }),
            final(self).config == old(self).config,
    {
        if starts_with(l, "250-") {
            self.phase = Phase::Capabilities;
            Action::Receive
        } else if starts_with(l, "250") {
            self.phase = Phase::Ready;
            Action::Done(Ok(()))
        } else {
            self.phase = Phase::Closed;
            Action::Done(Err(SMTPClientError::HELOFailed))
        }
    }

    /// Takes what the caller observed while performing the last action, and says what
    /// to do next.
    pub fn on_event(&mut self, ev: Event) -> (a: Action)
        requires
            old(self).wf(),
        ensures
            final(self).wf(),
            (final(self)@.phase, a@) == next(old(self)@, ev@),
            final(self)@ == (ClientView { phase: final(self)@.phase, ..old(self)@ }),
    {
        match self.phase {
            Phase::Opening => match ev {
                Event::Connected => {
                    self.phase = Phase::Greeting;
                    Action::Receive
                },
                _ => {
                    self.phase = Phase::Closed;
                    Action::Done(Err(SMTPClientError::ConnectFailed))
                },
            },
            Phase::Greeting => match ev {
                Event::Line(_) => {
                    self.phase = Phase::Ehlo;
                    Action::Send(ehlo(self.config.smtp_domain.as_str()))
                },
                _ => {
                    self.phase = Phase::Closed;
                    Action::Done(Err(SMTPClientError::InvalidBuffer))
                },
            },
            Phase::Ehlo => match ev {
                Event::Line(l) => self.ehlo_reply(l.as_str()),
                _ => {
                    self.phase = Phase::Closed;
                    Action::Done(Err(SMTPClientError::HELOFailed))
                },
            },
            Phase::Capabilities => match ev {
                Event::Line(l) => self.ehlo_reply(l.as_str()),
                _ => {
                    self.phase = Phase::Closed;
                    Action::Done(Err(SMTPClientError::CannotRead))
                },
            },
            Phase::AuthLogin => {
                let then = Action::Send(credential(self.config.smtp_user.as_str()));
                self.gate(&ev, Phase::AuthUser, then, SMTPClientError::AUTHFailed)
            },
            Phase::AuthUser => {
                let then = Action::Send(credential(self.config.smtp_pass.as_str()));
                self.gate(&ev, Phase::AuthPass, then, SMTPClientError::AUTHFailed)
            },
            Phase::AuthPass => self.gate(
                &ev,
                Phase::Ready,
                Action::Done(Ok(())),
                SMTPClientError::AUTHFailed,
            ),
            Phase::MailFrom => {
                let then = Action::Send(rcpt_to(self.config.rcpt.as_str()));
                self.gate(&ev, Phase::RcptTo, then, SMTPClientError::SendEmailFailed)
            },
            Phase::RcptTo => self.gate(
                &ev,
                Phase::DataCmd,
                Action::Send(data()),
                SMTPClientError::SendEmailFailed,
            ),
            Phase::DataCmd => {
                let then = Action::Send(
                    message(self.config.subject.as_str(), self.body.as_str()),
                );
                self.gate(&ev, Phase::Payload, then, SMTPClientError::SendEmailFailed)
            },
            Phase::Payload => self.gate(
                &ev,
                Phase::Ready,
                Action::Done(Ok(())),
                SMTPClientError::SendEmailFailed,
            ),
            _ => Action::Done(Err(SMTPClientError::WrongInit)),
        }
    }
}

} // verus!
