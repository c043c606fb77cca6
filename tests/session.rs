use smtp_relay::config::ServerConfig;
use smtp_relay::smtpclient::{Action, Event, Phase, SMTPClient, SMTPClientError};

fn config() -> ServerConfig {
    ServerConfig {
        port: 8080,
        smtp_server: "relay.example.org".to_string(),
        smtp_port: 465,
        smtp_domain: "mail.example.org".to_string(),
        smtp_user: "user".to_string(),
        smtp_pass: "pass".to_string(),
        sender: "from@example.org".to_string(),
        rcpt: "to@example.org".to_string(),
        subject: "Contact form".to_string(),
    }
}

fn line(s: &str) -> Event {
    Event::Line(s.to_string())
}

fn send(s: &str) -> Action {
    Action::Send(s.to_string())
}

/// Connects through a greeting and a one-line EHLO reply.
fn connected() -> SMTPClient {
    let mut c = SMTPClient::new(config());
    assert_eq!(c.connect(), Action::Open);
    assert_eq!(c.on_event(Event::Connected), Action::Receive);
    assert_eq!(c.on_event(line("220 hi\r\n")), send("EHLO mail.example.org\r\n"));
    assert_eq!(c.on_event(line("250 OK\r\n")), Action::Done(Ok(())));
    c
}

#[test]
fn full_session_scenario() {
    let mut c = SMTPClient::new(config());
    let mut sent: Vec<String> = Vec::new();
    assert_eq!(c.connect(), Action::Open);
    assert_eq!(c.on_event(Event::Connected), Action::Receive);
    let mut a = c.on_event(line("220 relay ready\r\n"));
    for reply in ["250-A\r\n", "250-B\r\n", "250 OK\r\n"] {
        match a {
            Action::Send(s) => sent.push(s),
            Action::Receive => {}
            other => panic!("unexpected {:?}", other),
        }
        a = c.on_event(line(reply));
    }
    assert_eq!(a, Action::Done(Ok(())));
    assert!(c.is_connected());

    a = c.login();
    for reply in ["334 VXNlcm5hbWU6\r\n", "334 UGFzc3dvcmQ6\r\n", "235 ok\r\n"] {
        match a {
            Action::Send(s) => sent.push(s),
            other => panic!("unexpected {:?}", other),
        }
        a = c.on_event(line(reply));
    }
    assert_eq!(a, Action::Done(Ok(())));

    a = c.send("name -> Ann\r\n");
    for reply in ["250 ok\r\n", "250 ok\r\n", "354 go on\r\n", "250 queued\r\n"] {
        match a {
            Action::Send(s) => sent.push(s),
            other => panic!("unexpected {:?}", other),
        }
        a = c.on_event(line(reply));
    }
    assert_eq!(a, Action::Done(Ok(())));
    assert_eq!(c.phase(), Phase::Ready);
    assert_eq!(
        sent,
        vec![
            "EHLO mail.example.org\r\n",
            "AUTH LOGIN\r\n",
            "dXNlcg==\r\n",
            "cGFzcw==\r\n",
            "MAIL FROM:<from@example.org>\r\n",
            "RCPT TO:<to@example.org>\r\n",
            "DATA\r\n",
            "Subject: Contact form\r\n\r\nname -> Ann\r\n\r\n.\r\n",
        ]
    );
}

#[test]
fn ehlo_refused_scenario() {
    let mut c = SMTPClient::new(config());
    c.connect();
    c.on_event(Event::Connected);
    c.on_event(line("220 relay ready\r\n"));
    assert_eq!(c.on_event(line("550 no\r\n")), Action::Done(Err(SMTPClientError::HELOFailed)));
    assert!(!c.is_connected());
    assert_eq!(c.login(), Action::Done(Err(SMTPClientError::AUTHFailed)));
    assert_eq!(c.send("x"), Action::Done(Err(SMTPClientError::SendEmailFailed)));
}

#[test]
fn unreachable_host_fails_connect() {
    let mut c = SMTPClient::new(config());
    assert_eq!(c.connect(), Action::Open);
    assert_eq!(
        c.on_event(Event::ConnectFailed),
        Action::Done(Err(SMTPClientError::ConnectFailed))
    );
    assert!(!c.is_connected());
    assert_eq!(c.phase(), Phase::Closed);
}

#[test]
fn ehlo_continuations_count_receives() {
    let mut c = SMTPClient::new(config());
    c.connect();
    c.on_event(Event::Connected);
    c.on_event(line("220 hi\r\n"));
    let mut receives = 0;
    let mut a = c.on_event(line("250-PIPELINING\r\n"));
    for l in ["250-SIZE 100\r\n", "250-AUTH LOGIN\r\n", "250 HELP\r\n"] {
        assert_eq!(a, Action::Receive);
        receives += 1;
        a = c.on_event(line(l));
    }
    assert_eq!(receives, 3);
    assert_eq!(a, Action::Done(Ok(())));
}

#[test]
fn ehlo_last_line_refused_after_continuations() {
    let mut c = SMTPClient::new(config());
    c.connect();
    c.on_event(Event::Connected);
    c.on_event(line("220 hi\r\n"));
    assert_eq!(c.on_event(line("250-A\r\n")), Action::Receive);
    assert_eq!(c.on_event(line("421 bye\r\n")), Action::Done(Err(SMTPClientError::HELOFailed)));
}

#[test]
fn rejected_username_never_sends_password() {
    let mut c = connected();
    assert_eq!(c.login(), send("AUTH LOGIN\r\n"));
    assert_eq!(c.on_event(line("334 VXNlcm5hbWU6\r\n")), send("dXNlcg==\r\n"));
    assert_eq!(c.on_event(line("535 bad\r\n")), Action::Done(Err(SMTPClientError::AUTHFailed)));
    assert_eq!(c.on_event(line("334 again\r\n")), Action::Done(Err(SMTPClientError::WrongInit)));
}

#[test]
fn rejected_recipient_never_sends_data() {
    let mut c = connected();
    assert_eq!(c.send("hello"), send("MAIL FROM:<from@example.org>\r\n"));
    assert_eq!(c.on_event(line("250 ok\r\n")), send("RCPT TO:<to@example.org>\r\n"));
    assert_eq!(
        c.on_event(line("550 no such user\r\n")),
        Action::Done(Err(SMTPClientError::SendEmailFailed))
    );
    assert_eq!(c.on_event(line("250 ok\r\n")), Action::Done(Err(SMTPClientError::WrongInit)));
    assert_eq!(c.send("hello"), Action::Done(Err(SMTPClientError::SendEmailFailed)));
}

#[test]
fn connect_twice_is_wrong_init() {
    let mut c = connected();
    assert_eq!(c.connect(), Action::Done(Err(SMTPClientError::WrongInit)));
    assert_eq!(c.phase(), Phase::Ready);
}

#[test]
fn greeting_read_failure_is_invalid_buffer() {
    let mut c = SMTPClient::new(config());
    c.connect();
    c.on_event(Event::Connected);
    assert_eq!(c.on_event(Event::IoFailed), Action::Done(Err(SMTPClientError::InvalidBuffer)));
    assert!(!c.is_connected());
}

#[test]
fn ehlo_exchange_failure_is_helo_failed() {
    let mut c = SMTPClient::new(config());
    c.connect();
    c.on_event(Event::Connected);
    c.on_event(line("220 hi\r\n"));
    assert_eq!(c.on_event(Event::IoFailed), Action::Done(Err(SMTPClientError::HELOFailed)));
}

#[test]
fn continuation_read_failure_is_cannot_read() {
    let mut c = SMTPClient::new(config());
    c.connect();
    c.on_event(Event::Connected);
    c.on_event(line("220 hi\r\n"));
    c.on_event(line("250-A\r\n"));
    assert_eq!(c.on_event(Event::IoFailed), Action::Done(Err(SMTPClientError::CannotRead)));
}

#[test]
fn login_before_connect_fails() {
    let mut c = SMTPClient::new(config());
    assert_eq!(c.login(), Action::Done(Err(SMTPClientError::AUTHFailed)));
    assert_eq!(c.send("x"), Action::Done(Err(SMTPClientError::SendEmailFailed)));
    assert_eq!(c.on_event(line("250 ok\r\n")), Action::Done(Err(SMTPClientError::WrongInit)));
}

#[test]
fn write_failure_during_transaction_fails_send() {
    let mut c = connected();
    c.send("hello");
    assert_eq!(c.on_event(Event::IoFailed), Action::Done(Err(SMTPClientError::SendEmailFailed)));
}

#[test]
fn shared_acceptance_set_applies_to_each_step() {
    let mut c = connected();
    c.login();
    assert_eq!(c.on_event(line("250 odd but accepted\r\n")), send("dXNlcg==\r\n"));
    assert_eq!(c.on_event(line("354 odd too\r\n")), send("cGFzcw==\r\n"));
    assert_eq!(c.on_event(line("334 ok\r\n")), Action::Done(Ok(())));
}
