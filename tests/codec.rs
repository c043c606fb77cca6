use base64::Engine;
use smtp_relay::command::{credential, ehlo, message, rcpt_to};
use smtp_relay::reply::{check_success, starts_with};

#[test]
fn credential_is_padded_base64_line() {
    assert_eq!(credential("user"), "dXNlcg==\r\n");
    assert_eq!(credential("pass"), "cGFzcw==\r\n");
    assert_eq!(credential("ab"), "YWI=\r\n");
    assert_eq!(credential("abc"), "YWJj\r\n");
    assert_eq!(credential(""), "\r\n");
    assert_eq!(credential("comté"), "Y29tdMOp\r\n");
}

#[test]
fn credential_round_trips_through_base64() {
    for secret in ["user", "p@ss w0rd!", "x", "comté", "hunter2"] {
        let line = credential(secret);
        let text = line.strip_suffix("\r\n").unwrap();
        let back = base64::engine::general_purpose::STANDARD.decode(text).unwrap();
        assert_eq!(back, secret.as_bytes());
    }
}

#[test]
fn command_lines_are_terminated() {
    assert_eq!(ehlo("example.com"), "EHLO example.com\r\n");
    assert_eq!(rcpt_to("a@b.c"), "RCPT TO:<a@b.c>\r\n");
    assert_eq!(message("Hi", ".body"), "Subject: Hi\r\n\r\n.body\r\n.\r\n");
}

#[test]
fn accepted_codes() {
    for l in ["250 ok", "334 VXNlcm5hbWU6", "354 go", "235 done", "250-more", "2350"] {
        assert!(check_success(l));
    }
    for l in ["550 no", "25", "", "221 bye", " 250"] {
        assert!(!check_success(l));
    }
}

#[test]
fn prefix_test() {
    assert!(starts_with("250-A", "250-"));
    assert!(!starts_with("250 A", "250-"));
    assert!(starts_with("abc", ""));
    assert!(!starts_with("ab", "abc"));
}
