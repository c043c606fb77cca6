use smtp_relay::form::{authorized, form_body, form_message, FormError};

fn pairs(v: &[(&str, &str)]) -> Vec<(String, String)> {
    v.iter().map(|(k, s)| (k.to_string(), s.to_string())).collect()
}

#[test]
fn form_with_secret_becomes_body() {
    let r = form_message(b"key=s3cret&name=Ann+Lee&msg=caf%C3%A9", "s3cret");
    assert_eq!(r, Ok("key -> s3cret\r\nname -> Ann Lee\r\nmsg -> café\r\n".to_string()));
}

#[test]
fn form_without_secret_is_forbidden() {
    assert_eq!(form_message(b"name=Ann", "s3cret"), Err(FormError::Forbidden));
    assert_eq!(form_message(b"key=wrong&name=Ann", "s3cret"), Err(FormError::Forbidden));
    assert_eq!(form_message(b"", "s3cret"), Err(FormError::Forbidden));
}

#[test]
fn first_key_field_decides() {
    assert!(authorized(&pairs(&[("a", "1"), ("key", "k"), ("key", "x")]), "k"));
    assert!(!authorized(&pairs(&[("key", "x"), ("key", "k")]), "k"));
    assert!(!authorized(&pairs(&[]), ""));
}

#[test]
fn body_lists_fields_in_order() {
    assert_eq!(form_body(&pairs(&[])), "");
    assert_eq!(form_body(&pairs(&[("b", "2"), ("a", "1")])), "b -> 2\r\na -> 1\r\n");
}
