//! The command lines and the message block that the client writes, each complete with
//! its terminator.

use vstd::prelude::*;
use crate::encoding::{base64_decode, base64_encode, encode_base64, lemma_base64_round_trip};

verus! {

pub open spec fn crlf() -> Seq<char> {
    "\r\n"@
}

pub open spec fn ehlo_line(domain: Seq<char>) -> Seq<char> {
    "EHLO "@ + domain + crlf()
}

pub open spec fn auth_login_line() -> Seq<char> {
    "AUTH LOGIN"@ + crlf()
}

/// A credential sent during `AUTH LOGIN`: the base64 text of its UTF-8 bytes.
pub open spec fn credential_line(secret: Seq<char>) -> Seq<char> {
    base64_encode(vstd::utf8::encode_utf8(secret)) + crlf()
}

/// The server recovers each credential exactly: decoding the base64 text of a
/// credential line (its terminator left off) gives the credential's UTF-8 bytes.
pub proof fn lemma_credential_round_trip(secret: Seq<char>)
    ensures
        ({
            let line = credential_line(secret);
            base64_decode(line.subrange(0, line.len() - 2)) == vstd::utf8::encode_utf8(secret)
        }),
{
    let text = base64_encode(vstd::utf8::encode_utf8(secret));
    reveal_strlit("\r\n");
    assert(credential_line(secret).subrange(0, credential_line(secret).len() - 2) =~= text);
    lemma_base64_round_trip(vstd::utf8::encode_utf8(secret));
}

pub open spec fn mail_from_line(sender: Seq<char>) -> Seq<char> {
    "MAIL FROM:<"@ + sender + ">"@ + crlf()
}

pub open spec fn rcpt_to_line(rcpt: Seq<char>) -> Seq<char> {
    "RCPT TO:<"@ + rcpt + ">"@ + crlf()
}

pub open spec fn data_line() -> Seq<char> {
    "DATA"@ + crlf()
}

/// The message: a `Subject:` header, a blank line and the body as given, closed by the
/// end-of-data marker (a line holding a single period).
pub open spec fn message_block(subject: Seq<char>, body: Seq<char>) -> Seq<char> {
    "Subject: "@ + subject + crlf() + crlf() + body + crlf() + "."@ + crlf()
}

pub fn ehlo(domain: &str) -> (r: String)
    ensures
        r@ == ehlo_line(domain@),
{
    String::from_str("EHLO ").concat(domain).concat("\r\n")
}

pub fn auth_login() -> (r: String)
    ensures
        r@ == auth_login_line(),
{
    String::from_str("AUTH LOGIN").concat("\r\n")
}

pub fn credential(secret: &str) -> (r: String)
    requires
        vstd::utf8::encode_utf8(secret@).len() <= usize::MAX / 2,
    ensures
        r@ == credential_line(secret@),
{
    let bytes = secret.as_bytes();
    encode_base64(bytes).concat("\r\n")
}

pub fn mail_from(sender: &str) -> (r: String)
    ensures
        r@ == mail_from_line(sender@),
{
    String::from_str("MAIL FROM:<").concat(sender).concat(">").concat("\r\n")
}

pub fn rcpt_to(rcpt: &str) -> (r: String)
    ensures
        r@ == rcpt_to_line(rcpt@),
{
    String::from_str("RCPT TO:<").concat(rcpt).concat(">").concat("\r\n")
}

pub fn data() -> (r: String)
    ensures
        r@ == data_line(),
{
    String::from_str("DATA").concat("\r\n")
}

pub fn message(subject: &str, body: &str) -> (r: String)
    ensures
        r@ == message_block(subject@, body@),
{
    String::from_str("Subject: ").concat(subject).concat("\r\n").concat("\r\n").concat(body).concat(
        "\r\n",
    ).concat(".").concat("\r\n")
}

} // verus!
