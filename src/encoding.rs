//! Standard base64 (RFC 4648 alphabet, with `=` padding, no line wrapping), as used to
//! carry the credentials of `AUTH LOGIN`.

use vstd::prelude::*;
use base64::Engine;

verus! {

/// The base64 digit for a sextet `v` (`0 <= v < 64`).
pub open spec fn b64_digit(v: int) -> char {
    if v < 26 {
        (v + 65) as char
    } else if v < 52 {
        (v + 71) as char
    } else if v < 62 {
        (v - 4) as char
    } else if v == 62 {
        '+'
    } else {
        '/'
    }
}

/// The sextet that a base64 digit stands for.
pub open spec fn b64_value(c: char) -> int {
    if 'A' <= c && c <= 'Z' {
        c as int - 65
    } else if 'a' <= c && c <= 'z' {
        c as int - 71
    } else if '0' <= c && c <= '9' {
        c as int + 4
    } else if c == '+' {
        62
    } else {
        63
    }
}

/// Base64 text of `b`: each group of three bytes becomes four digits; a final group of
/// one or two bytes is padded with `=` to four characters.
pub open spec fn base64_encode(b: Seq<u8>) -> Seq<char>
    decreases b.len(),
{
    if b.len() == 0 {
        seq![]
    } else if b.len() == 1 {
        seq![b64_digit((b[0] as int) / 4), b64_digit(((b[0] as int) % 4) * 16), '=', '=']
    } else if b.len() == 2 {
        seq![
            b64_digit((b[0] as int) / 4),
            b64_digit(((b[0] as int) % 4) * 16 + (b[1] as int) / 16),
            b64_digit(((b[1] as int) % 16) * 4),
            '=',
        ]
    } else {
        seq![
            b64_digit((b[0] as int) / 4),
            b64_digit(((b[0] as int) % 4) * 16 + (b[1] as int) / 16),
            b64_digit(((b[1] as int) % 16) * 4 + (b[2] as int) / 64),
            b64_digit((b[2] as int) % 64),
        ] + base64_encode(b.skip(3))
    }
}

/// The bytes that padded base64 text `s` stands for, read four characters at a time.
pub open spec fn base64_decode(s: Seq<char>) -> Seq<u8>
    decreases s.len(),
{
    if s.len() < 4 {
        seq![]
    } else {
        let v0 = b64_value(s[0]);
        let v1 = b64_value(s[1]);
        let v2 = b64_value(s[2]);
        let v3 = b64_value(s[3]);
        let x0 = (v0 * 4 + v1 / 16) as u8;
        let x1 = ((v1 % 16) * 16 + v2 / 4) as u8;
        let x2 = ((v2 % 4) * 64 + v3) as u8;
        if s[2] == '=' {
            seq![x0]
        } else if s[3] == '=' {
            seq![x0, x1]
        } else {
            seq![x0, x1, x2] + base64_decode(s.skip(4))
        }
    }
}

proof fn lemma_digit_value(v: int)
    requires
        0 <= v < 64,
    ensures
        b64_value(b64_digit(v)) == v,
        b64_digit(v) != '=',
{
}

/// Decoding the base64 text of any byte string gives back that byte string.
pub proof fn lemma_base64_round_trip(b: Seq<u8>)
    ensures
        base64_decode(base64_encode(b)) == b,
    decreases b.len(),
{
    if b.len() == 0 {
        assert(base64_decode(base64_encode(b)) =~= b);
    } else if b.len() == 1 {
        let s = base64_encode(b);
        lemma_digit_value((b[0] as int) / 4);
        lemma_digit_value(((b[0] as int) % 4) * 16);
        assert(base64_decode(s) =~= b);
    } else if b.len() == 2 {
        let s = base64_encode(b);
        lemma_digit_value((b[0] as int) / 4);
        lemma_digit_value(((b[0] as int) % 4) * 16 + (b[1] as int) / 16);
        lemma_digit_value(((b[1] as int) % 16) * 4);
        assert(base64_decode(s) =~= b);
    } else {
        let s = base64_encode(b);
        let head = seq![
            b64_digit((b[0] as int) / 4),
            b64_digit(((b[0] as int) % 4) * 16 + (b[1] as int) / 16),
            b64_digit(((b[1] as int) % 16) * 4 + (b[2] as int) / 64),
            b64_digit((b[2] as int) % 64),
        ];
        lemma_digit_value((b[0] as int) / 4);
        lemma_digit_value(((b[0] as int) % 4) * 16 + (b[1] as int) / 16);
        lemma_digit_value(((b[1] as int) % 16) * 4 + (b[2] as int) / 64);
        lemma_digit_value((b[2] as int) % 64);
        lemma_base64_round_trip(b.skip(3));
        assert(s == head + base64_encode(b.skip(3)));
        assert(s.skip(4) =~= base64_encode(b.skip(3)));
        assert(base64_decode(s) =~= b);
    }
}

/// Relies on `base64::engine::general_purpose::STANDARD.encode`: standard alphabet,
/// `=` padding, no line breaks. It panics only where the encoded length overflows
/// `usize`, which the bound on the input rules out.
#[verifier::external_body]
pub(crate) fn encode_base64(b: &[u8]) -> (r: String)
    requires
        b@.len() <= usize::MAX / 2,
    ensures
        r@ == base64_encode(b@),
{
    base64::engine::general_purpose::STANDARD.encode(b)
}

} // verus!
