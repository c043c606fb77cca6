//! Turning a submitted web form into the body of the message to relay.
//!
//! The form arrives `application/x-www-form-urlencoded`. It is accepted only when its
//! first field named `key` holds the shared secret; the message body then lists every
//! field, one `name -> value` line each, in the order of the form.

use vstd::prelude::*;

verus! {

/// Why a submitted form is turned away.
#[derive(Debug, Clone, Copy, PartialEq, Eq, Structural)]
pub enum FormError {
    /// The bytes are not a well-formed urlencoded form.
    Malformed,
    /// The form does not carry the shared secret.
    Forbidden,
}

/// The name/value pairs that the urlencoded bytes `b` decode to, in order, or `None`
/// where they do not decode.
pub uninterp spec fn urlencoded_pairs(b: Seq<u8>) -> Option<Seq<(Seq<char>, Seq<char>)>>;

pub open spec fn pairs_view(v: Seq<(String, String)>) -> Seq<(Seq<char>, Seq<char>)> {
    v.map_values(|p: (String, String)| (p.0@, p.1@))
}

/// Relies on `serde_urlencoded::from_bytes::<Vec<(String, String)>>`: the pairs of the
/// form in order, percent- and `+`-decoded; an error where the bytes do not decode.
#[verifier::external_body]
fn decode_form(b: &[u8]) -> (r: Option<Vec<(String, String)>>)
    ensures
        match r {
            Some(v) => urlencoded_pairs(b@) == Some(pairs_view(v@)),
            None => urlencoded_pairs(b@) is None,
        },
{
    serde_urlencoded::from_bytes::<Vec<(String, String)>>(b).ok()
}

/// The value of the first field named `key`, if any.
pub open spec fn key_field(ps: Seq<(Seq<char>, Seq<char>)>) -> Option<Seq<char>>
    decreases ps.len(),
{
    if ps.len() == 0 {
        None
    } else if ps[0].0 == "key"@ {
        Some(ps[0].1)
    } else {
        key_field(ps.drop_first())
    }
}

/// The form carries the shared secret `secret` in its first field named `key`.
pub open spec fn is_authorized(ps: Seq<(Seq<char>, Seq<char>)>, secret: Seq<char>) -> bool {
    key_field(ps) == Some(secret)
}

/// One `name -> value` line per field, in order.
pub open spec fn body_text(ps: Seq<(Seq<char>, Seq<char>)>) -> Seq<char>
    decreases ps.len(),
{
    if ps.len() == 0 {
        seq![]
    } else {
        body_text(ps.drop_last()) + ps.last().0 + " -> "@ + ps.last().1 + "\r\n"@
    }
}

/// Whether the decoded form `pairs` carries the shared secret `secret`.
pub fn authorized(pairs: &Vec<(String, String)>, secret: &str) -> (r: bool)
    ensures
        r == is_authorized(pairs_view(pairs@), secret@),
{
    let ghost ps = pairs_view(pairs@);
    let name = String::from_str("key");
    let wanted = String::from_str(secret);
    let mut i: usize = 0;
    assert(ps.skip(0) =~= ps);
    while i < pairs.len()
        invariant
            ps == pairs_view(pairs@),
            name@ == "key"@,
            wanted@ == secret@,
            i <= pairs.len(),
            key_field(ps) == key_field(ps.skip(i as int)),
        decreases pairs.len() - i,
    {
        assert(ps.skip(i as int)[0] == ps[i as int]);
        assert(ps.skip(i as int).drop_first() =~= ps.skip(i + 1));
        if pairs[i].0 == name {
            return pairs[i].1 == wanted;
        }
        i = i + 1;
    }
    assert(ps.skip(i as int) =~= seq![]);
    false
}

/// The message body for the decoded form `pairs`.
pub fn form_body(pairs: &Vec<(String, String)>) -> (r: String)
    ensures
        r@ == body_text(pairs_view(pairs@)),
{
    let ghost ps = pairs_view(pairs@);
    let mut out = String::new();
    let mut i: usize = 0;
    while i < pairs.len()
        invariant
            ps == pairs_view(pairs@),
            i <= pairs.len(),
            out@ == body_text(ps.take(i as int)),
        decreases pairs.len() - i,
    {
        assert(ps.take(i + 1).drop_last() =~= ps.take(i as int));
        out.append(pairs[i].0.as_str());
        out.append(" -> ");
        out.append(pairs[i].1.as_str());
        out.append("\r\n");
        i = i + 1;
    }
    assert(ps.take(i as int) =~= ps);
    out
}

/// The message body for the submitted form `form`, where it decodes and carries the
/// shared secret `secret`.
pub fn form_message(form: &[u8], secret: &str) -> (r: Result<String, FormError>)
    ensures
        match urlencoded_pairs(form@) {
            None => r == Err::<String, FormError>(FormError::Malformed),
            Some(ps) => if is_authorized(ps, secret@) {
                r matches Ok(s) && s@ == body_text(ps)
            } else {
                r == Err::<String, FormError>(FormError::Forbidden)
            },
        },
{
    match decode_form(form) {
        None => Err(FormError::Malformed),
        Some(pairs) => {
            if authorized(&pairs, secret) {
                Ok(form_body(&pairs))
            } else {
                Err(FormError::Forbidden)
            }
        },
    }
}

} // verus!
