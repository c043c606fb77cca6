//! The parameters of a relay session.

use vstd::prelude::*;

verus! {

/// Where to listen, which relay to use and what to tell it. Fixed for the life of a
/// session.
#[derive(Debug)]
pub struct ServerConfig {
    /// Port of the HTTP listener in front of the client.
    pub port: u32,
    /// Host name of the mail relay.
    pub smtp_server: String,
    /// Port of the mail relay.
    pub smtp_port: u32,
    /// Name announced with `EHLO` and checked against the relay's certificate.
    pub smtp_domain: String,
    pub smtp_user: String,
    pub smtp_pass: String,
    /// Envelope sender.
    pub sender: String,
    /// Envelope recipient.
    pub rcpt: String,
    pub subject: String,
}

impl ServerConfig {
    /// The UTF-8 bytes of both credentials are short enough that their base64 text
    /// fits in memory.
    pub open spec fn credentials_fit(&self) -> bool {
        vstd::utf8::encode_utf8(self.smtp_user@).len() <= usize::MAX / 2
            && vstd::utf8::encode_utf8(self.smtp_pass@).len() <= usize::MAX / 2
    }
}

pub open spec fn is_digit(c: char) -> bool {
    '0' <= c && c <= '9'
}

pub open spec fn all_digits(s: Seq<char>) -> bool {
    forall|i: int| 0 <= i < s.len() ==> is_digit(#[trigger] s[i])
}

/// The number that the decimal digits `s` write.
pub open spec fn decimal_value(s: Seq<char>) -> nat
    decreases s.len(),
{
    if s.len() == 0 {
        0
    } else {
        decimal_value(s.drop_last()) * 10 + (s.last() as int - 48) as nat
    }
}

/// `s` without one leading `+`, if it has one.
pub open spec fn unsigned_digits(s: Seq<char>) -> Seq<char> {
    if s.len() > 0 && s[0] == '+' {
        s.drop_first()
    } else {
        s
    }
}

/// The `u32` that the text `s` writes in decimal (an optional `+`, then at least one
/// digit, nothing else), if it is in range.
pub open spec fn parsed_u32(s: Seq<char>) -> Option<u32> {
    let d = unsigned_digits(s);
    if d.len() > 0 && all_digits(d) && decimal_value(d) <= u32::MAX {
        Some(decimal_value(d) as u32)
    } else {
        None
    }
}

proof fn lemma_decimal_prefix_le(d: Seq<char>, j: int, k: int)
    requires
        0 <= j <= k <= d.len(),
        all_digits(d),
    ensures
        decimal_value(d.take(j)) <= decimal_value(d.take(k)),
    decreases k - j,
{
    if j < k {
        lemma_decimal_prefix_le(d, j, k - 1);
        assert(d.take(k).drop_last() =~= d.take(k - 1));
        assert(is_digit(d[k - 1]));
    }
}

/// Reads a port or other `u32` setting written in decimal.
pub fn parse_u32(s: &str) -> (r: Option<u32>)
    ensures
        r == parsed_u32(s@),
{
    let n = s.unicode_len();
    let mut start: usize = 0;
    if n > 0 && s.get_char(0) == '+' {
        start = 1;
    }
    let ghost d = unsigned_digits(s@);
    assert(d =~= s@.subrange(start as int, n as int));
    if start == n {
        return None;
    }
    let mut v: u64 = 0;
    let mut i: usize = start;
    while i < n
        invariant
            start <= i <= n,
            n == s@.len(),
            d == s@.subrange(start as int, n as int),
            d == unsigned_digits(s@),
            all_digits(d.take(i - start)),
            v == decimal_value(d.take(i - start)),
            v <= u32::MAX,
        decreases n - i,
    {
        let c = s.get_char(i);
        let ghost k = i - start;
        if !('0' <= c && c <= '9') {
            assert(!is_digit(d[k]));
            assert(!all_digits(d));
            return None;
        }
        assert(d.take(k + 1).drop_last() =~= d.take(k));
        assert(all_digits(d.take(k + 1))) by {
            assert forall|j: int| 0 <= j < k + 1 implies is_digit(#[trigger] d.take(k + 1)[j]) by {
                if j < k {
                    assert(d.take(k + 1)[j] == d.take(k)[j]);
                }
            }
        }
        assert(d.take(k + 1).last() == c);
        assert(decimal_value(d.take(k + 1)) == decimal_value(d.take(k)) * 10 + (c as int - 48));
        v = v * 10 + (c as u64 - 48);
        if v > u32::MAX as u64 {
            proof {
                if all_digits(d) {
                    lemma_decimal_prefix_le(d, k + 1, d.len() as int);
                    assert(d.take(d.len() as int) =~= d);
                    assert(decimal_value(d) > u32::MAX);
                }
            }
            return None;
        }
        i = i + 1;
    }
    assert(d.take(n - start) =~= d);
    Some(v as u32)
}

} // verus!
