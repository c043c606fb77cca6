//! Reading the status line that a mail server sends back after each command.

use vstd::prelude::*;

verus! {

/// `s` begins with `p`.
pub open spec fn has_prefix(s: Seq<char>, p: Seq<char>) -> bool {
    p.len() <= s.len() && s.subrange(0, p.len() as int) == p
}

/// A reply line in which more lines of the same reply follow (`250-`).
pub open spec fn is_continuation(line: Seq<char>) -> bool {
    has_prefix(line, "250-"@)
}

/// A reply line that reports success of a command or transaction (`250`).
pub open spec fn is_completion(line: Seq<char>) -> bool {
    has_prefix(line, "250"@)
}

/// A reply line whose status code is one that the client goes on after: `250` (done),
/// `334` (challenge during authentication), `354` (start mail input) or `235`
/// (authenticated).
pub open spec fn is_accepted(line: Seq<char>) -> bool {
    has_prefix(line, "250"@) || has_prefix(line, "334"@) || has_prefix(line, "354"@)
        || has_prefix(line, "235"@)
}

/// Whether `line` begins with `prefix`.
pub fn starts_with(line: &str, prefix: &str) -> (r: bool)
    ensures
        r == has_prefix(line@, prefix@),
{
    let n = line.unicode_len();
    let m = prefix.unicode_len();
    if m > n {
        return false;
    }
    let mut i: usize = 0;
    while i < m
        invariant
            m == prefix@.len(),
            n == line@.len(),
            m <= n,
            i <= m,
            forall|j: int| 0 <= j < i ==> line@[j] == prefix@[j],
        decreases m - i,
    {
        if line.get_char(i) != prefix.get_char(i) {
            assert(line@.subrange(0, m as int)[i as int] != prefix@[i as int]);
            return false;
        }
        i = i + 1;
    }
    assert(line@.subrange(0, m as int) =~= prefix@);
    true
}

/// Whether the server's reply `line` lets the exchange go on.
pub fn check_success(line: &str) -> (r: bool)
    ensures
        r == is_accepted(line@),
{
    starts_with(line, "250") || starts_with(line, "334") || starts_with(line, "354")
        || starts_with(line, "235")
}

} // verus!
