//! Opaque random identifiers: the bearer tokens and the retrieval tickets.

use vstd::prelude::*;

verus! {

use rand::Rng;

use crate::text::push_char;

/// A character of an opaque identifier: an ASCII letter or digit.
pub open spec fn is_token_char(c: char) -> bool {
    ('a' <= c && c <= 'z') || ('A' <= c && c <= 'Z') || ('0' <= c && c <= '9')
}

/// Text of the right shape for a token or a ticket: 32 characters, each
/// drawn from the 62-symbol alphanumeric alphabet.
pub open spec fn is_token_text(s: Seq<char>) -> bool {
    s.len() == 32 && forall|i: int| 0 <= i < s.len() ==> is_token_char(#[trigger] s[i])
}

/// Relies on rand's Alphanumeric distribution: a sampled byte is one of
/// the 62 ASCII letters and digits.
#[verifier::external_body]
fn random_token_char() -> (c: char)
    ensures
        is_token_char(c),
{
    char::from(rand::thread_rng().sample(rand::distributions::Alphanumeric))
}

/// Draws a fresh 32-character opaque identifier.
pub(crate) fn random_token() -> (t: String)
    ensures
        is_token_text(t@),
{
    let mut t = String::new();
    let mut i: usize = 0;
    while i < 32
        invariant
            i <= 32,
            t@.len() == i,
            forall|j: int| 0 <= j < t@.len() ==> is_token_char(#[trigger] t@[j]),
        decreases 32 - i,
    {
        let c = random_token_char();
        push_char(&mut t, c);
        i = i + 1;
    }
    t
}

} // verus!
