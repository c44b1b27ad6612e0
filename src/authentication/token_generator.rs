//! Random bearer tokens.
use crate::text::push_char;
use vstd::prelude::*;

verus! {

/// Number of characters in a bearer token.
pub const TOKEN_LEN: usize = 30;

/// An ASCII letter or digit.
pub open spec fn is_alphanumeric(c: char) -> bool {
    ('A' <= c && c <= 'Z') || ('a' <= c && c <= 'z') || ('0' <= c && c <= '9')
}

/// The shape of every token handed out: `TOKEN_LEN` ASCII letters and digits.
pub open spec fn is_token(t: Seq<char>) -> bool {
    t.len() == TOKEN_LEN && forall|i: int| 0 <= i < t.len() ==> is_alphanumeric(#[trigger] t[i])
}

/// Relies on rand's `Alphanumeric` distribution, sampled from `thread_rng`:
/// a uniformly drawn ASCII letter or digit.
#[verifier::external_body]
fn random_alphanumeric() -> (c: char)
    ensures
        is_alphanumeric(c),
{
    char::from(rand::Rng::sample(&mut rand::thread_rng(), rand::distributions::Alphanumeric))
}

/// A fresh random token of `TOKEN_LEN` letters and digits.
pub fn random_token() -> (r: String)
    ensures
        is_token(r@),
{
    let mut token = String::new();
    for i in 0..TOKEN_LEN
        invariant
            token@.len() == i,
            forall|k: int| 0 <= k < token@.len() ==> is_alphanumeric(#[trigger] token@[k]),
    {
        let c = random_alphanumeric();
        push_char(&mut token, c);
    }
    token
}

} // verus!
