//! Random tokens for session identifiers.

use rand::distributions::Alphanumeric;
use rand::Rng;
use vstd::prelude::*;

verus! {

/// Number of characters in a generated session token.
pub const TOKEN_LEN: usize = 40;

/// An ASCII letter or digit.
pub open spec fn is_token_char(c: char) -> bool {
    ||| ('A' <= c && c <= 'Z')
    ||| ('a' <= c && c <= 'z')
    ||| ('0' <= c && c <= '9')
}

/// Relies on rand's `Alphanumeric` distribution sampled from the thread-local
/// generator: a byte drawn from `A-Z`, `a-z` and `0-9`.
#[verifier::external_body]
fn random_token_char() -> (c: char)
    ensures
        is_token_char(c),
{
    rand::thread_rng().sample(Alphanumeric) as char
}

/// Relies on `String::push`: appends one character.
#[verifier::external_body]
fn push_char(s: &mut String, c: char)
    ensures
        final(s)@ == old(s)@.push(c),
{
    s.push(c)
}

/// A fresh random token of `TOKEN_LEN` ASCII letters and digits.
pub fn random_string() -> (r: String)
    ensures
        r@.len() == TOKEN_LEN,
        forall|i: int| 0 <= i < r@.len() ==> is_token_char(#[trigger] r@[i]),
{
    let mut s = String::new();
    let mut n: usize = 0;
    while n < TOKEN_LEN
        invariant
            n <= TOKEN_LEN,
            s@.len() == n,
            forall|i: int| 0 <= i < s@.len() ==> is_token_char(#[trigger] s@[i]),
        decreases TOKEN_LEN - n,
    {
        let c = random_token_char();
        push_char(&mut s, c);
        n = n + 1;
    }
    s
}

} // verus!
