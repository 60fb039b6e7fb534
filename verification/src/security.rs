use vstd::prelude::*;

verus! {

/// What a session token states: the user's identifier and when the token
/// expires, in seconds since the Unix epoch.
#[derive(Debug, Clone)]
pub struct Claims {
    pub sub: String,
    pub exp: usize,
}

/// How long a session token lasts, in seconds: two hours.
pub open spec fn session_length() -> int {
    7200
}

/// The claims of a token for `user_id` issued at `now` (seconds since the
/// Unix epoch): it expires two hours later.
pub fn claims_for(user_id: &str, now: i64) -> (c: Claims)
    requires
        now + session_length() <= i64::MAX,
    ensures
        c.sub@ == user_id@,
        c.exp == (now + session_length()) as usize,
{
    let expiration: i64 = now + 7200;
    Claims { sub: user_id.to_owned(), exp: expiration as usize }
}

} // verus!
