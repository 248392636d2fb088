use vstd::prelude::*;

verus! {

/// Whether an authorization header value is a bearer token carrying exactly
/// the configured API key.
pub open spec fn valid_api_key_spec(token: Seq<char>, api_key: Seq<char>) -> bool {
    token.len() >= 7 && token.take(7) == "Bearer "@ && token.skip(7) == api_key
}

/// Validates an authorization header value against the configured API key:
/// it must be `Bearer ` followed by exactly the key.
pub fn validate_api_key(token: &str, api_key: &str) -> (r: bool)
    ensures
        r == valid_api_key_spec(token@, api_key@),
{
    let n = token.unicode_len();
    if n < 7 {
        return false;
    }
    let prefix = token.substring_char(0, 7);
    if !crate::text::str_eq(prefix, "Bearer ") {
        return false;
    }
    let rest = token.substring_char(7, n);
    crate::text::str_eq(rest, api_key)
}

} // verus!
