use vstd::prelude::*;

verus! {

/// The value of the authorization header of a request to the chat
/// completion service, for the key `api_key`.
pub fn authorization_value(api_key: &str) -> (value: String)
    ensures
        value@ == "Bearer "@ + api_key@,
{
    String::from_str("Bearer ").concat(api_key)
}

} // verus!
