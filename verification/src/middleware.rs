//! Who may talk to the service that runs the engines.

use vstd::prelude::*;
use vstd::string::StringExecFns;

verus! {

/// The status that turns a caller away.
pub const UNAUTHORIZED: u16 = 401;

/// What the `Authorization` header must say for the token `bearer_token`.
pub open spec fn expected_authorization(bearer_token: Seq<char>) -> Seq<char> {
    "Bearer "@ + bearer_token
}

/// Lets a request through where its `Authorization` header, if it has one
/// that is text, names the token `bearer_token` as a bearer; turns it away
/// as unauthorized otherwise.
pub fn auth_middleware(authorization: Option<&str>, bearer_token: &str) -> (verdict: Result<
    (),
    u16,
>)
    ensures
        verdict is Ok <==> (authorization matches Some(said) && said@ == expected_authorization(
            bearer_token@,
        )),
        verdict is Err ==> verdict == Err::<(), u16>(UNAUTHORIZED),
{
    match authorization {
        Some(said) => {
            let expected = String::from_str("Bearer ").concat(bearer_token);
            let said = String::from_str(said);
            if said == expected {
                Ok(())
            } else {
                Err(UNAUTHORIZED)
            }
        },
        None => Err(UNAUTHORIZED),
    }
}

} // verus!
