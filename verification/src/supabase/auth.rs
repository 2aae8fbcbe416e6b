//! The identity provider's sign-up call.
//!
//! Sign-up is the one operation that does not go through the backend's
//! remote procedures: it posts credentials to the identity provider's
//! sign-up endpoint and reads back the created user, whose assigned
//! identifier the profile creation then uses.

use vstd::prelude::*;
use vstd::string::StringExecFns;

use crate::json::{append_json_string, json_string};

verus! {

/// The JSON body of an identity sign-up.
pub open spec fn sign_up_body_text(email: Seq<char>, password: Seq<char>) -> Seq<char> {
    "{\"email\":"@ + json_string(email) + ",\"password\":"@ + json_string(password) + "}"@
}

/// Builds the identity provider's calls.
pub struct AuthClient {}

impl AuthClient {
    pub fn new() -> (r: Self)
        ensures
            r == (AuthClient {  }),
    {
        AuthClient {  }
    }

    /// The sign-up endpoint's path under the identity provider's address.
    pub fn sign_up_path(&self) -> (r: String)
        ensures
            r@ == "/signup"@,
    {
        "/signup".to_owned()
    }

    /// The body of a sign-up request for the given credentials.
    pub fn sign_up_body(&self, email: &str, password: &str) -> (r: String)
        ensures
            r@ == sign_up_body_text(email@, password@),
    {
        let mut p = String::new();
        p.append("{\"email\":");
        append_json_string(&mut p, email);
        p.append(",\"password\":");
        append_json_string(&mut p, password);
        p.append("}");
        proof {
            assert(p@ =~= sign_up_body_text(email@, password@));
        }
        p
    }
}

} // verus!
