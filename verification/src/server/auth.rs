//! The authentication capability the gateway session consumes.
//!
//! The gateway never decides policy itself: it hands the agent's token to an
//! [`Authenticate`] implementation and reacts to the outcome. The default
//! [`AuthorizeAll`] lets everyone in and every name through, rejecting only
//! the one token its contract names.
use vstd::prelude::*;

use crate::Error;
use vstd::string::StrSliceExecFns;

verus! {

/// An authenticated user, carrying whatever opaque identifier the policy
/// assigns.
#[derive(Debug)]
pub struct User<U> {
    pub id: U,
}

/// The authentication policy: checks a login token and authorizes domain
/// names for the resulting user. Implementations choose both the user
/// identifier type and, through the two spec functions, what they promise.
pub trait Authenticate {
    type U;

    /// Which tokens this policy accepts.
    spec fn accepts(&self, token: Seq<char>) -> bool;

    /// Whether this policy authorizes a user for a name, when it answers at
    /// all.
    spec fn authorizes(&self, user: Self::U, name: Seq<char>) -> bool;

    /// Checks a login token; succeeds exactly on the tokens the policy
    /// accepts, and reports a rejection as an authentication error.
    fn authenticate(&self, token: &str) -> (r: Result<User<Self::U>, Error>)
        ensures
            r is Ok <==> self.accepts(token@),
            r matches Err(e) ==> e is AuthenticationError,
    ;

    /// Asks whether the user may register this name; a clean answer matches
    /// the policy's authorization predicate.
    fn authorize(&self, user: &Self::U, name: &str) -> (r: Result<bool, Error>)
        ensures
            r matches Ok(b) ==> b == self.authorizes(*user, name@),
    ;
}

/// Compares two byte buffers.
fn bytes_eq(a: &Vec<u8>, b: &Vec<u8>) -> (r: bool)
    ensures
        r <==> a@ == b@,
{
    if a.len() != b.len() {
        proof {
            assert(a@.len() != b@.len());
        }
        return false;
    }
    let mut i: usize = 0;
    while i < a.len()
        invariant
            i <= a@.len(),
            a@.len() == b@.len(),
            forall|j: int| 0 <= j < i ==> a@[j] == b@[j],
        decreases a@.len() - i,
    {
        if a[i] != b[i] {
            return false;
        }
        i = i + 1;
    }
    proof {
        assert(a@ =~= b@);
    }
    true
}

/// The permissive default policy: every token but `"fail"` logs in as the
/// unit user, and every name is authorized.
#[derive(Debug, Clone)]
pub struct AuthorizeAll;

impl Authenticate for AuthorizeAll {
    type U = ();

    open spec fn accepts(&self, token: Seq<char>) -> bool {
        token != "fail"@
    }

    open spec fn authorizes(&self, user: (), name: Seq<char>) -> bool {
        true
    }

    fn authenticate(&self, token: &str) -> (r: Result<User<()>, Error>)
        ensures
            r is Ok <==> self.accepts(token@),
            r matches Err(e) ==> e is AuthenticationError,
    {
        let tb = token.as_bytes_vec();
        let fb = "fail".as_bytes_vec();
        let same = bytes_eq(&tb, &fb);
        proof {
            if tb@ == fb@ {
                vstd::utf8::encode_utf8_decode_utf8(token@);
                vstd::utf8::encode_utf8_decode_utf8("fail"@);
            }
        }
        if same {
            Err(Error::AuthenticationError("invalid token".to_owned()))
        } else {
            Ok(User { id: () })
        }
    }

    fn authorize(&self, user: &(), name: &str) -> (r: Result<bool, Error>)
        ensures
            r matches Ok(b) ==> b == self.authorizes(*user, name@),
    {
        Ok(true)
    }
}

} // verus!
