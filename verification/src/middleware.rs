//! Authentication in front of the routes: which requests are let through,
//! with whose claims, and which are answered with a refusal.

use vstd::prelude::*;
use crate::auth::Claims;
use crate::guardian::{bearer_of, bearer_token};

verus! {

/// Why a request was answered with "unauthorized".
#[derive(Debug, Clone, Copy, PartialEq, Eq, Structural)]
pub enum Unauthorized {
    /// No `Authorization` header of the form "Bearer " and a token.
    MissingToken,
    /// The token was not accepted.
    InvalidToken,
    /// The request carries no claims.
    NotAuthenticated,
}

impl Unauthorized {
    /// The text sent with the refusal.
    pub open spec fn message_text(self) -> Seq<char> {
        match self {
            Unauthorized::MissingToken => "Missing authorization token"@,
            Unauthorized::InvalidToken => "Invalid or expired token"@,
            Unauthorized::NotAuthenticated => "User not authenticated"@,
        }
    }

    /// The text sent with the refusal.
    pub fn message(&self) -> (text: &'static str)
        ensures
            text@ == self.message_text(),
    {
        match self {
            Unauthorized::MissingToken => "Missing authorization token",
            Unauthorized::InvalidToken => "Invalid or expired token",
            Unauthorized::NotAuthenticated => "User not authenticated",
        }
    }
}

/// What is to happen to a request.
#[derive(Debug)]
pub enum Admission {
    /// Hand it to the route, with these claims attached.
    Authenticated(Claims),
    /// Hand it to the route as it is.
    Anonymous,
    /// Answer it with a refusal.
    Refused(Unauthorized),
}

/// The admission of a request with the given header value, where `verified`
/// is what checking the token returned.
pub open spec fn admission_of(header: Option<&str>, verified: Option<Claims>) -> Admission {
    if header is None || bearer_of(header.unwrap()@) is None {
        Admission::Refused(Unauthorized::MissingToken)
    } else {
        match verified {
            Some(claims) => Admission::Authenticated(claims),
            None => Admission::Refused(Unauthorized::InvalidToken),
        }
    }
}

/// `header` carries a bearer token.
pub open spec fn has_bearer(header: Option<&str>) -> bool {
    header is Some && bearer_of(header.unwrap()@) is Some
}

/// Requires a valid token on every request.
#[derive(Debug, Clone, Copy)]
pub struct AuthMiddleware {}

/// Requires a valid token only while the site is set to require
/// authentication for reads.
#[derive(Debug, Clone, Copy)]
pub struct ReadAuthMiddleware {}

/// The claims that the middleware attached to a request.
#[derive(Debug)]
pub struct AuthUser(pub Claims);

impl AuthMiddleware {
    /// Decides on a request. `header` is the value of its `Authorization`
    /// header, if it has one that is text; `verify` checks a token and
    /// returns its claims.
    ///
    /// Without a bearer token the request is refused and `verify` is not
    /// called. With one, it is let through with the claims of the token if
    /// `verify` accepts it, and refused otherwise.
    pub fn authenticate<V>(&self, header: Option<&str>, verify: &V) -> (admission: Admission) where
        V: Fn(&str) -> Option<Claims>,

        requires
            forall|token: &str| call_requires(*verify, (token,)),
        ensures
            !has_bearer(header) ==> admission == Admission::Refused(Unauthorized::MissingToken),
            has_bearer(header) ==> exists|token: &str, verified: Option<Claims>|
                {
                    &&& Some(token@) == bearer_of(header.unwrap()@)
                    &&& #[trigger] call_ensures(*verify, (token,), verified)
                    &&& admission == admission_of(header, verified)
                },
    {
        let token = match header {
            Some(h) => bearer_token(h),
            None => None,
        };
        match token {
            None => Admission::Refused(Unauthorized::MissingToken),
            Some(token) => {
                let verified = verify(token);
                assert(call_ensures(*verify, (token,), verified));
                match verified {
                    Some(claims) => Admission::Authenticated(claims),
                    None => Admission::Refused(Unauthorized::InvalidToken),
                }
            },
        }
    }
}

impl ReadAuthMiddleware {
    /// Decides on a read request. While `require_auth` is off every request
    /// is let through as it is and `verify` is not called; while it is on,
    /// the decision is that of `AuthMiddleware`.
    pub fn authenticate<V>(&self, require_auth: bool, header: Option<&str>, verify: &V) -> (admission:
        Admission) where V: Fn(&str) -> Option<Claims>
        requires
            forall|token: &str| call_requires(*verify, (token,)),
        ensures
            !require_auth ==> admission == Admission::Anonymous,
            require_auth && !has_bearer(header) ==> admission == Admission::Refused(
                Unauthorized::MissingToken,
            ),
            require_auth && has_bearer(header) ==> exists|token: &str, verified: Option<Claims>|
                {
                    &&& Some(token@) == bearer_of(header.unwrap()@)
                    &&& #[trigger] call_ensures(*verify, (token,), verified)
                    &&& admission == admission_of(header, verified)
                },
    {
        if !require_auth {
            Admission::Anonymous
        } else {
            (AuthMiddleware {  }).authenticate(header, verify)
        }
    }
}

impl AuthUser {
    /// The authenticated user of a request, from the claims attached to it.
    pub fn from_request(attached: Option<&Claims>) -> (user: Result<AuthUser, Unauthorized>)
        ensures
            match attached {
                Some(claims) => user matches Ok(u) && u.0 == *claims,
                None => user matches Err(e) && e == Unauthorized::NotAuthenticated,
            },
    {
        match attached {
            Some(claims) => Ok(AuthUser(claims.clone())),
            None => Err(Unauthorized::NotAuthenticated),
        }
    }
}

} // verus!
