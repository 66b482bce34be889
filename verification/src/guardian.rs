//! Who may do what: the current user and the guards of protected routes.

use vstd::prelude::*;
use vstd::string::*;
use crate::auth::Claims;
use crate::moderation::{
    TRUST_LEVEL_BASIC,
    TRUST_LEVEL_LEADER,
    TRUST_LEVEL_MEMBER,
    TRUST_LEVEL_REGULAR,
};
use crate::text::strip_prefix;

verus! {

/// The user behind a request: the identity from the token and the rights
/// from the user table.
#[derive(Debug)]
pub struct CurrentUser {
    pub user_id: i32,
    pub username: String,
    pub trust_level: i32,
    pub admin: bool,
    pub moderator: bool,
}

impl Clone for CurrentUser {
    fn clone(&self) -> (copy: CurrentUser)
        ensures
            copy == *self,
    {
        CurrentUser {
            user_id: self.user_id,
            username: self.username.clone(),
            trust_level: self.trust_level,
            admin: self.admin,
            moderator: self.moderator,
        }
    }
}

impl CurrentUser {
    pub open spec fn spec_is_admin(&self) -> bool {
        self.admin
    }

    /// Moderators are those flagged as such, admins, and users of the
    /// highest trust level.
    pub open spec fn spec_is_moderator(&self) -> bool {
        self.moderator || self.admin || self.trust_level >= TRUST_LEVEL_LEADER
    }

    pub open spec fn spec_is_staff(&self) -> bool {
        self.spec_is_admin() || self.spec_is_moderator()
    }

    pub open spec fn spec_has_trust_level(&self, level: i32) -> bool {
        self.trust_level >= level
    }

    pub fn is_admin(&self) -> (allowed: bool)
        ensures
            allowed == self.spec_is_admin(),
    {
        self.admin
    }

    pub fn is_moderator(&self) -> (allowed: bool)
        ensures
            allowed == self.spec_is_moderator(),
    {
        self.moderator || self.admin || self.trust_level >= TRUST_LEVEL_LEADER
    }

    pub fn is_staff(&self) -> (allowed: bool)
        ensures
            allowed == self.spec_is_staff(),
    {
        self.is_admin() || self.is_moderator()
    }

    pub fn has_trust_level(&self, level: i32) -> (allowed: bool)
        ensures
            allowed == self.spec_has_trust_level(level),
    {
        self.trust_level >= level
    }
}

/// Why a request was not let through.
#[derive(Debug, Clone, Copy, PartialEq, Eq, Structural)]
pub enum Forbidden {
    DatabaseNotConfigured,
    MissingHeader,
    InvalidHeaderFormat,
    InvalidToken,
    DatabaseConnectionFailed,
    UserNotFound,
    ModeratorRequired,
    AdminRequired,
    StaffRequired,
    TrustLevel1Required,
    TrustLevel2Required,
    TrustLevel3Required,
}

impl Forbidden {
    /// The text sent with the refusal.
    pub open spec fn message_text(self) -> Seq<char> {
        match self {
            Forbidden::DatabaseNotConfigured => "Database not configured"@,
            Forbidden::MissingHeader => "Missing authorization header"@,
            Forbidden::InvalidHeaderFormat => "Invalid authorization header format"@,
            Forbidden::InvalidToken => "Invalid token"@,
            Forbidden::DatabaseConnectionFailed => "Database connection failed"@,
            Forbidden::UserNotFound => "User not found"@,
            Forbidden::ModeratorRequired => "Moderator access required"@,
            Forbidden::AdminRequired => "Admin access required"@,
            Forbidden::StaffRequired => "Staff access required"@,
            Forbidden::TrustLevel1Required => "Trust level 1 required"@,
            Forbidden::TrustLevel2Required => "Trust level 2 required"@,
            Forbidden::TrustLevel3Required => "Trust level 3 required"@,
        }
    }

    /// The text sent with the refusal.
    pub fn message(&self) -> (text: &'static str)
        ensures
            text@ == self.message_text(),
    {
        match self {
            Forbidden::DatabaseNotConfigured => "Database not configured",
            Forbidden::MissingHeader => "Missing authorization header",
            Forbidden::InvalidHeaderFormat => "Invalid authorization header format",
            Forbidden::InvalidToken => "Invalid token",
            Forbidden::DatabaseConnectionFailed => "Database connection failed",
            Forbidden::UserNotFound => "User not found",
            Forbidden::ModeratorRequired => "Moderator access required",
            Forbidden::AdminRequired => "Admin access required",
            Forbidden::StaffRequired => "Staff access required",
            Forbidden::TrustLevel1Required => "Trust level 1 required",
            Forbidden::TrustLevel2Required => "Trust level 2 required",
            Forbidden::TrustLevel3Required => "Trust level 3 required",
        }
    }
}

/// What the user table holds of a user's rights.
#[derive(Debug)]
pub struct UserRights {
    pub username: String,
    pub trust_level: i32,
    pub admin: bool,
    pub moderator: bool,
}

/// Why the rights of a user could not be read.
#[derive(Debug, Clone, Copy, PartialEq, Eq, Structural)]
pub enum LookupFailure {
    /// No connection to the database could be had.
    ConnectionFailed,
    /// The database holds no such user.
    NotFound,
}

/// The token of an `Authorization` header value: what follows "Bearer ".
pub open spec fn bearer_of(header: Seq<char>) -> Option<Seq<char>> {
    if "Bearer "@.is_prefix_of(header) {
        Some(header.skip("Bearer "@.len() as int))
    } else {
        None
    }
}

/// The token of an `Authorization` header value, if the value has the form
/// "Bearer " followed by the token.
pub fn bearer_token<'a>(header: &'a str) -> (token: Option<&'a str>)
    ensures
        match token {
            Some(t) => bearer_of(header@) == Some(t@),
            None => bearer_of(header@) is None,
        },
{
    strip_prefix(header, "Bearer ")
}

/// The result that `extract_user` owes for a request, given the results
/// `verified` and `looked_up` that checking the token and reading the user
/// returned, where they were asked.
pub open spec fn extraction(
    database_configured: bool,
    header: Option<&str>,
    verified: Option<Claims>,
    looked_up: Result<UserRights, LookupFailure>,
) -> Result<CurrentUser, Forbidden> {
    if !database_configured {
        Err(Forbidden::DatabaseNotConfigured)
    } else if header is None {
        Err(Forbidden::MissingHeader)
    } else if bearer_of(header.unwrap()@) is None {
        Err(Forbidden::InvalidHeaderFormat)
    } else if verified is None {
        Err(Forbidden::InvalidToken)
    } else {
        match looked_up {
            Err(LookupFailure::ConnectionFailed) => Err(Forbidden::DatabaseConnectionFailed),
            Err(LookupFailure::NotFound) => Err(Forbidden::UserNotFound),
            Ok(rights) => Ok(
                CurrentUser {
                    user_id: verified.unwrap().user_id,
                    username: rights.username,
                    trust_level: rights.trust_level,
                    admin: rights.admin,
                    moderator: rights.moderator,
                },
            ),
        }
    }
}

/// Finds the user behind a request.
///
/// `header` is the value of the `Authorization` header, if the request has
/// one that is text. `verify` checks a token and returns its claims;
/// `lookup` reads the rights of a user by identifier. The steps are taken in
/// this order and the first that fails decides the refusal: the database is
/// configured, the header is there, it has the bearer form, the token is
/// valid, the user can be read. `verify` is called only on the token of a
/// well-formed header, and `lookup` only with the user of a valid token.
pub fn extract_user<V, L>(
    database_configured: bool,
    header: Option<&str>,
    verify: &V,
    lookup: &L,
) -> (result: Result<CurrentUser, Forbidden>) where
    V: Fn(&str) -> Option<Claims>,
    L: Fn(i32) -> Result<UserRights, LookupFailure>,

    requires
        forall|token: &str| call_requires(*verify, (token,)),
        forall|user_id: i32| call_requires(*lookup, (user_id,)),
    ensures
        !database_configured ==> result == Err::<CurrentUser, _>(Forbidden::DatabaseNotConfigured),
        database_configured && header is None ==> result == Err::<CurrentUser, _>(
            Forbidden::MissingHeader,
        ),
        database_configured && header is Some && bearer_of(header.unwrap()@) is None ==> result
            == Err::<CurrentUser, _>(Forbidden::InvalidHeaderFormat),
        database_configured && header is Some && bearer_of(header.unwrap()@) is Some ==> exists|
            token: &str,
            verified: Option<Claims>,
        |
            {
                &&& Some(token@) == bearer_of(header.unwrap()@)
                &&& #[trigger] call_ensures(*verify, (token,), verified)
                &&& match verified {
                    None => result == Err::<CurrentUser, _>(Forbidden::InvalidToken),
                    Some(claims) => exists|looked_up: Result<UserRights, LookupFailure>|
                        {
                            &&& #[trigger] call_ensures(*lookup, (claims.user_id,), looked_up)
                            &&& result == extraction(true, header, verified, looked_up)
                        },
                }
            },
{
    if !database_configured {
        return Err(Forbidden::DatabaseNotConfigured);
    }
    let header = match header {
        Some(h) => h,
        None => {
            return Err(Forbidden::MissingHeader);
        },
    };
    let token = match bearer_token(header) {
        Some(t) => t,
        None => {
            return Err(Forbidden::InvalidHeaderFormat);
        },
    };
    let verified = verify(token);
    let claims = match verified {
        Some(c) => c,
        None => {
            assert(call_ensures(*verify, (token,), verified));
            return Err(Forbidden::InvalidToken);
        },
    };
    let looked_up = lookup(claims.user_id);
    let ghost given = looked_up;
    let result = match looked_up {
        Err(LookupFailure::ConnectionFailed) => Err(Forbidden::DatabaseConnectionFailed),
        Err(LookupFailure::NotFound) => Err(Forbidden::UserNotFound),
        Ok(rights) => Ok(
            CurrentUser {
                user_id: claims.user_id,
                username: rights.username,
                trust_level: rights.trust_level,
                admin: rights.admin,
                moderator: rights.moderator,
            },
        ),
    };
    assert(call_ensures(*verify, (token,), verified));
    assert(call_ensures(*lookup, (claims.user_id,), given));
    assert(result == extraction(true, Some(header), verified, given));
    result
}

/// A user that is signed in, whatever the trust level.
#[derive(Debug)]
pub struct AuthenticatedUser(pub CurrentUser);

/// A user that passed the moderator check.
#[derive(Debug)]
pub struct ModeratorGuard(pub CurrentUser);

/// A user that passed the admin check.
#[derive(Debug)]
pub struct AdminGuard(pub CurrentUser);

/// A user that passed the staff check.
#[derive(Debug)]
pub struct StaffGuard(pub CurrentUser);

/// A user of trust level 1 or higher.
#[derive(Debug)]
pub struct TrustLevel1Guard(pub CurrentUser);

/// A user of trust level 2 or higher.
#[derive(Debug)]
pub struct TrustLevel2Guard(pub CurrentUser);

/// A user of trust level 3 or higher.
#[derive(Debug)]
pub struct TrustLevel3Guard(pub CurrentUser);

impl AuthenticatedUser {
    /// Lets every extracted user through and hands a refusal on.
    pub fn check(extracted: Result<CurrentUser, Forbidden>) -> (guard: Result<
        AuthenticatedUser,
        Forbidden,
    >)
        ensures
            match extracted {
                Ok(user) => guard matches Ok(g) && g.0 == user,
                Err(refusal) => guard matches Err(e) && e == refusal,
            },
    {
        match extracted {
            Ok(user) => Ok(AuthenticatedUser(user)),
            Err(refusal) => Err(refusal),
        }
    }
}

impl ModeratorGuard {
    /// Lets moderators through; hands a refusal of the extraction on.
    pub fn check(extracted: Result<CurrentUser, Forbidden>) -> (guard: Result<
        ModeratorGuard,
        Forbidden,
    >)
        ensures
            match extracted {
                Ok(user) => if user.spec_is_moderator() {
                    guard matches Ok(g) && g.0 == user
                } else {
                    guard matches Err(e) && e == Forbidden::ModeratorRequired
                },
                Err(refusal) => guard matches Err(e) && e == refusal,
            },
    {
        match extracted {
            Ok(user) => if user.is_moderator() {
                Ok(ModeratorGuard(user))
            } else {
                Err(Forbidden::ModeratorRequired)
            },
            Err(refusal) => Err(refusal),
        }
    }
}

impl AdminGuard {
    /// Lets admins through; hands a refusal of the extraction on.
    pub fn check(extracted: Result<CurrentUser, Forbidden>) -> (guard: Result<AdminGuard, Forbidden>)
        ensures
            match extracted {
                Ok(user) => if user.spec_is_admin() {
                    guard matches Ok(g) && g.0 == user
                } else {
                    guard matches Err(e) && e == Forbidden::AdminRequired
                },
                Err(refusal) => guard matches Err(e) && e == refusal,
            },
    {
        match extracted {
            Ok(user) => if user.is_admin() {
                Ok(AdminGuard(user))
            } else {
                Err(Forbidden::AdminRequired)
            },
            Err(refusal) => Err(refusal),
        }
    }
}

impl StaffGuard {
    /// Lets admins and moderators through; hands a refusal of the extraction
    /// on.
    pub fn check(extracted: Result<CurrentUser, Forbidden>) -> (guard: Result<StaffGuard, Forbidden>)
        ensures
            match extracted {
                Ok(user) => if user.spec_is_staff() {
                    guard matches Ok(g) && g.0 == user
                } else {
                    guard matches Err(e) && e == Forbidden::StaffRequired
                },
                Err(refusal) => guard matches Err(e) && e == refusal,
            },
    {
        match extracted {
            Ok(user) => if user.is_staff() {
                Ok(StaffGuard(user))
            } else {
                Err(Forbidden::StaffRequired)
            },
            Err(refusal) => Err(refusal),
        }
    }
}

impl TrustLevel1Guard {
    /// Lets users of trust level 1 or higher through; hands a refusal of the
    /// extraction on.
    pub fn check(extracted: Result<CurrentUser, Forbidden>) -> (guard: Result<
        TrustLevel1Guard,
        Forbidden,
    >)
        ensures
            match extracted {
                Ok(user) => if user.spec_has_trust_level(TRUST_LEVEL_BASIC) {
                    guard matches Ok(g) && g.0 == user
                } else {
                    guard matches Err(e) && e == Forbidden::TrustLevel1Required
                },
                Err(refusal) => guard matches Err(e) && e == refusal,
            },
    {
        match extracted {
            Ok(user) => if user.has_trust_level(TRUST_LEVEL_BASIC) {
                Ok(TrustLevel1Guard(user))
            } else {
                Err(Forbidden::TrustLevel1Required)
            },
            Err(refusal) => Err(refusal),
        }
    }
}

impl TrustLevel2Guard {
    /// Lets users of trust level 2 or higher through; hands a refusal of the
    /// extraction on.
    pub fn check(extracted: Result<CurrentUser, Forbidden>) -> (guard: Result<
        TrustLevel2Guard,
        Forbidden,
    >)
        ensures
            match extracted {
                Ok(user) => if user.spec_has_trust_level(TRUST_LEVEL_MEMBER) {
                    guard matches Ok(g) && g.0 == user
                } else {
                    guard matches Err(e) && e == Forbidden::TrustLevel2Required
                },
                Err(refusal) => guard matches Err(e) && e == refusal,
            },
    {
        match extracted {
            Ok(user) => if user.has_trust_level(TRUST_LEVEL_MEMBER) {
                Ok(TrustLevel2Guard(user))
            } else {
                Err(Forbidden::TrustLevel2Required)
            },
            Err(refusal) => Err(refusal),
        }
    }
}

impl TrustLevel3Guard {
    /// Lets users of trust level 3 or higher through; hands a refusal of the
    /// extraction on.
    pub fn check(extracted: Result<CurrentUser, Forbidden>) -> (guard: Result<
        TrustLevel3Guard,
        Forbidden,
    >)
        ensures
            match extracted {
                Ok(user) => if user.spec_has_trust_level(TRUST_LEVEL_REGULAR) {
                    guard matches Ok(g) && g.0 == user
                } else {
                    guard matches Err(e) && e == Forbidden::TrustLevel3Required
                },
                Err(refusal) => guard matches Err(e) && e == refusal,
            },
    {
        match extracted {
            Ok(user) => if user.has_trust_level(TRUST_LEVEL_REGULAR) {
                Ok(TrustLevel3Guard(user))
            } else {
                Err(Forbidden::TrustLevel3Required)
            },
            Err(refusal) => Err(refusal),
        }
    }
}

} // verus!
