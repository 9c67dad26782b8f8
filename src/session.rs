use vstd::prelude::*;

verus! {

/// Path of the sign-in entry point that unauthenticated requests are sent to.
pub const LOGIN_PATH: &'static str = "/auth/login";

/// Path that a completed sign-in returns to when nothing else was requested.
pub const HOME_PATH: &'static str = "/";

/// Session key of the authenticated-identity marker (the signed-in email).
pub const IDENTITY_KEY: &'static str = "email";

/// Session key of the signed-in identity's role.
pub const ROLE_KEY: &'static str = "role";

/// Session key under which a denied path is kept for after sign-in.
pub const REDIRECT_AFTER_LOGIN_KEY: &'static str = "redirect_after_login";

/// Session key of the anti-forgery token issued with the pending sign-in.
pub const CSRF_STATE_KEY: &'static str = "oauth_state";

/// Session key of the replay-protection nonce issued with the pending sign-in.
pub const NONCE_KEY: &'static str = "oauth_nonce";

/// Role attribute of an identity.
#[derive(PartialEq, Eq, Structural, Clone, Copy, Debug)]
pub enum Role {
    /// What every identity gets on its first sign-in.
    User,
    /// May create, change and remove content.
    SuperAdmin,
}

/// The name under which a role is stored.
pub open spec fn role_name(role: Role) -> Seq<char> {
    match role {
        Role::User => "user"@,
        Role::SuperAdmin => "super_admin"@,
    }
}

impl Role {
    /// The name under which this role is stored.
    pub fn as_str(&self) -> (r: &'static str)
        ensures
            r@ == role_name(*self),
    {
        match self {
            Role::User => "user",
            Role::SuperAdmin => "super_admin",
        }
    }
}

/// The two single-use tokens issued when a sign-in starts.
pub struct PendingAuth {
    pub csrf_state: String,
    pub nonce: String,
}

/// What one browser session holds, one field per well-known key.
pub struct SessionData {
    /// The authenticated-identity marker: present once a sign-in completed.
    pub identity: Option<String>,
    /// Role attribute of the signed-in identity.
    pub role: Option<String>,
    /// Path to return to once a sign-in completes.
    pub redirect_after_login: Option<String>,
    /// Tokens of the sign-in that is under way, if any.
    pub pending: Option<PendingAuth>,
}

/// A request carries a verified identity when a session is attached and it
/// holds the identity marker.
pub open spec fn is_authenticated(session: Option<SessionData>) -> bool {
    session matches Some(s) && s.identity is Some
}

impl SessionData {
    /// A fresh session with no key set.
    pub fn new() -> (r: SessionData)
        ensures
            r.identity is None,
            r.role is None,
            r.redirect_after_login is None,
            r.pending is None,
    {
        SessionData { identity: None, role: None, redirect_after_login: None, pending: None }
    }

    /// Whether this session carries the authenticated-identity marker.
    pub fn is_signed_in(&self) -> (r: bool)
        ensures
            r == (self.identity is Some),
    {
        self.identity.is_some()
    }
}

} // verus!
