use vstd::prelude::*;

use crate::session::{is_authenticated, SessionData};

verus! {

/// The terminal response of a guard that stops a request.
#[derive(PartialEq, Eq, Structural, Clone, Copy, Debug)]
pub enum Denial {
    /// Send the browser to the sign-in entry point.
    LoginRedirect,
    /// Answer as if the route did not exist.
    NotFound,
}

impl Denial {
    /// HTTP status of the response.
    pub fn status(&self) -> (r: u16)
        ensures
            *self == Denial::LoginRedirect ==> r == 302,
            *self == Denial::NotFound ==> r == 404,
    {
        match self {
            Denial::LoginRedirect => 302,
            Denial::NotFound => 404,
        }
    }
}

/// What a guarded request came to: the downstream response as it was
/// returned, or the guard's own response.
pub enum Handled<R> {
    Forwarded(R),
    Denied(Denial),
}

/// Forwards to `next` when the request carries a verified identity, and
/// otherwise redirects to sign-in without calling `next`.
pub fn auth_middleware<R, F: FnOnce() -> R>(session: &Option<SessionData>, next: F) -> (r: Handled<R>)
    requires
        is_authenticated(*session) ==> call_requires(next, ()),
    ensures
        is_authenticated(*session) ==> (r matches Handled::Forwarded(v) && call_ensures(next, (), v)),
        !is_authenticated(*session) ==> r == Handled::<R>::Denied(Denial::LoginRedirect),
{
    let signed_in = match session {
        Some(s) => s.is_signed_in(),
        None => false,
    };
    if signed_in {
        Handled::Forwarded(next())
    } else {
        Handled::Denied(Denial::LoginRedirect)
    }
}

/// The three access states of a request in front of a role-gated route.
#[derive(PartialEq, Eq, Structural, Clone, Copy, Debug)]
pub enum Access {
    /// No session, or no identity marker in it.
    Anonymous,
    /// Signed in, but the role attribute is absent or differs.
    InsufficientRole,
    /// Signed in with the required role.
    Authorized,
}

/// Access state of a request whose session is `session`, for a route that
/// requires the role `required`.
pub open spec fn access_of(session: Option<SessionData>, required: Seq<char>) -> Access {
    if !is_authenticated(session) {
        Access::Anonymous
    } else if session.unwrap().role matches Some(r) && r@ == required {
        Access::Authorized
    } else {
        Access::InsufficientRole
    }
}

/// `after` is the session `before` once an anonymous request for `path` was
/// turned away: where a session is attached, `path` is kept in it for after
/// sign-in and nothing else changes.
pub open spec fn keeps_destination(before: Option<SessionData>, after: Option<SessionData>, path: Seq<char>) -> bool {
    match before {
        None => after is None,
        Some(b) => after matches Some(a) && {
            &&& a.redirect_after_login matches Some(p) && p@ == path
            &&& a.identity == b.identity
            &&& a.role == b.role
            &&& a.pending == b.pending
        },
    }
}

/// Computes the access state of a request for a route requiring `required`.
pub fn classify(session: &Option<SessionData>, required: &String) -> (r: Access)
    ensures
        r == access_of(*session, required@),
{
    match session {
        None => Access::Anonymous,
        Some(s) => {
            if s.identity.is_none() {
                Access::Anonymous
            } else {
                match &s.role {
                    Some(role) => {
                        if role.eq(required) {
                            Access::Authorized
                        } else {
                            Access::InsufficientRole
                        }
                    },
                    None => Access::InsufficientRole,
                }
            }
        },
    }
}

/// A guard, placed in front of routes, that admits only identities with one
/// role.
pub struct RequiredRoleMiddleware {
    role: String,
}

impl RequiredRoleMiddleware {
    /// The role that this guard requires.
    pub closed spec fn required_role(&self) -> Seq<char> {
        self.role@
    }

    pub fn new(role: &str) -> (r: RequiredRoleMiddleware)
        ensures
            r.required_role() == role@,
    {
        RequiredRoleMiddleware { role: role.to_string() }
    }

    /// Puts this guard in front of the endpoint `ep`.
    pub fn transform<E>(&self, ep: E) -> (r: RequiredRoleMiddlewareImpl<E>)
        ensures
            r.required_role() == self.required_role(),
            r.endpoint() == ep,
    {
        RequiredRoleMiddlewareImpl { role: self.role.clone(), ep }
    }
}

/// An endpoint behind a role guard.
pub struct RequiredRoleMiddlewareImpl<E> {
    role: String,
    ep: E,
}

impl<E> RequiredRoleMiddlewareImpl<E> {
    /// The role that the guard requires.
    pub closed spec fn required_role(&self) -> Seq<char> {
        self.role@
    }

    /// The guarded endpoint.
    pub closed spec fn endpoint(&self) -> E {
        self.ep
    }

    /// Handles one request for `path`: forwards it to the endpoint through
    /// `next` when the session holds the required role; answers 404 when it
    /// holds an identity without that role; otherwise keeps `path` in the
    /// session for after sign-in and redirects to sign-in. `next` is called
    /// in the first case only.
    pub fn call<'a, R, F: FnOnce(&'a E) -> R>(&'a self, session: &mut Option<SessionData>, path: &str, next: F) -> (r: Handled<R>)
        requires
            access_of(*old(session), self.required_role()) == Access::Authorized
                ==> call_requires(next, (&self.endpoint(),)),
        ensures
            access_of(*old(session), self.required_role()) == Access::Authorized ==> {
                &&& r matches Handled::Forwarded(v) && call_ensures(next, (&self.endpoint(),), v)
                &&& *final(session) == *old(session)
            },
            access_of(*old(session), self.required_role()) == Access::InsufficientRole ==> {
                &&& r == Handled::<R>::Denied(Denial::NotFound)
                &&& *final(session) == *old(session)
            },
            access_of(*old(session), self.required_role()) == Access::Anonymous ==> {
                &&& r == Handled::<R>::Denied(Denial::LoginRedirect)
                &&& keeps_destination(*old(session), *final(session), path@)
            },
    {
        match classify(session, &self.role) {
            Access::Authorized => Handled::Forwarded(next(&self.ep)),
            Access::InsufficientRole => Handled::Denied(Denial::NotFound),
            Access::Anonymous => {
                if let Some(s) = session {
                    s.redirect_after_login = Some(path.to_string());
                }
                Handled::Denied(Denial::LoginRedirect)
            },
        }
    }
}

} // verus!
