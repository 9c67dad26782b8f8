use vstd::prelude::*;

use crate::session::{PendingAuth, SessionData, HOME_PATH};

verus! {

/// Relies on oauth2::CsrfToken::new_random: the URL-safe, unpadded base64
/// encoding of 16 fresh random bytes, which is 22 characters long.
#[verifier::external_body]
fn fresh_csrf_state() -> (r: String)
    ensures
        r@.len() == 22,
{
    oauth2::CsrfToken::new_random().into_secret()
}

/// Relies on openidconnect::Nonce::new_random: the URL-safe, unpadded base64
/// encoding of 16 fresh random bytes, which is 22 characters long.
#[verifier::external_body]
fn fresh_nonce() -> (r: String)
    ensures
        r@.len() == 22,
{
    openidconnect::Nonce::new_random().secret().clone()
}

/// Starts a sign-in: issues a fresh anti-forgery token and a fresh nonce,
/// keeps both in the session for the callback, and returns them for the
/// authorization URL. Nothing else in the session changes.
pub fn begin_login(session: &mut SessionData) -> (r: PendingAuth)
    ensures
        final(session).pending == Some(r),
        final(session).identity == old(session).identity,
        final(session).role == old(session).role,
        final(session).redirect_after_login == old(session).redirect_after_login,
        r.csrf_state@.len() == 22,
        r.nonce@.len() == 22,
{
    let csrf_state = fresh_csrf_state();
    let nonce = fresh_nonce();
    session.pending = Some(PendingAuth { csrf_state: csrf_state.clone(), nonce: nonce.clone() });
    PendingAuth { csrf_state, nonce }
}

/// Value of the first query parameter named `key`, if any.
pub open spec fn first_param(query: Seq<(String, String)>, key: Seq<char>) -> Option<String>
    decreases query.len(),
{
    if query.len() == 0 {
        None
    } else if query[0].0@ == key {
        Some(query[0].1)
    } else {
        first_param(query.drop_first(), key)
    }
}

/// Looks up the first query parameter named `key`.
pub fn query_param(query: &Vec<(String, String)>, key: &str) -> (r: Option<String>)
    ensures
        r == first_param(query@, key@),
{
    let wanted = key.to_string();
    let mut i: usize = 0;
    assert(query@.subrange(0, query@.len() as int) =~= query@);
    while i < query.len()
        invariant
            0 <= i <= query@.len(),
            wanted@ == key@,
            first_param(query@, key@) == first_param(query@.subrange(i as int, query@.len() as int), key@),
        decreases query@.len() - i,
    {
        assert(query@.subrange(i as int, query@.len() as int).drop_first()
            =~= query@.subrange(i + 1, query@.len() as int));
        assert(query@.subrange(i as int, query@.len() as int)[0] == query@[i as int]);
        if query[i].0.eq(&wanted) {
            return Some(query[i].1.clone());
        }
        i = i + 1;
    }
    None
}

/// Why a sign-in callback was refused.
#[derive(PartialEq, Eq, Structural, Clone, Copy, Debug)]
pub enum CallbackError {
    /// The callback carried no authorization code.
    MissingCode,
    /// The session holds no sign-in under way.
    NoPendingLogin,
    /// The echoed anti-forgery token is absent or differs from the one issued.
    StateMismatch,
    /// The identity token carries no nonce.
    MissingNonce,
    /// The identity token's nonce differs from the one issued.
    NonceMismatch,
    /// The identity token carries no email claim.
    MissingEmail,
    /// The identity provider could not be reached, or rejected the exchange.
    Provider,
}

impl CallbackError {
    /// HTTP status of the response: 404 for a missing code, 500 for a
    /// provider failure, 401 for every failed verification.
    pub fn status(&self) -> (r: u16)
        ensures
            *self == CallbackError::MissingCode ==> r == 404,
            *self == CallbackError::Provider ==> r == 500,
            *self != CallbackError::MissingCode && *self != CallbackError::Provider ==> r == 401,
    {
        match self {
            CallbackError::MissingCode => 404,
            CallbackError::Provider => 500,
            _ => 401,
        }
    }
}

/// What the callback hands on to the code exchange: the authorization code,
/// and the nonce that the identity token has to carry.
pub struct CodeGrant {
    pub code: String,
    pub nonce: String,
}

/// Checks the query of a sign-in callback against the sign-in under way.
/// Without a `code` parameter it fails with `MissingCode` and leaves the
/// session alone. Otherwise the pending tokens are taken out of the session,
/// so that they serve once, and the echoed `state` must equal the issued one.
pub fn begin_callback(session: &mut SessionData, query: &Vec<(String, String)>) -> (r: Result<CodeGrant, CallbackError>)
    ensures
        first_param(query@, "code"@) is None ==> {
            &&& r == Err::<CodeGrant, CallbackError>(CallbackError::MissingCode)
            &&& *final(session) == *old(session)
        },
        first_param(query@, "code"@) is Some && old(session).pending is None ==> {
            &&& r == Err::<CodeGrant, CallbackError>(CallbackError::NoPendingLogin)
            &&& *final(session) == *old(session)
        },
        first_param(query@, "code"@) is Some && old(session).pending is Some ==> {
            let code = first_param(query@, "code"@).unwrap();
            let p = old(session).pending.unwrap();
            &&& final(session).pending is None
            &&& final(session).identity == old(session).identity
            &&& final(session).role == old(session).role
            &&& final(session).redirect_after_login == old(session).redirect_after_login
            &&& (first_param(query@, "state"@) matches Some(st) && st@ == p.csrf_state@) ==> r == Ok::<CodeGrant, CallbackError>(CodeGrant { code, nonce: p.nonce })
            &&& !(first_param(query@, "state"@) matches Some(st) && st@ == p.csrf_state@) ==> r == Err::<CodeGrant, CallbackError>(CallbackError::StateMismatch)
        },
{
    let code = match query_param(query, "code") {
        Some(c) => c,
        None => return Err(CallbackError::MissingCode),
    };
    let pending = match session.pending.take() {
        Some(p) => p,
        None => return Err(CallbackError::NoPendingLogin),
    };
    match query_param(query, "state") {
        Some(st) => {
            if st.eq(&pending.csrf_state) {
                Ok(CodeGrant { code, nonce: pending.nonce })
            } else {
                Err(CallbackError::StateMismatch)
            }
        },
        None => Err(CallbackError::StateMismatch),
    }
}

/// Why an identity token's nonce was refused.
#[derive(PartialEq, Eq, Structural, Clone, Copy, Debug)]
pub enum NonceError {
    /// The token carries no nonce.
    Missing,
    /// The token's nonce differs from the one issued.
    Mismatch,
}

/// A token's nonce is accepted when it is present and equal to the issued one.
pub open spec fn nonce_accepted(expected: Seq<char>, received: Option<String>) -> bool {
    received matches Some(n) && n@ == expected
}

/// Checks the nonce `received` in an identity token against `expected`, the
/// one issued when the sign-in started.
pub fn check_nonce(expected: &String, received: Option<&String>) -> (r: Result<(), NonceError>)
    ensures
        received is None ==> r == Err::<(), NonceError>(NonceError::Missing),
        received matches Some(n) ==> (n@ == expected@ ==> r == Ok::<(), NonceError>(())),
        received matches Some(n) ==> (n@ != expected@ ==> r == Err::<(), NonceError>(NonceError::Mismatch)),
{
    match received {
        None => Err(NonceError::Missing),
        Some(n) => {
            if n.eq(expected) {
                Ok(())
            } else {
                Err(NonceError::Mismatch)
            }
        },
    }
}

/// The claims of an identity token whose signature the provider's keys
/// verified.
pub struct IdentityClaims {
    pub nonce: Option<String>,
    pub email: Option<String>,
}

/// Where a completed sign-in goes: the path kept for after sign-in, or home.
pub open spec fn destination(kept: Option<String>) -> Seq<char> {
    match kept {
        Some(p) => p@,
        None => HOME_PATH@,
    }
}

/// The sign-in of `outcome` is trusted: the provider answered, and the token
/// carries the nonce of `grant`.
pub open spec fn verified(grant: CodeGrant, outcome: Result<IdentityClaims, String>) -> bool {
    outcome matches Ok(c) && nonce_accepted(grant.nonce@, c.nonce)
}

/// Completes a sign-in from what the code exchange for `grant` produced.
/// The identity marker is written only when the provider answered and the
/// token carries the issued nonce and an email; every failure leaves the
/// session as it was. On success the kept destination is consumed and
/// returned, or the home path when none was kept.
pub fn finish_login(session: &mut SessionData, grant: &CodeGrant, outcome: Result<IdentityClaims, String>) -> (r: Result<String, CallbackError>)
    ensures
        outcome is Err ==> {
            &&& r == Err::<String, CallbackError>(CallbackError::Provider)
            &&& *final(session) == *old(session)
        },
        outcome matches Ok(c) ==> (c.nonce is None ==> {
            &&& r == Err::<String, CallbackError>(CallbackError::MissingNonce)
            &&& *final(session) == *old(session)
        }),
        outcome matches Ok(c) ==> (c.nonce is Some && !nonce_accepted(grant.nonce@, c.nonce) ==> {
            &&& r == Err::<String, CallbackError>(CallbackError::NonceMismatch)
            &&& *final(session) == *old(session)
        }),
        outcome matches Ok(c) ==> (nonce_accepted(grant.nonce@, c.nonce) && c.email is None ==> {
            &&& r == Err::<String, CallbackError>(CallbackError::MissingEmail)
            &&& *final(session) == *old(session)
        }),
        outcome matches Ok(c) ==> (nonce_accepted(grant.nonce@, c.nonce) && c.email is Some ==> {
            &&& r matches Ok(target) && target@ == destination(old(session).redirect_after_login)
            &&& final(session).identity == c.email
            &&& final(session).role is None
            &&& final(session).redirect_after_login is None
            &&& final(session).pending == old(session).pending
        }),
        !verified(*grant, outcome) ==> {
            &&& r is Err
            &&& final(session).identity == old(session).identity
        },
{
    let claims = match outcome {
        Ok(c) => c,
        Err(_) => return Err(CallbackError::Provider),
    };
    match check_nonce(&grant.nonce, claims.nonce.as_ref()) {
        Ok(()) => {},
        Err(NonceError::Missing) => return Err(CallbackError::MissingNonce),
        Err(NonceError::Mismatch) => return Err(CallbackError::NonceMismatch),
    }
    let email = match claims.email {
        Some(e) => e,
        None => return Err(CallbackError::MissingEmail),
    };
    let target = match session.redirect_after_login.take() {
        Some(p) => p,
        None => HOME_PATH.to_string(),
    };
    session.identity = Some(email);
    session.role = None;
    Ok(target)
}

} // verus!
