use podcast_admin::session::{SessionData, HOME_PATH};
use podcast_admin::signin::{
    begin_callback, begin_login, check_nonce, finish_login, query_param, CallbackError, CodeGrant,
    IdentityClaims, NonceError,
};

fn query(pairs: &[(&str, &str)]) -> Vec<(String, String)> {
    pairs.iter().map(|(k, v)| (k.to_string(), v.to_string())).collect()
}

fn grant(nonce: &str) -> CodeGrant {
    CodeGrant { code: "c0de".to_string(), nonce: nonce.to_string() }
}

fn claims(nonce: Option<&str>, email: Option<&str>) -> IdentityClaims {
    IdentityClaims { nonce: nonce.map(|n| n.to_string()), email: email.map(|e| e.to_string()) }
}

#[test]
fn login_issues_fresh_tokens_and_keeps_them() {
    let mut s = SessionData::new();
    s.redirect_after_login = Some("/members".to_string());
    let first = begin_login(&mut s);
    assert_eq!(first.csrf_state.len(), 22);
    assert_eq!(first.nonce.len(), 22);
    assert_ne!(first.csrf_state, first.nonce);
    let kept = s.pending.as_ref().unwrap();
    assert_eq!(kept.csrf_state, first.csrf_state);
    assert_eq!(kept.nonce, first.nonce);
    assert_eq!(s.redirect_after_login.as_deref(), Some("/members"));
    let second = begin_login(&mut s);
    assert_ne!(first.csrf_state, second.csrf_state);
    assert_ne!(first.nonce, second.nonce);
}

#[test]
fn query_param_takes_first_match() {
    let q = query(&[("state", "s1"), ("code", "abc"), ("code", "def")]);
    assert_eq!(query_param(&q, "code").as_deref(), Some("abc"));
    assert_eq!(query_param(&q, "state").as_deref(), Some("s1"));
    assert_eq!(query_param(&q, "scope"), None);
    assert_eq!(query_param(&Vec::new(), "code"), None);
}

#[test]
fn callback_without_code_is_not_found() {
    let mut s = SessionData::new();
    let p = begin_login(&mut s);
    let q = query(&[("state", p.csrf_state.as_str())]);
    let r = begin_callback(&mut s, &q);
    assert!(matches!(r, Err(CallbackError::MissingCode)));
    assert_eq!(CallbackError::MissingCode.status(), 404);
    assert!(s.pending.is_some());
    assert!(s.identity.is_none());
}

#[test]
fn callback_without_pending_login_fails() {
    let mut s = SessionData::new();
    let r = begin_callback(&mut s, &query(&[("code", "abc"), ("state", "x")]));
    assert!(matches!(r, Err(CallbackError::NoPendingLogin)));
    assert_eq!(CallbackError::NoPendingLogin.status(), 401);
}

#[test]
fn callback_with_wrong_state_fails_and_discards_tokens() {
    let mut s = SessionData::new();
    begin_login(&mut s);
    let r = begin_callback(&mut s, &query(&[("code", "abc"), ("state", "forged")]));
    assert!(matches!(r, Err(CallbackError::StateMismatch)));
    assert!(s.pending.is_none());
    let mut s = SessionData::new();
    begin_login(&mut s);
    let r = begin_callback(&mut s, &query(&[("code", "abc")]));
    assert!(matches!(r, Err(CallbackError::StateMismatch)));
}

#[test]
fn callback_tokens_serve_once() {
    let mut s = SessionData::new();
    let p = begin_login(&mut s);
    let q = query(&[("code", "abc"), ("state", p.csrf_state.as_str())]);
    let g = begin_callback(&mut s, &q).ok().unwrap();
    assert_eq!(g.code, "abc");
    assert_eq!(g.nonce, p.nonce);
    assert!(s.pending.is_none());
    assert!(matches!(begin_callback(&mut s, &q), Err(CallbackError::NoPendingLogin)));
}

#[test]
fn nonce_check() {
    let expected = "n-1".to_string();
    assert_eq!(check_nonce(&expected, Some(&"n-1".to_string())), Ok(()));
    assert_eq!(check_nonce(&expected, Some(&"n-2".to_string())), Err(NonceError::Mismatch));
    assert_eq!(check_nonce(&expected, None), Err(NonceError::Missing));
}

#[test]
fn finish_with_wrong_nonce_fails_and_sets_no_identity() {
    let mut s = SessionData::new();
    let r = finish_login(&mut s, &grant("issued"), Ok(claims(Some("replayed"), Some("a@example.com"))));
    assert!(matches!(r, Err(CallbackError::NonceMismatch)));
    assert_eq!(CallbackError::NonceMismatch.status(), 401);
    assert!(s.identity.is_none());
    let r = finish_login(&mut s, &grant("issued"), Ok(claims(None, Some("a@example.com"))));
    assert!(matches!(r, Err(CallbackError::MissingNonce)));
    assert!(s.identity.is_none());
}

#[test]
fn finish_with_provider_failure_fails() {
    let mut s = SessionData::new();
    let r = finish_login(&mut s, &grant("issued"), Err("token endpoint unreachable".to_string()));
    assert!(matches!(r, Err(CallbackError::Provider)));
    assert_eq!(CallbackError::Provider.status(), 500);
    assert!(s.identity.is_none());
}

#[test]
fn finish_without_email_fails() {
    let mut s = SessionData::new();
    let r = finish_login(&mut s, &grant("issued"), Ok(claims(Some("issued"), None)));
    assert!(matches!(r, Err(CallbackError::MissingEmail)));
    assert!(s.identity.is_none());
}

#[test]
fn finish_signs_in_and_goes_home() {
    let mut s = SessionData::new();
    s.role = Some("super_admin".to_string());
    let r = finish_login(&mut s, &grant("issued"), Ok(claims(Some("issued"), Some("a@example.com"))));
    assert_eq!(r.ok().as_deref(), Some(HOME_PATH));
    assert_eq!(s.identity.as_deref(), Some("a@example.com"));
    assert_eq!(s.role, None);
}

#[test]
fn finish_returns_to_kept_destination() {
    let mut s = SessionData::new();
    s.redirect_after_login = Some("/episodes/7".to_string());
    let r = finish_login(&mut s, &grant("issued"), Ok(claims(Some("issued"), Some("a@example.com"))));
    assert_eq!(r.ok().as_deref(), Some("/episodes/7"));
    assert_eq!(s.redirect_after_login, None);
}

#[test]
fn full_sign_in_round_trip() {
    let mut s = SessionData::new();
    let p = begin_login(&mut s);
    let q = query(&[("code", "abc"), ("state", p.csrf_state.as_str())]);
    let g = begin_callback(&mut s, &q).ok().unwrap();
    let r = finish_login(&mut s, &g, Ok(claims(Some(p.nonce.as_str()), Some("a@example.com"))));
    assert_eq!(r.ok().as_deref(), Some("/"));
    assert!(s.is_signed_in());
}
