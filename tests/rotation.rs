use rmcp_axum::claims::RawClaims;
use rmcp_axum::error::AuthError;
use rmcp_axum::jwt::JwtErrorKind;
use rmcp_axum::rotation::{accepts, start, step, Action, Event, Phase, RefreshOutcome};

fn raw() -> RawClaims {
    RawClaims { sub: Some("u".to_string()), iss: None, aud: None, scope: Some("a b".to_string()), exp: None }
}

fn not_found() -> Event {
    Event::Looked(Err(AuthError::KeyNotFound("k".to_string())))
}

#[test]
fn cached_key_is_checked_without_refresh() {
    let (p, a) = step(start(), Event::Looked(Ok(())));
    assert_eq!(p, Phase::Checking);
    assert!(matches!(a, Action::CheckToken));
    let (p, a) = step(p, Event::Checked(Ok(raw())));
    assert_eq!(p, Phase::Done);
    match a {
        Action::Accept(c) => assert_eq!(c.sub.as_deref(), Some("u")),
        _ => panic!("expected acceptance"),
    }
}

#[test]
fn missing_key_refreshes_once_then_accepts() {
    let (p, a) = step(start(), not_found());
    assert_eq!(p, Phase::Refreshing);
    assert!(matches!(a, Action::Refresh));
    let (p, a) = step(p, Event::Refreshed(RefreshOutcome::Replaced));
    assert_eq!(p, Phase::RefreshedKeys);
    assert!(matches!(a, Action::LookUpKey));
    let (p, a) = step(p, Event::Looked(Ok(())));
    assert!(matches!(a, Action::CheckToken));
    let (_, a) = step(p, Event::Checked(Ok(raw())));
    assert!(matches!(a, Action::Accept(_)));
}

#[test]
fn key_still_missing_after_refresh() {
    let (p, _) = step(start(), not_found());
    let (p, _) = step(p, Event::Refreshed(RefreshOutcome::Replaced));
    let (p, a) = step(p, not_found());
    assert_eq!(p, Phase::Done);
    match a {
        Action::Reject(e) => assert_eq!(e, AuthError::KeyNotFound("k".to_string())),
        _ => panic!("expected KeyNotFound"),
    }
}

#[test]
fn failed_refresh_rejects() {
    let (p, _) = step(start(), not_found());
    let (_, a) = step(p, Event::Refreshed(RefreshOutcome::FetchFailed));
    assert!(matches!(a, Action::Reject(AuthError::JwksFetchFailed)));
    let (p, _) = step(start(), not_found());
    let (_, a) = step(p, Event::Refreshed(RefreshOutcome::ParseFailed));
    assert!(matches!(a, Action::Reject(AuthError::JwksParseFailed)));
}

#[test]
fn other_lookup_errors_reject_at_once() {
    let (p, a) = step(start(), Event::Looked(Err(AuthError::MissingKeyId)));
    assert_eq!(p, Phase::Done);
    assert!(matches!(a, Action::Reject(AuthError::MissingKeyId)));
}

#[test]
fn check_failures_map_to_errors() {
    let (_, a) = step(Phase::Checking, Event::Checked(Err(JwtErrorKind::InvalidSignature)));
    assert!(matches!(a, Action::Reject(AuthError::SignatureInvalid)));
    let (_, a) = step(Phase::Checking, Event::Checked(Err(JwtErrorKind::ExpiredSignature)));
    assert!(matches!(a, Action::Reject(AuthError::ClaimsInvalid)));
    let (_, a) = step(Phase::Checking, Event::Checked(Err(JwtErrorKind::InvalidToken)));
    assert!(matches!(a, Action::Reject(AuthError::MalformedCredential)));
}

#[test]
fn phases_accept_only_their_events() {
    assert!(accepts(Phase::CachedKeys, &Event::Looked(Ok(()))));
    assert!(!accepts(Phase::CachedKeys, &Event::Refreshed(RefreshOutcome::Replaced)));
    assert!(!accepts(Phase::Refreshing, &Event::Looked(Ok(()))));
    assert!(!accepts(Phase::Done, &Event::Checked(Ok(raw()))));
}

#[test]
fn repeated_validation_is_identical() {
    let run = || {
        let (p, a1) = step(start(), Event::Looked(Ok(())));
        let (_, a2) = step(p, Event::Checked(Ok(raw())));
        (a1, a2)
    };
    let (a1, a2) = run();
    let (b1, b2) = run();
    assert!(matches!(a1, Action::CheckToken) && matches!(b1, Action::CheckToken));
    match (a2, b2) {
        (Action::Accept(x), Action::Accept(y)) => {
            let cx = rmcp_axum::claims::normalize_claims(x);
            let cy = rmcp_axum::claims::normalize_claims(y);
            assert_eq!(cx.sub, cy.sub);
            assert_eq!(cx.scope, cy.scope);
        }
        _ => panic!("expected acceptance twice"),
    }
}
