//! The key-rotation protocol of a JWKS-backed validator.
//!
//! A validation first looks the token's key up in the cached key set. When
//! the key is missing it asks for exactly one refresh of the set and looks
//! the key up once more; a key that is still missing ends the validation.
//! The caller performs each action (lookup, refresh, signature check) and
//! reports what came of it as the next event.

use vstd::prelude::*;
use crate::claims::{normalizes, opt_list_view, OAuthClaims, RawClaims};
use crate::error::AuthError;
use crate::jwt::{fault_of_kind, header_key_id, kind_fault, selects_key, JwtErrorKind, TokenFault};
use crate::oauth::opt_view;

verus! {

/// Where a validation stands.
#[derive(Clone, Copy, Debug, PartialEq, Eq, Structural)]
pub enum Phase {
    /// The key is to be looked up in the cached key set.
    CachedKeys,
    /// A refresh of the key set is under way.
    Refreshing,
    /// The key is to be looked up in the refreshed key set.
    RefreshedKeys,
    /// The token is being checked with the key that was found.
    Checking,
    /// The validation has ended.
    Done,
}

/// How a refresh of the key set ended.
#[derive(Clone, Copy, Debug, PartialEq, Eq, Structural)]
pub enum RefreshOutcome {
    /// The fetched set replaced the cached one.
    Replaced,
    /// The key set could not be fetched; the cached set stays.
    FetchFailed,
    /// The fetched document is not a key set; the cached set stays.
    ParseFailed,
}

/// What the caller reports.
#[derive(Debug)]
pub enum Event {
    /// The key lookup ended (`Ok` when the key was found).
    Looked(Result<(), AuthError>),
    /// The refresh ended.
    Refreshed(RefreshOutcome),
    /// The check of signature and claims with the key ended.
    Checked(Result<RawClaims, JwtErrorKind>),
}

/// What the caller is to do next.
#[derive(Debug)]
pub enum Action {
    /// Look the token's key up in the current key set.
    LookUpKey,
    /// Fetch the key set and replace the cached one.
    Refresh,
    /// Check signature and claims with the key that was found.
    CheckToken,
    /// The token is valid and carries these claims.
    Accept(RawClaims),
    /// The token is rejected.
    Reject(AuthError),
}

/// The error for a failed token check.
pub open spec fn fault_error(f: TokenFault) -> AuthError {
    match f {
        TokenFault::Signature => AuthError::SignatureInvalid,
        TokenFault::Claims => AuthError::ClaimsInvalid,
        TokenFault::Malformed => AuthError::MalformedCredential,
    }
}

/// Whether `phase` awaits `event`.
pub open spec fn awaits(phase: Phase, event: Event) -> bool {
    match event {
        Event::Looked(_) => phase == Phase::CachedKeys || phase == Phase::RefreshedKeys,
        Event::Refreshed(_) => phase == Phase::Refreshing,
        Event::Checked(_) => phase == Phase::Checking,
    }
}

/// The next phase and action after `event` in `phase`.
pub open spec fn transition(phase: Phase, event: Event) -> (Phase, Action) {
    match event {
        Event::Looked(Ok(())) => (Phase::Checking, Action::CheckToken),
        Event::Looked(Err(AuthError::KeyNotFound(k))) => if phase == Phase::CachedKeys {
            (Phase::Refreshing, Action::Refresh)
        } else {
            (Phase::Done, Action::Reject(AuthError::KeyNotFound(k)))
        },
        Event::Looked(Err(e)) => (Phase::Done, Action::Reject(e)),
        Event::Refreshed(RefreshOutcome::Replaced) => (Phase::RefreshedKeys, Action::LookUpKey),
        Event::Refreshed(RefreshOutcome::FetchFailed) => (
            Phase::Done,
            Action::Reject(AuthError::JwksFetchFailed),
        ),
        Event::Refreshed(RefreshOutcome::ParseFailed) => (
            Phase::Done,
            Action::Reject(AuthError::JwksParseFailed),
        ),
        Event::Checked(Ok(raw)) => (Phase::Done, Action::Accept(raw)),
        Event::Checked(Err(k)) => (Phase::Done, Action::Reject(fault_error(kind_fault(k)))),
    }
}

/// The phase a validation starts in; its first action is [`Action::LookUpKey`].
pub fn start() -> (r: Phase)
    ensures
        r == Phase::CachedKeys,
{
    Phase::CachedKeys
}

/// Whether `phase` awaits `event`.
pub fn accepts(phase: Phase, event: &Event) -> (r: bool)
    ensures
        r == awaits(phase, *event),
{
    match event {
        Event::Looked(_) => phase == Phase::CachedKeys || phase == Phase::RefreshedKeys,
        Event::Refreshed(_) => phase == Phase::Refreshing,
        Event::Checked(_) => phase == Phase::Checking,
    }
}

/// Advances a validation by one event.
pub fn step(phase: Phase, event: Event) -> (r: (Phase, Action))
    requires
        awaits(phase, event),
    ensures
        r == transition(phase, event),
{
    match event {
        Event::Looked(Ok(())) => (Phase::Checking, Action::CheckToken),
        Event::Looked(Err(AuthError::KeyNotFound(k))) => if phase == Phase::CachedKeys {
            (Phase::Refreshing, Action::Refresh)
        } else {
            (Phase::Done, Action::Reject(AuthError::KeyNotFound(k)))
        },
        Event::Looked(Err(e)) => (Phase::Done, Action::Reject(e)),
        Event::Refreshed(RefreshOutcome::Replaced) => (Phase::RefreshedKeys, Action::LookUpKey),
        Event::Refreshed(RefreshOutcome::FetchFailed) => (
            Phase::Done,
            Action::Reject(AuthError::JwksFetchFailed),
        ),
        Event::Refreshed(RefreshOutcome::ParseFailed) => (
            Phase::Done,
            Action::Reject(AuthError::JwksParseFailed),
        ),
        Event::Checked(Ok(raw)) => (Phase::Done, Action::Accept(raw)),
        Event::Checked(Err(k)) => (Phase::Done, Action::Reject(
            match fault_of_kind(&k) {
                TokenFault::Signature => AuthError::SignatureInvalid,
                TokenFault::Claims => AuthError::ClaimsInvalid,
                TokenFault::Malformed => AuthError::MalformedCredential,
            },
        )),
    }
}

/// The actions of a validation that starts in `phase` and receives
/// `events`; it stops at the first event that its phase does not await.
pub open spec fn run(phase: Phase, events: Seq<Event>) -> Seq<Action>
    decreases events.len(),
{
    if events.len() == 0 || !awaits(phase, events[0]) {
        Seq::empty()
    } else {
        let (next, action) = transition(phase, events[0]);
        seq![action] + run(next, events.drop_first())
    }
}

/// How many refreshes `actions` ask for.
pub open spec fn refreshes(actions: Seq<Action>) -> nat
    decreases actions.len(),
{
    if actions.len() == 0 {
        0
    } else {
        (if actions[0] is Refresh { 1nat } else { 0nat }) + refreshes(actions.drop_first())
    }
}

proof fn lemma_no_refresh_after_cached(phase: Phase, events: Seq<Event>)
    requires
        phase != Phase::CachedKeys,
    ensures
        refreshes(run(phase, events)) == 0,
    decreases events.len(),
{
    if events.len() > 0 && awaits(phase, events[0]) {
        let (next, action) = transition(phase, events[0]);
        lemma_no_refresh_after_cached(next, events.drop_first());
        assert(run(phase, events).drop_first() =~= run(next, events.drop_first()));
    }
}

/// A validation asks for at most one refresh of the key set, whatever
/// happens.
pub proof fn lemma_at_most_one_refresh(events: Seq<Event>)
    ensures
        refreshes(run(Phase::CachedKeys, events)) <= 1,
{
    if events.len() > 0 && awaits(Phase::CachedKeys, events[0]) {
        let (next, action) = transition(Phase::CachedKeys, events[0]);
        assert(next != Phase::CachedKeys);
        lemma_no_refresh_after_cached(next, events.drop_first());
        assert(run(Phase::CachedKeys, events).drop_first() =~= run(next, events.drop_first()));
    }
}

/// A token whose key is missing from the cache gets exactly one refresh;
/// after it, the validation accepts when the refreshed set holds the key and
/// the token checks out, and rejects with `KeyNotFound` when the key is
/// still missing.
pub proof fn lemma_refresh_on_missing_key(
    token: Seq<char>,
    cached: Seq<Option<Seq<char>>>,
    refreshed: Seq<Option<Seq<char>>>,
    first: Result<(), AuthError>,
    second: Result<(), AuthError>,
    raw: RawClaims,
)
    requires
        header_key_id(token) matches Some(Some(k)) && !cached.contains(Some(k)),
        selects_key(token, cached, first),
        selects_key(token, refreshed, second),
    ensures
        transition(Phase::CachedKeys, Event::Looked(first)) == (Phase::Refreshing, Action::Refresh),
        second is Ok <==> refreshed.contains(header_key_id(token).unwrap()),
        second is Ok ==> run(
            Phase::CachedKeys,
            seq![
                Event::Looked(first),
                Event::Refreshed(RefreshOutcome::Replaced),
                Event::Looked(second),
                Event::Checked(Ok(raw)),
            ],
        ) == seq![Action::Refresh, Action::LookUpKey, Action::CheckToken, Action::Accept(raw)],
        second is Err ==> (second matches Err(AuthError::KeyNotFound(_))),
        second is Err ==> run(
            Phase::CachedKeys,
            seq![
                Event::Looked(first),
                Event::Refreshed(RefreshOutcome::Replaced),
                Event::Looked(second),
            ],
        ) == seq![Action::Refresh, Action::LookUpKey, Action::Reject(second->Err_0)],
{
    let l1 = Event::Looked(first);
    let r = Event::Refreshed(RefreshOutcome::Replaced);
    let l2 = Event::Looked(second);
    let c = Event::Checked(Ok(raw));
    if second is Ok {
        lemma_run_one(Phase::Checking, c);
        lemma_run_cons(Phase::RefreshedKeys, l2, seq![c]);
        assert(seq![l2, c] =~= seq![l2] + seq![c]);
        lemma_run_cons(Phase::Refreshing, r, seq![l2, c]);
        assert(seq![r, l2, c] =~= seq![r] + seq![l2, c]);
        lemma_run_cons(Phase::CachedKeys, l1, seq![r, l2, c]);
        assert(seq![l1, r, l2, c] =~= seq![l1] + seq![r, l2, c]);
        assert(run(Phase::CachedKeys, seq![l1, r, l2, c]) =~= seq![
            Action::Refresh,
            Action::LookUpKey,
            Action::CheckToken,
            Action::Accept(raw),
        ]);
    } else {
        lemma_run_one(Phase::RefreshedKeys, l2);
        lemma_run_cons(Phase::Refreshing, r, seq![l2]);
        assert(seq![r, l2] =~= seq![r] + seq![l2]);
        lemma_run_cons(Phase::CachedKeys, l1, seq![r, l2]);
        assert(seq![l1, r, l2] =~= seq![l1] + seq![r, l2]);
        assert(run(Phase::CachedKeys, seq![l1, r, l2]) =~= seq![
            Action::Refresh,
            Action::LookUpKey,
            Action::Reject(second->Err_0),
        ]);
    }
}

proof fn lemma_run_one(phase: Phase, e: Event)
    requires
        awaits(phase, e),
        transition(phase, e).0 == Phase::Done,
    ensures
        run(phase, seq![e]) == seq![transition(phase, e).1],
{
    assert(seq![e].drop_first() =~= Seq::<Event>::empty());
    assert(run(Phase::Done, Seq::<Event>::empty()) =~= Seq::<Action>::empty());
    assert(run(phase, seq![e]) =~= seq![transition(phase, e).1]);
}

proof fn lemma_run_cons(phase: Phase, e: Event, rest: Seq<Event>)
    requires
        awaits(phase, e),
    ensures
        run(phase, seq![e] + rest) == seq![transition(phase, e).1] + run(transition(phase, e).0, rest),
{
    assert((seq![e] + rest).drop_first() =~= rest);
    assert((seq![e] + rest)[0] == e);
}

/// A token whose key is in the cache is checked at once, with no refresh,
/// and accepted with the claims that the check yields; the same token
/// against the same cache goes the same way each time, and its claims
/// normalize to the same values.
pub proof fn lemma_cached_key_validation(
    token: Seq<char>,
    cached: Seq<Option<Seq<char>>>,
    lookup: Result<(), AuthError>,
    raw: RawClaims,
    c1: OAuthClaims,
    c2: OAuthClaims,
)
    requires
        header_key_id(token) matches Some(Some(k)) && cached.contains(Some(k)),
        selects_key(token, cached, lookup),
        normalizes(raw, c1),
        normalizes(raw, c2),
    ensures
        lookup is Ok,
        run(Phase::CachedKeys, seq![Event::Looked(lookup), Event::Checked(Ok(raw))])
            == seq![Action::CheckToken, Action::Accept(raw)],
        refreshes(run(Phase::CachedKeys, seq![Event::Looked(lookup), Event::Checked(Ok(raw))]))
            == 0,
        c1.sub@ == c2.sub@,
        opt_view(c1.iss) == opt_view(c2.iss),
        opt_list_view(c1.aud) == opt_list_view(c2.aud),
        c1.scope.deep_view() == c2.scope.deep_view(),
        c1.exp == c2.exp,
{
    let l = Event::Looked(lookup);
    let c = Event::Checked(Ok(raw));
    lemma_run_one(Phase::Checking, c);
    lemma_run_cons(Phase::CachedKeys, l, seq![c]);
    assert(seq![l, c] =~= seq![l] + seq![c]);
    let a = run(Phase::CachedKeys, seq![l, c]);
    assert(a =~= seq![Action::CheckToken, Action::Accept(raw)]);
    assert(a.drop_first().drop_first() =~= Seq::<Action>::empty());
    assert(refreshes(a.drop_first().drop_first()) == 0);
    assert(refreshes(a.drop_first()) == 0);
}

/// A token that fails its check is rejected with the error for that kind
/// of failure: a bad signature with `SignatureInvalid`; an expired token,
/// or one whose audience or issuer the policy refuses, with `ClaimsInvalid`.
pub proof fn lemma_check_failure_rejected(kind: JwtErrorKind)
    ensures
        transition(Phase::Checking, Event::Checked(Err(kind))) == (
            Phase::Done,
            Action::Reject(fault_error(kind_fault(kind))),
        ),
        kind == JwtErrorKind::InvalidSignature ==> transition(
            Phase::Checking,
            Event::Checked(Err(kind)),
        ).1 == Action::Reject(AuthError::SignatureInvalid),
        kind == JwtErrorKind::ExpiredSignature || kind == JwtErrorKind::InvalidAudience || kind
            == JwtErrorKind::InvalidIssuer ==> transition(
            Phase::Checking,
            Event::Checked(Err(kind)),
        ).1 == Action::Reject(AuthError::ClaimsInvalid),
{
}

} // verus!
