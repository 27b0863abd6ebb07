use launcher_core::credential::{MemoryStore, StoreError};
use launcher_core::pkce::{verify_pkce_pair, PkcePair};
use launcher_core::profile::{PlayerProfile, ProfileError};
use launcher_core::redirect::{parse_request_line, RedirectError, RedirectParams};
use launcher_core::sign_in::{
    SignInAction, SignInError, SignInEvent, SignInFlow, SignInPhase, AUTH_ENDPOINT,
};

fn flow_with_state(state: &str) -> SignInFlow {
    SignInFlow::new(
        "v".repeat(43),
        "challenge".to_string(),
        state.to_string(),
        "https://provider/authorize?state=s1".to_string(),
    )
}

fn redirect(code: &str, state: &str) -> SignInEvent {
    SignInEvent::Redirect(Ok(RedirectParams { code: code.to_string(), state: state.to_string() }))
}

fn steve() -> PlayerProfile {
    PlayerProfile { id: "u1".to_string(), name: "Steve".to_string(), skins: vec![], capes: vec![] }
}

fn to_awaiting_redirect(flow: &mut SignInFlow) {
    assert!(matches!(flow.step(SignInEvent::Start), SignInAction::OpenBrowser(_)));
    assert!(matches!(flow.step(SignInEvent::BrowserOpened(true)), SignInAction::AwaitRedirect));
}

#[test]
fn end_to_end_with_stub_collaborators() {
    let mut store = MemoryStore::new();
    let mut flow = flow_with_state("s1");
    let mut token_endpoint_calls = 0;

    match flow.step(SignInEvent::Start) {
        SignInAction::OpenBrowser(url) => assert_eq!(url, "https://provider/authorize?state=s1"),
        other => panic!("unexpected {:?}", other),
    }
    assert!(matches!(flow.step(SignInEvent::BrowserOpened(true)), SignInAction::AwaitRedirect));

    let received = parse_request_line("GET /redirect?code=c1&state=s1 HTTP/1.1").unwrap();
    let provider_token = match flow.step(SignInEvent::Redirect(Ok(received))) {
        SignInAction::ExchangeCode { code, verifier } => {
            token_endpoint_calls += 1;
            assert_eq!(code, "c1");
            assert_eq!(verifier, "v".repeat(43));
            "p1".to_string()
        }
        other => panic!("unexpected {:?}", other),
    };
    let game_token = match flow.step(SignInEvent::CodeExchanged(Some(provider_token))) {
        SignInAction::ExchangeFederated(p) => {
            assert_eq!(p, "p1");
            "g1".to_string()
        }
        other => panic!("unexpected {:?}", other),
    };
    let stored = match flow.step(SignInEvent::Federated(Some(game_token))) {
        SignInAction::StoreCredential(g) => store.put(&g),
        other => panic!("unexpected {:?}", other),
    };
    assert_eq!(flow.phase, SignInPhase::Persisting);
    assert_eq!(store.get(), Ok("g1".to_string()));
    let bearer = match flow.step(SignInEvent::Stored(stored)) {
        SignInAction::FetchProfile(t) => t,
        other => panic!("unexpected {:?}", other),
    };
    assert_eq!(bearer, "g1");
    assert_eq!(flow.phase, SignInPhase::Persisted);
    let fetched = if bearer == "g1" { Ok(steve()) } else { Err(ProfileError::Unauthorized) };
    match flow.step(SignInEvent::ProfileFetched(fetched)) {
        SignInAction::Finish(p) => assert_eq!(p, steve()),
        other => panic!("unexpected {:?}", other),
    }
    assert_eq!(flow.phase, SignInPhase::Done);
    assert_eq!(token_endpoint_calls, 1);
}

#[test]
fn state_mismatch_aborts_before_token_exchange() {
    for received in ["s2", "", "S1", "s1 "] {
        let mut flow = flow_with_state("s1");
        to_awaiting_redirect(&mut flow);
        let a = flow.step(redirect("c1", received));
        assert!(matches!(a, SignInAction::Abort(SignInError::CsrfMismatch)));
        assert_eq!(flow.phase, SignInPhase::Failed(SignInError::CsrfMismatch));
        // a failed flow never reaches the token endpoint afterwards
        assert!(matches!(flow.step(redirect("c1", "s1")), SignInAction::Ignore));
        assert!(matches!(flow.step(SignInEvent::CodeExchanged(Some("p".to_string()))), SignInAction::Ignore));
    }
}

#[test]
fn listener_errors_abort() {
    let mut flow = flow_with_state("s1");
    to_awaiting_redirect(&mut flow);
    assert!(matches!(
        flow.step(SignInEvent::Redirect(Err(RedirectError::Malformed))),
        SignInAction::Abort(SignInError::MalformedRedirect)
    ));
    let mut flow = flow_with_state("s1");
    to_awaiting_redirect(&mut flow);
    assert!(matches!(
        flow.step(SignInEvent::Redirect(Err(RedirectError::Failure))),
        SignInAction::Abort(SignInError::RedirectFailure)
    ));
}

#[test]
fn browser_failure_still_waits_for_redirect() {
    let mut flow = flow_with_state("s1");
    flow.step(SignInEvent::Start);
    assert!(matches!(flow.step(SignInEvent::BrowserOpened(false)), SignInAction::AwaitRedirect));
    assert!(flow.browser_failed);
    assert_eq!(flow.phase, SignInPhase::AwaitingRedirect);
}

#[test]
fn exchange_failures_store_nothing() {
    let mut flow = flow_with_state("s1");
    to_awaiting_redirect(&mut flow);
    flow.step(redirect("c1", "s1"));
    assert!(matches!(
        flow.step(SignInEvent::CodeExchanged(None)),
        SignInAction::Abort(SignInError::TokenExchange)
    ));

    let mut flow = flow_with_state("s1");
    to_awaiting_redirect(&mut flow);
    flow.step(redirect("c1", "s1"));
    flow.step(SignInEvent::CodeExchanged(Some("provider-token".to_string())));
    assert!(matches!(
        flow.step(SignInEvent::Federated(None)),
        SignInAction::Abort(SignInError::FederationExchange)
    ));
    assert_eq!(flow.game_token, None);
}

#[test]
fn store_and_profile_failures_abort() {
    let mut flow = flow_with_state("s1");
    to_awaiting_redirect(&mut flow);
    flow.step(redirect("c1", "s1"));
    flow.step(SignInEvent::CodeExchanged(Some("provider-token".to_string())));
    flow.step(SignInEvent::Federated(Some("g1".to_string())));
    assert!(matches!(
        flow.step(SignInEvent::Stored(Err(StoreError::BackendUnavailable))),
        SignInAction::Abort(SignInError::Store(StoreError::BackendUnavailable))
    ));

    let mut flow = flow_with_state("s1");
    to_awaiting_redirect(&mut flow);
    flow.step(redirect("c1", "s1"));
    flow.step(SignInEvent::CodeExchanged(Some("provider-token".to_string())));
    flow.step(SignInEvent::Federated(Some("g1".to_string())));
    flow.step(SignInEvent::Stored(Ok(())));
    assert!(matches!(
        flow.step(SignInEvent::ProfileFetched(Err(ProfileError::Unauthorized))),
        SignInAction::Abort(SignInError::Unauthorized)
    ));
}

#[test]
fn out_of_order_event_is_ignored() {
    let mut flow = flow_with_state("s1");
    assert!(matches!(flow.step(redirect("c1", "s1")), SignInAction::Ignore));
    assert_eq!(flow.phase, SignInPhase::Idle);
}

#[test]
fn begin_builds_url_with_fresh_pkce_and_state() {
    let a = SignInFlow::begin("client-123").unwrap();
    let b = SignInFlow::begin("client-123").unwrap();
    assert_eq!(a.phase, SignInPhase::Idle);
    assert!(verify_pkce_pair(&a.verifier, &a.challenge));
    assert_ne!(a.state, b.state);
    assert_ne!(a.verifier, b.verifier);
    assert!(a.auth_url.starts_with(&format!("{}?", AUTH_ENDPOINT)));
    assert!(a.auth_url.contains("response_type=code"));
    assert!(a.auth_url.contains("client_id=client-123"));
    assert!(a.auth_url.contains(&format!("state={}", a.state)));
    assert!(a.auth_url.contains(&format!("code_challenge={}", a.challenge)));
    assert!(a.auth_url.contains("code_challenge_method=S256"));
    assert!(a.auth_url.contains("redirect_uri=http%3A%2F%2F127.0.0.1%3A8114%2Fredirect"));
    assert!(a.auth_url.contains("scope=XboxLive.signin+offline_access"));
}

#[test]
fn begin_with_keeps_the_given_session() {
    let pair = PkcePair::generate();
    let verifier = pair.verifier.clone();
    let challenge = pair.challenge.clone();
    let flow = SignInFlow::begin_with("client-9", pair, "fixed-state".to_string()).unwrap();
    assert_eq!(flow.phase, SignInPhase::Idle);
    assert_eq!(flow.verifier, verifier);
    assert_eq!(flow.challenge, challenge);
    assert_eq!(flow.state, "fixed-state");
    assert!(flow.auth_url.contains("state=fixed-state"));
    assert!(flow.auth_url.contains("client_id=client-9"));
    assert!(flow.auth_url.contains(&format!("code_challenge={}", challenge)));
}
