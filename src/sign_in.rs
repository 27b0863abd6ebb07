//! The interactive sign-in flow as a state machine. The caller performs each
//! action that `step` returns (open the browser, wait for the redirect, call
//! the token and federation endpoints, store the credential, fetch the
//! profile) and feeds the outcome back as the next event.
//!
//! `Idle → AwaitingBrowser → AwaitingRedirect → ExchangingCode →
//! ExchangingFederatedToken → Persisting → Persisted → Done`, where any
//! failure leads to `Failed`. A failed or finished flow ignores further
//! events; a retry starts a new flow with fresh PKCE and state values.

use vstd::prelude::*;

use oauth2::basic::BasicClient;
use oauth2::{AuthUrl, ClientId, CsrfToken, PkceCodeChallenge, PkceCodeVerifier, RedirectUrl, Scope};

use crate::credential::StoreError;
use crate::pkce::{is_valid_pkce_pair, verifier_length_ok, PkcePair};
use crate::profile::{PlayerProfile, ProfileError};
use crate::redirect::{RedirectError, RedirectParams};

verus! {

/// Authorization endpoint of the identity provider.
pub const AUTH_ENDPOINT: &'static str = "https://login.microsoftonline.com/consumers/oauth2/v2.0/authorize";

/// Token endpoint of the identity provider.
pub const TOKEN_ENDPOINT: &'static str = "https://login.microsoftonline.com/consumers/oauth2/v2.0/token";

/// The redirect URI registered with the provider.
pub const REDIRECT_URI: &'static str = "http://127.0.0.1:8114/redirect";

/// Address that the redirect listener binds.
pub const REDIRECT_BIND_ADDRESS: &'static str = "127.0.0.1:8114";

/// Scopes asked of the provider.
pub const SCOPE: &'static str = "XboxLive.signin offline_access";

/// Why a sign-in attempt ended without a profile.
#[derive(Debug, Clone, Copy, PartialEq, Eq, Structural)]
pub enum SignInError {
    /// The authorization URL could not be built from the endpoints.
    InvalidEndpoint,
    /// The redirect listener failed to accept or read the connection.
    RedirectFailure,
    /// The redirect's request line lacked a code or a state.
    MalformedRedirect,
    /// The redirect carried a state other than the one this session made.
    CsrfMismatch,
    /// The token endpoint refused the code, or could not be reached.
    TokenExchange,
    /// The federation endpoint refused the provider token.
    FederationExchange,
    /// The credential could not be stored.
    Store(StoreError),
    /// The profile endpoint rejected the new token.
    Unauthorized,
    /// The profile could not be fetched or read.
    ProfileFetch,
}

#[derive(Debug, Clone, Copy, PartialEq, Eq, Structural)]
pub enum SignInPhase {
    Idle,
    AwaitingBrowser,
    AwaitingRedirect,
    ExchangingCode,
    ExchangingFederatedToken,
    Persisting,
    Persisted,
    Done,
    Failed(SignInError),
}

/// The outcome of the last action, fed back to the flow.
#[derive(Debug)]
pub enum SignInEvent {
    /// The caller asks the flow to begin.
    Start,
    /// The browser collaborator was asked to open the authorization URL;
    /// `false` where it reported failure (the user may open it by hand).
    BrowserOpened(bool),
    /// What the redirect listener received.
    Redirect(Result<RedirectParams, RedirectError>),
    /// The provider access token, or `None` where the code exchange failed.
    CodeExchanged(Option<String>),
    /// The game-service token, or `None` where the federation hop failed.
    Federated(Option<String>),
    /// Outcome of storing the game-service token.
    Stored(Result<(), StoreError>),
    /// Outcome of the profile fetch.
    ProfileFetched(Result<PlayerProfile, ProfileError>),
}

/// What the caller does next.
#[derive(Debug)]
pub enum SignInAction {
    /// Open this authorization URL in the browser.
    OpenBrowser(String),
    /// Wait for the one redirect connection.
    AwaitRedirect,
    /// Exchange the code, with the PKCE verifier, at the token endpoint.
    ExchangeCode { code: String, verifier: String },
    /// Exchange the provider token at the federation endpoint.
    ExchangeFederated(String),
    /// Store the game-service token in the credential store.
    StoreCredential(String),
    /// Fetch the profile with this bearer token.
    FetchProfile(String),
    /// Signed in; here is the profile.
    Finish(PlayerProfile),
    /// The attempt failed.
    Abort(SignInError),
    /// The event does not belong to the current phase; nothing to do.
    Ignore,
}

/// One sign-in attempt.
pub struct SignInFlow {
    pub phase: SignInPhase,
    pub verifier: String,
    pub challenge: String,
    pub state: String,
    pub auth_url: String,
    /// The game-service token, once the federation hop gave it.
    pub game_token: Option<String>,
    /// The browser collaborator reported failure (recoverable).
    pub browser_failed: bool,
}

/// Whether an event answers the action of a phase.
pub open spec fn expects(phase: SignInPhase, event: SignInEvent) -> bool {
    match phase {
        SignInPhase::Idle => event is Start,
        SignInPhase::AwaitingBrowser => event is BrowserOpened,
        SignInPhase::AwaitingRedirect => event is Redirect,
        SignInPhase::ExchangingCode => event is CodeExchanged,
        SignInPhase::ExchangingFederatedToken => event is Federated,
        SignInPhase::Persisting => event is Stored,
        SignInPhase::Persisted => event is ProfileFetched,
        _ => false,
    }
}

pub open spec fn is_abort(a: SignInAction, e: SignInError) -> bool {
    a is Abort && a->Abort_0 == e
}

/// The error that a listener failure becomes.
pub open spec fn redirect_error(e: RedirectError) -> SignInError {
    match e {
        RedirectError::Failure => SignInError::RedirectFailure,
        RedirectError::Malformed => SignInError::MalformedRedirect,
    }
}

/// The error that a profile failure becomes.
pub open spec fn profile_error(e: ProfileError) -> SignInError {
    match e {
        ProfileError::Unauthorized => SignInError::Unauthorized,
        ProfileError::FetchFailed => SignInError::ProfileFetch,
    }
}

/// Generated authorization URL: provider endpoint, redirect URI, client id,
/// scope, the S256 challenge of the verifier, and the state.
pub uninterp spec fn authorize_url_of(
    endpoint: Seq<char>,
    redirect_uri: Seq<char>,
    client_id: Seq<char>,
    scope: Seq<char>,
    verifier: Seq<char>,
    state: Seq<char>,
) -> Option<Seq<char>>;

/// Relies on oauth2's `BasicClient::authorize_url(..).add_scope(..)
/// .set_pkce_challenge(..).url()`: the authorization URL with client id,
/// state, S256 challenge, redirect URI and scope in its query; `None` where
/// `AuthUrl::new` or `RedirectUrl::new` refuses an endpoint. The challenge
/// comes from `from_code_verifier_sha256`, which panics outside 43..=128 bytes.
#[verifier::external_body]
fn authorize_url(
    endpoint: &str,
    redirect_uri: &str,
    client_id: &str,
    scope: &str,
    verifier: &str,
    state: &str,
) -> (r: Option<String>)
    requires
        verifier_length_ok(verifier@),
    ensures
        match r {
            Some(u) => authorize_url_of(endpoint@, redirect_uri@, client_id@, scope@, verifier@, state@) == Some(u@),
            None => authorize_url_of(endpoint@, redirect_uri@, client_id@, scope@, verifier@, state@) is None,
        },
{
    let auth = AuthUrl::new(endpoint.to_string()).ok()?;
    let redirect = RedirectUrl::new(redirect_uri.to_string()).ok()?;
    let v = PkceCodeVerifier::new(verifier.to_string());
    let challenge = PkceCodeChallenge::from_code_verifier_sha256(&v);
    let client = BasicClient::new(ClientId::new(client_id.to_string()))
        .set_auth_uri(auth)
        .set_redirect_uri(redirect);
    let (url, _) = client
        .authorize_url(|| CsrfToken::new(state.to_string()))
        .add_scope(Scope::new(scope.to_string()))
        .set_pkce_challenge(challenge)
        .url();
    Some(url.to_string())
}

/// Relies on `oauth2::CsrfToken::new_random`: a fresh random state token.
#[verifier::external_body]
fn random_state_token() -> (r: String) {
    CsrfToken::new_random().secret().to_string()
}

impl SignInFlow {
    /// Values that stay fixed for the life of one attempt.
    pub open spec fn same_session(&self, other: &SignInFlow) -> bool {
        &&& self.verifier@ == other.verifier@
        &&& self.challenge@ == other.challenge@
        &&& self.state@ == other.state@
        &&& self.auth_url@ == other.auth_url@
    }

    /// A game-service token is known from the federation hop on.
    pub open spec fn wf(&self) -> bool {
        (self.phase is Persisting || self.phase is Persisted) ==> self.game_token is Some
    }

    /// A flow in `Idle` over the given session values.
    pub fn new(verifier: String, challenge: String, state: String, auth_url: String) -> (r: SignInFlow)
        ensures
            r.wf(),
            r.phase == SignInPhase::Idle,
            r.verifier@ == verifier@,
            r.challenge@ == challenge@,
            r.state@ == state@,
            r.auth_url@ == auth_url@,
            r.game_token is None,
            !r.browser_failed,
    {
        SignInFlow {
            phase: SignInPhase::Idle,
            verifier,
            challenge,
            state,
            auth_url,
            game_token: None,
            browser_failed: false,
        }
    }

    /// A flow over the given PKCE pair and state, with the authorization URL
    /// built for `client_id`; `InvalidEndpoint` exactly where that URL cannot
    /// be built.
    pub fn begin_with(client_id: &str, pair: PkcePair, state: String) -> (r: Result<SignInFlow, SignInError>)
        requires
            verifier_length_ok(pair.verifier@),
        ensures
            match authorize_url_of(AUTH_ENDPOINT@, REDIRECT_URI@, client_id@, SCOPE@, pair.verifier@, state@) {
                Some(u) => r is Ok && {
                    let f = r->Ok_0;
                    &&& f.wf()
                    &&& f.phase == SignInPhase::Idle
                    &&& f.verifier@ == pair.verifier@
                    &&& f.challenge@ == pair.challenge@
                    &&& f.state@ == state@
                    &&& f.auth_url@ == u
                    &&& f.game_token is None
                    &&& !f.browser_failed
                },
                None => r == Err::<SignInFlow, SignInError>(SignInError::InvalidEndpoint),
            },
    {
        match authorize_url(AUTH_ENDPOINT, REDIRECT_URI, client_id, SCOPE, pair.verifier.as_str(), state.as_str()) {
            Some(url) => Ok(SignInFlow::new(pair.verifier, pair.challenge, state, url)),
            None => Err(SignInError::InvalidEndpoint),
        }
    }

    /// Draws a fresh PKCE pair and state token, and builds the authorization
    /// URL for `client_id`. It fails only where no valid verifier and state
    /// give an authorization URL for these endpoints.
    pub fn begin(client_id: &str) -> (r: Result<SignInFlow, SignInError>)
        ensures
            match r {
                Ok(f) => {
                    &&& f.wf()
                    &&& f.phase == SignInPhase::Idle
                    &&& is_valid_pkce_pair(f.verifier@, f.challenge@)
                    &&& authorize_url_of(AUTH_ENDPOINT@, REDIRECT_URI@, client_id@, SCOPE@, f.verifier@, f.state@) == Some(f.auth_url@)
                    &&& f.game_token is None
                    &&& !f.browser_failed
                },
                Err(e) => {
                    &&& e == SignInError::InvalidEndpoint
                    &&& exists|v: Seq<char>, st: Seq<char>|
                        verifier_length_ok(v) && #[trigger] authorize_url_of(AUTH_ENDPOINT@, REDIRECT_URI@, client_id@, SCOPE@, v, st) is None
                },
            },
    {
        let pair = PkcePair::generate();
        let state = random_state_token();
        let ghost v = pair.verifier@;
        let ghost c = pair.challenge@;
        let ghost st = state@;
        let r = SignInFlow::begin_with(client_id, pair, state);
        proof {
            if r is Err {
                assert(verifier_length_ok(v) && authorize_url_of(AUTH_ENDPOINT@, REDIRECT_URI@, client_id@, SCOPE@, v, st) is None);
            }
        }
        r
    }

    fn fail(&mut self, e: SignInError) -> (a: SignInAction)
        ensures
            final(self).phase == SignInPhase::Failed(e),
            final(self).same_session(old(self)),
            final(self).game_token == old(self).game_token,
            final(self).browser_failed == old(self).browser_failed,
            is_abort(a, e),
    {
        self.phase = SignInPhase::Failed(e);
        SignInAction::Abort(e)
    }

    /// Takes the outcome of the last action and returns the next one.
    pub fn step(&mut self, event: SignInEvent) -> (a: SignInAction)
        requires
            old(self).wf(),
        ensures
            final(self).wf(),
            final(self).same_session(old(self)),
            // the browser flag changes only on the browser's answer
            !(old(self).phase == SignInPhase::AwaitingBrowser && event is BrowserOpened)
                ==> final(self).browser_failed == old(self).browser_failed,
            // the game token is set only when the federation hop gives one
            !(old(self).phase == SignInPhase::ExchangingFederatedToken && event is Federated
                && event->Federated_0 is Some) ==> final(self).game_token == old(self).game_token,
            // an event that does not answer the phase's action changes nothing
            !expects(old(self).phase, event) ==> final(self).phase == old(self).phase && a is Ignore,
            old(self).phase == SignInPhase::Idle && event is Start ==> {
                &&& final(self).phase == SignInPhase::AwaitingBrowser
                &&& a is OpenBrowser && a->OpenBrowser_0@ == old(self).auth_url@
            },
            // a browser failure is recorded and the flow waits for the redirect all the same
            old(self).phase == SignInPhase::AwaitingBrowser && event is BrowserOpened ==> {
                &&& final(self).phase == SignInPhase::AwaitingRedirect
                &&& final(self).browser_failed == !event->BrowserOpened_0
                &&& a is AwaitRedirect
            },
            old(self).phase == SignInPhase::AwaitingRedirect && event is Redirect ==> match event->Redirect_0 {
                Err(e) => final(self).phase == SignInPhase::Failed(redirect_error(e)) && is_abort(a, redirect_error(e)),
                Ok(p) => if p.state@ == old(self).state@ {
                    &&& final(self).phase == SignInPhase::ExchangingCode
                    &&& a is ExchangeCode
                    &&& a->code@ == p.code@
                    &&& a->verifier@ == old(self).verifier@
                } else {
                    final(self).phase == SignInPhase::Failed(SignInError::CsrfMismatch) && is_abort(a, SignInError::CsrfMismatch)
                },
            },
            old(self).phase == SignInPhase::ExchangingCode && event is CodeExchanged ==> match event->CodeExchanged_0 {
                Some(t) => final(self).phase == SignInPhase::ExchangingFederatedToken && a is ExchangeFederated && a->ExchangeFederated_0@ == t@,
                None => final(self).phase == SignInPhase::Failed(SignInError::TokenExchange) && is_abort(a, SignInError::TokenExchange),
            },
            old(self).phase == SignInPhase::ExchangingFederatedToken && event is Federated ==> match event->Federated_0 {
                Some(g) => {
                    &&& final(self).phase == SignInPhase::Persisting
                    &&& final(self).game_token is Some && final(self).game_token->Some_0@ == g@
                    &&& a is StoreCredential && a->StoreCredential_0@ == g@
                },
                None => final(self).phase == SignInPhase::Failed(SignInError::FederationExchange) && is_abort(a, SignInError::FederationExchange),
            },
            old(self).phase == SignInPhase::Persisting && event is Stored ==> match event->Stored_0 {
                Ok(_) => {
                    &&& final(self).phase == SignInPhase::Persisted
                    &&& a is FetchProfile && a->FetchProfile_0@ == old(self).game_token->Some_0@
                },
                Err(e) => final(self).phase == SignInPhase::Failed(SignInError::Store(e)) && is_abort(a, SignInError::Store(e)),
            },
            old(self).phase == SignInPhase::Persisted && event is ProfileFetched ==> match event->ProfileFetched_0 {
                Ok(p) => final(self).phase == SignInPhase::Done && a == SignInAction::Finish(p),
                Err(e) => final(self).phase == SignInPhase::Failed(profile_error(e)) && is_abort(a, profile_error(e)),
            },
            // the token endpoint is called only with a code whose state matched
            a is ExchangeCode ==> {
                &&& old(self).phase == SignInPhase::AwaitingRedirect
                &&& event is Redirect && event->Redirect_0 is Ok
                &&& event->Redirect_0->Ok_0.state@ == old(self).state@
            },
            // a credential is stored only once both exchanges succeeded
            a is StoreCredential ==> old(self).phase == SignInPhase::ExchangingFederatedToken,
    {
        let phase = self.phase;
        match (phase, event) {
            (SignInPhase::Idle, SignInEvent::Start) => {
                self.phase = SignInPhase::AwaitingBrowser;
                SignInAction::OpenBrowser(self.auth_url.clone())
            },
            (SignInPhase::AwaitingBrowser, SignInEvent::BrowserOpened(opened)) => {
                self.browser_failed = !opened;
                self.phase = SignInPhase::AwaitingRedirect;
                SignInAction::AwaitRedirect
            },
            (SignInPhase::AwaitingRedirect, SignInEvent::Redirect(outcome)) => match outcome {
                Err(RedirectError::Failure) => self.fail(SignInError::RedirectFailure),
                Err(RedirectError::Malformed) => self.fail(SignInError::MalformedRedirect),
                Ok(params) => {
                    if params.state == self.state {
                        self.phase = SignInPhase::ExchangingCode;
                        SignInAction::ExchangeCode { code: params.code, verifier: self.verifier.clone() }
                    } else {
                        self.fail(SignInError::CsrfMismatch)
                    }
                },
            },
            (SignInPhase::ExchangingCode, SignInEvent::CodeExchanged(token)) => match token {
                Some(t) => {
                    self.phase = SignInPhase::ExchangingFederatedToken;
                    SignInAction::ExchangeFederated(t)
                },
                None => self.fail(SignInError::TokenExchange),
            },
            (SignInPhase::ExchangingFederatedToken, SignInEvent::Federated(token)) => match token {
                Some(g) => {
                    self.game_token = Some(g.clone());
                    self.phase = SignInPhase::Persisting;
                    SignInAction::StoreCredential(g)
                },
                None => self.fail(SignInError::FederationExchange),
            },
            (SignInPhase::Persisting, SignInEvent::Stored(outcome)) => match outcome {
                Ok(()) => {
                    match &self.game_token {
                        Some(g) => {
                            let g = g.clone();
                            self.phase = SignInPhase::Persisted;
                            SignInAction::FetchProfile(g)
                        },
                        None => SignInAction::Ignore,
                    }
                },
                Err(e) => self.fail(SignInError::Store(e)),
            },
            (SignInPhase::Persisted, SignInEvent::ProfileFetched(outcome)) => match outcome {
                Ok(p) => {
                    self.phase = SignInPhase::Done;
                    SignInAction::Finish(p)
                },
                Err(ProfileError::Unauthorized) => self.fail(SignInError::Unauthorized),
                Err(ProfileError::FetchFailed) => self.fail(SignInError::ProfileFetch),
            },
            _ => SignInAction::Ignore,
        }
    }
}

} // verus!
