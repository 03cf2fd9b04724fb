use vstd::prelude::*;

use crate::api::{bearer_header, dashboard_url};
use crate::error::ClientError;

verus! {

/// The key under which the bearer token is kept in persistent storage.
pub const TOKEN_KEY: &'static str = "accessToken";

/// The pages of the client.
#[derive(Clone, Copy, Debug, PartialEq, Eq, Structural)]
pub enum Route {
    Home,
    Signup,
    Signin,
    Dashboard,
}

impl Route {
    pub open spec fn path_spec(self) -> Seq<char> {
        match self {
            Route::Home => "/"@,
            Route::Signup => "/signup"@,
            Route::Signin => "/signin"@,
            Route::Dashboard => "/station"@,
        }
    }

    pub fn path(&self) -> (r: &'static str)
        ensures
            r@ == self.path_spec(),
    {
        match self {
            Route::Home => "/",
            Route::Signup => "/signup",
            Route::Signin => "/signin",
            Route::Dashboard => "/station",
        }
    }
}

/// A token counts only when there is one and it is not empty.
pub open spec fn token_present(stored: Option<Seq<char>>) -> bool {
    stored matches Some(t) && t.len() > 0
}

pub open spec fn view_token(stored: Option<String>) -> Option<Seq<char>> {
    match stored {
        Some(t) => Some(t@),
        None => None,
    }
}

/// The stored token, or the empty text when there is none.
pub fn get_token(stored: Option<String>) -> (r: String)
    ensures
        r@ == (match stored {
            Some(t) => t@,
            None => Seq::<char>::empty(),
        }),
{
    match stored {
        Some(t) => t,
        None => String::new(),
    }
}

/// Whether a usable token is stored. This is a presence check only: the
/// token's age and signature are the server's business.
pub fn is_authenticated(stored: &Option<String>) -> (r: bool)
    ensures
        r == token_present(view_token(*stored)),
{
    match stored {
        Some(t) => !t.as_str().is_empty(),
        None => false,
    }
}

/// The client's copy of the stored bearer token.
pub struct AuthStore {
    token: Option<String>,
}

impl View for AuthStore {
    type V = Option<Seq<char>>;

    closed spec fn view(&self) -> Option<Seq<char>> {
        view_token(self.token)
    }
}

impl AuthStore {
    /// A store holding what persistent storage held under [`TOKEN_KEY`].
    pub fn from_stored(stored: Option<String>) -> (r: AuthStore)
        ensures
            r@ == view_token(stored),
    {
        AuthStore { token: stored }
    }

    pub fn get(&self) -> (r: String)
        ensures
            r@ == (match self@ {
                Some(t) => t,
                None => Seq::<char>::empty(),
            }),
    {
        get_token(self.token.clone())
    }

    pub fn set(&mut self, token: String)
        ensures
            final(self)@ == Some(token@),
    {
        self.token = Some(token);
    }

    pub fn clear(&mut self)
        ensures
            final(self)@ == None::<Seq<char>>,
    {
        self.token = None;
    }

    /// What persistent storage should hold under [`TOKEN_KEY`].
    pub fn stored(&self) -> (r: &Option<String>)
        ensures
            view_token(*r) == self@,
    {
        &self.token
    }

    pub fn is_authenticated(&self) -> (r: bool)
        ensures
            r == token_present(self@),
    {
        is_authenticated(&self.token)
    }
}

/// Whether a page may be shown, or where to go instead.
#[derive(Clone, Copy, Debug, PartialEq, Eq, Structural)]
pub enum NavDecision {
    Allow,
    RedirectTo(Route),
}

pub open spec fn guard_spec(stored: Option<Seq<char>>) -> NavDecision {
    if token_present(stored) {
        NavDecision::Allow
    } else {
        NavDecision::RedirectTo(Route::Signin)
    }
}

/// The guard of the protected pages, evaluated anew before each rendering.
pub fn guard_protected(store: &AuthStore) -> (r: NavDecision)
    ensures
        r == guard_spec(store@),
{
    if store.is_authenticated() {
        NavDecision::Allow
    } else {
        NavDecision::RedirectTo(Route::Signin)
    }
}

/// What opening the dashboard leads to.
#[derive(Clone, Debug, PartialEq, Eq)]
pub enum DashboardEntry {
    /// Go elsewhere; nothing is fetched.
    Redirect(Route),
    /// Fetch the station from `url`, sending `authorization`.
    Fetch { url: String, authorization: String },
}

/// Opens the dashboard: without a token the user is sent to sign in at once
/// and no request is made; with one, the request to make is returned.
pub fn enter_dashboard(store: &AuthStore, base: &str) -> (r: DashboardEntry)
    ensures
        guard_spec(store@) matches NavDecision::RedirectTo(route) ==> r == DashboardEntry::Redirect(
            route,
        ),
        guard_spec(store@) is Allow ==> (r matches DashboardEntry::Fetch { url, authorization }
            && url@ == base@ + "/api/v1/stations/dashboard"@ && authorization@ == "Bearer "@
            + store@->0),
{
    match guard_protected(store) {
        NavDecision::Allow => {
            let token = store.get();
            DashboardEntry::Fetch {
                url: dashboard_url(base),
                authorization: bearer_header(token.as_str()),
            }
        },
        NavDecision::RedirectTo(route) => DashboardEntry::Redirect(route),
    }
}

/// What the page does once a form's request has finished.
#[derive(Clone, Debug, PartialEq, Eq)]
pub enum FormOutcome {
    Navigate(Route),
    ShowError(ClientError),
}

pub open spec fn empty_token_text() -> Seq<char> {
    "the server sent an empty access token"@
}

/// The token a sign-in leaves stored.
pub open spec fn sign_in_store(before: Option<Seq<char>>, result: Result<String, ClientError>) -> Option<
    Seq<char>,
> {
    match result {
        Ok(token) => if token@.len() > 0 {
            Some(token@)
        } else {
            before
        },
        Err(_) => before,
    }
}

/// The page's next step after a sign-in: on to the dashboard with a
/// non-empty token, otherwise the error shown on the form.
pub open spec fn sign_in_outcome(result: Result<String, ClientError>, r: FormOutcome) -> bool {
    match result {
        Ok(token) => if token@.len() > 0 {
            r == FormOutcome::Navigate(Route::Dashboard)
        } else {
            r matches FormOutcome::ShowError(ClientError::Decode { detail }) && detail@
                == empty_token_text()
        },
        Err(e) => r == FormOutcome::ShowError(e),
    }
}

/// Finishes a sign-in with the token the server issued, or the error the
/// request ended with. Only a non-empty token is stored.
pub fn complete_sign_in(store: &mut AuthStore, result: Result<String, ClientError>) -> (r: FormOutcome)
    ensures
        final(store)@ == sign_in_store(old(store)@, result),
        sign_in_outcome(result, r),
{
    match result {
        Ok(token) => if token.as_str().is_empty() {
            FormOutcome::ShowError(
                ClientError::Decode { detail: String::from_str("the server sent an empty access token") },
            )
        } else {
            store.set(token);
            FormOutcome::Navigate(Route::Dashboard)
        },
        Err(e) => FormOutcome::ShowError(e),
    }
}

/// Finishes a registration: a registered station goes on to sign in.
pub fn complete_sign_up(result: Result<(), ClientError>) -> (r: FormOutcome)
    ensures
        r == (match result {
            Ok(()) => FormOutcome::Navigate(Route::Signin),
            Err(e) => FormOutcome::ShowError(e),
        }),
{
    match result {
        Ok(()) => FormOutcome::Navigate(Route::Signin),
        Err(e) => FormOutcome::ShowError(e),
    }
}

/// A sign-in that yields a non-empty token leaves the user signed in and
/// heads for the dashboard; one that the server refuses leaves a user who
/// had no token still without one, and shows the server's error.
pub proof fn sign_in_end_to_end(
    before: Option<Seq<char>>,
    token: String,
    status: u16,
    r_ok: FormOutcome,
    r_refused: FormOutcome,
)
    requires
        token@.len() > 0,
        sign_in_outcome(Ok(token), r_ok),
        sign_in_outcome(Err(ClientError::Server { status }), r_refused),
    ensures
        sign_in_store(before, Ok(token)) == Some(token@),
        token_present(sign_in_store(before, Ok(token))),
        r_ok == FormOutcome::Navigate(Route::Dashboard),
        sign_in_store(None, Err(ClientError::Server { status })) == None::<Seq<char>>,
        !token_present(sign_in_store(None, Err(ClientError::Server { status }))),
        r_refused == FormOutcome::ShowError(ClientError::Server { status }),
{
}

/// Without a token, the protected pages redirect to sign-in; opening the
/// dashboard then yields that redirect and no request.
pub proof fn no_token_no_dashboard(stored: Option<Seq<char>>)
    requires
        !token_present(stored),
    ensures
        guard_spec(stored) == NavDecision::RedirectTo(Route::Signin),
        guard_spec(stored) !is Allow,
{
}

} // verus!
