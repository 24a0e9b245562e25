//! Who may use the interface, and how the identity providers are addressed.

use vstd::prelude::*;
use vstd::string::*;
use crate::app::{Body, BodyView, Response, ResponseView, STATUS_UNAUTHORIZED};

verus! {

/// The guard in front of the handlers that need a user.
#[derive(Clone, Copy, Debug)]
pub struct SessionAuth;

/// A request passes if its session is marked as logged in. A session without
/// the mark, with a mark of `false`, or that cannot be read does not pass.
pub open spec fn admitted(login: Result<Option<bool>, Seq<char>>) -> bool {
    login == Ok::<Option<bool>, Seq<char>>(Some(true))
}

/// The answer to a request that does not pass: unauthorized, with no body.
pub open spec fn turned_away() -> ResponseView {
    ResponseView::plain(STATUS_UNAUTHORIZED, BodyView::Empty)
}

impl SessionAuth {
    /// Checks the login mark of a session. `None` lets the request through;
    /// else the request is answered at once.
    pub fn check(login: Result<Option<bool>, String>) -> (r: Option<Response>)
        ensures
            match login {
                Ok(Some(true)) => r is None,
                _ => r is Some && r->Some_0@ == turned_away(),
            },
    {
        match login {
            Ok(Some(true)) => None,
            _ => Some(Response::plain(STATUS_UNAUTHORIZED, Body::Empty)),
        }
    }
}

/// How one identity provider is addressed.
#[derive(Debug)]
pub struct ClientSettings {
    pub client_id: String,
    pub client_secret: Option<String>,
    pub auth_url: String,
    pub token_url: Option<String>,
    pub redirect_url: String,
}

pub struct ClientSettingsView {
    pub client_id: Seq<char>,
    pub client_secret: Option<Seq<char>>,
    pub auth_url: Seq<char>,
    pub token_url: Option<Seq<char>>,
    pub redirect_url: Seq<char>,
}

impl View for ClientSettings {
    type V = ClientSettingsView;

    open spec fn view(&self) -> ClientSettingsView {
        ClientSettingsView {
            client_id: self.client_id@,
            client_secret: self.client_secret.deep_view(),
            auth_url: self.auth_url@,
            token_url: self.token_url.deep_view(),
            redirect_url: self.redirect_url@,
        }
    }
}

/// What the two providers need that no fixed address gives.
#[derive(Debug)]
pub struct ClientSecrets {
    pub google_client_id: String,
    pub google_client_secret: String,
    pub csh_client_id: String,
    pub csh_client_secret: String,
    /// The address at which the first provider takes logins, where known.
    pub csh_auth_url: Option<String>,
    /// The address at which the first provider hands out tokens, where known.
    pub csh_token_url: Option<String>,
}

pub struct ClientSecretsView {
    pub google_client_id: Seq<char>,
    pub google_client_secret: Seq<char>,
    pub csh_client_id: Seq<char>,
    pub csh_client_secret: Seq<char>,
    pub csh_auth_url: Option<Seq<char>>,
    pub csh_token_url: Option<Seq<char>>,
}

impl View for ClientSecrets {
    type V = ClientSecretsView;

    open spec fn view(&self) -> ClientSecretsView {
        ClientSecretsView {
            google_client_id: self.google_client_id@,
            google_client_secret: self.google_client_secret@,
            csh_client_id: self.csh_client_id@,
            csh_client_secret: self.csh_client_secret@,
            csh_auth_url: self.csh_auth_url.deep_view(),
            csh_token_url: self.csh_token_url.deep_view(),
        }
    }
}

pub open spec fn or_empty(s: Option<Seq<char>>) -> Seq<char> {
    match s {
        Some(s) => s,
        None => Seq::empty(),
    }
}

/// The settings of the second provider for a server that is reached at
/// `redirect_domain`.
pub open spec fn google_settings(redirect_domain: Seq<char>, secrets: ClientSecretsView) -> ClientSettingsView {
    ClientSettingsView {
        client_id: secrets.google_client_id,
        client_secret: Some(secrets.google_client_secret),
        auth_url: "https://accounts.google.com/o/oauth2/v2/auth"@,
        token_url: Some("https://www.googleapis.com/oauth2/v3/token"@),
        redirect_url: redirect_domain + "/api/v1/auth/google/redirect"@,
    }
}

/// The settings of the first provider for a server that is reached at
/// `redirect_domain`. An address that is not known is left empty.
pub open spec fn csh_settings(redirect_domain: Seq<char>, secrets: ClientSecretsView) -> ClientSettingsView {
    ClientSettingsView {
        client_id: secrets.csh_client_id,
        client_secret: Some(secrets.csh_client_secret),
        auth_url: or_empty(secrets.csh_auth_url),
        token_url: Some(or_empty(secrets.csh_token_url)),
        redirect_url: redirect_domain + "/api/v1/auth/csh/redirect"@,
    }
}

fn text_or_empty(s: Option<String>) -> (r: String)
    ensures
        r@ == or_empty(s.deep_view()),
{
    match s {
        Some(s) => s,
        None => {
            let r = "".to_string();
            proof {
                reveal_strlit("");
            }
            assert(r@ =~= Seq::<char>::empty());
            r
        },
    }
}

/// The settings of the two providers, the second one first.
pub fn get_clients(redirect_domain: &str, secrets: ClientSecrets) -> (r: (
    ClientSettings,
    ClientSettings,
))
    ensures
        r.0@ == google_settings(redirect_domain@, secrets@),
        r.1@ == csh_settings(redirect_domain@, secrets@),
{
    (
        ClientSettings {
            client_id: secrets.google_client_id,
            client_secret: Some(secrets.google_client_secret),
            auth_url: "https://accounts.google.com/o/oauth2/v2/auth".to_string(),
            token_url: Some("https://www.googleapis.com/oauth2/v3/token".to_string()),
            redirect_url: redirect_domain.to_string().concat("/api/v1/auth/google/redirect"),
        },
        ClientSettings {
            client_id: secrets.csh_client_id,
            client_secret: Some(secrets.csh_client_secret),
            auth_url: text_or_empty(secrets.csh_auth_url),
            token_url: Some(text_or_empty(secrets.csh_token_url)),
            redirect_url: redirect_domain.to_string().concat("/api/v1/auth/csh/redirect"),
        },
    )
}

} // verus!
