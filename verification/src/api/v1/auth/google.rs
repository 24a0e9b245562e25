//! Logging in with the second identity provider.

use vstd::prelude::*;
use vstd::string::*;
use crate::api::v1::auth::{Auth, AuthView};

verus! {

/// What the provider sends back with the browser.
#[derive(Debug)]
pub struct AuthRequest {
    code: String,
    state: String,
}

pub struct AuthRequestView {
    pub code: Seq<char>,
    pub state: Seq<char>,
}

impl View for AuthRequest {
    type V = AuthRequestView;

    closed spec fn view(&self) -> AuthRequestView {
        AuthRequestView { code: self.code@, state: self.state@ }
    }
}

impl AuthRequest {
    pub fn new(code: String, state: String) -> (r: AuthRequest)
        ensures
            r@ == (AuthRequestView { code: code@, state: state@ }),
    {
        AuthRequest { code, state }
    }
}

/// What a login asks the provider for.
pub open spec fn scope_names() -> Seq<Seq<char>> {
    seq!["openid"@, "profile"@, "email"@]
}

pub fn scopes() -> (s: Vec<String>)
    ensures
        s.deep_view() == scope_names(),
{
    let mut s: Vec<String> = Vec::new();
    s.push("openid".to_string());
    s.push("profile".to_string());
    s.push("email".to_string());
    assert(s.deep_view() =~= scope_names());
    s
}

/// Takes up the login that came back with `params`.
pub fn auth(params: AuthRequest) -> (s: Auth)
    ensures
        s@ == AuthView::start(params@.code),
{
    Auth::start(params.code)
}

} // verus!
