//! Logging in and out.
//!
//! A login comes back from the identity provider with a code. The handler
//! trades the code for a token, reads the user's profile with the token,
//! stores the user, and opens the session. What it decides between these
//! calls stands here.

pub mod csh;
pub mod google;
pub mod models;

use vstd::prelude::*;
use vstd::string::*;
use crate::api::v1::auth::models::{
    display_name, full_name, CSHUserInfo, CSHUserInfoView, GoogleUserInfo, GoogleUserInfoView,
    UserInfo, UserInfoView,
};
use crate::app::{Body, BodyView, Response, ResponseView, STATUS_INTERNAL, STATUS_OK};
use crate::db::user::UserRealm;

verus! {

/// A user's profile, as one of the identity providers reports it.
#[derive(Debug)]
pub enum Profile {
    Csh(CSHUserInfo),
    Google(GoogleUserInfo),
}

pub enum ProfileView {
    Csh(CSHUserInfoView),
    Google(GoogleUserInfoView),
}

impl View for Profile {
    type V = ProfileView;

    open spec fn view(&self) -> ProfileView {
        match self {
            Profile::Csh(p) => ProfileView::Csh(p@),
            Profile::Google(p) => ProfileView::Google(p@),
        }
    }
}

impl ProfileView {
    /// The realm of the provider that reported the profile.
    pub open spec fn realm(self) -> UserRealm {
        match self {
            ProfileView::Csh(_) => UserRealm::Csh,
            ProfileView::Google(_) => UserRealm::Google,
        }
    }

    /// The id under which the user is stored.
    pub open spec fn id(self) -> Seq<char> {
        match self {
            ProfileView::Csh(p) => p.ldap_id,
            ProfileView::Google(p) => p.sub,
        }
    }

    /// The name under which the user is stored.
    pub open spec fn name(self) -> Seq<char> {
        match self {
            ProfileView::Csh(p) => full_name(p.given_name, p.family_name),
            ProfileView::Google(p) => full_name(p.given_name, p.family_name),
        }
    }

    pub open spec fn email(self) -> Seq<char> {
        match self {
            ProfileView::Csh(p) => p.email,
            ProfileView::Google(p) => p.email,
        }
    }

    /// What the session keeps of the user.
    pub open spec fn session_info(self) -> UserInfoView {
        match self {
            ProfileView::Csh(p) => p.session_info(),
            ProfileView::Google(p) => p.session_info(),
        }
    }
}

/// What the login handler asks for.
#[derive(Debug)]
pub enum AuthCommand {
    /// Trade the code for an access token.
    Exchange { code: String },
    /// Read the user's profile with the token.
    FetchProfile { token: String },
    /// Store the user, or bring the stored user up to date.
    UpsertUser { id: String, realm: UserRealm, name: String, email: String },
    /// Mark the session as logged in and keep this of its user.
    Login(UserInfo),
    /// Answer the request.
    Respond(Response),
}

pub enum AuthCommandView {
    Exchange { code: Seq<char> },
    FetchProfile { token: Seq<char> },
    UpsertUser { id: Seq<char>, realm: UserRealm, name: Seq<char>, email: Seq<char> },
    Login(UserInfoView),
    Respond(ResponseView),
}

impl View for AuthCommand {
    type V = AuthCommandView;

    open spec fn view(&self) -> AuthCommandView {
        match self {
            AuthCommand::Exchange { code } => AuthCommandView::Exchange { code: code@ },
            AuthCommand::FetchProfile { token } => AuthCommandView::FetchProfile { token: token@ },
            AuthCommand::UpsertUser { id, realm, name, email } => AuthCommandView::UpsertUser {
                id: id@,
                realm: *realm,
                name: name@,
                email: email@,
            },
            AuthCommand::Login(info) => AuthCommandView::Login(info@),
            AuthCommand::Respond(r) => AuthCommandView::Respond(r@),
        }
    }
}

/// What came of a command of the login handler.
#[derive(Debug)]
pub enum AuthAnswer {
    /// The access token.
    Token(Result<String, String>),
    /// The profile. The outer failure is that of the request, the inner one
    /// that of reading what came back.
    Profile(Result<Result<Profile, String>, String>),
    /// `UpsertUser` or `Login` went through, or did not.
    Done(Result<(), String>),
}

pub enum AuthAnswerView {
    Token(Result<Seq<char>, Seq<char>>),
    Profile(Result<Result<ProfileView, Seq<char>>, Seq<char>>),
    Done(Result<(), Seq<char>>),
}

impl View for AuthAnswer {
    type V = AuthAnswerView;

    open spec fn view(&self) -> AuthAnswerView {
        match self {
            AuthAnswer::Token(Ok(t)) => AuthAnswerView::Token(Ok(t@)),
            AuthAnswer::Token(Err(e)) => AuthAnswerView::Token(Err(e@)),
            AuthAnswer::Profile(Ok(Ok(p))) => AuthAnswerView::Profile(Ok(Ok(p@))),
            AuthAnswer::Profile(Ok(Err(e))) => AuthAnswerView::Profile(Ok(Err(e@))),
            AuthAnswer::Profile(Err(e)) => AuthAnswerView::Profile(Err(e@)),
            AuthAnswer::Done(Ok(_)) => AuthAnswerView::Done(Ok(())),
            AuthAnswer::Done(Err(e)) => AuthAnswerView::Done(Err(e@)),
        }
    }
}

/// Where a login stands.
#[derive(Debug)]
pub enum Auth {
    /// The code is being traded for a token.
    Exchange { code: String },
    /// The profile is being read.
    Fetch { token: String },
    /// The user is being stored.
    Upsert { profile: Profile },
    /// The session is being opened.
    Login { info: UserInfo },
    /// The request is answered.
    Respond(Response),
}

pub enum AuthView {
    Exchange { code: Seq<char> },
    Fetch { token: Seq<char> },
    Upsert { profile: ProfileView },
    Login { info: UserInfoView },
    Respond(ResponseView),
}

impl View for Auth {
    type V = AuthView;

    open spec fn view(&self) -> AuthView {
        match self {
            Auth::Exchange { code } => AuthView::Exchange { code: code@ },
            Auth::Fetch { token } => AuthView::Fetch { token: token@ },
            Auth::Upsert { profile } => AuthView::Upsert { profile: profile@ },
            Auth::Login { info } => AuthView::Login { info: info@ },
            Auth::Respond(r) => AuthView::Respond(r@),
        }
    }
}

pub open spec fn msg_no_token() -> Seq<char> {
    "Failed to get OAuth Token"@
}

pub open spec fn msg_no_profile() -> Seq<char> {
    "Failed to get UserInfo Token"@
}

pub open spec fn msg_bad_profile() -> Seq<char> {
    "Failed to deserialize UserInfo token"@
}

pub open spec fn msg_user_not_stored() -> Seq<char> {
    "Failed to add user to database"@
}

pub open spec fn msg_no_login() -> Seq<char> {
    "Failed to Authorize Session"@
}

pub open spec fn msg_no_session_data() -> Seq<char> {
    "Failed to get Session Data"@
}

/// Where a browser goes after it logged in or out.
pub open spec fn home() -> Seq<char> {
    "/"@
}

impl AuthView {
    pub open spec fn start(code: Seq<char>) -> AuthView {
        AuthView::Exchange { code }
    }

    pub open spec fn action(self) -> AuthCommandView {
        match self {
            AuthView::Exchange { code } => AuthCommandView::Exchange { code },
            AuthView::Fetch { token } => AuthCommandView::FetchProfile { token },
            AuthView::Upsert { profile } => AuthCommandView::UpsertUser {
                id: profile.id(),
                realm: profile.realm(),
                name: profile.name(),
                email: profile.email(),
            },
            AuthView::Login { info } => AuthCommandView::Login(info),
            AuthView::Respond(r) => AuthCommandView::Respond(r),
        }
    }

    /// The state after `answer`. Any failure ends the login with a failure
    /// that tells the step but not the cause; a login that went through
    /// sends the browser home.
    pub open spec fn step(self, answer: AuthAnswerView) -> AuthView {
        match (self, answer) {
            (AuthView::Exchange { .. }, AuthAnswerView::Token(Ok(token))) => AuthView::Fetch {
                token,
            },
            (AuthView::Exchange { .. }, AuthAnswerView::Token(Err(_))) => AuthView::Respond(
                ResponseView::failure(STATUS_INTERNAL, msg_no_token()),
            ),
            (AuthView::Fetch { .. }, AuthAnswerView::Profile(Ok(Ok(profile)))) => AuthView::Upsert {
                profile,
            },
            (AuthView::Fetch { .. }, AuthAnswerView::Profile(Ok(Err(_)))) => AuthView::Respond(
                ResponseView::failure(STATUS_INTERNAL, msg_bad_profile()),
            ),
            (AuthView::Fetch { .. }, AuthAnswerView::Profile(Err(_))) => AuthView::Respond(
                ResponseView::failure(STATUS_INTERNAL, msg_no_profile()),
            ),
            (AuthView::Upsert { profile }, AuthAnswerView::Done(Ok(_))) => AuthView::Login {
                info: profile.session_info(),
            },
            (AuthView::Upsert { .. }, AuthAnswerView::Done(Err(_))) => AuthView::Respond(
                ResponseView::failure(STATUS_INTERNAL, msg_user_not_stored()),
            ),
            (AuthView::Login { .. }, AuthAnswerView::Done(Ok(_))) => AuthView::Respond(
                ResponseView::redirect(home()),
            ),
            (AuthView::Login { .. }, AuthAnswerView::Done(Err(_))) => AuthView::Respond(
                ResponseView::failure(STATUS_INTERNAL, msg_no_login()),
            ),
            (state, _) => state,
        }
    }
}

impl Auth {
    /// Takes up a login that came back with `code`.
    pub fn start(code: String) -> (s: Auth)
        ensures
            s@ == AuthView::start(code@),
    {
        Auth::Exchange { code }
    }

    pub fn action(&self) -> (c: AuthCommand)
        ensures
            c@ == self@.action(),
    {
        match self {
            Auth::Exchange { code } => AuthCommand::Exchange { code: code.clone() },
            Auth::Fetch { token } => AuthCommand::FetchProfile { token: token.clone() },
            Auth::Upsert { profile } => match profile {
                Profile::Csh(p) => AuthCommand::UpsertUser {
                    id: p.ldap_id.clone(),
                    realm: UserRealm::Csh,
                    name: display_name(&p.given_name, &p.family_name),
                    email: p.email.clone(),
                },
                Profile::Google(p) => AuthCommand::UpsertUser {
                    id: p.sub.clone(),
                    realm: UserRealm::Google,
                    name: display_name(&p.given_name, &p.family_name),
                    email: p.email.clone(),
                },
            },
            Auth::Login { info } => AuthCommand::Login(info.clone()),
            Auth::Respond(r) => AuthCommand::Respond(r.clone()),
        }
    }

    pub fn step(self, answer: AuthAnswer) -> (next: Auth)
        ensures
            next@ == self@.step(answer@),
    {
        match (self, answer) {
            (Auth::Exchange { .. }, AuthAnswer::Token(Ok(token))) => Auth::Fetch { token },
            (Auth::Exchange { .. }, AuthAnswer::Token(Err(_))) => Auth::Respond(
                Response::failure(STATUS_INTERNAL, "Failed to get OAuth Token"),
            ),
            (Auth::Fetch { .. }, AuthAnswer::Profile(Ok(Ok(profile)))) => Auth::Upsert { profile },
            (Auth::Fetch { .. }, AuthAnswer::Profile(Ok(Err(_)))) => Auth::Respond(
                Response::failure(STATUS_INTERNAL, "Failed to deserialize UserInfo token"),
            ),
            (Auth::Fetch { .. }, AuthAnswer::Profile(Err(_))) => Auth::Respond(
                Response::failure(STATUS_INTERNAL, "Failed to get UserInfo Token"),
            ),
            (Auth::Upsert { profile }, AuthAnswer::Done(Ok(_))) => Auth::Login {
                info: match profile {
                    Profile::Csh(p) => UserInfo::from(p),
                    Profile::Google(p) => UserInfo::from(p),
                },
            },
            (Auth::Upsert { .. }, AuthAnswer::Done(Err(_))) => Auth::Respond(
                Response::failure(STATUS_INTERNAL, "Failed to add user to database"),
            ),
            (Auth::Login { .. }, AuthAnswer::Done(Ok(_))) => Auth::Respond(Response::redirect("/")),
            (Auth::Login { .. }, AuthAnswer::Done(Err(_))) => Auth::Respond(
                Response::failure(STATUS_INTERNAL, "Failed to Authorize Session"),
            ),
            (state, _) => state,
        }
    }
}

/// Answers a logout, once the session forgot its user: the browser goes home.
pub fn logout() -> (r: Response)
    ensures
        r@ == ResponseView::redirect(home()),
{
    Response::redirect("/")
}

/// The answer to a request for the session's user, given what the session
/// holds.
pub open spec fn session_user(held: Result<Option<UserInfoView>, Seq<char>>) -> ResponseView {
    match held {
        Ok(info) => ResponseView::plain(STATUS_OK, BodyView::Session(info)),
        Err(_) => ResponseView::failure(STATUS_INTERNAL, msg_no_session_data()),
    }
}

/// Answers a request for the session's user.
pub fn get_user_data(held: Result<Option<UserInfo>, String>) -> (r: Response)
    ensures
        r@ == session_user(
            match held {
                Ok(info) => Ok(info.deep_view()),
                Err(e) => Err(e@),
            },
        ),
{
    match held {
        Ok(info) => Response::plain(STATUS_OK, Body::Session(info)),
        Err(_) => Response::failure(STATUS_INTERNAL, "Failed to get Session Data"),
    }
}

} // verus!
