use rideboard::api::v1::auth::models::{display_name, CSHUserInfo, GoogleUserInfo, UserInfo};
use rideboard::api::v1::auth::{
    csh, get_user_data, google, logout, Auth, AuthAnswer, AuthCommand, Profile,
};
use rideboard::app::{Body, Response};
use rideboard::db::user::UserRealm;

fn member() -> CSHUserInfo {
    CSHUserInfo {
        email: "ada@csh.rit.edu".to_string(),
        given_name: "Ada".to_string(),
        family_name: "Lovelace".to_string(),
        preferred_username: "ada".to_string(),
        ldap_id: "ldap-1".to_string(),
        groups: vec!["member".to_string()],
    }
}

fn guest() -> GoogleUserInfo {
    GoogleUserInfo {
        email: "bob@example.org".to_string(),
        given_name: "Bob".to_string(),
        family_name: "Stone".to_string(),
        picture: "https://pictures.example/bob".to_string(),
        sub: "sub-2".to_string(),
    }
}

fn ended(s: &Auth) -> Response {
    match s.action() {
        AuthCommand::Respond(r) => r,
        other => panic!("no answer yet: {other:?}"),
    }
}

fn why(r: &Response) -> (u16, String) {
    match &r.body {
        Body::Error(e) => (r.status, e.error().clone().expect("one message")),
        other => panic!("no failure: {other:?}"),
    }
}

#[test]
fn a_member_keeps_name_and_picture() {
    let info = UserInfo::from(member());
    assert_eq!(info.id, "ldap-1");
    assert_eq!(info.username.as_deref(), Some("ada"));
    assert_eq!(info.email, "ada@csh.rit.edu");
    assert_eq!(info.given_name, "Ada");
    assert_eq!(info.family_name, "Lovelace");
    assert_eq!(info.picture, "https://profiles.csh.rit.edu/image/ada");
    assert_eq!(info.groups, vec!["member".to_string()]);
}

#[test]
fn a_guest_has_no_user_name_and_no_groups() {
    let info = UserInfo::from(guest());
    assert_eq!(info.id, "sub-2");
    assert!(info.username.is_none());
    assert_eq!(info.email, "bob@example.org");
    assert_eq!(info.picture, "https://pictures.example/bob");
    assert!(info.groups.is_empty());
}

#[test]
fn a_user_is_stored_under_the_full_name() {
    assert_eq!(display_name(&"Ada".to_string(), &"Lovelace".to_string()), "Ada Lovelace");
    assert_eq!(display_name(&String::new(), &String::new()), " ");
}

#[test]
fn a_member_logs_in() {
    let params = csh::AuthRequest::new("c0de".to_string(), "st".to_string());
    let s = csh::auth(params);
    match s.action() {
        AuthCommand::Exchange { code } => assert_eq!(code, "c0de"),
        other => panic!("{other:?}"),
    }
    let s = s.step(AuthAnswer::Token(Ok("t0ken".to_string())));
    match s.action() {
        AuthCommand::FetchProfile { token } => assert_eq!(token, "t0ken"),
        other => panic!("{other:?}"),
    }
    let s = s.step(AuthAnswer::Profile(Ok(Ok(Profile::Csh(member())))));
    match s.action() {
        AuthCommand::UpsertUser { id, realm, name, email } => {
            assert_eq!(id, "ldap-1");
            assert_eq!(realm, UserRealm::Csh);
            assert_eq!(name, "Ada Lovelace");
            assert_eq!(email, "ada@csh.rit.edu");
        }
        other => panic!("{other:?}"),
    }
    let s = s.step(AuthAnswer::Done(Ok(())));
    match s.action() {
        AuthCommand::Login(info) => {
            assert_eq!(info.id, "ldap-1");
            assert_eq!(info.picture, "https://profiles.csh.rit.edu/image/ada");
        }
        other => panic!("{other:?}"),
    }
    let s = s.step(AuthAnswer::Done(Ok(())));
    let r = ended(&s);
    assert_eq!(r.status, 302);
    assert_eq!(r.location.as_deref(), Some("/"));
    assert!(matches!(r.body, Body::Empty));
}

#[test]
fn a_guest_logs_in() {
    let s = google::auth(google::AuthRequest::new("c0de".to_string(), "st".to_string()));
    let s = s.step(AuthAnswer::Token(Ok("t0ken".to_string())));
    let s = s.step(AuthAnswer::Profile(Ok(Ok(Profile::Google(guest())))));
    match s.action() {
        AuthCommand::UpsertUser { id, realm, name, email } => {
            assert_eq!(id, "sub-2");
            assert_eq!(realm, UserRealm::Google);
            assert_eq!(name, "Bob Stone");
            assert_eq!(email, "bob@example.org");
        }
        other => panic!("{other:?}"),
    }
    let s = s.step(AuthAnswer::Done(Ok(())));
    match s.action() {
        AuthCommand::Login(info) => assert!(info.username.is_none()),
        other => panic!("{other:?}"),
    }
}

#[test]
fn a_login_reports_the_step_that_failed() {
    let s = Auth::start("c".to_string()).step(AuthAnswer::Token(Err("x".to_string())));
    assert_eq!(why(&ended(&s)), (500, "Failed to get OAuth Token".to_string()));

    let s = Auth::start("c".to_string()).step(AuthAnswer::Token(Ok("t".to_string())));
    let s = s.step(AuthAnswer::Profile(Err("x".to_string())));
    assert_eq!(why(&ended(&s)), (500, "Failed to get UserInfo Token".to_string()));

    let s = Auth::start("c".to_string()).step(AuthAnswer::Token(Ok("t".to_string())));
    let s = s.step(AuthAnswer::Profile(Ok(Err("x".to_string()))));
    assert_eq!(why(&ended(&s)), (500, "Failed to deserialize UserInfo token".to_string()));

    let s = Auth::start("c".to_string()).step(AuthAnswer::Token(Ok("t".to_string())));
    let s = s.step(AuthAnswer::Profile(Ok(Ok(Profile::Google(guest())))));
    let s = s.step(AuthAnswer::Done(Err("x".to_string())));
    assert_eq!(why(&ended(&s)), (500, "Failed to add user to database".to_string()));

    let s = Auth::start("c".to_string()).step(AuthAnswer::Token(Ok("t".to_string())));
    let s = s.step(AuthAnswer::Profile(Ok(Ok(Profile::Google(guest())))));
    let s = s.step(AuthAnswer::Done(Ok(()))).step(AuthAnswer::Done(Err("x".to_string())));
    assert_eq!(why(&ended(&s)), (500, "Failed to Authorize Session".to_string()));
}

#[test]
fn the_providers_are_asked_for_their_scopes() {
    assert_eq!(csh::scopes(), vec!["house-service-oidc".to_string()]);
    assert_eq!(
        google::scopes(),
        vec!["openid".to_string(), "profile".to_string(), "email".to_string()]
    );
}

#[test]
fn a_logout_sends_the_browser_home() {
    let r = logout();
    assert_eq!(r.status, 302);
    assert_eq!(r.location.as_deref(), Some("/"));
}

#[test]
fn the_session_shows_its_user() {
    let r = get_user_data(Ok(Some(UserInfo::from(guest()))));
    assert_eq!(r.status, 200);
    assert!(matches!(&r.body, Body::Session(Some(u)) if u.id == "sub-2"));
    let r = get_user_data(Ok(None));
    assert_eq!(r.status, 200);
    assert!(matches!(&r.body, Body::Session(None)));
    assert_eq!(
        why(&get_user_data(Err("x".to_string()))),
        (500, "Failed to get Session Data".to_string())
    );
}
