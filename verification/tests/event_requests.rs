use rideboard::api::v1::event::{
    create_event, create_event_at, delete_event, event_created, event_deleted, event_updated,
    get_all_events, get_event, update_event, update_event_at, wants_past, EventCommand,
};
use rideboard::api::v1::user::{search_pattern, user_search, wrap_pattern};
use rideboard::app::{ApiError, Body, Response};
use rideboard::auth::{get_clients, ClientSecrets, SessionAuth};
use rideboard::db::event::{Event, EventData};
use rideboard::db::user::UserData;
use rideboard::time::Timestamp;

fn creator() -> UserData {
    UserData {
        id: "u1".to_string(),
        realm: "google".to_string(),
        name: "Una".to_string(),
        email: "una@example.org".to_string(),
    }
}

fn data(name: &str) -> EventData {
    EventData {
        name: name.to_string(),
        location: "Park".to_string(),
        start_time: Timestamp::new(2_000, 0),
        end_time: Timestamp::new(3_000, 0),
    }
}

fn event(id: i32) -> Event {
    Event {
        id,
        name: "Picnic".to_string(),
        location: "Park".to_string(),
        start_time: Timestamp::new(2_000, 0),
        end_time: Timestamp::new(3_000, 0),
        creator: creator(),
    }
}

fn one(r: &Response) -> (u16, String) {
    match &r.body {
        Body::Error(e) => (r.status, e.error().clone().expect("one message")),
        other => panic!("no failure: {other:?}"),
    }
}

fn many(r: &Response) -> (u16, Vec<String>) {
    match &r.body {
        Body::Error(e) => (r.status, e.errors().clone().expect("a list of messages")),
        other => panic!("no failure: {other:?}"),
    }
}

fn text(r: &Response) -> (u16, String) {
    match &r.body {
        Body::Text(t) => (r.status, t.clone()),
        other => panic!("no text: {other:?}"),
    }
}

#[test]
fn a_sound_event_is_stored_for_its_creator() {
    let now = Timestamp::new(1_000, 0);
    match create_event_at(Some("u1".to_string()), data("Picnic"), &now) {
        Ok(EventCommand::Insert { creator_id, data }) => {
            assert_eq!(creator_id, "u1");
            assert_eq!(data.name, "Picnic");
        }
        other => panic!("{other:?}"),
    }
}

#[test]
fn an_event_needs_a_user_before_anything_else() {
    let now = Timestamp::new(1_000, 0);
    let r = create_event_at(None, data(""), &now).unwrap_err();
    assert_eq!(one(&r), (401, "Failed to get user data from session".to_string()));
    let r = update_event_at(5, None, data(""), &now).unwrap_err();
    assert_eq!(one(&r), (401, "Failed to get user data from session".to_string()));
    let r = delete_event(5, None).unwrap_err();
    assert_eq!(one(&r), (401, "Failed to get user data from session".to_string()));
}

#[test]
fn an_event_that_breaks_the_rules_is_refused() {
    let now = Timestamp::new(3_001, 0);
    let r = create_event_at(Some("u1".to_string()), data(""), &now).unwrap_err();
    assert_eq!(
        many(&r),
        (400, vec!["Missing Name.".to_string(), "Event cannot be in the past.".to_string()])
    );
    let r = update_event_at(5, Some("u1".to_string()), data("Picnic"), &now).unwrap_err();
    assert_eq!(many(&r), (400, vec!["Event cannot be in the past.".to_string()]));
}

#[test]
fn event_requests_read_the_clock() {
    let r = create_event(Some("u1".to_string()), data("Picnic")).unwrap_err();
    assert_eq!(many(&r), (400, vec!["Event cannot be in the past.".to_string()]));
    let now = Timestamp::now();
    let mut coming = data("Picnic");
    coming.start_time = Timestamp::new(now.secs + 100, 0);
    coming.end_time = Timestamp::new(now.secs + 200, 0);
    match update_event(5, Some("u1".to_string()), coming) {
        Ok(EventCommand::Update { id, creator_id, .. }) => {
            assert_eq!((id, creator_id.as_str()), (5, "u1"));
        }
        other => panic!("{other:?}"),
    }
}

#[test]
fn an_event_is_deleted_for_its_creator() {
    match delete_event(5, Some("u1".to_string())) {
        Ok(EventCommand::Delete { id, creator_id }) => {
            assert_eq!((id, creator_id.as_str()), (5, "u1"));
        }
        other => panic!("{other:?}"),
    }
    assert_eq!(text(&event_deleted(Ok(Some(5)))), (200, "Event deleted".to_string()));
    assert_eq!(
        one(&event_deleted(Ok(None))),
        (404, "Event not found or you are not the creator".to_string())
    );
    assert_eq!(
        one(&event_deleted(Err("x".to_string()))),
        (500, "Failed to delete event".to_string())
    );
}

#[test]
fn the_answers_about_events() {
    let r = event_created(Ok(event(9)));
    assert_eq!(r.status, 200);
    assert!(matches!(r.body, Body::Id(9)));
    assert_eq!(
        one(&event_created(Err("x".to_string()))),
        (500, "Failed to create event".to_string())
    );

    let r = get_event(Ok(Some(event(9))));
    assert_eq!(r.status, 200);
    assert!(matches!(&r.body, Body::Event(e) if e.id == 9 && e.creator.id == "u1"));
    assert_eq!(one(&get_event(Ok(None))), (404, "Event not found".to_string()));
    assert_eq!(one(&get_event(Err("x".to_string()))), (500, "Failed to get event".to_string()));

    let r = get_all_events(Ok(vec![event(1), event(2)]));
    assert_eq!(r.status, 200);
    assert!(matches!(&r.body, Body::Events(e) if e.len() == 2 && e[1].id == 2));
    assert_eq!(
        one(&get_all_events(Err("x".to_string()))),
        (500, "Failed to get events".to_string())
    );

    assert_eq!(
        text(&event_updated(Ok(Some(event(9))))),
        (200, "Event updated successfully".to_string())
    );
    assert_eq!(
        one(&event_updated(Ok(None))),
        (404, "Event not found or you are not the creator".to_string())
    );
    assert_eq!(
        one(&event_updated(Err("x".to_string()))),
        (500, "Failed to update event".to_string())
    );
}

#[test]
fn coming_events_are_the_default() {
    assert!(!wants_past(None));
    assert!(!wants_past(Some(false)));
    assert!(wants_past(Some(true)));
}

#[test]
fn a_search_looks_for_the_query_in_lower_case() {
    assert_eq!(search_pattern("ALice"), "%alice%");
    assert_eq!(search_pattern(""), "%%");
    assert_eq!(wrap_pattern("bob"), "%bob%");
}

#[test]
fn the_answers_to_a_search() {
    let r = user_search(Ok(vec![creator()]));
    assert_eq!(r.status, 200);
    assert!(matches!(&r.body, Body::Users(u) if u.len() == 1 && u[0].id == "u1"));
    assert_eq!(
        one(&user_search(Err("x".to_string()))),
        (500, "Failed to get events".to_string())
    );
}

#[test]
fn an_error_body_holds_one_message_or_a_list() {
    let e = ApiError::from("broken".to_string());
    assert_eq!(e.error().as_deref(), Some("broken"));
    assert!(e.errors().is_none());
    let e = ApiError::from(vec!["a".to_string(), "b".to_string()]);
    assert!(e.error().is_none());
    assert_eq!(e.errors().clone().unwrap(), vec!["a".to_string(), "b".to_string()]);
    let e = ApiError::message("short");
    assert_eq!(e.error().as_deref(), Some("short"));
}

#[test]
fn only_a_session_marked_as_logged_in_passes() {
    assert!(SessionAuth::check(Ok(Some(true))).is_none());
    for login in [Ok(Some(false)), Ok(None), Err("unreadable".to_string())] {
        let r = SessionAuth::check(login).expect("turned away");
        assert_eq!(r.status, 401);
        assert!(matches!(r.body, Body::Empty));
        assert!(r.location.is_none());
    }
}

#[test]
fn the_providers_are_addressed() {
    let secrets = ClientSecrets {
        google_client_id: "gid".to_string(),
        google_client_secret: "gsecret".to_string(),
        csh_client_id: "cid".to_string(),
        csh_client_secret: "csecret".to_string(),
        csh_auth_url: Some("https://sso.example/auth".to_string()),
        csh_token_url: None,
    };
    let (google, csh) = get_clients("http://127.0.0.1:8080", secrets);
    assert_eq!(google.client_id, "gid");
    assert_eq!(google.client_secret.as_deref(), Some("gsecret"));
    assert_eq!(google.auth_url, "https://accounts.google.com/o/oauth2/v2/auth");
    assert_eq!(google.token_url.as_deref(), Some("https://www.googleapis.com/oauth2/v3/token"));
    assert_eq!(google.redirect_url, "http://127.0.0.1:8080/api/v1/auth/google/redirect");
    assert_eq!(csh.client_id, "cid");
    assert_eq!(csh.client_secret.as_deref(), Some("csecret"));
    assert_eq!(csh.auth_url, "https://sso.example/auth");
    assert_eq!(csh.token_url.as_deref(), Some(""));
    assert_eq!(csh.redirect_url, "http://127.0.0.1:8080/api/v1/auth/csh/redirect");
}

#[test]
fn a_file_is_handed_out_as_what_its_name_says() {
    let page = rideboard::server::serve_file("index.html", Some(b"<html></html>".to_vec()));
    assert_eq!(page.status, 200);
    match page.body {
        Body::File { content_type, content } => {
            assert_eq!(content_type, "text/html");
            assert_eq!(content, b"<html></html>".to_vec());
        }
        other => panic!("{other:?}"),
    }
    let blob = rideboard::server::serve_file("blob.no-such-kind", Some(vec![1, 2, 3]));
    match blob.body {
        Body::File { content_type, content } => {
            assert_eq!(content_type, "application/octet-stream");
            assert_eq!(content, vec![1, 2, 3]);
        }
        other => panic!("{other:?}"),
    }
    let index = rideboard::server::serve_index(Some(vec![60]));
    assert!(matches!(&index.body, Body::File { content_type, .. } if content_type == "text/html"));
    let given = rideboard::server::serve_as("text/plain".to_string(), Some(vec![104, 105]));
    assert!(matches!(&given.body, Body::File { content_type, content }
        if content_type == "text/plain" && content == &vec![104, 105]));
}

#[test]
fn a_file_that_is_not_there_is_not_found() {
    for missing in [
        rideboard::server::serve_file("style.css", None),
        rideboard::server::serve_index(None),
        rideboard::server::serve_as("text/css".to_string(), None),
    ] {
        assert_eq!(text(&missing), (404, "File not found".to_string()));
    }
}

#[test]
fn the_server_listens_on_its_port_unless_told_another() {
    assert_eq!(rideboard::server::DEFAULT_PORT, 8080);
    assert_eq!(rideboard::server::port_or_default(None), 8080);
    assert_eq!(rideboard::server::port_or_default(Some(3000)), 3000);
}

#[test]
fn the_session_secret_is_read_from_base64() {
    assert_eq!(
        rideboard::server::session_key(Some("aGVsbG8gd29ybGQ=".to_string())),
        Some(b"hello world".to_vec())
    );
    assert_eq!(rideboard::server::session_key(Some(String::new())), Some(vec![]));
    assert_eq!(rideboard::server::session_key(Some("not base64!".to_string())), None);
    assert_eq!(rideboard::server::session_key(None), None);
}
