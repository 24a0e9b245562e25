use rideboard::pings::{recipient_of, Ping, PingClient, PingKind};
use rideboard::redis::{insert_job, QueueError};

fn client() -> PingClient {
    PingClient::new(
        "t0ken".to_string(),
        "route-join".to_string(),
        "route-leave".to_string(),
        "route-add".to_string(),
        "route-remove".to_string(),
    )
}

fn ping(kind: PingKind) -> Ping {
    Ping { kind, to: "alice".to_string(), who: "Bob".to_string(), event: "Picnic".to_string() }
}

#[test]
fn the_mail_domain_is_cut_off() {
    assert_eq!(recipient_of(&"alice@csh.rit.edu".to_string()), "alice");
}

#[test]
fn the_mail_domain_is_cut_off_as_often_as_it_stands() {
    assert_eq!(recipient_of(&"alice@csh.rit.edu@csh.rit.edu".to_string()), "alice");
    assert_eq!(recipient_of(&"@csh.rit.edu".to_string()), "");
}

#[test]
fn another_address_stays_whole() {
    assert_eq!(recipient_of(&"alice@example.org".to_string()), "alice@example.org");
    assert_eq!(recipient_of(&"@csh.rit.edu.alice".to_string()), "@csh.rit.edu.alice");
    assert_eq!(recipient_of(&String::new()), "");
}

#[test]
fn a_join_is_posted_to_the_join_route() {
    let request = client().request(&ping(PingKind::Join));
    assert_eq!(request.url, "https://pings.csh.rit.edu/service/route/route-join/ping");
    assert_eq!(request.username, "alice");
    assert_eq!(request.body, "@Bob joined your ride to \"Picnic\".");
}

#[test]
fn a_leave_is_posted_to_the_leave_route() {
    let request = client().request(&ping(PingKind::Leave));
    assert_eq!(request.url, "https://pings.csh.rit.edu/service/route/route-leave/ping");
    assert_eq!(request.username, "alice");
    assert_eq!(request.body, "@Bob left your ride \"Picnic\".");
}

#[test]
fn an_addition_is_posted_to_the_add_route() {
    let request = client().request(&ping(PingKind::Add));
    assert_eq!(request.url, "https://pings.csh.rit.edu/service/route/route-add/ping");
    assert_eq!(
        request.body,
        "You have been added to Bob's ride to \"Picnic\" by the driver."
    );
}

#[test]
fn a_removal_is_posted_to_the_remove_route() {
    let request = client().request(&ping(PingKind::Remove));
    assert_eq!(request.url, "https://pings.csh.rit.edu/service/route/route-remove/ping");
    assert_eq!(
        request.body,
        "You have been removed from Bob's ride to \"Picnic\" by the driver."
    );
}

#[test]
fn requests_carry_the_token_as_bearer() {
    assert_eq!(client().authorization(), "Bearer t0ken");
}

#[test]
fn a_pushed_job_is_in_the_queue() {
    assert!(insert_job(Ok(true)).is_ok());
}

#[test]
fn a_job_that_was_there_is_told_apart() {
    match insert_job(Ok(false)) {
        Err(QueueError::AlreadyQueued) => {}
        other => panic!("{other:?}"),
    }
    assert_eq!(QueueError::AlreadyQueued.message(), "Job ID Already Exists in Queue");
}

#[test]
fn a_queue_failure_keeps_its_cause() {
    match insert_job(Err("connection refused".to_string())) {
        Err(QueueError::Failed(msg)) => assert_eq!(msg, "connection refused"),
        other => panic!("{other:?}"),
    }
    assert_eq!(QueueError::Failed("broken pipe".to_string()).message(), "broken pipe");
}
