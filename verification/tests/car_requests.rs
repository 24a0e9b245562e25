use rideboard::api::v1::event::car::{
    get_all_cars, get_car, other_cars, Answer, Command, CreateCar, DeleteCar, UpdateCar,
};
use rideboard::app::{Body, RedisJob, Response};
use rideboard::db::car::{Car, CarData};
use rideboard::db::user::UserData;
use rideboard::roster::rider_diff;
use rideboard::time::Timestamp;

fn user(id: &str) -> UserData {
    UserData {
        id: id.to_string(),
        realm: "csh".to_string(),
        name: format!("Name of {id}"),
        email: format!("{id}@csh.rit.edu"),
    }
}

fn at(secs: i64) -> Timestamp {
    Timestamp::new(secs, 0)
}

fn names(list: &[&str]) -> Vec<String> {
    list.iter().map(|n| n.to_string()).collect()
}

fn car(id: i32, driver: &str, capacity: i32, riders: &[&str]) -> Car {
    Car {
        id,
        event_id: Some(1),
        driver: user(driver),
        riders: Some(riders.iter().map(|r| user(r)).collect()),
        max_capacity: capacity,
        departure_time: at(2_000),
        return_time: at(3_000),
        comment: String::new(),
    }
}

fn proposal(capacity: i32, riders: &[&str]) -> CarData {
    CarData {
        max_capacity: capacity,
        departure_time: at(2_000),
        return_time: at(3_000),
        comment: "see you there".to_string(),
        riders: names(riders),
    }
}

fn single(r: &Response) -> (u16, String) {
    match &r.body {
        Body::Error(e) => {
            assert!(e.errors().is_none());
            (r.status, e.error().clone().expect("one message"))
        }
        other => panic!("no failure: {other:?}"),
    }
}

fn list(r: &Response) -> (u16, Vec<String>) {
    match &r.body {
        Body::Error(e) => {
            assert!(e.error().is_none());
            (r.status, e.errors().clone().expect("a list of messages"))
        }
        other => panic!("no failure: {other:?}"),
    }
}

fn responded(c: Command) -> Response {
    match c {
        Command::Respond(r) => r,
        other => panic!("no plain answer: {other:?}"),
    }
}

fn aborted(c: Command) -> Response {
    match c {
        Command::Abort(r) => r,
        other => panic!("no rollback: {other:?}"),
    }
}

fn ok() -> Answer {
    Answer::Done(Ok(()))
}

fn failed() -> Answer {
    Answer::Done(Err("storage down".to_string()))
}

fn update_until_validated(cars: Vec<Car>, data: CarData, user: &str, car_id: i32) -> UpdateCar {
    let s = UpdateCar::start(1, car_id, Some(user.to_string()), data);
    assert!(matches!(s.action(), Command::Begin));
    let s = s.step_at(ok(), &at(1_000));
    assert!(matches!(s.action(), Command::LoadCars { event_id: 1 }));
    s.step_at(Answer::Cars(Ok(cars)), &at(1_000))
}

fn create_until_validated(cars: Vec<Car>, data: CarData, user: &str) -> CreateCar {
    let s = CreateCar::start(1, Some(user.to_string()), data);
    assert!(matches!(s.action(), Command::Begin));
    let s = s.step_at(ok(), &at(1_000));
    assert!(matches!(s.action(), Command::LoadCars { event_id: 1 }));
    s.step_at(Answer::Cars(Ok(cars)), &at(1_000))
}

#[test]
fn a_roster_grows_by_one_rider() {
    let cars = vec![car(10, "u1", 2, &["u2"])];
    let s = update_until_validated(cars, proposal(2, &["u2", "u5"]), "u1", 10);
    match s.action() {
        Command::UpdateCar { car_id, event_id, driver_id, data } => {
            assert_eq!((car_id, event_id, driver_id.as_str()), (10, 1, "u1"));
            assert_eq!(data.riders, names(&["u2", "u5"]));
            assert_eq!(data.max_capacity, 2);
        }
        other => panic!("{other:?}"),
    }
    let s = s.step_at(Answer::Car(Ok(Some(car(10, "u1", 2, &["u2"])))), &at(1_000));
    assert!(matches!(s.action(), Command::ClearRiders { car_id: 10 }));
    let s = s.step_at(Answer::Riders(Ok(names(&["u2"]))), &at(1_000));
    match s.action() {
        Command::InsertRiders { car_id, riders } => {
            assert_eq!(car_id, 10);
            assert_eq!(riders, names(&["u2", "u5"]));
        }
        other => panic!("{other:?}"),
    }
    let s = s.step_at(ok(), &at(1_000));
    assert!(matches!(s.action(), Command::Commit));
    let s = s.step_at(ok(), &at(1_000));
    match s.action() {
        Command::Enqueue(RedisJob::RiderUpdate(change)) => {
            assert_eq!((change.event_id, change.car_id), (1, 10));
            assert_eq!(change.old_riders, names(&["u2"]));
            assert_eq!(change.new_riders, names(&["u2", "u5"]));
            let diff = rider_diff(&change.old_riders, &change.new_riders);
            assert_eq!(diff.added, names(&["u5"]));
            assert!(diff.removed.is_empty());
        }
        other => panic!("{other:?}"),
    }
    let s = s.step_at(ok(), &at(1_000));
    let r = responded(s.action());
    assert_eq!(r.status, 200);
    assert!(matches!(&r.body, Body::Text(t) if t == "Car updated successfully"));
}

#[test]
fn the_same_roster_again_changes_nobody() {
    let cars = vec![car(10, "u1", 2, &["u2", "u3"])];
    let s = update_until_validated(cars, proposal(2, &["u2", "u3"]), "u1", 10);
    let s = s.step_at(Answer::Car(Ok(Some(car(10, "u1", 2, &["u2", "u3"])))), &at(1_000));
    let s = s.step_at(Answer::Riders(Ok(names(&["u3", "u2"]))), &at(1_000));
    let s = s.step_at(ok(), &at(1_000)).step_at(ok(), &at(1_000));
    match s.action() {
        Command::Enqueue(RedisJob::RiderUpdate(change)) => {
            let diff = rider_diff(&change.old_riders, &change.new_riders);
            assert!(diff.added.is_empty());
            assert!(diff.removed.is_empty());
        }
        other => panic!("{other:?}"),
    }
}

#[test]
fn a_failed_hand_over_does_not_change_the_answer() {
    let cars = vec![car(10, "u1", 2, &["u2"])];
    let s = update_until_validated(cars, proposal(2, &["u2"]), "u1", 10);
    let s = s.step_at(Answer::Car(Ok(Some(car(10, "u1", 2, &["u2"])))), &at(1_000));
    let s = s.step_at(Answer::Riders(Ok(names(&["u2"]))), &at(1_000));
    let s = s.step_at(ok(), &at(1_000)).step_at(ok(), &at(1_000));
    let s = s.step_at(failed(), &at(1_000));
    assert_eq!(responded(s.action()).status, 200);
}

#[test]
fn the_car_under_update_is_no_rival_of_itself() {
    let cars = vec![car(10, "u1", 2, &["u2"]), car(11, "u3", 2, &["u4"])];
    let s = update_until_validated(cars, proposal(2, &["u2"]), "u1", 10);
    assert!(matches!(s.action(), Command::UpdateCar { .. }));

    let cars = vec![car(10, "u1", 2, &["u2"]), car(11, "u3", 2, &["u4"])];
    let s = update_until_validated(cars, proposal(2, &["u4"]), "u1", 10);
    assert_eq!(
        list(&aborted(s.action())),
        (400, vec!["u4 is already in another car or is a driver.".to_string()])
    );
}

#[test]
fn other_cars_are_all_but_the_named_one() {
    let cars = vec![car(10, "a", 1, &[]), car(11, "b", 1, &[]), car(10, "c", 1, &[]), car(12, "d", 1, &[])];
    let ids: Vec<(i32, String)> =
        other_cars(&cars, 10).into_iter().map(|c| (c.id, c.driver.id)).collect();
    assert_eq!(ids, vec![(11, "b".to_string()), (12, "d".to_string())]);
    assert_eq!(other_cars(&cars, 99).len(), 4);
    assert!(other_cars(&vec![], 10).is_empty());
}

#[test]
fn a_car_of_another_driver_is_not_found() {
    let cars = vec![car(10, "u1", 2, &["u2"])];
    let s = update_until_validated(cars, proposal(2, &["u5"]), "u9", 10);
    match s.action() {
        Command::UpdateCar { driver_id, .. } => assert_eq!(driver_id, "u9"),
        other => panic!("{other:?}"),
    }
    let s = s.step_at(Answer::Car(Ok(None)), &at(1_000));
    assert_eq!(
        single(&aborted(s.action())),
        (404, "Car not found or you are not the driver.".to_string())
    );

    let s = DeleteCar::start(1, 10, Some("u9".to_string()));
    match s.action() {
        Command::DeleteCar { car_id, event_id, driver_id } => {
            assert_eq!((car_id, event_id, driver_id.as_str()), (10, 1, "u9"));
        }
        other => panic!("{other:?}"),
    }
    let s = s.step(Answer::Deleted(Ok(None)));
    assert_eq!(
        single(&responded(s.action())),
        (404, "Car not found or you are not the driver.".to_string())
    );
}

#[test]
fn an_update_needs_a_user() {
    let s = UpdateCar::start(1, 10, None, proposal(2, &[]));
    assert_eq!(
        single(&responded(s.action())),
        (401, "Failed to get user data from session".to_string())
    );
    let s = s.step_at(ok(), &at(1_000));
    assert_eq!(responded(s.action()).status, 401);
}

#[test]
fn an_update_that_breaks_the_rules_is_rolled_back() {
    let s = update_until_validated(vec![], proposal(1, &["u2", "u3"]), "u1", 10);
    assert_eq!(
        list(&aborted(s.action())),
        (400, vec!["You have too many riders for your capacity.".to_string()])
    );
}

#[test]
fn an_update_reports_the_step_that_failed() {
    let s = UpdateCar::start(1, 10, Some("u1".to_string()), proposal(2, &[]));
    let s = s.step_at(failed(), &at(1_000));
    assert_eq!(
        single(&responded(s.action())),
        (500, "Failed to make SQL Transaction".to_string())
    );

    let s = UpdateCar::start(1, 10, Some("u1".to_string()), proposal(2, &[]));
    let s = s.step_at(ok(), &at(1_000)).step_at(Answer::Cars(Err("x".to_string())), &at(1_000));
    assert_eq!(
        single(&aborted(s.action())),
        (500, "Failed to get other cars for data validation".to_string())
    );

    let s = update_until_validated(vec![], proposal(2, &[]), "u1", 10);
    let s = s.step_at(Answer::Car(Err("x".to_string())), &at(1_000));
    assert_eq!(single(&aborted(s.action())), (500, "Failed to update car".to_string()));

    let s = update_until_validated(vec![], proposal(2, &[]), "u1", 10);
    let s = s.step_at(Answer::Car(Ok(Some(car(10, "u1", 2, &[])))), &at(1_000));
    let s = s.step_at(Answer::Riders(Err("x".to_string())), &at(1_000));
    assert_eq!(single(&aborted(s.action())), (500, "Failed to remove old riders".to_string()));

    let s = update_until_validated(vec![], proposal(2, &[]), "u1", 10);
    let s = s.step_at(Answer::Car(Ok(Some(car(10, "u1", 2, &[])))), &at(1_000));
    let s = s.step_at(Answer::Riders(Ok(vec![])), &at(1_000)).step_at(failed(), &at(1_000));
    assert_eq!(single(&aborted(s.action())), (500, "Failed to add new riders".to_string()));

    let s = update_until_validated(vec![], proposal(2, &[]), "u1", 10);
    let s = s.step_at(Answer::Car(Ok(Some(car(10, "u1", 2, &[])))), &at(1_000));
    let s = s.step_at(Answer::Riders(Ok(vec![])), &at(1_000)).step_at(ok(), &at(1_000));
    let s = s.step_at(failed(), &at(1_000));
    assert_eq!(
        single(&responded(s.action())),
        (500, "Failed to commit transaction".to_string())
    );
}

#[test]
fn an_update_reads_the_clock() {
    let s = UpdateCar::start(1, 10, Some("u1".to_string()), proposal(2, &[]));
    let s = s.step(ok()).step(Answer::Cars(Ok(vec![])));
    assert_eq!(
        list(&aborted(s.action())),
        (400, vec!["Car cannot leave in the past.".to_string()])
    );
}

#[test]
fn a_new_car_is_stored_with_its_riders() {
    let s = create_until_validated(vec![car(10, "u1", 2, &["u2"])], proposal(2, &["u5"]), "u4");
    match s.action() {
        Command::InsertCar { event_id, driver_id, data } => {
            assert_eq!((event_id, driver_id.as_str()), (1, "u4"));
            assert_eq!(data.riders, names(&["u5"]));
            assert_eq!(data.comment, "see you there");
        }
        other => panic!("{other:?}"),
    }
    let s = s.step_at(Answer::NewCar(Ok(car(42, "u4", 2, &[]))), &at(1_000));
    match s.action() {
        Command::InsertRiders { car_id, riders } => {
            assert_eq!(car_id, 42);
            assert_eq!(riders, names(&["u5"]));
        }
        other => panic!("{other:?}"),
    }
    let s = s.step_at(ok(), &at(1_000));
    assert!(matches!(s.action(), Command::Commit));
    let s = s.step_at(ok(), &at(1_000));
    match s.action() {
        Command::Enqueue(RedisJob::RiderUpdate(change)) => {
            assert_eq!((change.event_id, change.car_id), (1, 42));
            assert!(change.old_riders.is_empty());
            assert_eq!(change.new_riders, names(&["u5"]));
        }
        other => panic!("{other:?}"),
    }
    let s = s.step_at(failed(), &at(1_000));
    let r = responded(s.action());
    assert_eq!(r.status, 200);
    assert!(matches!(r.body, Body::Id(42)));
}

#[test]
fn a_new_car_with_a_rider_from_another_car_is_refused() {
    let s = create_until_validated(vec![car(10, "u1", 2, &["u2"])], proposal(2, &["u2"]), "u3");
    assert_eq!(
        list(&aborted(s.action())),
        (400, vec!["u2 is already in another car or is a driver.".to_string()])
    );
}

#[test]
fn a_new_car_of_a_rider_in_another_car_is_refused() {
    let s = create_until_validated(vec![car(10, "u1", 2, &["u2"])], proposal(1, &["u3"]), "u2");
    assert_eq!(
        list(&aborted(s.action())),
        (400, vec!["u2 is already in another car or is a driver.".to_string()])
    );
}

#[test]
fn an_update_by_a_rider_of_another_car_is_refused() {
    let cars = vec![car(10, "u1", 2, &["u2"]), car(11, "u3", 2, &["u4"])];
    let s = update_until_validated(cars, proposal(2, &["u5"]), "u4", 10);
    assert_eq!(
        list(&aborted(s.action())),
        (400, vec!["u4 is already in another car or is a driver.".to_string()])
    );
}

#[test]
fn a_new_car_with_its_driver_as_rider_is_refused() {
    let s = create_until_validated(vec![car(10, "u1", 2, &["u2"])], proposal(1, &["u4"]), "u4");
    assert_eq!(
        list(&aborted(s.action())),
        (400, vec!["You cannot be a rider in your own car.".to_string()])
    );
}

#[test]
fn a_new_car_reports_the_step_that_failed() {
    let s = CreateCar::start(1, None, proposal(2, &[]));
    assert_eq!(
        single(&responded(s.action())),
        (401, "Failed to get user data from session".to_string())
    );

    let s = CreateCar::start(1, Some("u1".to_string()), proposal(2, &[]));
    let s = s.step_at(failed(), &at(1_000));
    assert_eq!(
        single(&responded(s.action())),
        (500, "Failed to make SQL Transaction".to_string())
    );

    let s = CreateCar::start(1, Some("u1".to_string()), proposal(2, &[]));
    let s = s.step_at(ok(), &at(1_000)).step_at(Answer::Cars(Err("x".to_string())), &at(1_000));
    assert_eq!(
        single(&aborted(s.action())),
        (500, "Failed to get other cars for data validation".to_string())
    );

    let s = create_until_validated(vec![], proposal(2, &[]), "u1");
    let s = s.step_at(Answer::NewCar(Err("x".to_string())), &at(1_000));
    assert_eq!(
        single(&aborted(s.action())),
        (500, "Failed to create new car in database".to_string())
    );

    let s = create_until_validated(vec![], proposal(2, &[]), "u1");
    let s = s.step_at(Answer::NewCar(Ok(car(42, "u1", 2, &[]))), &at(1_000));
    let s = s.step_at(failed(), &at(1_000));
    assert_eq!(single(&aborted(s.action())), (500, "Failed to add riders to car".to_string()));

    let s = create_until_validated(vec![], proposal(2, &[]), "u1");
    let s = s.step_at(Answer::NewCar(Ok(car(42, "u1", 2, &[]))), &at(1_000));
    let s = s.step_at(ok(), &at(1_000)).step_at(failed(), &at(1_000));
    assert_eq!(
        single(&responded(s.action())),
        (500, "Failed to commit transaction".to_string())
    );
}

#[test]
fn a_new_car_reads_the_clock() {
    let mut data = proposal(2, &[]);
    let now = Timestamp::now();
    data.departure_time = at(now.secs + 3_600);
    data.return_time = at(now.secs + 7_200);
    let s = CreateCar::start(1, Some("u1".to_string()), data);
    let s = s.step(ok()).step(Answer::Cars(Ok(vec![])));
    assert!(matches!(s.action(), Command::InsertCar { .. }));
}

#[test]
fn a_driver_deletes_the_car() {
    let s = DeleteCar::start(1, 10, Some("u1".to_string()));
    let s = s.step(Answer::Deleted(Ok(Some(10))));
    let r = responded(s.action());
    assert_eq!(r.status, 200);
    assert!(matches!(&r.body, Body::Message(t) if t == "Car deleted"));
}

#[test]
fn a_deletion_reports_what_failed() {
    let s = DeleteCar::start(1, 10, None);
    assert_eq!(
        single(&responded(s.action())),
        (401, "Failed to get user data from session".to_string())
    );
    let s = DeleteCar::start(1, 10, Some("u1".to_string()));
    let s = s.step(Answer::Deleted(Err("x".to_string())));
    assert_eq!(single(&responded(s.action())), (500, "Failed to delete car".to_string()));
}

#[test]
fn a_car_is_shown_or_missed() {
    let r = get_car(Ok(Some(car(10, "u1", 2, &["u2"]))));
    assert_eq!(r.status, 200);
    match r.body {
        Body::Car(c) => {
            assert_eq!(c.id, 10);
            assert_eq!(c.driver.id, "u1");
            assert_eq!(c.riders.unwrap()[0].id, "u2");
        }
        other => panic!("{other:?}"),
    }
    assert_eq!(single(&get_car(Ok(None))), (404, "Car not found".to_string()));
    assert_eq!(single(&get_car(Err("x".to_string()))), (500, "Failed to get Car".to_string()));
}

#[test]
fn the_cars_of_an_event_are_shown() {
    let r = get_all_cars(Ok(vec![car(10, "u1", 2, &[]), car(11, "u2", 2, &[])]));
    assert_eq!(r.status, 200);
    match r.body {
        Body::Cars(cars) => assert_eq!(cars.iter().map(|c| c.id).collect::<Vec<_>>(), vec![10, 11]),
        other => panic!("{other:?}"),
    }
    assert_eq!(
        single(&get_all_cars(Err("x".to_string()))),
        (500, "Failed to get cars".to_string())
    );
}
