use rideboard::db::car::{Car, CarData};
use rideboard::db::event::EventData;
use rideboard::db::user::{UserData, UserRealm};
use rideboard::time::Timestamp;

fn user(id: &str) -> UserData {
    UserData {
        id: id.to_string(),
        realm: "csh".to_string(),
        name: format!("Name of {id}"),
        email: format!("{id}@csh.rit.edu"),
    }
}

fn at(secs: i64) -> Timestamp {
    Timestamp::new(secs, 0)
}

fn car(id: i32, driver: &str, capacity: i32, riders: &[&str]) -> Car {
    Car {
        id,
        event_id: Some(1),
        driver: user(driver),
        riders: Some(riders.iter().map(|r| user(r)).collect()),
        max_capacity: capacity,
        departure_time: at(2_000),
        return_time: at(3_000),
        comment: String::new(),
    }
}

fn proposal(capacity: i32, riders: &[&str]) -> CarData {
    CarData {
        max_capacity: capacity,
        departure_time: at(2_000),
        return_time: at(3_000),
        comment: "see you there".to_string(),
        riders: riders.iter().map(|r| r.to_string()).collect(),
    }
}

#[test]
fn a_sound_car_passes() {
    let data = proposal(2, &["u2", "u3"]);
    let others = vec![car(1, "u4", 1, &["u5"])];
    assert_eq!(data.validate_at(&"u1".to_string(), &others, &at(1_000)), Ok(()));
}

#[test]
fn a_car_without_seats_and_riders_passes() {
    let data = proposal(0, &[]);
    assert_eq!(data.validate_at(&"u1".to_string(), &vec![], &at(1_000)), Ok(()));
}

#[test]
fn return_before_departure_is_refused() {
    let mut data = proposal(2, &[]);
    data.return_time = at(1_999);
    assert_eq!(
        data.validate_at(&"u1".to_string(), &vec![], &at(1_000)),
        Err(vec!["Return time cannot be before departure.".to_string()])
    );
}

#[test]
fn return_at_departure_passes() {
    let mut data = proposal(2, &[]);
    data.return_time = data.departure_time;
    assert_eq!(data.validate_at(&"u1".to_string(), &vec![], &at(1_000)), Ok(()));
}

#[test]
fn nanoseconds_decide_between_equal_seconds() {
    let mut data = proposal(2, &[]);
    data.departure_time = Timestamp::new(2_000, 500);
    data.return_time = Timestamp::new(2_000, 499);
    assert_eq!(
        data.validate_at(&"u1".to_string(), &vec![], &at(1_000)),
        Err(vec!["Return time cannot be before departure.".to_string()])
    );
    assert!(Timestamp::new(5, 1).is_before(&Timestamp::new(5, 2)));
    assert!(!Timestamp::new(5, 2).is_before(&Timestamp::new(5, 2)));
    assert!(Timestamp::new(-1, 900).is_before(&Timestamp::new(0, 0)));
    assert!(!Timestamp::new(6, 0).is_before(&Timestamp::new(5, 999)));
}

#[test]
fn departure_in_the_past_is_refused() {
    let data = proposal(2, &[]);
    assert_eq!(
        data.validate_at(&"u1".to_string(), &vec![], &at(2_001)),
        Err(vec!["Car cannot leave in the past.".to_string()])
    );
    assert_eq!(data.validate_at(&"u1".to_string(), &vec![], &at(2_000)), Ok(()));
}

#[test]
fn negative_capacity_is_refused_and_holds_no_roster() {
    let data = proposal(-1, &[]);
    assert_eq!(
        data.validate_at(&"u1".to_string(), &vec![], &at(1_000)),
        Err(vec![
            "Capacity must be greater than or equal to 0".to_string(),
            "You have too many riders for your capacity.".to_string(),
        ])
    );
}

#[test]
fn too_many_riders_are_refused_whatever_else_is_wrong() {
    let mut data = proposal(1, &["u2", "u3"]);
    let found = data.validate_at(&"u1".to_string(), &vec![], &at(1_000)).unwrap_err();
    assert_eq!(found, vec!["You have too many riders for your capacity.".to_string()]);

    data.return_time = at(0);
    data.departure_time = at(1);
    data.riders.push("u1".to_string());
    let others = vec![car(1, "u2", 3, &["u3"])];
    let found = data.validate_at(&"u1".to_string(), &others, &at(1_000)).unwrap_err();
    assert!(found.contains(&"You have too many riders for your capacity.".to_string()));
}

#[test]
fn the_roster_may_fill_the_car() {
    let data = proposal(2, &["u2", "u3"]);
    assert_eq!(data.validate_at(&"u1".to_string(), &vec![], &at(1_000)), Ok(()));
}

#[test]
fn the_driver_cannot_ride_along() {
    let data = proposal(1, &["u4"]);
    assert_eq!(
        data.validate_at(&"u4".to_string(), &vec![], &at(1_000)),
        Err(vec!["You cannot be a rider in your own car.".to_string()])
    );
}

#[test]
fn a_rider_of_another_car_is_refused() {
    let others = vec![car(1, "u1", 2, &["u2"])];
    let data = proposal(2, &["u2"]);
    assert_eq!(
        data.validate_at(&"u3".to_string(), &others, &at(1_000)),
        Err(vec!["u2 is already in another car or is a driver.".to_string()])
    );
}

#[test]
fn a_driver_of_another_car_is_refused_as_rider() {
    let others = vec![car(1, "u1", 2, &["u2"])];
    let data = proposal(2, &["u1"]);
    assert_eq!(
        data.validate_at(&"u3".to_string(), &others, &at(1_000)),
        Err(vec!["u1 is already in another car or is a driver.".to_string()])
    );
}

#[test]
fn a_rider_of_another_car_cannot_offer_a_car() {
    let others = vec![car(1, "u1", 2, &["u2"])];
    let data = proposal(1, &["u3"]);
    assert_eq!(
        data.validate_at(&"u2".to_string(), &others, &at(1_000)),
        Err(vec!["u2 is already in another car or is a driver.".to_string()])
    );
}

#[test]
fn a_driver_of_another_car_cannot_offer_a_second_car() {
    let others = vec![car(1, "u1", 2, &["u2"])];
    let data = proposal(2, &[]);
    assert_eq!(
        data.validate_at(&"u1".to_string(), &others, &at(1_000)),
        Err(vec!["u1 is already in another car or is a driver.".to_string()])
    );
}

#[test]
fn the_driver_in_another_car_is_named_before_the_riders() {
    let others = vec![car(1, "u1", 2, &["u2", "u3"])];
    let data = proposal(2, &["u3", "u2"]);
    assert_eq!(
        data.validate_at(&"u2".to_string(), &others, &at(1_000)),
        Err(vec![
            "You cannot be a rider in your own car.".to_string(),
            "u2 is already in another car or is a driver.".to_string(),
            "u3 is already in another car or is a driver.".to_string(),
            "u2 is already in another car or is a driver.".to_string(),
        ])
    );
}

#[test]
fn a_car_without_rider_list_counts_with_its_driver() {
    let mut other = car(1, "u1", 2, &[]);
    other.riders = None;
    let data = proposal(2, &["u1", "u2"]);
    assert_eq!(
        data.validate_at(&"u3".to_string(), &vec![other], &at(1_000)),
        Err(vec!["u1 is already in another car or is a driver.".to_string()])
    );
}

#[test]
fn every_broken_rule_is_reported_in_order() {
    let others = vec![car(1, "u1", 2, &["u2"]), car(2, "u5", 2, &[])];
    let data = CarData {
        max_capacity: 3,
        departure_time: at(500),
        return_time: at(400),
        comment: String::new(),
        riders: vec!["u5".to_string(), "u9".to_string(), "u2".to_string(), "u7".to_string()],
    };
    assert_eq!(
        data.validate_at(&"u9".to_string(), &others, &at(1_000)),
        Err(vec![
            "Return time cannot be before departure.".to_string(),
            "Car cannot leave in the past.".to_string(),
            "You have too many riders for your capacity.".to_string(),
            "You cannot be a rider in your own car.".to_string(),
            "u5 is already in another car or is a driver.".to_string(),
            "u2 is already in another car or is a driver.".to_string(),
        ])
    );
}

#[test]
fn a_rider_named_twice_is_reported_twice() {
    let others = vec![car(1, "u1", 2, &["u2"])];
    let data = proposal(5, &["u2", "u3", "u2"]);
    assert_eq!(
        data.validate_at(&"u4".to_string(), &others, &at(1_000)),
        Err(vec![
            "u2 is already in another car or is a driver.".to_string(),
            "u2 is already in another car or is a driver.".to_string(),
        ])
    );
}

#[test]
fn validation_reads_the_clock() {
    let now = Timestamp::now();
    assert!(now.secs > 1_600_000_000);
    assert!(now.nanos < 1_000_000_000);

    let mut data = proposal(2, &[]);
    data.departure_time = at(1_000_000_000);
    data.return_time = at(1_000_000_001);
    assert_eq!(
        data.validate(&"u1".to_string(), vec![]),
        Err(vec!["Car cannot leave in the past.".to_string()])
    );
    data.departure_time = at(now.secs + 86_400);
    data.return_time = at(now.secs + 90_000);
    assert_eq!(data.validate(&"u1".to_string(), vec![]), Ok(()));
}

#[test]
fn membership_counts_drivers_and_riders() {
    let cars = vec![car(1, "u1", 2, &["u2"]), car(2, "u3", 2, &[])];
    assert!(Car::user_in_car(&cars, &"u1".to_string()));
    assert!(Car::user_in_car(&cars, &"u2".to_string()));
    assert!(Car::user_in_car(&cars, &"u3".to_string()));
    assert!(!Car::user_in_car(&cars, &"u4".to_string()));
    assert!(!Car::user_in_car(&vec![], &"u1".to_string()));
    assert!(cars[0].has_member(&"u2".to_string()));
    assert!(!cars[1].has_member(&"u2".to_string()));
}

#[test]
fn validated_cars_keep_everybody_in_one_car() {
    let pool = ["a", "b", "c", "d", "e", "f", "g", "h"];
    let mut cars: Vec<Car> = Vec::new();
    let mut next_id = 1;
    for driver in 0..pool.len() {
        for first in 0..pool.len() {
            let riders = [pool[first], pool[(first + 3) % pool.len()]];
            let data = proposal(2, &riders);
            let user = pool[driver].to_string();
            if data.validate_at(&user, &cars, &at(1_000)).is_ok() {
                cars.push(car(next_id, pool[driver], 2, &riders));
                next_id += 1;
            }
        }
    }
    assert!(!cars.is_empty());
    for who in pool {
        let seats = cars.iter().filter(|c| c.has_member(&who.to_string())).count();
        assert!(seats <= 1, "{who} sits in {seats} cars");
    }
}

#[test]
fn a_sound_event_passes() {
    let data = EventData {
        name: "Picnic".to_string(),
        location: "Park".to_string(),
        start_time: at(2_000),
        end_time: at(3_000),
    };
    assert_eq!(data.validate_at(&at(1_000)), Ok(()));
    assert_eq!(data.validate_at(&at(3_000)), Ok(()));
}

#[test]
fn every_broken_event_rule_is_reported_in_order() {
    let data = EventData {
        name: String::new(),
        location: String::new(),
        start_time: at(3_000),
        end_time: at(2_000),
    };
    assert_eq!(
        data.validate_at(&at(2_001)),
        Err(vec![
            "Missing Name.".to_string(),
            "Missing Location.".to_string(),
            "Start date cannot be after end date.".to_string(),
            "Event cannot be in the past.".to_string(),
        ])
    );
}

#[test]
fn an_event_that_ended_is_refused() {
    let data = EventData {
        name: "Picnic".to_string(),
        location: "Park".to_string(),
        start_time: at(1_000_000_000),
        end_time: at(1_000_000_100),
    };
    assert_eq!(data.validate(), Err(vec!["Event cannot be in the past.".to_string()]));
}

#[test]
fn realms_are_stored_in_lower_case() {
    assert_eq!(UserRealm::Csh.as_string(), "csh");
    assert_eq!(UserRealm::Google.as_string(), "google");
    assert!(user("u1").receives_pings());
    let mut other = user("u2");
    other.realm = "google".to_string();
    assert!(!other.receives_pings());
    other.realm = "CSH".to_string();
    assert!(!other.receives_pings());
}
