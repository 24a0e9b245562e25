//! Requests about the cars of an event.
//!
//! A handler waits on the storage and the queue. What it decides in between
//! stands here: a state names the one command that is due, and a step takes
//! the answer to it. A request that changes a car validates and changes inside
//! one transaction, and hands its job to the queue only after the commit.

pub mod rider;

use vstd::prelude::*;
use vstd::string::*;
use crate::app::{
    Body, BodyView, MultipleRiderChange, MultipleRiderChangeView, RedisJob, RedisJobView,
    Response, ResponseView, STATUS_INTERNAL, STATUS_NOT_FOUND, STATUS_OK,
};
use crate::db::car::{lemma_verdict_keeps_apart, Car, CarData, CarDataView, CarView};
use crate::time::Timestamp;

verus! {

/// What a handler asks for.
#[derive(Debug)]
pub enum Command {
    /// Open a transaction.
    Begin,
    /// Read the cars of an event.
    LoadCars { event_id: i32 },
    /// Read one car of an event.
    LoadCar { event_id: i32, car_id: i32 },
    /// Store a new car for this driver.
    InsertCar { event_id: i32, driver_id: String, data: CarData },
    /// Change the fields of the car with this id, this event and this driver,
    /// and of no other.
    UpdateCar { car_id: i32, event_id: i32, driver_id: String, data: CarData },
    /// Delete the car with this id, this event and this driver, and no other.
    DeleteCar { car_id: i32, event_id: i32, driver_id: String },
    /// Delete all riders of a car and report who they were.
    ClearRiders { car_id: i32 },
    /// Store these riders of a car, all at once.
    InsertRiders { car_id: i32, riders: Vec<String> },
    /// Store one rider of a car.
    InsertRider { car_id: i32, rider: String },
    /// Delete one rider of a car.
    DeleteRider { car_id: i32, rider: String },
    /// Ask whether a user drives a car of the event or rides in one.
    UserInCar { event_id: i32, user_id: String },
    /// Commit the transaction.
    Commit,
    /// Hand a job to the queue.
    Enqueue(RedisJob),
    /// Roll the transaction back, then answer the request.
    Abort(Response),
    /// Answer the request.
    Respond(Response),
}

pub enum CommandView {
    Begin,
    LoadCars { event_id: i32 },
    LoadCar { event_id: i32, car_id: i32 },
    InsertCar { event_id: i32, driver_id: Seq<char>, data: CarDataView },
    UpdateCar { car_id: i32, event_id: i32, driver_id: Seq<char>, data: CarDataView },
    DeleteCar { car_id: i32, event_id: i32, driver_id: Seq<char> },
    ClearRiders { car_id: i32 },
    InsertRiders { car_id: i32, riders: Seq<Seq<char>> },
    InsertRider { car_id: i32, rider: Seq<char> },
    DeleteRider { car_id: i32, rider: Seq<char> },
    UserInCar { event_id: i32, user_id: Seq<char> },
    Commit,
    Enqueue(RedisJobView),
    Abort(ResponseView),
    Respond(ResponseView),
}

impl View for Command {
    type V = CommandView;

    open spec fn view(&self) -> CommandView {
        match self {
            Command::Begin => CommandView::Begin,
            Command::LoadCars { event_id } => CommandView::LoadCars { event_id: *event_id },
            Command::LoadCar { event_id, car_id } => CommandView::LoadCar {
                event_id: *event_id,
                car_id: *car_id,
            },
            Command::InsertCar { event_id, driver_id, data } => CommandView::InsertCar {
                event_id: *event_id,
                driver_id: driver_id@,
                data: data@,
            },
            Command::UpdateCar { car_id, event_id, driver_id, data } => CommandView::UpdateCar {
                car_id: *car_id,
                event_id: *event_id,
                driver_id: driver_id@,
                data: data@,
            },
            Command::DeleteCar { car_id, event_id, driver_id } => CommandView::DeleteCar {
                car_id: *car_id,
                event_id: *event_id,
                driver_id: driver_id@,
            },
            Command::ClearRiders { car_id } => CommandView::ClearRiders { car_id: *car_id },
            Command::InsertRiders { car_id, riders } => CommandView::InsertRiders {
                car_id: *car_id,
                riders: riders.deep_view(),
            },
            Command::InsertRider { car_id, rider } => CommandView::InsertRider {
                car_id: *car_id,
                rider: rider@,
            },
            Command::DeleteRider { car_id, rider } => CommandView::DeleteRider {
                car_id: *car_id,
                rider: rider@,
            },
            Command::UserInCar { event_id, user_id } => CommandView::UserInCar {
                event_id: *event_id,
                user_id: user_id@,
            },
            Command::Commit => CommandView::Commit,
            Command::Enqueue(job) => CommandView::Enqueue(job@),
            Command::Abort(r) => CommandView::Abort(r@),
            Command::Respond(r) => CommandView::Respond(r@),
        }
    }
}

/// What came of a command. A failure carries the cause, for the log.
#[derive(Debug)]
pub enum Answer {
    /// `Begin`, `InsertRiders`, `InsertRider`, `DeleteRider`, `Commit` or
    /// `Enqueue` went through, or did not.
    Done(Result<(), String>),
    /// The cars that `LoadCars` read.
    Cars(Result<Vec<Car>, String>),
    /// The car that `LoadCar` read or `UpdateCar` changed, if there is one.
    Car(Result<Option<Car>, String>),
    /// The car that `InsertCar` stored.
    NewCar(Result<Car, String>),
    /// The id of the car that `DeleteCar` deleted, if there was one.
    Deleted(Result<Option<i32>, String>),
    /// The riders that `ClearRiders` deleted.
    Riders(Result<Vec<String>, String>),
    /// What `UserInCar` found.
    Present(Result<bool, String>),
}

pub enum AnswerView {
    Done(Result<(), Seq<char>>),
    Cars(Result<Seq<CarView>, Seq<char>>),
    Car(Result<Option<CarView>, Seq<char>>),
    NewCar(Result<CarView, Seq<char>>),
    Deleted(Result<Option<i32>, Seq<char>>),
    Riders(Result<Seq<Seq<char>>, Seq<char>>),
    Present(Result<bool, Seq<char>>),
}

impl View for Answer {
    type V = AnswerView;

    open spec fn view(&self) -> AnswerView {
        match self {
            Answer::Done(Ok(_)) => AnswerView::Done(Ok(())),
            Answer::Done(Err(e)) => AnswerView::Done(Err(e@)),
            Answer::Cars(Ok(c)) => AnswerView::Cars(Ok(c.deep_view())),
            Answer::Cars(Err(e)) => AnswerView::Cars(Err(e@)),
            Answer::Car(Ok(c)) => AnswerView::Car(Ok(c.deep_view())),
            Answer::Car(Err(e)) => AnswerView::Car(Err(e@)),
            Answer::NewCar(Ok(c)) => AnswerView::NewCar(Ok(c@)),
            Answer::NewCar(Err(e)) => AnswerView::NewCar(Err(e@)),
            Answer::Deleted(Ok(id)) => AnswerView::Deleted(Ok(*id)),
            Answer::Deleted(Err(e)) => AnswerView::Deleted(Err(e@)),
            Answer::Riders(Ok(r)) => AnswerView::Riders(Ok(r.deep_view())),
            Answer::Riders(Err(e)) => AnswerView::Riders(Err(e@)),
            Answer::Present(Ok(b)) => AnswerView::Present(Ok(*b)),
            Answer::Present(Err(e)) => AnswerView::Present(Err(e@)),
        }
    }
}

/// The cars of `cars` but the one with the id `car_id`, in their order.
pub open spec fn except_car(cars: Seq<CarView>, car_id: i32) -> Seq<CarView>
    decreases cars.len(),
{
    if cars.len() == 0 {
        Seq::empty()
    } else {
        let init = except_car(cars.drop_last(), car_id);
        if cars.last().id == car_id {
            init
        } else {
            init.push(cars.last())
        }
    }
}

/// The cars of `cars` but the one with the id `car_id`.
pub fn other_cars(cars: &Vec<Car>, car_id: i32) -> (r: Vec<Car>)
    ensures
        r.deep_view() == except_car(cars.deep_view(), car_id),
{
    let mut r: Vec<Car> = Vec::new();
    let mut i: usize = 0;
    let ghost all = cars.deep_view();
    proof {
        assert(all.take(0) =~= Seq::<CarView>::empty());
        assert(r.deep_view() =~= Seq::<CarView>::empty());
    }
    while i < cars.len()
        invariant
            i <= cars.len(),
            all == cars.deep_view(),
            r.deep_view() == except_car(all.take(i as int), car_id),
        decreases cars.len() - i,
    {
        let ghost before = r.deep_view();
        proof {
            assert(all.take(i + 1).drop_last() =~= all.take(i as int));
            assert(all.take(i + 1).last() == cars[i as int]@);
        }
        if cars[i].id != car_id {
            r.push(cars[i].clone());
            assert(r.deep_view() =~= before.push(cars[i as int]@));
        }
        i += 1;
    }
    proof {
        assert(all.take(cars.len() as int) =~= all);
    }
    r
}

/// A request to replace a car: its fields and its whole roster.
#[derive(Debug)]
pub struct CarChange {
    pub event_id: i32,
    pub car_id: i32,
    /// The user who asks, and so the only driver whose car may change.
    pub user_id: String,
    pub car: CarData,
}

pub struct CarChangeView {
    pub event_id: i32,
    pub car_id: i32,
    pub user_id: Seq<char>,
    pub car: CarDataView,
}

impl View for CarChange {
    type V = CarChangeView;

    open spec fn view(&self) -> CarChangeView {
        CarChangeView {
            event_id: self.event_id,
            car_id: self.car_id,
            user_id: self.user_id@,
            car: self.car@,
        }
    }
}

impl CarChangeView {
    /// The job that reports the change from `old_riders` to the new roster.
    pub open spec fn job(self, old_riders: Seq<Seq<char>>) -> RedisJobView {
        RedisJobView::RiderUpdate(
            MultipleRiderChangeView {
                event_id: self.event_id,
                car_id: self.car_id,
                old_riders,
                new_riders: self.car.riders,
            },
        )
    }
}

impl CarChange {
    fn job(&self, old_riders: &Vec<String>) -> (j: RedisJob)
        ensures
            j@ == self@.job(old_riders.deep_view()),
    {
        RedisJob::RiderUpdate(
            MultipleRiderChange {
                event_id: self.event_id,
                car_id: self.car_id,
                old_riders: old_riders.clone(),
                new_riders: self.car.riders.clone(),
            },
        )
    }
}

/// Where the handling of a request to replace a car stands.
#[derive(Debug)]
pub enum UpdateCar {
    /// The transaction is being opened.
    Begin(CarChange),
    /// The cars of the event are being read, for validation.
    LoadCars(CarChange),
    /// The car's fields are being changed.
    Update(CarChange),
    /// The car's riders are being deleted.
    ClearRiders(CarChange),
    /// The new riders are being stored.
    InsertRiders { change: CarChange, old_riders: Vec<String> },
    /// The transaction is being committed.
    Commit { change: CarChange, old_riders: Vec<String> },
    /// The job is being handed to the queue.
    Enqueue { change: CarChange, old_riders: Vec<String> },
    /// The transaction is rolled back and the request answered.
    Abort(Response),
    /// The request is answered.
    Respond(Response),
}

pub enum UpdateCarView {
    Begin(CarChangeView),
    LoadCars(CarChangeView),
    Update(CarChangeView),
    ClearRiders(CarChangeView),
    InsertRiders { change: CarChangeView, old_riders: Seq<Seq<char>> },
    Commit { change: CarChangeView, old_riders: Seq<Seq<char>> },
    Enqueue { change: CarChangeView, old_riders: Seq<Seq<char>> },
    Abort(ResponseView),
    Respond(ResponseView),
}

impl View for UpdateCar {
    type V = UpdateCarView;

    open spec fn view(&self) -> UpdateCarView {
        match self {
            UpdateCar::Begin(c) => UpdateCarView::Begin(c@),
            UpdateCar::LoadCars(c) => UpdateCarView::LoadCars(c@),
            UpdateCar::Update(c) => UpdateCarView::Update(c@),
            UpdateCar::ClearRiders(c) => UpdateCarView::ClearRiders(c@),
            UpdateCar::InsertRiders { change, old_riders } => UpdateCarView::InsertRiders {
                change: change@,
                old_riders: old_riders.deep_view(),
            },
            UpdateCar::Commit { change, old_riders } => UpdateCarView::Commit {
                change: change@,
                old_riders: old_riders.deep_view(),
            },
            UpdateCar::Enqueue { change, old_riders } => UpdateCarView::Enqueue {
                change: change@,
                old_riders: old_riders.deep_view(),
            },
            UpdateCar::Abort(r) => UpdateCarView::Abort(r@),
            UpdateCar::Respond(r) => UpdateCarView::Respond(r@),
        }
    }
}

pub open spec fn msg_no_transaction() -> Seq<char> {
    "Failed to make SQL Transaction"@
}

pub open spec fn msg_no_other_cars() -> Seq<char> {
    "Failed to get other cars for data validation"@
}

pub open spec fn msg_not_driver() -> Seq<char> {
    "Car not found or you are not the driver."@
}

pub open spec fn msg_update_failed() -> Seq<char> {
    "Failed to update car"@
}

pub open spec fn msg_clear_failed() -> Seq<char> {
    "Failed to remove old riders"@
}

pub open spec fn msg_new_riders_failed() -> Seq<char> {
    "Failed to add new riders"@
}

pub open spec fn msg_commit_failed() -> Seq<char> {
    "Failed to commit transaction"@
}

pub open spec fn msg_updated() -> Seq<char> {
    "Car updated successfully"@
}

impl UpdateCarView {
    /// The state of a request by `user`, if a user is logged in.
    pub open spec fn start(
        event_id: i32,
        car_id: i32,
        user: Option<Seq<char>>,
        car: CarDataView,
    ) -> UpdateCarView {
        match user {
            Some(user_id) => UpdateCarView::Begin(CarChangeView { event_id, car_id, user_id, car }),
            None => UpdateCarView::Respond(ResponseView::no_session()),
        }
    }

    /// The command that is due.
    pub open spec fn action(self) -> CommandView {
        match self {
            UpdateCarView::Begin(_) => CommandView::Begin,
            UpdateCarView::LoadCars(c) => CommandView::LoadCars { event_id: c.event_id },
            UpdateCarView::Update(c) => CommandView::UpdateCar {
                car_id: c.car_id,
                event_id: c.event_id,
                driver_id: c.user_id,
                data: c.car,
            },
            UpdateCarView::ClearRiders(c) => CommandView::ClearRiders { car_id: c.car_id },
            UpdateCarView::InsertRiders { change, .. } => CommandView::InsertRiders {
                car_id: change.car_id,
                riders: change.car.riders,
            },
            UpdateCarView::Commit { .. } => CommandView::Commit,
            UpdateCarView::Enqueue { change, old_riders } => CommandView::Enqueue(
                change.job(old_riders),
            ),
            UpdateCarView::Abort(r) => CommandView::Abort(r),
            UpdateCarView::Respond(r) => CommandView::Respond(r),
        }
    }

    /// The state after `answer`, where the cars were validated at the time
    /// `now`. An answer to another command than the one due changes nothing.
    ///
    /// The car is validated beside the other cars of its event. The storage
    /// changes the car only for its driver; where it finds no such car, the
    /// request fails as "not found", whether or not the car exists. Whatever
    /// fails before the commit rolls the transaction back. The job is handed
    /// over after the commit alone, and the answer does not wait on its fate.
    pub open spec fn step_at(self, answer: AnswerView, now: Timestamp) -> UpdateCarView {
        match (self, answer) {
            (UpdateCarView::Begin(c), AnswerView::Done(Ok(_))) => UpdateCarView::LoadCars(c),
            (UpdateCarView::Begin(_), AnswerView::Done(Err(_))) => UpdateCarView::Respond(
                ResponseView::failure(STATUS_INTERNAL, msg_no_transaction()),
            ),
            (UpdateCarView::LoadCars(_), AnswerView::Cars(Err(_))) => UpdateCarView::Abort(
                ResponseView::failure(STATUS_INTERNAL, msg_no_other_cars()),
            ),
            (UpdateCarView::LoadCars(c), AnswerView::Cars(Ok(cars))) => match c.car.verdict(
                c.user_id,
                except_car(cars, c.car_id),
                now,
            ) {
                Ok(_) => UpdateCarView::Update(c),
                Err(msgs) => UpdateCarView::Abort(ResponseView::rejected(msgs)),
            },
            (UpdateCarView::Update(c), AnswerView::Car(Ok(Some(_)))) => UpdateCarView::ClearRiders(
                c,
            ),
            (UpdateCarView::Update(_), AnswerView::Car(Ok(None))) => UpdateCarView::Abort(
                ResponseView::failure(STATUS_NOT_FOUND, msg_not_driver()),
            ),
            (UpdateCarView::Update(_), AnswerView::Car(Err(_))) => UpdateCarView::Abort(
                ResponseView::failure(STATUS_INTERNAL, msg_update_failed()),
            ),
            (UpdateCarView::ClearRiders(change), AnswerView::Riders(Ok(old_riders))) => {
                UpdateCarView::InsertRiders { change, old_riders }
            },
            (UpdateCarView::ClearRiders(_), AnswerView::Riders(Err(_))) => UpdateCarView::Abort(
                ResponseView::failure(STATUS_INTERNAL, msg_clear_failed()),
            ),
            (UpdateCarView::InsertRiders { change, old_riders }, AnswerView::Done(Ok(_))) => {
                UpdateCarView::Commit { change, old_riders }
            },
            (UpdateCarView::InsertRiders { .. }, AnswerView::Done(Err(_))) => UpdateCarView::Abort(
                ResponseView::failure(STATUS_INTERNAL, msg_new_riders_failed()),
            ),
            (UpdateCarView::Commit { change, old_riders }, AnswerView::Done(Ok(_))) => {
                UpdateCarView::Enqueue { change, old_riders }
            },
            (UpdateCarView::Commit { .. }, AnswerView::Done(Err(_))) => UpdateCarView::Respond(
                ResponseView::failure(STATUS_INTERNAL, msg_commit_failed()),
            ),
            (UpdateCarView::Enqueue { .. }, AnswerView::Done(_)) => UpdateCarView::Respond(
                ResponseView::plain(STATUS_OK, BodyView::Text(msg_updated())),
            ),
            (state, _) => state,
        }
    }
}

/// The answer to a request whose proposed car got the verdict `verdict`, if
/// the verdict is against it.
fn rejection(verdict: Result<(), Vec<String>>) -> (r: Option<Response>)
    ensures
        match crate::db::car::verdict_view(verdict) {
            Ok(_) => r is None,
            Err(msgs) => r is Some && r->Some_0@ == ResponseView::rejected(msgs),
        },
{
    match verdict {
        Ok(_) => None,
        Err(msgs) => Some(Response::rejected(msgs)),
    }
}

impl UpdateCar {
    /// Takes up a request to replace the car `car_id` of the event `event_id`
    /// by `car`, made by `user`.
    pub fn start(event_id: i32, car_id: i32, user: Option<String>, car: CarData) -> (s: UpdateCar)
        ensures
            s@ == UpdateCarView::start(event_id, car_id, user.deep_view(), car@),
    {
        match user {
            Some(user_id) => UpdateCar::Begin(CarChange { event_id, car_id, user_id, car }),
            None => UpdateCar::Respond(Response::no_session()),
        }
    }

    /// The command that is due.
    pub fn action(&self) -> (c: Command)
        ensures
            c@ == self@.action(),
    {
        match self {
            UpdateCar::Begin(_) => Command::Begin,
            UpdateCar::LoadCars(c) => Command::LoadCars { event_id: c.event_id },
            UpdateCar::Update(c) => Command::UpdateCar {
                car_id: c.car_id,
                event_id: c.event_id,
                driver_id: c.user_id.clone(),
                data: c.car.clone(),
            },
            UpdateCar::ClearRiders(c) => Command::ClearRiders { car_id: c.car_id },
            UpdateCar::InsertRiders { change, .. } => Command::InsertRiders {
                car_id: change.car_id,
                riders: change.car.riders.clone(),
            },
            UpdateCar::Commit { .. } => Command::Commit,
            UpdateCar::Enqueue { change, old_riders } => Command::Enqueue(change.job(old_riders)),
            UpdateCar::Abort(r) => Command::Abort(r.clone()),
            UpdateCar::Respond(r) => Command::Respond(r.clone()),
        }
    }

    /// Takes in the answer to the command, with validation as of `now`.
    pub fn step_at(self, answer: Answer, now: &Timestamp) -> (next: UpdateCar)
        ensures
            next@ == self@.step_at(answer@, *now),
    {
        match (self, answer) {
            (UpdateCar::Begin(c), Answer::Done(Ok(_))) => UpdateCar::LoadCars(c),
            (UpdateCar::Begin(_), Answer::Done(Err(_))) => UpdateCar::Respond(
                Response::failure(STATUS_INTERNAL, "Failed to make SQL Transaction"),
            ),
            (UpdateCar::LoadCars(_), Answer::Cars(Err(_))) => UpdateCar::Abort(
                Response::failure(STATUS_INTERNAL, "Failed to get other cars for data validation"),
            ),
            (UpdateCar::LoadCars(c), Answer::Cars(Ok(cars))) => {
                let others = other_cars(&cars, c.car_id);
                match rejection(c.car.validate_at(&c.user_id, &others, now)) {
                    None => UpdateCar::Update(c),
                    Some(r) => UpdateCar::Abort(r),
                }
            },
            (UpdateCar::Update(c), Answer::Car(Ok(Some(_)))) => UpdateCar::ClearRiders(c),
            (UpdateCar::Update(_), Answer::Car(Ok(None))) => UpdateCar::Abort(
                Response::failure(STATUS_NOT_FOUND, "Car not found or you are not the driver."),
            ),
            (UpdateCar::Update(_), Answer::Car(Err(_))) => UpdateCar::Abort(
                Response::failure(STATUS_INTERNAL, "Failed to update car"),
            ),
            (UpdateCar::ClearRiders(change), Answer::Riders(Ok(old_riders))) => {
                UpdateCar::InsertRiders { change, old_riders }
            },
            (UpdateCar::ClearRiders(_), Answer::Riders(Err(_))) => UpdateCar::Abort(
                Response::failure(STATUS_INTERNAL, "Failed to remove old riders"),
            ),
            (UpdateCar::InsertRiders { change, old_riders }, Answer::Done(Ok(_))) => {
                UpdateCar::Commit { change, old_riders }
            },
            (UpdateCar::InsertRiders { .. }, Answer::Done(Err(_))) => UpdateCar::Abort(
                Response::failure(STATUS_INTERNAL, "Failed to add new riders"),
            ),
            (UpdateCar::Commit { change, old_riders }, Answer::Done(Ok(_))) => UpdateCar::Enqueue {
                change,
                old_riders,
            },
            (UpdateCar::Commit { .. }, Answer::Done(Err(_))) => UpdateCar::Respond(
                Response::failure(STATUS_INTERNAL, "Failed to commit transaction"),
            ),
            (UpdateCar::Enqueue { .. }, Answer::Done(_)) => UpdateCar::Respond(
                Response::plain(STATUS_OK, Body::Text("Car updated successfully".to_string())),
            ),
            (state, _) => state,
        }
    }

    /// Takes in the answer to the command, with validation as of now.
    pub fn step(self, answer: Answer) -> (next: UpdateCar)
        ensures
            exists|now: Timestamp| next@ == #[trigger] self@.step_at(answer@, now),
    {
        let now = Timestamp::now();
        let ghost before = self@;
        let ghost got = answer@;
        let next = self.step_at(answer, &now);
        assert(next@ == before.step_at(got, now));
        next
    }
}

/// A request to offer a new car with its first roster.
#[derive(Debug)]
pub struct CarOffer {
    pub event_id: i32,
    /// The user who asks, and so the driver of the new car.
    pub user_id: String,
    pub car: CarData,
}

pub struct CarOfferView {
    pub event_id: i32,
    pub user_id: Seq<char>,
    pub car: CarDataView,
}

impl View for CarOffer {
    type V = CarOfferView;

    open spec fn view(&self) -> CarOfferView {
        CarOfferView { event_id: self.event_id, user_id: self.user_id@, car: self.car@ }
    }
}

impl CarOfferView {
    /// The job that reports the first roster of the new car `car_id`: nobody
    /// rode before.
    pub open spec fn job(self, car_id: i32) -> RedisJobView {
        RedisJobView::RiderUpdate(
            MultipleRiderChangeView {
                event_id: self.event_id,
                car_id,
                old_riders: Seq::empty(),
                new_riders: self.car.riders,
            },
        )
    }
}

impl CarOffer {
    fn job(&self, car_id: i32) -> (j: RedisJob)
        ensures
            j@ == self@.job(car_id),
    {
        let old_riders: Vec<String> = Vec::new();
        assert(old_riders.deep_view() =~= Seq::<Seq<char>>::empty());
        RedisJob::RiderUpdate(
            MultipleRiderChange {
                event_id: self.event_id,
                car_id,
                old_riders,
                new_riders: self.car.riders.clone(),
            },
        )
    }
}

/// Where the handling of a request to offer a car stands.
#[derive(Debug)]
pub enum CreateCar {
    /// The transaction is being opened.
    Begin(CarOffer),
    /// The cars of the event are being read, for validation.
    LoadCars(CarOffer),
    /// The car is being stored.
    Insert(CarOffer),
    /// The riders of the stored car `car_id` are being stored.
    InsertRiders { offer: CarOffer, car_id: i32 },
    /// The transaction is being committed.
    Commit { offer: CarOffer, car_id: i32 },
    /// The job is being handed to the queue.
    Enqueue { offer: CarOffer, car_id: i32 },
    /// The transaction is rolled back and the request answered.
    Abort(Response),
    /// The request is answered.
    Respond(Response),
}

pub enum CreateCarView {
    Begin(CarOfferView),
    LoadCars(CarOfferView),
    Insert(CarOfferView),
    InsertRiders { offer: CarOfferView, car_id: i32 },
    Commit { offer: CarOfferView, car_id: i32 },
    Enqueue { offer: CarOfferView, car_id: i32 },
    Abort(ResponseView),
    Respond(ResponseView),
}

impl View for CreateCar {
    type V = CreateCarView;

    open spec fn view(&self) -> CreateCarView {
        match self {
            CreateCar::Begin(o) => CreateCarView::Begin(o@),
            CreateCar::LoadCars(o) => CreateCarView::LoadCars(o@),
            CreateCar::Insert(o) => CreateCarView::Insert(o@),
            CreateCar::InsertRiders { offer, car_id } => CreateCarView::InsertRiders {
                offer: offer@,
                car_id: *car_id,
            },
            CreateCar::Commit { offer, car_id } => CreateCarView::Commit {
                offer: offer@,
                car_id: *car_id,
            },
            CreateCar::Enqueue { offer, car_id } => CreateCarView::Enqueue {
                offer: offer@,
                car_id: *car_id,
            },
            CreateCar::Abort(r) => CreateCarView::Abort(r@),
            CreateCar::Respond(r) => CreateCarView::Respond(r@),
        }
    }
}

pub open spec fn msg_insert_failed() -> Seq<char> {
    "Failed to create new car in database"@
}

pub open spec fn msg_first_riders_failed() -> Seq<char> {
    "Failed to add riders to car"@
}

impl CreateCarView {
    /// The state of a request by `user`, if a user is logged in.
    pub open spec fn start(event_id: i32, user: Option<Seq<char>>, car: CarDataView) -> CreateCarView {
        match user {
            Some(user_id) => CreateCarView::Begin(CarOfferView { event_id, user_id, car }),
            None => CreateCarView::Respond(ResponseView::no_session()),
        }
    }

    /// The command that is due.
    pub open spec fn action(self) -> CommandView {
        match self {
            CreateCarView::Begin(_) => CommandView::Begin,
            CreateCarView::LoadCars(o) => CommandView::LoadCars { event_id: o.event_id },
            CreateCarView::Insert(o) => CommandView::InsertCar {
                event_id: o.event_id,
                driver_id: o.user_id,
                data: o.car,
            },
            CreateCarView::InsertRiders { offer, car_id } => CommandView::InsertRiders {
                car_id,
                riders: offer.car.riders,
            },
            CreateCarView::Commit { .. } => CommandView::Commit,
            CreateCarView::Enqueue { offer, car_id } => CommandView::Enqueue(offer.job(car_id)),
            CreateCarView::Abort(r) => CommandView::Abort(r),
            CreateCarView::Respond(r) => CommandView::Respond(r),
        }
    }

    /// The state after `answer`, where the cars were validated at the time
    /// `now`. An answer to another command than the one due changes nothing.
    ///
    /// The car is validated beside all cars of its event. The car and its
    /// riders are stored in one transaction, which is rolled back if either
    /// fails. The job is handed over after the commit alone, and the answer,
    /// the id of the new car, does not wait on its fate.
    pub open spec fn step_at(self, answer: AnswerView, now: Timestamp) -> CreateCarView {
        match (self, answer) {
            (CreateCarView::Begin(o), AnswerView::Done(Ok(_))) => CreateCarView::LoadCars(o),
            (CreateCarView::Begin(_), AnswerView::Done(Err(_))) => CreateCarView::Respond(
                ResponseView::failure(STATUS_INTERNAL, msg_no_transaction()),
            ),
            (CreateCarView::LoadCars(_), AnswerView::Cars(Err(_))) => CreateCarView::Abort(
                ResponseView::failure(STATUS_INTERNAL, msg_no_other_cars()),
            ),
            (CreateCarView::LoadCars(o), AnswerView::Cars(Ok(cars))) => match o.car.verdict(
                o.user_id,
                cars,
                now,
            ) {
                Ok(_) => CreateCarView::Insert(o),
                Err(msgs) => CreateCarView::Abort(ResponseView::rejected(msgs)),
            },
            (CreateCarView::Insert(offer), AnswerView::NewCar(Ok(car))) => {
                CreateCarView::InsertRiders { offer, car_id: car.id }
            },
            (CreateCarView::Insert(_), AnswerView::NewCar(Err(_))) => CreateCarView::Abort(
                ResponseView::failure(STATUS_INTERNAL, msg_insert_failed()),
            ),
            (CreateCarView::InsertRiders { offer, car_id }, AnswerView::Done(Ok(_))) => {
                CreateCarView::Commit { offer, car_id }
            },
            (CreateCarView::InsertRiders { .. }, AnswerView::Done(Err(_))) => CreateCarView::Abort(
                ResponseView::failure(STATUS_INTERNAL, msg_first_riders_failed()),
            ),
            (CreateCarView::Commit { offer, car_id }, AnswerView::Done(Ok(_))) => {
                CreateCarView::Enqueue { offer, car_id }
            },
            (CreateCarView::Commit { .. }, AnswerView::Done(Err(_))) => CreateCarView::Respond(
                ResponseView::failure(STATUS_INTERNAL, msg_commit_failed()),
            ),
            (CreateCarView::Enqueue { car_id, .. }, AnswerView::Done(_)) => CreateCarView::Respond(
                ResponseView::plain(STATUS_OK, BodyView::Id(car_id)),
            ),
            (state, _) => state,
        }
    }
}

impl CreateCar {
    /// Takes up a request to offer `car` for the event `event_id`, made by
    /// `user`.
    pub fn start(event_id: i32, user: Option<String>, car: CarData) -> (s: CreateCar)
        ensures
            s@ == CreateCarView::start(event_id, user.deep_view(), car@),
    {
        match user {
            Some(user_id) => CreateCar::Begin(CarOffer { event_id, user_id, car }),
            None => CreateCar::Respond(Response::no_session()),
        }
    }

    /// The command that is due.
    pub fn action(&self) -> (c: Command)
        ensures
            c@ == self@.action(),
    {
        match self {
            CreateCar::Begin(_) => Command::Begin,
            CreateCar::LoadCars(o) => Command::LoadCars { event_id: o.event_id },
            CreateCar::Insert(o) => Command::InsertCar {
                event_id: o.event_id,
                driver_id: o.user_id.clone(),
                data: o.car.clone(),
            },
            CreateCar::InsertRiders { offer, car_id } => Command::InsertRiders {
                car_id: *car_id,
                riders: offer.car.riders.clone(),
            },
            CreateCar::Commit { .. } => Command::Commit,
            CreateCar::Enqueue { offer, car_id } => Command::Enqueue(offer.job(*car_id)),
            CreateCar::Abort(r) => Command::Abort(r.clone()),
            CreateCar::Respond(r) => Command::Respond(r.clone()),
        }
    }

    /// Takes in the answer to the command, with validation as of `now`.
    pub fn step_at(self, answer: Answer, now: &Timestamp) -> (next: CreateCar)
        ensures
            next@ == self@.step_at(answer@, *now),
    {
        match (self, answer) {
            (CreateCar::Begin(o), Answer::Done(Ok(_))) => CreateCar::LoadCars(o),
            (CreateCar::Begin(_), Answer::Done(Err(_))) => CreateCar::Respond(
                Response::failure(STATUS_INTERNAL, "Failed to make SQL Transaction"),
            ),
            (CreateCar::LoadCars(_), Answer::Cars(Err(_))) => CreateCar::Abort(
                Response::failure(STATUS_INTERNAL, "Failed to get other cars for data validation"),
            ),
            (CreateCar::LoadCars(o), Answer::Cars(Ok(cars))) => {
                match rejection(o.car.validate_at(&o.user_id, &cars, now)) {
                    None => CreateCar::Insert(o),
                    Some(r) => CreateCar::Abort(r),
                }
            },
            (CreateCar::Insert(offer), Answer::NewCar(Ok(car))) => CreateCar::InsertRiders {
                offer,
                car_id: car.id,
            },
            (CreateCar::Insert(_), Answer::NewCar(Err(_))) => CreateCar::Abort(
                Response::failure(STATUS_INTERNAL, "Failed to create new car in database"),
            ),
            (CreateCar::InsertRiders { offer, car_id }, Answer::Done(Ok(_))) => CreateCar::Commit {
                offer,
                car_id,
            },
            (CreateCar::InsertRiders { .. }, Answer::Done(Err(_))) => CreateCar::Abort(
                Response::failure(STATUS_INTERNAL, "Failed to add riders to car"),
            ),
            (CreateCar::Commit { offer, car_id }, Answer::Done(Ok(_))) => CreateCar::Enqueue {
                offer,
                car_id,
            },
            (CreateCar::Commit { .. }, Answer::Done(Err(_))) => CreateCar::Respond(
                Response::failure(STATUS_INTERNAL, "Failed to commit transaction"),
            ),
            (CreateCar::Enqueue { car_id, .. }, Answer::Done(_)) => CreateCar::Respond(
                Response::plain(STATUS_OK, Body::Id(car_id)),
            ),
            (state, _) => state,
        }
    }

    /// Takes in the answer to the command, with validation as of now.
    pub fn step(self, answer: Answer) -> (next: CreateCar)
        ensures
            exists|now: Timestamp| next@ == #[trigger] self@.step_at(answer@, now),
    {
        let now = Timestamp::now();
        let ghost before = self@;
        let ghost got = answer@;
        let next = self.step_at(answer, &now);
        assert(next@ == before.step_at(got, now));
        next
    }
}

/// A request to delete a car.
#[derive(Debug)]
pub struct CarRemoval {
    pub event_id: i32,
    pub car_id: i32,
    /// The user who asks, and so the only driver whose car may go.
    pub user_id: String,
}

pub struct CarRemovalView {
    pub event_id: i32,
    pub car_id: i32,
    pub user_id: Seq<char>,
}

impl View for CarRemoval {
    type V = CarRemovalView;

    open spec fn view(&self) -> CarRemovalView {
        CarRemovalView { event_id: self.event_id, car_id: self.car_id, user_id: self.user_id@ }
    }
}

/// Where the handling of a request to delete a car stands.
#[derive(Debug)]
pub enum DeleteCar {
    /// The car is being deleted.
    Delete(CarRemoval),
    /// The request is answered.
    Respond(Response),
}

pub enum DeleteCarView {
    Delete(CarRemovalView),
    Respond(ResponseView),
}

impl View for DeleteCar {
    type V = DeleteCarView;

    open spec fn view(&self) -> DeleteCarView {
        match self {
            DeleteCar::Delete(r) => DeleteCarView::Delete(r@),
            DeleteCar::Respond(r) => DeleteCarView::Respond(r@),
        }
    }
}

pub open spec fn msg_deleted() -> Seq<char> {
    "Car deleted"@
}

pub open spec fn msg_delete_failed() -> Seq<char> {
    "Failed to delete car"@
}

impl DeleteCarView {
    pub open spec fn start(event_id: i32, car_id: i32, user: Option<Seq<char>>) -> DeleteCarView {
        match user {
            Some(user_id) => DeleteCarView::Delete(CarRemovalView { event_id, car_id, user_id }),
            None => DeleteCarView::Respond(ResponseView::no_session()),
        }
    }

    pub open spec fn action(self) -> CommandView {
        match self {
            DeleteCarView::Delete(r) => CommandView::DeleteCar {
                car_id: r.car_id,
                event_id: r.event_id,
                driver_id: r.user_id,
            },
            DeleteCarView::Respond(r) => CommandView::Respond(r),
        }
    }

    /// The state after `answer`. The storage deletes the car only for its
    /// driver; where it finds no such car, the request fails as "not found",
    /// whether or not the car exists.
    pub open spec fn step(self, answer: AnswerView) -> DeleteCarView {
        match (self, answer) {
            (DeleteCarView::Delete(_), AnswerView::Deleted(Ok(Some(_)))) => DeleteCarView::Respond(
                ResponseView::plain(STATUS_OK, BodyView::Message(msg_deleted())),
            ),
            (DeleteCarView::Delete(_), AnswerView::Deleted(Ok(None))) => DeleteCarView::Respond(
                ResponseView::failure(STATUS_NOT_FOUND, msg_not_driver()),
            ),
            (DeleteCarView::Delete(_), AnswerView::Deleted(Err(_))) => DeleteCarView::Respond(
                ResponseView::failure(STATUS_INTERNAL, msg_delete_failed()),
            ),
            (state, _) => state,
        }
    }
}

impl DeleteCar {
    /// Takes up a request to delete the car `car_id` of the event `event_id`,
    /// made by `user`.
    pub fn start(event_id: i32, car_id: i32, user: Option<String>) -> (s: DeleteCar)
        ensures
            s@ == DeleteCarView::start(event_id, car_id, user.deep_view()),
    {
        match user {
            Some(user_id) => DeleteCar::Delete(CarRemoval { event_id, car_id, user_id }),
            None => DeleteCar::Respond(Response::no_session()),
        }
    }

    pub fn action(&self) -> (c: Command)
        ensures
            c@ == self@.action(),
    {
        match self {
            DeleteCar::Delete(r) => Command::DeleteCar {
                car_id: r.car_id,
                event_id: r.event_id,
                driver_id: r.user_id.clone(),
            },
            DeleteCar::Respond(r) => Command::Respond(r.clone()),
        }
    }

    pub fn step(self, answer: Answer) -> (next: DeleteCar)
        ensures
            next@ == self@.step(answer@),
    {
        match (self, answer) {
            (DeleteCar::Delete(_), Answer::Deleted(Ok(Some(_)))) => DeleteCar::Respond(
                Response::plain(STATUS_OK, Body::Message("Car deleted".to_string())),
            ),
            (DeleteCar::Delete(_), Answer::Deleted(Ok(None))) => DeleteCar::Respond(
                Response::failure(STATUS_NOT_FOUND, "Car not found or you are not the driver."),
            ),
            (DeleteCar::Delete(_), Answer::Deleted(Err(_))) => DeleteCar::Respond(
                Response::failure(STATUS_INTERNAL, "Failed to delete car"),
            ),
            (state, _) => state,
        }
    }
}

pub open spec fn msg_car_not_found() -> Seq<char> {
    "Car not found"@
}

pub open spec fn msg_get_car_failed() -> Seq<char> {
    "Failed to get Car"@
}

pub open spec fn msg_get_cars_failed() -> Seq<char> {
    "Failed to get cars"@
}

/// The answer to a request for one car, given what the storage found.
pub open spec fn car_found(found: Result<Option<CarView>, Seq<char>>) -> ResponseView {
    match found {
        Ok(Some(car)) => ResponseView::plain(STATUS_OK, BodyView::Car(car)),
        Ok(None) => ResponseView::failure(STATUS_NOT_FOUND, msg_car_not_found()),
        Err(_) => ResponseView::failure(STATUS_INTERNAL, msg_get_car_failed()),
    }
}

/// The answer to a request for the cars of an event, given what the storage
/// found.
pub open spec fn cars_found(found: Result<Seq<CarView>, Seq<char>>) -> ResponseView {
    match found {
        Ok(cars) => ResponseView::plain(STATUS_OK, BodyView::Cars(cars)),
        Err(_) => ResponseView::failure(STATUS_INTERNAL, msg_get_cars_failed()),
    }
}

/// Answers a request for one car.
pub fn get_car(found: Result<Option<Car>, String>) -> (r: Response)
    ensures
        r@ == car_found(
            match found {
                Ok(c) => Ok(c.deep_view()),
                Err(e) => Err(e@),
            },
        ),
{
    match found {
        Ok(Some(car)) => Response::plain(STATUS_OK, Body::Car(car)),
        Ok(None) => Response::failure(STATUS_NOT_FOUND, "Car not found"),
        Err(_) => Response::failure(STATUS_INTERNAL, "Failed to get Car"),
    }
}

/// Answers a request for the cars of an event.
pub fn get_all_cars(found: Result<Vec<Car>, String>) -> (r: Response)
    ensures
        r@ == cars_found(
            match found {
                Ok(c) => Ok(c.deep_view()),
                Err(e) => Err(e@),
            },
        ),
{
    match found {
        Ok(cars) => Response::plain(STATUS_OK, Body::Cars(cars)),
        Err(_) => Response::failure(STATUS_INTERNAL, "Failed to get cars"),
    }
}

impl UpdateCarView {
    /// The request that a state works on; none once the request is answered.
    pub open spec fn change(self) -> Option<CarChangeView> {
        match self {
            UpdateCarView::Begin(c) => Some(c),
            UpdateCarView::LoadCars(c) => Some(c),
            UpdateCarView::Update(c) => Some(c),
            UpdateCarView::ClearRiders(c) => Some(c),
            UpdateCarView::InsertRiders { change, .. } => Some(change),
            UpdateCarView::Commit { change, .. } => Some(change),
            UpdateCarView::Enqueue { change, .. } => Some(change),
            UpdateCarView::Abort(_) => None,
            UpdateCarView::Respond(_) => None,
        }
    }
}

/// A car changes for its driver alone. From its first state on a request
/// works for the user who made it; the storage is asked to change the car of
/// that user and of nobody else; and where the storage finds no such car, be
/// it that the car belongs to another driver, the request is rolled back and
/// answered with "not found": no rider is touched and no job queued.
pub proof fn lemma_update_is_for_the_driver(s: UpdateCarView, answer: AnswerView, now: Timestamp)
    ensures
        s.change() is Some && s.step_at(answer, now).change() is Some ==> s.step_at(
            answer,
            now,
        ).change() == s.change(),
        s.action() matches CommandView::UpdateCar { car_id, event_id, driver_id, .. }
            ==> s.change() is Some && driver_id == s.change()->Some_0.user_id && car_id
            == s.change()->Some_0.car_id && event_id == s.change()->Some_0.event_id,
        s.action() is UpdateCar && answer == AnswerView::Car(Ok(None::<CarView>)) ==> s.step_at(
            answer,
            now,
        ) == UpdateCarView::Abort(ResponseView::failure(STATUS_NOT_FOUND, msg_not_driver())),
{
}

/// A job is queued only for a change that was committed: the one way into
/// the state that hands the job over is a commit that went through, and the
/// job then reports the riders that the storage deleted and the riders that
/// the request named.
pub proof fn lemma_update_queues_after_commit(s: UpdateCarView, answer: AnswerView, now: Timestamp)
    requires
        !(s.action() is Enqueue),
        s.step_at(answer, now).action() is Enqueue,
    ensures
        s matches UpdateCarView::Commit { change, old_riders } && answer matches AnswerView::Done(
            Ok(_),
        ) && s.step_at(answer, now).action() == CommandView::Enqueue(change.job(old_riders)),
{
}

/// A car that passed validation is the only one that reaches the storage: the
/// one way into the state that changes the car is a verdict of `Ok` on the
/// request beside the other cars of the event, so that nobody of the car, the
/// user who asked included, is in one of those.
pub proof fn lemma_update_validates_first(s: UpdateCarView, answer: AnswerView, now: Timestamp)
    requires
        !(s.action() is UpdateCar),
        s.step_at(answer, now).action() is UpdateCar,
    ensures
        s matches UpdateCarView::LoadCars(c) && answer matches AnswerView::Cars(Ok(cars))
            && c.car.verdict(c.user_id, except_car(cars, c.car_id), now) is Ok
            && c.car.keeps_apart(c.user_id, except_car(cars, c.car_id)),
{
    match (s, answer) {
        (UpdateCarView::LoadCars(c), AnswerView::Cars(Ok(cars))) => {
            lemma_verdict_keeps_apart(c.car, c.user_id, except_car(cars, c.car_id), now);
        },
        _ => {},
    }
}

/// The same for a new car: it is stored only after a verdict of `Ok` beside
/// all cars of the event, so that neither the user who offers it nor one of
/// its riders is in another car, and its job is queued only after the commit.
pub proof fn lemma_create_validates_and_commits_first(
    s: CreateCarView,
    answer: AnswerView,
    now: Timestamp,
)
    ensures
        !(s.action() is InsertCar) && s.step_at(answer, now).action() is InsertCar ==> (s matches CreateCarView::LoadCars(
            o,
        ) && answer matches AnswerView::Cars(Ok(cars)) && o.car.verdict(o.user_id, cars, now) is Ok
            && o.car.keeps_apart(o.user_id, cars)),
        !(s.action() is Enqueue) && s.step_at(answer, now).action() is Enqueue ==> (s matches CreateCarView::Commit {
            offer,
            car_id,
        } && answer matches AnswerView::Done(Ok(_)) && s.step_at(answer, now).action()
            == CommandView::Enqueue(offer.job(car_id))),
{
    match (s, answer) {
        (CreateCarView::LoadCars(o), AnswerView::Cars(Ok(cars))) => {
            if o.car.verdict(o.user_id, cars, now) is Ok {
                lemma_verdict_keeps_apart(o.car, o.user_id, cars, now);
            }
        },
        _ => {},
    }
}

/// A car is deleted for its driver alone: the storage is asked to delete the
/// car of the user who made the request, and where it finds no such car the
/// answer is "not found".
pub proof fn lemma_delete_is_for_the_driver(event_id: i32, car_id: i32, user: Seq<char>)
    ensures
        DeleteCarView::start(event_id, car_id, Some(user)).action() == (CommandView::DeleteCar {
            car_id,
            event_id,
            driver_id: user,
        }),
        DeleteCarView::start(event_id, car_id, Some(user)).step(
            AnswerView::Deleted(Ok(None::<i32>)),
        ) == DeleteCarView::Respond(ResponseView::failure(STATUS_NOT_FOUND, msg_not_driver())),
{
}

impl CreateCarView {
    /// The request that a state works on; none once the request is answered.
    pub open spec fn offer(self) -> Option<CarOfferView> {
        match self {
            CreateCarView::Begin(o) => Some(o),
            CreateCarView::LoadCars(o) => Some(o),
            CreateCarView::Insert(o) => Some(o),
            CreateCarView::InsertRiders { offer, .. } => Some(offer),
            CreateCarView::Commit { offer, .. } => Some(offer),
            CreateCarView::Enqueue { offer, .. } => Some(offer),
            CreateCarView::Abort(_) => None,
            CreateCarView::Respond(_) => None,
        }
    }
}

/// What is stored is what was offered. From its first state on a request
/// works on the car that it came with; the storage is asked to store that
/// car for the user who asked; the riders that it is asked to store are those
/// of the request, for the car whose id the storage gave; and that id is the
/// answer.
pub proof fn lemma_create_stores_the_offer(
    s: CreateCarView,
    answer: AnswerView,
    now: Timestamp,
    stored: CarView,
)
    ensures
        s.offer() is Some && s.step_at(answer, now).offer() is Some ==> s.step_at(
            answer,
            now,
        ).offer() == s.offer(),
        s.action() matches CommandView::InsertCar { event_id, driver_id, data } ==> s.offer()
            == Some(CarOfferView { event_id, user_id: driver_id, car: data }),
        s.action() is InsertCar ==> (s.step_at(
            AnswerView::NewCar(Ok(stored)),
            now,
        ).action() matches CommandView::InsertRiders { car_id, riders } && car_id == stored.id
            && riders == s.offer()->Some_0.car.riders),
        s matches CreateCarView::Enqueue { car_id, .. } ==> (answer is Done ==> s.step_at(
            answer,
            now,
        ) == CreateCarView::Respond(ResponseView::plain(STATUS_OK, BodyView::Id(car_id)))),
{
}

} // verus!
