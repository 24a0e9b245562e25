//! Requests by which a user joins or leaves a car.

use vstd::prelude::*;
use vstd::string::*;
use crate::api::v1::event::car::{Answer, AnswerView, Command, CommandView};
use crate::app::{
    Body, BodyView, RedisJob, RedisJobView, Response, ResponseView, SimpleRiderChange,
    SimpleRiderChangeView, STATUS_BAD_REQUEST, STATUS_INTERNAL, STATUS_OK,
};

verus! {

/// A user's request to join or to leave a car.
#[derive(Debug)]
pub struct Seat {
    pub event_id: i32,
    pub car_id: i32,
    /// The user who asks, and so the rider in question.
    pub user_id: String,
}

pub struct SeatView {
    pub event_id: i32,
    pub car_id: i32,
    pub user_id: Seq<char>,
}

impl View for Seat {
    type V = SeatView;

    open spec fn view(&self) -> SeatView {
        SeatView { event_id: self.event_id, car_id: self.car_id, user_id: self.user_id@ }
    }
}

impl SeatView {
    pub open spec fn change(self) -> SimpleRiderChangeView {
        SimpleRiderChangeView {
            event_id: self.event_id,
            car_id: self.car_id,
            rider_id: self.user_id,
        }
    }
}

impl Seat {
    fn change(&self) -> (c: SimpleRiderChange)
        ensures
            c@ == self@.change(),
    {
        SimpleRiderChange {
            event_id: self.event_id,
            car_id: self.car_id,
            rider_id: self.user_id.clone(),
        }
    }
}

/// Where the handling of a request to join a car stands.
#[derive(Debug)]
pub enum CreateRider {
    /// The car is being read, to see whether a seat is left.
    LoadCar(Seat),
    /// The storage is being asked whether the user is in a car already.
    CheckUser(Seat),
    /// The rider is being stored.
    Insert(Seat),
    /// The job is being handed to the queue.
    Enqueue(Seat),
    /// The request is answered.
    Respond(Response),
}

pub enum CreateRiderView {
    LoadCar(SeatView),
    CheckUser(SeatView),
    Insert(SeatView),
    Enqueue(SeatView),
    Respond(ResponseView),
}

impl View for CreateRider {
    type V = CreateRiderView;

    open spec fn view(&self) -> CreateRiderView {
        match self {
            CreateRider::LoadCar(s) => CreateRiderView::LoadCar(s@),
            CreateRider::CheckUser(s) => CreateRiderView::CheckUser(s@),
            CreateRider::Insert(s) => CreateRiderView::Insert(s@),
            CreateRider::Enqueue(s) => CreateRiderView::Enqueue(s@),
            CreateRider::Respond(r) => CreateRiderView::Respond(r@),
        }
    }
}

pub open spec fn msg_car_full() -> Seq<char> {
    "Car is full."@
}

pub open spec fn msg_no_car() -> Seq<char> {
    "Car does not exist."@
}

pub open spec fn msg_capacity_unknown() -> Seq<char> {
    "Failed to check car capacity"@
}

pub open spec fn msg_already_in_car() -> Seq<char> {
    "User is already in a car."@
}

pub open spec fn msg_occupancy_unknown() -> Seq<char> {
    "Failed to check user's occupancy in other cars"@
}

pub open spec fn msg_join_failed() -> Seq<char> {
    "Failed to join ride"@
}

pub open spec fn msg_joined() -> Seq<char> {
    "Joined Car"@
}

impl CreateRiderView {
    pub open spec fn start(event_id: i32, car_id: i32, user: Option<Seq<char>>) -> CreateRiderView {
        match user {
            Some(user_id) => CreateRiderView::LoadCar(SeatView { event_id, car_id, user_id }),
            None => CreateRiderView::Respond(ResponseView::no_session()),
        }
    }

    pub open spec fn action(self) -> CommandView {
        match self {
            CreateRiderView::LoadCar(s) => CommandView::LoadCar {
                event_id: s.event_id,
                car_id: s.car_id,
            },
            CreateRiderView::CheckUser(s) => CommandView::UserInCar {
                event_id: s.event_id,
                user_id: s.user_id,
            },
            CreateRiderView::Insert(s) => CommandView::InsertRider {
                car_id: s.car_id,
                rider: s.user_id,
            },
            CreateRiderView::Enqueue(s) => CommandView::Enqueue(RedisJobView::Join(s.change())),
            CreateRiderView::Respond(r) => CommandView::Respond(r),
        }
    }

    /// The state after `answer`. A user joins a car that exists and has a
    /// seat left, and only if the user neither drives a car of the event nor
    /// rides in one. The job is handed over once the rider is stored, and the
    /// answer does not wait on its fate.
    pub open spec fn step(self, answer: AnswerView) -> CreateRiderView {
        match (self, answer) {
            (CreateRiderView::LoadCar(s), AnswerView::Car(Ok(Some(car)))) => if car.is_full() {
                CreateRiderView::Respond(ResponseView::failure(STATUS_BAD_REQUEST, msg_car_full()))
            } else {
                CreateRiderView::CheckUser(s)
            },
            (CreateRiderView::LoadCar(_), AnswerView::Car(Ok(None))) => CreateRiderView::Respond(
                ResponseView::failure(STATUS_BAD_REQUEST, msg_no_car()),
            ),
            (CreateRiderView::LoadCar(_), AnswerView::Car(Err(_))) => CreateRiderView::Respond(
                ResponseView::failure(STATUS_INTERNAL, msg_capacity_unknown()),
            ),
            (CreateRiderView::CheckUser(s), AnswerView::Present(Ok(present))) => if present {
                CreateRiderView::Respond(
                    ResponseView::failure(STATUS_BAD_REQUEST, msg_already_in_car()),
                )
            } else {
                CreateRiderView::Insert(s)
            },
            (CreateRiderView::CheckUser(_), AnswerView::Present(Err(_))) => {
                CreateRiderView::Respond(
                    ResponseView::failure(STATUS_INTERNAL, msg_occupancy_unknown()),
                )
            },
            (CreateRiderView::Insert(s), AnswerView::Done(Ok(_))) => CreateRiderView::Enqueue(s),
            (CreateRiderView::Insert(_), AnswerView::Done(Err(_))) => CreateRiderView::Respond(
                ResponseView::failure(STATUS_INTERNAL, msg_join_failed()),
            ),
            (CreateRiderView::Enqueue(_), AnswerView::Done(_)) => CreateRiderView::Respond(
                ResponseView::plain(STATUS_OK, BodyView::Text(msg_joined())),
            ),
            (state, _) => state,
        }
    }
}

impl CreateRider {
    /// Takes up the request of `user` to join the car `car_id` of the event
    /// `event_id`.
    pub fn start(event_id: i32, car_id: i32, user: Option<String>) -> (s: CreateRider)
        ensures
            s@ == CreateRiderView::start(event_id, car_id, user.deep_view()),
    {
        match user {
            Some(user_id) => CreateRider::LoadCar(Seat { event_id, car_id, user_id }),
            None => CreateRider::Respond(Response::no_session()),
        }
    }

    pub fn action(&self) -> (c: Command)
        ensures
            c@ == self@.action(),
    {
        match self {
            CreateRider::LoadCar(s) => Command::LoadCar { event_id: s.event_id, car_id: s.car_id },
            CreateRider::CheckUser(s) => Command::UserInCar {
                event_id: s.event_id,
                user_id: s.user_id.clone(),
            },
            CreateRider::Insert(s) => Command::InsertRider {
                car_id: s.car_id,
                rider: s.user_id.clone(),
            },
            CreateRider::Enqueue(s) => Command::Enqueue(RedisJob::Join(s.change())),
            CreateRider::Respond(r) => Command::Respond(r.clone()),
        }
    }

    pub fn step(self, answer: Answer) -> (next: CreateRider)
        ensures
            next@ == self@.step(answer@),
    {
        match (self, answer) {
            (CreateRider::LoadCar(s), Answer::Car(Ok(Some(car)))) => {
                if car.is_full() {
                    CreateRider::Respond(Response::failure(STATUS_BAD_REQUEST, "Car is full."))
                } else {
                    CreateRider::CheckUser(s)
                }
            },
            (CreateRider::LoadCar(_), Answer::Car(Ok(None))) => CreateRider::Respond(
                Response::failure(STATUS_BAD_REQUEST, "Car does not exist."),
            ),
            (CreateRider::LoadCar(_), Answer::Car(Err(_))) => CreateRider::Respond(
                Response::failure(STATUS_INTERNAL, "Failed to check car capacity"),
            ),
            (CreateRider::CheckUser(s), Answer::Present(Ok(present))) => {
                if present {
                    CreateRider::Respond(
                        Response::failure(STATUS_BAD_REQUEST, "User is already in a car."),
                    )
                } else {
                    CreateRider::Insert(s)
                }
            },
            (CreateRider::CheckUser(_), Answer::Present(Err(_))) => CreateRider::Respond(
                Response::failure(
                    STATUS_INTERNAL,
                    "Failed to check user's occupancy in other cars",
                ),
            ),
            (CreateRider::Insert(s), Answer::Done(Ok(_))) => CreateRider::Enqueue(s),
            (CreateRider::Insert(_), Answer::Done(Err(_))) => CreateRider::Respond(
                Response::failure(STATUS_INTERNAL, "Failed to join ride"),
            ),
            (CreateRider::Enqueue(_), Answer::Done(_)) => CreateRider::Respond(
                Response::plain(STATUS_OK, Body::Text("Joined Car".to_string())),
            ),
            (state, _) => state,
        }
    }
}

/// Where the handling of a request to leave a car stands.
#[derive(Debug)]
pub enum DeleteRider {
    /// The rider is being deleted.
    Delete(Seat),
    /// The job is being handed to the queue.
    Enqueue(Seat),
    /// The request is answered.
    Respond(Response),
}

pub enum DeleteRiderView {
    Delete(SeatView),
    Enqueue(SeatView),
    Respond(ResponseView),
}

impl View for DeleteRider {
    type V = DeleteRiderView;

    open spec fn view(&self) -> DeleteRiderView {
        match self {
            DeleteRider::Delete(s) => DeleteRiderView::Delete(s@),
            DeleteRider::Enqueue(s) => DeleteRiderView::Enqueue(s@),
            DeleteRider::Respond(r) => DeleteRiderView::Respond(r@),
        }
    }
}

pub open spec fn msg_leave_failed() -> Seq<char> {
    "Failed to delete rider"@
}

pub open spec fn msg_left() -> Seq<char> {
    "Rider deleted"@
}

impl DeleteRiderView {
    pub open spec fn start(event_id: i32, car_id: i32, user: Option<Seq<char>>) -> DeleteRiderView {
        match user {
            Some(user_id) => DeleteRiderView::Delete(SeatView { event_id, car_id, user_id }),
            None => DeleteRiderView::Respond(ResponseView::no_session()),
        }
    }

    pub open spec fn action(self) -> CommandView {
        match self {
            DeleteRiderView::Delete(s) => CommandView::DeleteRider {
                car_id: s.car_id,
                rider: s.user_id,
            },
            DeleteRiderView::Enqueue(s) => CommandView::Enqueue(RedisJobView::Leave(s.change())),
            DeleteRiderView::Respond(r) => CommandView::Respond(r),
        }
    }

    /// The state after `answer`. A user takes nobody but themselves out of a
    /// car. The job is handed over once the storage went through, and the
    /// answer does not wait on its fate.
    pub open spec fn step(self, answer: AnswerView) -> DeleteRiderView {
        match (self, answer) {
            (DeleteRiderView::Delete(s), AnswerView::Done(Ok(_))) => DeleteRiderView::Enqueue(s),
            (DeleteRiderView::Delete(_), AnswerView::Done(Err(_))) => DeleteRiderView::Respond(
                ResponseView::failure(STATUS_INTERNAL, msg_leave_failed()),
            ),
            (DeleteRiderView::Enqueue(_), AnswerView::Done(_)) => DeleteRiderView::Respond(
                ResponseView::plain(STATUS_OK, BodyView::Text(msg_left())),
            ),
            (state, _) => state,
        }
    }
}

impl DeleteRider {
    /// Takes up the request of `user` to leave the car `car_id` of the event
    /// `event_id`.
    pub fn start(event_id: i32, car_id: i32, user: Option<String>) -> (s: DeleteRider)
        ensures
            s@ == DeleteRiderView::start(event_id, car_id, user.deep_view()),
    {
        match user {
            Some(user_id) => DeleteRider::Delete(Seat { event_id, car_id, user_id }),
            None => DeleteRider::Respond(Response::no_session()),
        }
    }

    pub fn action(&self) -> (c: Command)
        ensures
            c@ == self@.action(),
    {
        match self {
            DeleteRider::Delete(s) => Command::DeleteRider {
                car_id: s.car_id,
                rider: s.user_id.clone(),
            },
            DeleteRider::Enqueue(s) => Command::Enqueue(RedisJob::Leave(s.change())),
            DeleteRider::Respond(r) => Command::Respond(r.clone()),
        }
    }

    pub fn step(self, answer: Answer) -> (next: DeleteRider)
        ensures
            next@ == self@.step(answer@),
    {
        match (self, answer) {
            (DeleteRider::Delete(s), Answer::Done(Ok(_))) => DeleteRider::Enqueue(s),
            (DeleteRider::Delete(_), Answer::Done(Err(_))) => DeleteRider::Respond(
                Response::failure(STATUS_INTERNAL, "Failed to delete rider"),
            ),
            (DeleteRider::Enqueue(_), Answer::Done(_)) => DeleteRider::Respond(
                Response::plain(STATUS_OK, Body::Text("Rider deleted".to_string())),
            ),
            (state, _) => state,
        }
    }
}

/// Nobody is stored as a rider unchecked: the one way to the storing of the
/// rider leads over a car that was found with a seat left and over the
/// storage's word that the user is in no car of the event. The rider who is
/// stored, and whom the job then reports, is the user who asked.
pub proof fn lemma_join_checks_first(s: CreateRiderView, answer: AnswerView)
    ensures
        !(s.action() is UserInCar) && s.step(answer).action() is UserInCar ==> s is LoadCar && (
        answer matches AnswerView::Car(Ok(Some(car))) && !car.is_full()),
        !(s.action() is InsertRider) && s.step(answer).action() is InsertRider ==> (s is CheckUser
            && answer == AnswerView::Present(Ok::<bool, Seq<char>>(false))),
        !(s.action() is Enqueue) && s.step(answer).action() is Enqueue ==> (s matches CreateRiderView::Insert(
            seat,
        ) && answer matches AnswerView::Done(Ok(_)) && s.action() == (CommandView::InsertRider {
            car_id: seat.car_id,
            rider: seat.user_id,
        }) && s.step(answer).action() == CommandView::Enqueue(RedisJobView::Join(seat.change()))),
{
}

} // verus!
