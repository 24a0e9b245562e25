//! Values that cross the boundary between request handling, the job queue and
//! the worker: the error body of a response and the queued roster changes.

use vstd::prelude::*;
use vstd::std_specs::convert::FromSpecImpl;
use crate::api::v1::auth::models::{UserInfo, UserInfoView};
use crate::db::car::{clone_cars, Car, CarView};
use crate::db::event::{clone_events, Event, EventView};
use crate::db::user::{clone_users, UserData, UserDataView};

verus! {

/// The body of a failed response: one message, or a list of them.
#[derive(Debug)]
pub struct ApiError {
    error: Option<String>,
    errors: Option<Vec<String>>,
}

pub struct ApiErrorView {
    pub error: Option<Seq<char>>,
    pub errors: Option<Seq<Seq<char>>>,
}

impl View for ApiError {
    type V = ApiErrorView;

    closed spec fn view(&self) -> ApiErrorView {
        ApiErrorView { error: self.error.deep_view(), errors: self.errors.deep_view() }
    }
}

impl ApiErrorView {
    /// The body that carries the single message `msg`.
    pub open spec fn single(msg: Seq<char>) -> ApiErrorView {
        ApiErrorView { error: Some(msg), errors: None }
    }

    /// The body that carries the list `msgs`.
    pub open spec fn list(msgs: Seq<Seq<char>>) -> ApiErrorView {
        ApiErrorView { error: None, errors: Some(msgs) }
    }
}

impl ApiError {
    pub fn message(msg: &str) -> (e: ApiError)
        ensures
            e@ == ApiErrorView::single(msg@),
    {
        ApiError { error: Some(msg.to_string()), errors: None }
    }

    pub fn error(&self) -> (r: &Option<String>)
        ensures
            r.deep_view() == self@.error,
    {
        &self.error
    }

    pub fn errors(&self) -> (r: &Option<Vec<String>>)
        ensures
            r.deep_view() == self@.errors,
    {
        &self.errors
    }
}

impl Clone for ApiError {
    fn clone(&self) -> (r: ApiError)
        ensures
            r@ == self@,
    {
        ApiError {
            error: match &self.error {
                Some(e) => Some(e.clone()),
                None => None,
            },
            errors: match &self.errors {
                Some(e) => Some(e.clone()),
                None => None,
            },
        }
    }
}

impl From<String> for ApiError {
    fn from(value: String) -> (e: ApiError)
        ensures
            e@ == ApiErrorView::single(value@),
    {
        ApiError { error: Some(value), errors: None }
    }
}

impl FromSpecImpl<String> for ApiError {
    open spec fn obeys_from_spec() -> bool {
        true
    }

    closed spec fn from_spec(value: String) -> ApiError {
        ApiError { error: Some(value), errors: None }
    }
}

impl From<Vec<String>> for ApiError {
    fn from(value: Vec<String>) -> (e: ApiError)
        ensures
            e@ == ApiErrorView::list(value.deep_view()),
    {
        ApiError { error: None, errors: Some(value) }
    }
}

impl FromSpecImpl<Vec<String>> for ApiError {
    open spec fn obeys_from_spec() -> bool {
        true
    }

    closed spec fn from_spec(value: Vec<String>) -> ApiError {
        ApiError { error: None, errors: Some(value) }
    }
}

/// One rider joined or left one car.
#[derive(Debug)]
pub struct SimpleRiderChange {
    pub event_id: i32,
    pub car_id: i32,
    pub rider_id: String,
}

pub struct SimpleRiderChangeView {
    pub event_id: i32,
    pub car_id: i32,
    pub rider_id: Seq<char>,
}

impl View for SimpleRiderChange {
    type V = SimpleRiderChangeView;

    open spec fn view(&self) -> SimpleRiderChangeView {
        SimpleRiderChangeView {
            event_id: self.event_id,
            car_id: self.car_id,
            rider_id: self.rider_id@,
        }
    }
}

impl Clone for SimpleRiderChange {
    fn clone(&self) -> (r: SimpleRiderChange)
        ensures
            r@ == self@,
    {
        SimpleRiderChange {
            event_id: self.event_id,
            car_id: self.car_id,
            rider_id: self.rider_id.clone(),
        }
    }
}

/// A car's riders before and after its driver replaced the roster.
#[derive(Debug)]
pub struct MultipleRiderChange {
    pub event_id: i32,
    pub car_id: i32,
    pub old_riders: Vec<String>,
    pub new_riders: Vec<String>,
}

pub struct MultipleRiderChangeView {
    pub event_id: i32,
    pub car_id: i32,
    pub old_riders: Seq<Seq<char>>,
    pub new_riders: Seq<Seq<char>>,
}

impl View for MultipleRiderChange {
    type V = MultipleRiderChangeView;

    open spec fn view(&self) -> MultipleRiderChangeView {
        MultipleRiderChangeView {
            event_id: self.event_id,
            car_id: self.car_id,
            old_riders: self.old_riders.deep_view(),
            new_riders: self.new_riders.deep_view(),
        }
    }
}

impl Clone for MultipleRiderChange {
    fn clone(&self) -> (r: MultipleRiderChange)
        ensures
            r@ == self@,
    {
        MultipleRiderChange {
            event_id: self.event_id,
            car_id: self.car_id,
            old_riders: self.old_riders.clone(),
            new_riders: self.new_riders.clone(),
        }
    }
}

/// A queued notification job.
#[derive(Debug)]
pub enum RedisJob {
    Join(SimpleRiderChange),
    Leave(SimpleRiderChange),
    RiderUpdate(MultipleRiderChange),
}

pub enum RedisJobView {
    Join(SimpleRiderChangeView),
    Leave(SimpleRiderChangeView),
    RiderUpdate(MultipleRiderChangeView),
}

impl View for RedisJob {
    type V = RedisJobView;

    open spec fn view(&self) -> RedisJobView {
        match self {
            RedisJob::Join(c) => RedisJobView::Join(c@),
            RedisJob::Leave(c) => RedisJobView::Leave(c@),
            RedisJob::RiderUpdate(c) => RedisJobView::RiderUpdate(c@),
        }
    }
}

impl Clone for RedisJob {
    fn clone(&self) -> (r: RedisJob)
        ensures
            r@ == self@,
    {
        match self {
            RedisJob::Join(c) => RedisJob::Join(c.clone()),
            RedisJob::Leave(c) => RedisJob::Leave(c.clone()),
            RedisJob::RiderUpdate(c) => RedisJob::RiderUpdate(c.clone()),
        }
    }
}

impl DeepView for RedisJob {
    type V = RedisJobView;

    open spec fn deep_view(&self) -> RedisJobView {
        self@
    }
}

/// What a response carries.
#[derive(Debug)]
pub enum Body {
    /// Nothing.
    Empty,
    /// Plain text.
    Text(String),
    /// A document that is one string.
    Message(String),
    /// A document that is one number, the id of a record.
    Id(i32),
    /// A document that reports a failure.
    Error(ApiError),
    Car(Car),
    Cars(Vec<Car>),
    Event(Event),
    Events(Vec<Event>),
    Users(Vec<UserData>),
    /// What the session keeps of its user, if it has one.
    Session(Option<UserInfo>),
    /// The content of a file, and what kind of content it is.
    File { content_type: String, content: Vec<u8> },
}

pub enum BodyView {
    Empty,
    Text(Seq<char>),
    Message(Seq<char>),
    Id(i32),
    Error(ApiErrorView),
    Car(CarView),
    Cars(Seq<CarView>),
    Event(EventView),
    Events(Seq<EventView>),
    Users(Seq<UserDataView>),
    Session(Option<UserInfoView>),
    File { content_type: Seq<char>, content: Seq<u8> },
}

impl View for Body {
    type V = BodyView;

    open spec fn view(&self) -> BodyView {
        match self {
            Body::Empty => BodyView::Empty,
            Body::Text(t) => BodyView::Text(t@),
            Body::Message(t) => BodyView::Message(t@),
            Body::Id(id) => BodyView::Id(*id),
            Body::Error(e) => BodyView::Error(e@),
            Body::Car(c) => BodyView::Car(c@),
            Body::Cars(c) => BodyView::Cars(c.deep_view()),
            Body::Event(e) => BodyView::Event(e@),
            Body::Events(e) => BodyView::Events(e.deep_view()),
            Body::Users(u) => BodyView::Users(u.deep_view()),
            Body::Session(u) => BodyView::Session(u.deep_view()),
            Body::File { content_type, content } => BodyView::File {
                content_type: content_type@,
                content: content@,
            },
        }
    }
}

impl Clone for Body {
    fn clone(&self) -> (r: Body)
        ensures
            r@ == self@,
    {
        match self {
            Body::Empty => Body::Empty,
            Body::Text(t) => Body::Text(t.clone()),
            Body::Message(t) => Body::Message(t.clone()),
            Body::Id(id) => Body::Id(*id),
            Body::Error(e) => Body::Error(e.clone()),
            Body::Car(c) => Body::Car(c.clone()),
            Body::Cars(c) => Body::Cars(clone_cars(c)),
            Body::Event(e) => Body::Event(e.clone()),
            Body::Events(e) => Body::Events(clone_events(e)),
            Body::Users(u) => Body::Users(clone_users(u)),
            Body::Session(Some(u)) => Body::Session(Some(u.clone())),
            Body::Session(None) => Body::Session(None),
            Body::File { content_type, content } => Body::File {
                content_type: content_type.clone(),
                content: content.clone(),
            },
        }
    }
}

pub const STATUS_OK: u16 = 200;

pub const STATUS_FOUND: u16 = 302;

pub const STATUS_BAD_REQUEST: u16 = 400;

pub const STATUS_UNAUTHORIZED: u16 = 401;

pub const STATUS_NOT_FOUND: u16 = 404;

pub const STATUS_INTERNAL: u16 = 500;

/// The answer to a request: the status, where to go instead (for a
/// redirect), and the body.
#[derive(Debug)]
pub struct Response {
    pub status: u16,
    pub location: Option<String>,
    pub body: Body,
}

pub struct ResponseView {
    pub status: u16,
    pub location: Option<Seq<char>>,
    pub body: BodyView,
}

impl View for Response {
    type V = ResponseView;

    open spec fn view(&self) -> ResponseView {
        ResponseView {
            status: self.status,
            location: self.location.deep_view(),
            body: self.body@,
        }
    }
}

impl Clone for Response {
    fn clone(&self) -> (r: Response)
        ensures
            r@ == self@,
    {
        Response {
            status: self.status,
            location: match &self.location {
                Some(l) => Some(l.clone()),
                None => None,
            },
            body: self.body.clone(),
        }
    }
}

impl ResponseView {
    /// The answer with `status` and `body`.
    pub open spec fn plain(status: u16, body: BodyView) -> ResponseView {
        ResponseView { status, location: None, body }
    }

    /// The failure `status` with the one message `msg`.
    pub open spec fn failure(status: u16, msg: Seq<char>) -> ResponseView {
        ResponseView::plain(status, BodyView::Error(ApiErrorView::single(msg)))
    }

    /// The rejection of a request that broke the rules `msgs`.
    pub open spec fn rejected(msgs: Seq<Seq<char>>) -> ResponseView {
        ResponseView::plain(STATUS_BAD_REQUEST, BodyView::Error(ApiErrorView::list(msgs)))
    }

    /// The answer that sends the client to `location`.
    pub open spec fn redirect(location: Seq<char>) -> ResponseView {
        ResponseView { status: STATUS_FOUND, location: Some(location), body: BodyView::Empty }
    }

    pub open spec fn msg_no_session() -> Seq<char> {
        "Failed to get user data from session"@
    }

    /// The answer to a request that comes without a user.
    pub open spec fn no_session() -> ResponseView {
        ResponseView::failure(STATUS_UNAUTHORIZED, ResponseView::msg_no_session())
    }
}

impl Response {
    pub fn plain(status: u16, body: Body) -> (r: Response)
        ensures
            r@ == ResponseView::plain(status, body@),
    {
        Response { status, location: None, body }
    }

    pub fn failure(status: u16, msg: &str) -> (r: Response)
        ensures
            r@ == ResponseView::failure(status, msg@),
    {
        Response { status, location: None, body: Body::Error(ApiError::message(msg)) }
    }

    pub fn rejected(msgs: Vec<String>) -> (r: Response)
        ensures
            r@ == ResponseView::rejected(msgs.deep_view()),
    {
        Response { status: STATUS_BAD_REQUEST, location: None, body: Body::Error(ApiError::from(msgs)) }
    }

    pub fn redirect(location: &str) -> (r: Response)
        ensures
            r@ == ResponseView::redirect(location@),
    {
        Response { status: STATUS_FOUND, location: Some(location.to_string()), body: Body::Empty }
    }

    pub fn no_session() -> (r: Response)
        ensures
            r@ == ResponseView::no_session(),
    {
        Response::failure(STATUS_UNAUTHORIZED, "Failed to get user data from session")
    }
}

} // verus!
