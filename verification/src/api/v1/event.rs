//! Requests about events.

pub mod car;

use vstd::prelude::*;
use vstd::string::*;
use crate::app::{
    Body, BodyView, Response, ResponseView, STATUS_INTERNAL, STATUS_NOT_FOUND, STATUS_OK,
};
use crate::db::event::{Event, EventData, EventDataView, EventView};
use crate::time::Timestamp;

verus! {

/// What a request about an event asks of the storage.
#[derive(Debug)]
pub enum EventCommand {
    /// Store a new event for this creator.
    Insert { creator_id: String, data: EventData },
    /// Change the event with this id and this creator, and no other.
    Update { id: i32, creator_id: String, data: EventData },
    /// Delete the event with this id and this creator, and no other.
    Delete { id: i32, creator_id: String },
}

pub enum EventCommandView {
    Insert { creator_id: Seq<char>, data: EventDataView },
    Update { id: i32, creator_id: Seq<char>, data: EventDataView },
    Delete { id: i32, creator_id: Seq<char> },
}

impl View for EventCommand {
    type V = EventCommandView;

    open spec fn view(&self) -> EventCommandView {
        match self {
            EventCommand::Insert { creator_id, data } => EventCommandView::Insert {
                creator_id: creator_id@,
                data: data@,
            },
            EventCommand::Update { id, creator_id, data } => EventCommandView::Update {
                id: *id,
                creator_id: creator_id@,
                data: data@,
            },
            EventCommand::Delete { id, creator_id } => EventCommandView::Delete {
                id: *id,
                creator_id: creator_id@,
            },
        }
    }
}

/// What a request comes to before the storage is asked: the command to give,
/// or the answer that ends the request at once.
pub type Decision = Result<EventCommand, Response>;

pub type DecisionView = Result<EventCommandView, ResponseView>;

pub open spec fn decision_view(d: Decision) -> DecisionView {
    match d {
        Ok(c) => Ok(c@),
        Err(r) => Err(r@),
    }
}

/// A request to create `event`, made by `user` at the time `now`: it needs a
/// user, and then an event that breaks no rule.
pub open spec fn create_decision(
    user: Option<Seq<char>>,
    event: EventDataView,
    now: Timestamp,
) -> DecisionView {
    match user {
        None => Err(ResponseView::no_session()),
        Some(creator_id) => match event.verdict(now) {
            Err(msgs) => Err(ResponseView::rejected(msgs)),
            Ok(_) => Ok(EventCommandView::Insert { creator_id, data: event }),
        },
    }
}

/// A request to replace the event `id` by `event`, made by `user` at the
/// time `now`. The storage is asked to change the event of that user alone.
pub open spec fn update_decision(
    id: i32,
    user: Option<Seq<char>>,
    event: EventDataView,
    now: Timestamp,
) -> DecisionView {
    match user {
        None => Err(ResponseView::no_session()),
        Some(creator_id) => match event.verdict(now) {
            Err(msgs) => Err(ResponseView::rejected(msgs)),
            Ok(_) => Ok(EventCommandView::Update { id, creator_id, data: event }),
        },
    }
}

/// A request to delete the event `id`, made by `user`. The storage is asked
/// to delete the event of that user alone.
pub open spec fn delete_decision(id: i32, user: Option<Seq<char>>) -> DecisionView {
    match user {
        None => Err(ResponseView::no_session()),
        Some(creator_id) => Ok(EventCommandView::Delete { id, creator_id }),
    }
}

pub fn create_event_at(user: Option<String>, event: EventData, now: &Timestamp) -> (d: Decision)
    ensures
        decision_view(d) == create_decision(user.deep_view(), event@, *now),
{
    match user {
        None => Err(Response::no_session()),
        Some(creator_id) => match event.validate_at(now) {
            Err(msgs) => Err(Response::rejected(msgs)),
            Ok(_) => Ok(EventCommand::Insert { creator_id, data: event }),
        },
    }
}

/// Decides on a request to create `event`, as of now.
pub fn create_event(user: Option<String>, event: EventData) -> (d: Decision)
    ensures
        exists|now: Timestamp|
            decision_view(d) == #[trigger] create_decision(user.deep_view(), event@, now),
{
    let now = Timestamp::now();
    let ghost u = user.deep_view();
    let ghost e = event@;
    let d = create_event_at(user, event, &now);
    assert(decision_view(d) == create_decision(u, e, now));
    d
}

pub fn update_event_at(id: i32, user: Option<String>, event: EventData, now: &Timestamp) -> (d:
    Decision)
    ensures
        decision_view(d) == update_decision(id, user.deep_view(), event@, *now),
{
    match user {
        None => Err(Response::no_session()),
        Some(creator_id) => match event.validate_at(now) {
            Err(msgs) => Err(Response::rejected(msgs)),
            Ok(_) => Ok(EventCommand::Update { id, creator_id, data: event }),
        },
    }
}

/// Decides on a request to replace the event `id`, as of now.
pub fn update_event(id: i32, user: Option<String>, event: EventData) -> (d: Decision)
    ensures
        exists|now: Timestamp|
            decision_view(d) == #[trigger] update_decision(id, user.deep_view(), event@, now),
{
    let now = Timestamp::now();
    let ghost u = user.deep_view();
    let ghost e = event@;
    let d = update_event_at(id, user, event, &now);
    assert(decision_view(d) == update_decision(id, u, e, now));
    d
}

/// Decides on a request to delete the event `id`.
pub fn delete_event(id: i32, user: Option<String>) -> (d: Decision)
    ensures
        decision_view(d) == delete_decision(id, user.deep_view()),
{
    match user {
        None => Err(Response::no_session()),
        Some(creator_id) => Ok(EventCommand::Delete { id, creator_id }),
    }
}

pub open spec fn msg_create_failed() -> Seq<char> {
    "Failed to create event"@
}

pub open spec fn msg_event_not_found() -> Seq<char> {
    "Event not found"@
}

pub open spec fn msg_get_event_failed() -> Seq<char> {
    "Failed to get event"@
}

pub open spec fn msg_get_events_failed() -> Seq<char> {
    "Failed to get events"@
}

pub open spec fn msg_event_updated() -> Seq<char> {
    "Event updated successfully"@
}

pub open spec fn msg_not_creator() -> Seq<char> {
    "Event not found or you are not the creator"@
}

pub open spec fn msg_update_event_failed() -> Seq<char> {
    "Failed to update event"@
}

pub open spec fn msg_event_deleted() -> Seq<char> {
    "Event deleted"@
}

pub open spec fn msg_delete_event_failed() -> Seq<char> {
    "Failed to delete event"@
}

/// The answer once the storage was asked to store an event: the id of the
/// new event.
pub open spec fn created(stored: Result<EventView, Seq<char>>) -> ResponseView {
    match stored {
        Ok(event) => ResponseView::plain(STATUS_OK, BodyView::Id(event.id)),
        Err(_) => ResponseView::failure(STATUS_INTERNAL, msg_create_failed()),
    }
}

/// The answer to a request for one event.
pub open spec fn found(stored: Result<Option<EventView>, Seq<char>>) -> ResponseView {
    match stored {
        Ok(Some(event)) => ResponseView::plain(STATUS_OK, BodyView::Event(event)),
        Ok(None) => ResponseView::failure(STATUS_NOT_FOUND, msg_event_not_found()),
        Err(_) => ResponseView::failure(STATUS_INTERNAL, msg_get_event_failed()),
    }
}

/// The answer to a request for the events.
pub open spec fn found_all(stored: Result<Seq<EventView>, Seq<char>>) -> ResponseView {
    match stored {
        Ok(events) => ResponseView::plain(STATUS_OK, BodyView::Events(events)),
        Err(_) => ResponseView::failure(STATUS_INTERNAL, msg_get_events_failed()),
    }
}

/// The answer once the storage was asked to change an event. Where it found
/// no event of the creator, the answer is "not found", whether or not the
/// event exists.
pub open spec fn updated(stored: Result<Option<EventView>, Seq<char>>) -> ResponseView {
    match stored {
        Ok(Some(_)) => ResponseView::plain(STATUS_OK, BodyView::Text(msg_event_updated())),
        Ok(None) => ResponseView::failure(STATUS_NOT_FOUND, msg_not_creator()),
        Err(_) => ResponseView::failure(STATUS_INTERNAL, msg_update_event_failed()),
    }
}

/// The answer once the storage was asked to delete an event. Where it found
/// no event of the creator, the answer is "not found", whether or not the
/// event exists.
pub open spec fn deleted(stored: Result<Option<i32>, Seq<char>>) -> ResponseView {
    match stored {
        Ok(Some(_)) => ResponseView::plain(STATUS_OK, BodyView::Text(msg_event_deleted())),
        Ok(None) => ResponseView::failure(STATUS_NOT_FOUND, msg_not_creator()),
        Err(_) => ResponseView::failure(STATUS_INTERNAL, msg_delete_event_failed()),
    }
}

pub open spec fn event_result_view(r: Result<Event, String>) -> Result<EventView, Seq<char>> {
    match r {
        Ok(e) => Ok(e@),
        Err(e) => Err(e@),
    }
}

pub open spec fn event_option_view(r: Result<Option<Event>, String>) -> Result<
    Option<EventView>,
    Seq<char>,
> {
    match r {
        Ok(e) => Ok(e.deep_view()),
        Err(e) => Err(e@),
    }
}

pub open spec fn events_view(r: Result<Vec<Event>, String>) -> Result<Seq<EventView>, Seq<char>> {
    match r {
        Ok(e) => Ok(e.deep_view()),
        Err(e) => Err(e@),
    }
}

pub open spec fn id_option_view(r: Result<Option<i32>, String>) -> Result<Option<i32>, Seq<char>> {
    match r {
        Ok(id) => Ok(id),
        Err(e) => Err(e@),
    }
}

/// Answers a request to create an event, once the storage was asked.
pub fn event_created(stored: Result<Event, String>) -> (r: Response)
    ensures
        r@ == created(event_result_view(stored)),
{
    match stored {
        Ok(event) => Response::plain(STATUS_OK, Body::Id(event.id)),
        Err(_) => Response::failure(STATUS_INTERNAL, "Failed to create event"),
    }
}

/// Answers a request for one event.
pub fn get_event(stored: Result<Option<Event>, String>) -> (r: Response)
    ensures
        r@ == found(event_option_view(stored)),
{
    match stored {
        Ok(Some(event)) => Response::plain(STATUS_OK, Body::Event(event)),
        Ok(None) => Response::failure(STATUS_NOT_FOUND, "Event not found"),
        Err(_) => Response::failure(STATUS_INTERNAL, "Failed to get event"),
    }
}

/// Whether a request for the events asks for the past ones; it asks for the
/// coming ones unless it says otherwise.
pub fn wants_past(past: Option<bool>) -> (b: bool)
    ensures
        b == (past == Some(true)),
{
    match past {
        Some(p) => p,
        None => false,
    }
}

/// Answers a request for the events.
pub fn get_all_events(stored: Result<Vec<Event>, String>) -> (r: Response)
    ensures
        r@ == found_all(events_view(stored)),
{
    match stored {
        Ok(events) => Response::plain(STATUS_OK, Body::Events(events)),
        Err(_) => Response::failure(STATUS_INTERNAL, "Failed to get events"),
    }
}

/// Answers a request to replace an event, once the storage was asked.
pub fn event_updated(stored: Result<Option<Event>, String>) -> (r: Response)
    ensures
        r@ == updated(event_option_view(stored)),
{
    match stored {
        Ok(Some(_)) => Response::plain(
            STATUS_OK,
            Body::Text("Event updated successfully".to_string()),
        ),
        Ok(None) => Response::failure(
            STATUS_NOT_FOUND,
            "Event not found or you are not the creator",
        ),
        Err(_) => Response::failure(STATUS_INTERNAL, "Failed to update event"),
    }
}

/// Answers a request to delete an event, once the storage was asked.
pub fn event_deleted(stored: Result<Option<i32>, String>) -> (r: Response)
    ensures
        r@ == deleted(id_option_view(stored)),
{
    match stored {
        Ok(Some(_)) => Response::plain(STATUS_OK, Body::Text("Event deleted".to_string())),
        Ok(None) => Response::failure(
            STATUS_NOT_FOUND,
            "Event not found or you are not the creator",
        ),
        Err(_) => Response::failure(STATUS_INTERNAL, "Failed to delete event"),
    }
}

} // verus!
