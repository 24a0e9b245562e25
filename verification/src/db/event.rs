//! Events and the rules that an event has to meet before it is stored.

use vstd::prelude::*;
use crate::db::car::{complaint, note, verdict_view};
use crate::db::user::{UserData, UserDataView};
use crate::time::Timestamp;

verus! {

/// A stored event with its creator.
#[derive(Debug)]
pub struct Event {
    pub id: i32,
    pub name: String,
    pub location: String,
    pub start_time: Timestamp,
    pub end_time: Timestamp,
    pub creator: UserData,
}

pub struct EventView {
    pub id: i32,
    pub name: Seq<char>,
    pub location: Seq<char>,
    pub start_time: Timestamp,
    pub end_time: Timestamp,
    pub creator: UserDataView,
}

impl View for Event {
    type V = EventView;

    open spec fn view(&self) -> EventView {
        EventView {
            id: self.id,
            name: self.name@,
            location: self.location@,
            start_time: self.start_time,
            end_time: self.end_time,
            creator: self.creator@,
        }
    }
}

impl DeepView for Event {
    type V = EventView;

    open spec fn deep_view(&self) -> EventView {
        self@
    }
}

impl Clone for Event {
    fn clone(&self) -> (r: Event)
        ensures
            r@ == self@,
    {
        Event {
            id: self.id,
            name: self.name.clone(),
            location: self.location.clone(),
            start_time: self.start_time,
            end_time: self.end_time,
            creator: self.creator.clone(),
        }
    }
}

/// A copy of `events`.
pub fn clone_events(events: &Vec<Event>) -> (r: Vec<Event>)
    ensures
        r.deep_view() == events.deep_view(),
{
    let mut r: Vec<Event> = Vec::new();
    let mut i: usize = 0;
    while i < events.len()
        invariant
            i <= events.len(),
            r.len() == i,
            forall|j: int| 0 <= j < i ==> r[j]@ == events[j]@,
        decreases events.len() - i,
    {
        r.push(events[i].clone());
        i += 1;
    }
    assert(r.deep_view() =~= events.deep_view());
    r
}

/// What a creator asks for.
#[derive(Debug)]
pub struct EventData {
    pub name: String,
    pub location: String,
    pub start_time: Timestamp,
    pub end_time: Timestamp,
}

pub struct EventDataView {
    pub name: Seq<char>,
    pub location: Seq<char>,
    pub start_time: Timestamp,
    pub end_time: Timestamp,
}

impl Clone for EventData {
    fn clone(&self) -> (r: EventData)
        ensures
            r@ == self@,
    {
        EventData {
            name: self.name.clone(),
            location: self.location.clone(),
            start_time: self.start_time,
            end_time: self.end_time,
        }
    }
}

impl View for EventData {
    type V = EventDataView;

    open spec fn view(&self) -> EventDataView {
        EventDataView {
            name: self.name@,
            location: self.location@,
            start_time: self.start_time,
            end_time: self.end_time,
        }
    }
}

pub open spec fn msg_missing_name() -> Seq<char> {
    "Missing Name."@
}

pub open spec fn msg_missing_location() -> Seq<char> {
    "Missing Location."@
}

pub open spec fn msg_start_after_end() -> Seq<char> {
    "Start date cannot be after end date."@
}

pub open spec fn msg_event_in_past() -> Seq<char> {
    "Event cannot be in the past."@
}

impl EventDataView {
    /// Everything that is wrong with the proposed event at the time `now`, in
    /// the order of the rules: a name, a location, a start that is not after
    /// the end, an end that has not passed.
    pub open spec fn violations(self, now: Timestamp) -> Seq<Seq<char>> {
        complaint(self.name.len() == 0, msg_missing_name()) + complaint(
            self.location.len() == 0,
            msg_missing_location(),
        ) + complaint(self.end_time.before(self.start_time), msg_start_after_end()) + complaint(
            self.end_time.before(now),
            msg_event_in_past(),
        )
    }

    pub open spec fn verdict(self, now: Timestamp) -> Result<(), Seq<Seq<char>>> {
        let found = self.violations(now);
        if found.len() == 0 {
            Ok(())
        } else {
            Err(found)
        }
    }
}

impl EventData {
    /// Checks the proposed event against every rule at the time `now`.
    pub fn validate_at(&self, now: &Timestamp) -> (r: Result<(), Vec<String>>)
        ensures
            verdict_view(r) == self@.verdict(*now),
    {
        let mut errs: Vec<String> = Vec::new();
        assert(errs.deep_view() =~= Seq::<Seq<char>>::empty());
        note(&mut errs, self.name.as_str().is_empty(), "Missing Name.");
        note(&mut errs, self.location.as_str().is_empty(), "Missing Location.");
        note(
            &mut errs,
            self.end_time.is_before(&self.start_time),
            "Start date cannot be after end date.",
        );
        note(&mut errs, self.end_time.is_before(now), "Event cannot be in the past.");
        if errs.len() > 0 {
            Err(errs)
        } else {
            Ok(())
        }
    }

    /// Checks the proposed event against every rule, as of now.
    pub fn validate(&self) -> (r: Result<(), Vec<String>>)
        ensures
            exists|now: Timestamp| verdict_view(r) == #[trigger] self@.verdict(now),
    {
        let now = Timestamp::now();
        let r = self.validate_at(&now);
        assert(verdict_view(r) == self@.verdict(now));
        r
    }
}

} // verus!
