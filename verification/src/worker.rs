//! The worker's decisions: how one leased job proceeds from its payload to its
//! notifications, and what becomes of the lease afterwards.
//!
//! The worker itself waits on the queue, the user directory and the
//! notification service. Here stands what it decides in between: a state that
//! names the one thing to do next, and a step that takes what came back.
//!
//! A failure is either worth another attempt or not. A lookup or a delivery
//! that failed may succeed later, so the job keeps its lease and comes back
//! when the lease runs out. A payload that does not parse, or an event, a
//! driver or a rider that is not on record, will not get better: such a job
//! is marked complete and so dropped.
//!
//! A roster change tells several riders, and a delivery that fails does not
//! keep the others from being told: the work goes on with the next rider, and
//! the failure is remembered. Once nobody is left to tell, a job with a failed
//! delivery ends as worth another attempt. It then comes back whole, so those
//! who were told are told again. A rider who is not on record ends the work at
//! once. If a delivery failed by then, the job still ends as worth another
//! attempt, because that attempt may cure the delivery; it is dropped only by
//! an attempt in which every delivery before the missing rider went through.

use vstd::prelude::*;
use vstd::hash_map::StringHashMap;
use vstd::string::*;
use crate::app::{
    MultipleRiderChange, MultipleRiderChangeView, RedisJob, RedisJobView, SimpleRiderChange,
    SimpleRiderChangeView,
};
use crate::db::user::{UserData, UserDataView};
use crate::pings::{recipient, recipient_of, Ping, PingKind, PingView};
use crate::roster::{diff_of, lemma_only_in, only_in, rider_diff, RiderDiffView};

verus! {

/// Why a job failed, and whether another attempt may succeed.
#[derive(Debug)]
pub struct JobError {
    pub msg: String,
    pub should_retry: bool,
}

pub struct JobErrorView {
    pub msg: Seq<char>,
    pub should_retry: bool,
}

impl View for JobError {
    type V = JobErrorView;

    open spec fn view(&self) -> JobErrorView {
        JobErrorView { msg: self.msg@, should_retry: self.should_retry }
    }
}

impl Clone for JobError {
    fn clone(&self) -> (r: JobError)
        ensures
            r@ == self@,
    {
        JobError { msg: self.msg.clone(), should_retry: self.should_retry }
    }
}

/// How a job ended.
pub type Outcome = Result<(), JobError>;

pub type OutcomeView = Result<(), JobErrorView>;

pub open spec fn outcome_view(o: Outcome) -> OutcomeView {
    match o {
        Ok(_) => Ok(()),
        Err(e) => Err(e@),
    }
}

/// A failure that another attempt may cure.
pub open spec fn transient(msg: Seq<char>) -> OutcomeView {
    Err(JobErrorView { msg, should_retry: true })
}

/// A failure that no further attempt can cure.
pub open spec fn permanent(msg: Seq<char>) -> OutcomeView {
    Err(JobErrorView { msg, should_retry: false })
}

pub open spec fn msg_bad_payload() -> Seq<char> {
    "Failed to Parse into Job"@
}

pub open spec fn msg_no_rider() -> Seq<char> {
    "Rider does not exist"@
}

pub open spec fn msg_no_event() -> Seq<char> {
    "Event does not exist"@
}

pub open spec fn msg_no_driver() -> Seq<char> {
    "Driver does not exist"@
}

pub open spec fn msg_user_missing() -> Seq<char> {
    "User was missing from map."@
}

pub open spec fn msg_send_failed(cause: Seq<char>) -> Seq<char> {
    "Failed to send message: "@ + cause
}

/// A rider whom a roster change affects, with the kind of notification due:
/// `Remove` or `Add`.
#[derive(Debug)]
pub struct Target {
    pub kind: PingKind,
    pub id: String,
}

pub struct TargetView {
    pub kind: PingKind,
    pub id: Seq<char>,
}

impl View for Target {
    type V = TargetView;

    open spec fn view(&self) -> TargetView {
        TargetView { kind: self.kind, id: self.id@ }
    }
}

impl DeepView for Target {
    type V = TargetView;

    open spec fn deep_view(&self) -> TargetView {
        self@
    }
}

/// Those whom a roster change affects: the removed riders first, then the
/// added ones. A rider who stays is no target.
pub open spec fn targets_of(d: RiderDiffView) -> Seq<TargetView> {
    d.removed.map_values(|id: Seq<char>| TargetView { kind: PingKind::Remove, id })
        + d.added.map_values(|id: Seq<char>| TargetView { kind: PingKind::Add, id })
}

/// The records `users` by id; of two records with one id, the later one.
pub open spec fn users_by_id(users: Seq<UserDataView>) -> Map<Seq<char>, UserDataView>
    decreases users.len(),
{
    if users.len() == 0 {
        Map::empty()
    } else {
        users_by_id(users.drop_last()).insert(users.last().id, users.last())
    }
}

/// What a map of records holds.
pub open spec fn records(users: Map<Seq<char>, UserData>) -> Map<Seq<char>, UserDataView> {
    users.map_values(|u: UserData| u@)
}

/// The record with the id `id`, if `users` has one.
pub open spec fn find_user(users: Map<Seq<char>, UserDataView>, id: Seq<char>) -> Option<
    UserDataView,
> {
    if users.contains_key(id) {
        Some(users[id])
    } else {
        None
    }
}

/// Puts the records `users` into a map by id.
pub fn index_users(users: &Vec<UserData>) -> (by_id: StringHashMap<UserData>)
    ensures
        records(by_id@) == users_by_id(users.deep_view()),
{
    let mut by_id: StringHashMap<UserData> = StringHashMap::new();
    let mut i: usize = 0;
    proof {
        assert(users.deep_view().take(0) =~= Seq::<UserDataView>::empty());
        assert(records(by_id@) =~= Map::<Seq<char>, UserDataView>::empty());
    }
    while i < users.len()
        invariant
            i <= users.len(),
            records(by_id@) == users_by_id(users.deep_view().take(i as int)),
        decreases users.len() - i,
    {
        let ghost before = by_id@;
        let user = users[i].clone();
        let id = user.id.clone();
        by_id.insert(id, user);
        proof {
            let all = users.deep_view();
            assert(all.take(i + 1).drop_last() =~= all.take(i as int));
            assert(all.take(i + 1).last() == users[i as int]@);
            assert(records(by_id@) =~= records(before).insert(user.id@, user@));
        }
        i += 1;
    }
    proof {
        assert(users.deep_view().take(users.len() as int) =~= users.deep_view());
    }
    by_id
}

/// Looks up the record with the id `id`.
pub fn lookup_user<'a>(users: &'a StringHashMap<UserData>, id: &String) -> (r: Option<
    &'a UserData,
>)
    ensures
        r.deep_view() == find_user(records(users@), id@),
{
    users.get(id.as_str())
}

/// What a search for the next notification of a roster change finds.
pub enum Scan {
    /// The target at position `at` is due `ping`.
    Next { at: int, ping: PingView },
    /// A target is not on record.
    Missing,
    /// No target from here on is due a notification.
    Finished,
}

/// Looks from position `from` on for the first target to notify. Targets who
/// receive no notifications are passed over; one who is not among `users`
/// ends the search.
pub open spec fn scan(
    targets: Seq<TargetView>,
    users: Map<Seq<char>, UserDataView>,
    who: Seq<char>,
    event: Seq<char>,
    from: int,
) -> Scan
    decreases targets.len() - from,
{
    if from < 0 || from >= targets.len() {
        Scan::Finished
    } else {
        match find_user(users, targets[from].id) {
            None => Scan::Missing,
            Some(u) => if u.receives_pings() {
                Scan::Next {
                    at: from,
                    ping: PingView { kind: targets[from].kind, to: recipient(u.email), who, event },
                }
            } else {
                scan(targets, users, who, event, from + 1)
            },
        }
    }
}

/// What the worker is told after it did what the state asked for.
#[derive(Debug)]
pub enum WorkEvent {
    /// The payload of the leased job; `None` if it did not parse.
    Decoded(Option<RedisJob>),
    /// The record of the rider who joined or left, if there is one.
    Rider(Result<Option<UserData>, String>),
    /// The name of the event, if there is such an event.
    EventName(Result<Option<String>, String>),
    /// The record of the car's driver, if there is such a car.
    Driver(Result<Option<UserData>, String>),
    /// The records found for the riders that a roster change affects.
    Users(Result<Vec<UserData>, String>),
    /// The notification went out, or did not.
    Sent(Result<(), String>),
}

pub enum WorkEventView {
    Decoded(Option<RedisJobView>),
    Rider(Result<Option<UserDataView>, Seq<char>>),
    EventName(Result<Option<Seq<char>>, Seq<char>>),
    Driver(Result<Option<UserDataView>, Seq<char>>),
    Users(Result<Seq<UserDataView>, Seq<char>>),
    Sent(Result<(), Seq<char>>),
}

impl View for WorkEvent {
    type V = WorkEventView;

    open spec fn view(&self) -> WorkEventView {
        match self {
            WorkEvent::Decoded(j) => WorkEventView::Decoded(j.deep_view()),
            WorkEvent::Rider(Ok(r)) => WorkEventView::Rider(Ok(r.deep_view())),
            WorkEvent::Rider(Err(e)) => WorkEventView::Rider(Err(e@)),
            WorkEvent::EventName(Ok(n)) => WorkEventView::EventName(Ok(n.deep_view())),
            WorkEvent::EventName(Err(e)) => WorkEventView::EventName(Err(e@)),
            WorkEvent::Driver(Ok(d)) => WorkEventView::Driver(Ok(d.deep_view())),
            WorkEvent::Driver(Err(e)) => WorkEventView::Driver(Err(e@)),
            WorkEvent::Users(Ok(u)) => WorkEventView::Users(Ok(u.deep_view())),
            WorkEvent::Users(Err(e)) => WorkEventView::Users(Err(e@)),
            WorkEvent::Sent(Ok(_)) => WorkEventView::Sent(Ok(())),
            WorkEvent::Sent(Err(e)) => WorkEventView::Sent(Err(e@)),
        }
    }
}

/// The one thing that a state asks the worker to do.
#[derive(Debug)]
pub enum WorkAction {
    /// Parse the payload of the leased job.
    Decode,
    /// Look up the rider with this id.
    FindRider(String),
    /// Look up the name of the event with this id.
    FindEventName(i32),
    /// Look up the driver of the car with this id.
    FindDriver(i32),
    /// Look up the users with these ids, all at once.
    FindUsers(Vec<String>),
    /// Deliver this notification.
    Send(Ping),
    /// Nothing is left to do: the job ended so.
    Finish(Outcome),
}

pub enum WorkActionView {
    Decode,
    FindRider(Seq<char>),
    FindEventName(i32),
    FindDriver(i32),
    FindUsers(Seq<Seq<char>>),
    Send(PingView),
    Finish(OutcomeView),
}

impl View for WorkAction {
    type V = WorkActionView;

    open spec fn view(&self) -> WorkActionView {
        match self {
            WorkAction::Decode => WorkActionView::Decode,
            WorkAction::FindRider(id) => WorkActionView::FindRider(id@),
            WorkAction::FindEventName(id) => WorkActionView::FindEventName(*id),
            WorkAction::FindDriver(id) => WorkActionView::FindDriver(*id),
            WorkAction::FindUsers(ids) => WorkActionView::FindUsers(ids.deep_view()),
            WorkAction::Send(p) => WorkActionView::Send(p@),
            WorkAction::Finish(o) => WorkActionView::Finish(outcome_view(*o)),
        }
    }
}

/// Where the work on one job stands.
#[allow(inconsistent_fields)]
pub enum WorkState {
    /// The payload is yet to be parsed.
    Decoding,
    /// One rider joined or left (`kind`); the rider is being looked up.
    SimpleRider { kind: PingKind, change: SimpleRiderChange },
    /// The event's name is being looked up.
    SimpleEvent { kind: PingKind, change: SimpleRiderChange, rider: UserData },
    /// The car's driver is being looked up.
    SimpleDriver { kind: PingKind, change: SimpleRiderChange, rider: UserData, event_name: String },
    /// The driver is being told.
    SimpleSend { ping: Ping },
    /// A roster was replaced; the event's name is being looked up.
    RosterEvent { change: MultipleRiderChange },
    /// The car's driver is being looked up.
    RosterDriver { change: MultipleRiderChange, event_name: String },
    /// The affected riders are being looked up.
    RosterUsers { targets: Vec<Target>, who: String, event: String },
    /// The target at position `at` is being told. `failed` holds the cause of
    /// the first delivery of this job that failed, if one did.
    RosterSend {
        targets: Vec<Target>,
        users: StringHashMap<UserData>,
        who: String,
        event: String,
        at: usize,
        ping: Ping,
        failed: Option<String>,
    },
    /// The job ended.
    Done(Outcome),
}

#[allow(inconsistent_fields)]
pub enum WorkStateView {
    Decoding,
    SimpleRider { kind: PingKind, change: SimpleRiderChangeView },
    SimpleEvent { kind: PingKind, change: SimpleRiderChangeView, rider: UserDataView },
    SimpleDriver {
        kind: PingKind,
        change: SimpleRiderChangeView,
        rider: UserDataView,
        event_name: Seq<char>,
    },
    SimpleSend { ping: PingView },
    RosterEvent { change: MultipleRiderChangeView },
    RosterDriver { change: MultipleRiderChangeView, event_name: Seq<char> },
    RosterUsers { targets: Seq<TargetView>, who: Seq<char>, event: Seq<char> },
    RosterSend {
        targets: Seq<TargetView>,
        users: Map<Seq<char>, UserDataView>,
        who: Seq<char>,
        event: Seq<char>,
        at: int,
        ping: PingView,
        failed: Option<Seq<char>>,
    },
    Done(OutcomeView),
}

impl View for WorkState {
    type V = WorkStateView;

    open spec fn view(&self) -> WorkStateView {
        match self {
            WorkState::Decoding => WorkStateView::Decoding,
            WorkState::SimpleRider { kind, change } => WorkStateView::SimpleRider {
                kind: *kind,
                change: change@,
            },
            WorkState::SimpleEvent { kind, change, rider } => WorkStateView::SimpleEvent {
                kind: *kind,
                change: change@,
                rider: rider@,
            },
            WorkState::SimpleDriver { kind, change, rider, event_name } => {
                WorkStateView::SimpleDriver {
                    kind: *kind,
                    change: change@,
                    rider: rider@,
                    event_name: event_name@,
                }
            },
            WorkState::SimpleSend { ping } => WorkStateView::SimpleSend { ping: ping@ },
            WorkState::RosterEvent { change } => WorkStateView::RosterEvent { change: change@ },
            WorkState::RosterDriver { change, event_name } => WorkStateView::RosterDriver {
                change: change@,
                event_name: event_name@,
            },
            WorkState::RosterUsers { targets, who, event } => WorkStateView::RosterUsers {
                targets: targets.deep_view(),
                who: who@,
                event: event@,
            },
            WorkState::RosterSend { targets, users, who, event, at, ping, failed } => {
                WorkStateView::RosterSend {
                    targets: targets.deep_view(),
                    users: records(users@),
                    who: who@,
                    event: event@,
                    at: *at as int,
                    ping: ping@,
                    failed: failed.deep_view(),
                }
            },
            WorkState::Done(o) => WorkStateView::Done(outcome_view(*o)),
        }
    }
}

/// How the work on a roster change ends, once nobody is left to tell or a
/// rider turned out `missing` from the records. A delivery that failed, with
/// the cause `failed`, makes the job worth another attempt, whatever else
/// happened; without one, a missing rider ends the job for good.
pub open spec fn roster_end(failed: Option<Seq<char>>, missing: bool) -> OutcomeView {
    match failed {
        Some(cause) => transient(msg_send_failed(cause)),
        None => if missing {
            permanent(msg_user_missing())
        } else {
            Ok(())
        },
    }
}

/// What a roster change remembers once a delivery failed with `cause`: the
/// cause of the first failure.
pub open spec fn first_failure(failed: Option<Seq<char>>, cause: Seq<char>) -> Option<Seq<char>> {
    match failed {
        Some(first) => Some(first),
        None => Some(cause),
    }
}

/// The state in which the search of `scan` from `from` leaves the job, where
/// `failed` is what the job remembers of failed deliveries.
pub open spec fn after_scan(
    targets: Seq<TargetView>,
    users: Map<Seq<char>, UserDataView>,
    who: Seq<char>,
    event: Seq<char>,
    from: int,
    failed: Option<Seq<char>>,
) -> WorkStateView {
    match scan(targets, users, who, event, from) {
        Scan::Next { at, ping } => WorkStateView::RosterSend {
            targets,
            users,
            who,
            event,
            at,
            ping,
            failed,
        },
        Scan::Missing => WorkStateView::Done(roster_end(failed, true)),
        Scan::Finished => WorkStateView::Done(roster_end(failed, false)),
    }
}

impl WorkStateView {
    /// What the state asks for.
    pub open spec fn action(self) -> WorkActionView {
        match self {
            WorkStateView::Decoding => WorkActionView::Decode,
            WorkStateView::SimpleRider { change, .. } => WorkActionView::FindRider(change.rider_id),
            WorkStateView::SimpleEvent { change, .. } => WorkActionView::FindEventName(
                change.event_id,
            ),
            WorkStateView::SimpleDriver { change, .. } => WorkActionView::FindDriver(change.car_id),
            WorkStateView::SimpleSend { ping } => WorkActionView::Send(ping),
            WorkStateView::RosterEvent { change } => WorkActionView::FindEventName(change.event_id),
            WorkStateView::RosterDriver { change, .. } => WorkActionView::FindDriver(change.car_id),
            WorkStateView::RosterUsers { targets, .. } => WorkActionView::FindUsers(
                targets.map_values(|t: TargetView| t.id),
            ),
            WorkStateView::RosterSend { ping, .. } => WorkActionView::Send(ping),
            WorkStateView::Done(o) => WorkActionView::Finish(o),
        }
    }

    /// The state after `event`. An event that does not answer the state's
    /// action changes nothing: the action is due again.
    pub open spec fn step(self, event: WorkEventView) -> WorkStateView {
        match (self, event) {
            (WorkStateView::Decoding, WorkEventView::Decoded(None)) => WorkStateView::Done(
                permanent(msg_bad_payload()),
            ),
            (
                WorkStateView::Decoding,
                WorkEventView::Decoded(Some(RedisJobView::Join(change))),
            ) => WorkStateView::SimpleRider { kind: PingKind::Join, change },
            (
                WorkStateView::Decoding,
                WorkEventView::Decoded(Some(RedisJobView::Leave(change))),
            ) => WorkStateView::SimpleRider { kind: PingKind::Leave, change },
            (
                WorkStateView::Decoding,
                WorkEventView::Decoded(Some(RedisJobView::RiderUpdate(change))),
            ) => WorkStateView::RosterEvent { change },
            (WorkStateView::SimpleRider { .. }, WorkEventView::Rider(Err(msg))) => {
                WorkStateView::Done(transient(msg))
            },
            (WorkStateView::SimpleRider { .. }, WorkEventView::Rider(Ok(None))) => {
                WorkStateView::Done(permanent(msg_no_rider()))
            },
            (WorkStateView::SimpleRider { kind, change }, WorkEventView::Rider(Ok(Some(rider)))) => {
                WorkStateView::SimpleEvent { kind, change, rider }
            },
            (WorkStateView::SimpleEvent { .. }, WorkEventView::EventName(Err(msg))) => {
                WorkStateView::Done(transient(msg))
            },
            (WorkStateView::SimpleEvent { .. }, WorkEventView::EventName(Ok(None))) => {
                WorkStateView::Done(permanent(msg_no_event()))
            },
            (
                WorkStateView::SimpleEvent { kind, change, rider },
                WorkEventView::EventName(Ok(Some(event_name))),
            ) => WorkStateView::SimpleDriver { kind, change, rider, event_name },
            (WorkStateView::SimpleDriver { .. }, WorkEventView::Driver(Err(msg))) => {
                WorkStateView::Done(transient(msg))
            },
            (WorkStateView::SimpleDriver { .. }, WorkEventView::Driver(Ok(None))) => {
                WorkStateView::Done(permanent(msg_no_driver()))
            },
            (
                WorkStateView::SimpleDriver { kind, rider, event_name, .. },
                WorkEventView::Driver(Ok(Some(driver))),
            ) => if driver.receives_pings() {
                WorkStateView::SimpleSend {
                    ping: PingView {
                        kind,
                        to: recipient(driver.email),
                        who: rider.name,
                        event: event_name,
                    },
                }
            } else {
                WorkStateView::Done(Ok(()))
            },
            (WorkStateView::SimpleSend { .. }, WorkEventView::Sent(Ok(_))) => WorkStateView::Done(
                Ok(()),
            ),
            (WorkStateView::SimpleSend { .. }, WorkEventView::Sent(Err(msg))) => {
                WorkStateView::Done(transient(msg))
            },
            (WorkStateView::RosterEvent { .. }, WorkEventView::EventName(Err(msg))) => {
                WorkStateView::Done(transient(msg))
            },
            (WorkStateView::RosterEvent { .. }, WorkEventView::EventName(Ok(None))) => {
                WorkStateView::Done(permanent(msg_no_event()))
            },
            (
                WorkStateView::RosterEvent { change },
                WorkEventView::EventName(Ok(Some(event_name))),
            ) => WorkStateView::RosterDriver { change, event_name },
            (WorkStateView::RosterDriver { .. }, WorkEventView::Driver(Err(msg))) => {
                WorkStateView::Done(transient(msg))
            },
            (WorkStateView::RosterDriver { .. }, WorkEventView::Driver(Ok(None))) => {
                WorkStateView::Done(permanent(msg_no_driver()))
            },
            (
                WorkStateView::RosterDriver { change, event_name },
                WorkEventView::Driver(Ok(Some(driver))),
            ) => WorkStateView::RosterUsers {
                targets: targets_of(diff_of(change.old_riders, change.new_riders)),
                who: driver.name,
                event: event_name,
            },
            (WorkStateView::RosterUsers { .. }, WorkEventView::Users(Err(msg))) => {
                WorkStateView::Done(transient(msg))
            },
            (
                WorkStateView::RosterUsers { targets, who, event },
                WorkEventView::Users(Ok(users)),
            ) => after_scan(targets, users_by_id(users), who, event, 0, None),
            (
                WorkStateView::RosterSend { targets, users, who, event, at, failed, .. },
                WorkEventView::Sent(Err(msg)),
            ) => after_scan(targets, users, who, event, at + 1, first_failure(failed, msg)),
            (
                WorkStateView::RosterSend { targets, users, who, event, at, failed, .. },
                WorkEventView::Sent(Ok(_)),
            ) => after_scan(targets, users, who, event, at + 1, failed),
            (state, _) => state,
        }
    }
}

fn permanent_error(msg: &str) -> (s: WorkState)
    ensures
        s@ == WorkStateView::Done(permanent(msg@)),
{
    WorkState::Done(Err(JobError { msg: msg.to_string(), should_retry: false }))
}

fn transient_error(msg: String) -> (s: WorkState)
    ensures
        s@ == WorkStateView::Done(transient(msg@)),
{
    WorkState::Done(Err(JobError { msg, should_retry: true }))
}

fn copy_names(names: &Vec<String>, kind: PingKind, out: &mut Vec<Target>)
    ensures
        final(out).deep_view() == old(out).deep_view() + names.deep_view().map_values(
            |id: Seq<char>| TargetView { kind, id },
        ),
{
    let ghost start = out.deep_view();
    let ghost mapped = names.deep_view().map_values(|id: Seq<char>| TargetView { kind, id });
    let mut i: usize = 0;
    proof {
        assert(out.deep_view() =~= start + mapped.take(0));
    }
    while i < names.len()
        invariant
            i <= names.len(),
            mapped == names.deep_view().map_values(|id: Seq<char>| TargetView { kind, id }),
            out.deep_view() == start + mapped.take(i as int),
        decreases names.len() - i,
    {
        let ghost before = out.deep_view();
        out.push(Target { kind, id: names[i].clone() });
        proof {
            assert(out.deep_view() =~= before.push(TargetView { kind, id: names[i as int]@ }));
            assert(mapped[i as int] == TargetView { kind, id: names.deep_view()[i as int] });
            assert(out.deep_view() =~= start + mapped.take(i + 1));
        }
        i += 1;
    }
    proof {
        assert(mapped.take(names.len() as int) =~= mapped);
    }
}

/// Those whom the change from `old` to `new` affects.
pub fn roster_targets(old: &Vec<String>, new: &Vec<String>) -> (t: Vec<Target>)
    ensures
        t.deep_view() == targets_of(diff_of(old.deep_view(), new.deep_view())),
{
    let diff = rider_diff(old, new);
    let mut out: Vec<Target> = Vec::new();
    proof {
        assert(out.deep_view() =~= Seq::<TargetView>::empty());
    }
    copy_names(&diff.removed, PingKind::Remove, &mut out);
    copy_names(&diff.added, PingKind::Add, &mut out);
    proof {
        assert(out.deep_view() =~= targets_of(diff@));
    }
    out
}

fn target_ids(targets: &Vec<Target>) -> (ids: Vec<String>)
    ensures
        ids.deep_view() == targets.deep_view().map_values(|t: TargetView| t.id),
{
    let ghost mapped = targets.deep_view().map_values(|t: TargetView| t.id);
    let mut ids: Vec<String> = Vec::new();
    let mut i: usize = 0;
    proof {
        assert(ids.deep_view() =~= mapped.take(0));
    }
    while i < targets.len()
        invariant
            i <= targets.len(),
            mapped == targets.deep_view().map_values(|t: TargetView| t.id),
            ids.deep_view() == mapped.take(i as int),
        decreases targets.len() - i,
    {
        let ghost before = ids.deep_view();
        ids.push(targets[i].id.clone());
        proof {
            assert(ids.deep_view() =~= before.push(targets[i as int].id@));
            assert(mapped[i as int] == targets.deep_view()[i as int].id);
            assert(ids.deep_view() =~= mapped.take(i + 1));
        }
        i += 1;
    }
    proof {
        assert(mapped.take(targets.len() as int) =~= mapped);
    }
    ids
}

/// Ends the work on a roster change.
fn end_roster(failed: Option<String>, missing: bool) -> (s: WorkState)
    ensures
        s@ == WorkStateView::Done(roster_end(failed.deep_view(), missing)),
{
    match failed {
        Some(cause) => transient_error("Failed to send message: ".to_string().concat(cause.as_str())),
        None => if missing {
            permanent_error("User was missing from map.")
        } else {
            WorkState::Done(Ok(()))
        },
    }
}

/// Searches from `from` on for the next target to notify.
fn seek(
    targets: Vec<Target>,
    users: StringHashMap<UserData>,
    who: String,
    event: String,
    from: usize,
    failed: Option<String>,
) -> (s: WorkState)
    ensures
        s@ == after_scan(
            targets.deep_view(),
            records(users@),
            who@,
            event@,
            from as int,
            failed.deep_view(),
        ),
{
    let mut i: usize = from;
    while i < targets.len()
        invariant
            from <= i,
            scan(targets.deep_view(), records(users@), who@, event@, from as int) == scan(
                targets.deep_view(),
                records(users@),
                who@,
                event@,
                i as int,
            ),
        decreases targets.len() - i,
    {
        let found = match lookup_user(&users, &targets[i].id) {
            None => None,
            Some(u) => Some((u.receives_pings(), recipient_of(&u.email))),
        };
        match found {
            None => {
                return end_roster(failed, true);
            },
            Some((true, to)) => {
                let ping = Ping { kind: targets[i].kind, to, who: who.clone(), event: event.clone() };
                return WorkState::RosterSend { targets, users, who, event, at: i, ping, failed };
            },
            Some((false, _)) => {},
        }
        i += 1;
    }
    end_roster(failed, false)
}

impl WorkState {
    /// The state of a job that was just leased.
    pub fn start() -> (s: WorkState)
        ensures
            s@ == WorkStateView::Decoding,
            s@.wf(),
    {
        WorkState::Decoding
    }

    /// What the worker has to do next.
    pub fn action(&self) -> (a: WorkAction)
        ensures
            a@ == self@.action(),
    {
        match self {
            WorkState::Decoding => WorkAction::Decode,
            WorkState::SimpleRider { change, .. } => WorkAction::FindRider(change.rider_id.clone()),
            WorkState::SimpleEvent { change, .. } => WorkAction::FindEventName(change.event_id),
            WorkState::SimpleDriver { change, .. } => WorkAction::FindDriver(change.car_id),
            WorkState::SimpleSend { ping } => WorkAction::Send(ping.clone()),
            WorkState::RosterEvent { change } => WorkAction::FindEventName(change.event_id),
            WorkState::RosterDriver { change, .. } => WorkAction::FindDriver(change.car_id),
            WorkState::RosterUsers { targets, .. } => WorkAction::FindUsers(target_ids(targets)),
            WorkState::RosterSend { ping, .. } => WorkAction::Send(ping.clone()),
            WorkState::Done(Ok(_)) => WorkAction::Finish(Ok(())),
            WorkState::Done(Err(e)) => WorkAction::Finish(Err(e.clone())),
        }
    }

    /// Takes in what came of the action.
    pub fn step(self, event: WorkEvent) -> (next: WorkState)
        ensures
            next@ == self@.step(event@),
            self@.wf() ==> next@.wf(),
    {
        proof {
            if self@.wf() {
                lemma_step_keeps_wf(self@, event@);
            }
        }
        match (self, event) {
            (WorkState::Decoding, WorkEvent::Decoded(None)) => permanent_error(
                "Failed to Parse into Job",
            ),
            (WorkState::Decoding, WorkEvent::Decoded(Some(RedisJob::Join(change)))) => {
                WorkState::SimpleRider { kind: PingKind::Join, change }
            },
            (WorkState::Decoding, WorkEvent::Decoded(Some(RedisJob::Leave(change)))) => {
                WorkState::SimpleRider { kind: PingKind::Leave, change }
            },
            (WorkState::Decoding, WorkEvent::Decoded(Some(RedisJob::RiderUpdate(change)))) => {
                WorkState::RosterEvent { change }
            },
            (WorkState::SimpleRider { .. }, WorkEvent::Rider(Err(msg))) => transient_error(msg),
            (WorkState::SimpleRider { .. }, WorkEvent::Rider(Ok(None))) => permanent_error(
                "Rider does not exist",
            ),
            (WorkState::SimpleRider { kind, change }, WorkEvent::Rider(Ok(Some(rider)))) => {
                WorkState::SimpleEvent { kind, change, rider }
            },
            (WorkState::SimpleEvent { .. }, WorkEvent::EventName(Err(msg))) => transient_error(msg),
            (WorkState::SimpleEvent { .. }, WorkEvent::EventName(Ok(None))) => permanent_error(
                "Event does not exist",
            ),
            (
                WorkState::SimpleEvent { kind, change, rider },
                WorkEvent::EventName(Ok(Some(event_name))),
            ) => WorkState::SimpleDriver { kind, change, rider, event_name },
            (WorkState::SimpleDriver { .. }, WorkEvent::Driver(Err(msg))) => transient_error(msg),
            (WorkState::SimpleDriver { .. }, WorkEvent::Driver(Ok(None))) => permanent_error(
                "Driver does not exist",
            ),
            (
                WorkState::SimpleDriver { kind, rider, event_name, .. },
                WorkEvent::Driver(Ok(Some(driver))),
            ) => {
                if driver.receives_pings() {
                    WorkState::SimpleSend {
                        ping: Ping {
                            kind,
                            to: recipient_of(&driver.email),
                            who: rider.name,
                            event: event_name,
                        },
                    }
                } else {
                    WorkState::Done(Ok(()))
                }
            },
            (WorkState::SimpleSend { .. }, WorkEvent::Sent(Ok(_))) => WorkState::Done(Ok(())),
            (WorkState::SimpleSend { .. }, WorkEvent::Sent(Err(msg))) => transient_error(msg),
            (WorkState::RosterEvent { .. }, WorkEvent::EventName(Err(msg))) => transient_error(msg),
            (WorkState::RosterEvent { .. }, WorkEvent::EventName(Ok(None))) => permanent_error(
                "Event does not exist",
            ),
            (WorkState::RosterEvent { change }, WorkEvent::EventName(Ok(Some(event_name)))) => {
                WorkState::RosterDriver { change, event_name }
            },
            (WorkState::RosterDriver { .. }, WorkEvent::Driver(Err(msg))) => transient_error(msg),
            (WorkState::RosterDriver { .. }, WorkEvent::Driver(Ok(None))) => permanent_error(
                "Driver does not exist",
            ),
            (
                WorkState::RosterDriver { change, event_name },
                WorkEvent::Driver(Ok(Some(driver))),
            ) => {
                WorkState::RosterUsers {
                    targets: roster_targets(&change.old_riders, &change.new_riders),
                    who: driver.name,
                    event: event_name,
                }
            },
            (WorkState::RosterUsers { .. }, WorkEvent::Users(Err(msg))) => transient_error(msg),
            (WorkState::RosterUsers { targets, who, event }, WorkEvent::Users(Ok(users))) => seek(
                targets,
                index_users(&users),
                who,
                event,
                0,
                None,
            ),
            (
                WorkState::RosterSend { targets, users, who, event, at, failed, .. },
                WorkEvent::Sent(sent),
            ) => {
                let failed = match (failed, sent) {
                    (Some(first), _) => Some(first),
                    (None, Err(cause)) => Some(cause),
                    (None, Ok(_)) => None,
                };
                if at < targets.len() {
                    seek(targets, users, who, event, at + 1, failed)
                } else {
                    end_roster(failed, false)
                }
            },
            (state, _) => state,
        }
    }
}

/// The seconds for which a job is leased.
pub const LEASE_SECONDS: u64 = 5;

/// A job that ended is marked complete unless another attempt may cure its
/// failure.
pub open spec fn completes(o: OutcomeView) -> bool {
    match o {
        Ok(_) => true,
        Err(e) => !e.should_retry,
    }
}

pub fn should_complete(o: &Outcome) -> (b: bool)
    ensures
        b == completes(outcome_view(*o)),
{
    match o {
        Ok(_) => true,
        Err(e) => !e.should_retry,
    }
}

/// Where the worker's loop stands.
#[derive(Debug)]
pub enum LoopState {
    /// Waiting for a job.
    Leasing,
    /// Working on the leased job.
    Working,
    /// Marking the leased job complete.
    Completing,
    /// The queue failed while a job was being marked complete.
    Stopped(String),
}

pub enum LoopStateView {
    Leasing,
    Working,
    Completing,
    Stopped(Seq<char>),
}

impl View for LoopState {
    type V = LoopStateView;

    open spec fn view(&self) -> LoopStateView {
        match self {
            LoopState::Leasing => LoopStateView::Leasing,
            LoopState::Working => LoopStateView::Working,
            LoopState::Completing => LoopStateView::Completing,
            LoopState::Stopped(msg) => LoopStateView::Stopped(msg@),
        }
    }
}

/// What the loop is told after it did what its state asked for.
#[derive(Debug)]
pub enum LoopEvent {
    /// The queue answered: `Ok(true)` with a job, `Ok(false)` without one.
    Leased(Result<bool, String>),
    /// The work on the leased job ended.
    Worked(Outcome),
    /// The queue marked the job complete, or failed to.
    Completed(Result<(), String>),
}

pub enum LoopEventView {
    Leased(Result<bool, Seq<char>>),
    Worked(OutcomeView),
    Completed(Result<(), Seq<char>>),
}

impl View for LoopEvent {
    type V = LoopEventView;

    open spec fn view(&self) -> LoopEventView {
        match self {
            LoopEvent::Leased(Ok(b)) => LoopEventView::Leased(Ok(*b)),
            LoopEvent::Leased(Err(e)) => LoopEventView::Leased(Err(e@)),
            LoopEvent::Worked(o) => LoopEventView::Worked(outcome_view(*o)),
            LoopEvent::Completed(Ok(_)) => LoopEventView::Completed(Ok(())),
            LoopEvent::Completed(Err(e)) => LoopEventView::Completed(Err(e@)),
        }
    }
}

/// The one thing that a state of the loop asks for.
#[derive(Debug)]
pub enum LoopAction {
    /// Wait, without a time limit, for a job and lease it for so many seconds.
    Lease { seconds: u64 },
    /// Work on the leased job.
    Work,
    /// Mark the leased job complete.
    Complete,
    /// Give up with this message.
    Stop(String),
}

pub enum LoopActionView {
    Lease { seconds: u64 },
    Work,
    Complete,
    Stop(Seq<char>),
}

impl View for LoopAction {
    type V = LoopActionView;

    open spec fn view(&self) -> LoopActionView {
        match self {
            LoopAction::Lease { seconds } => LoopActionView::Lease { seconds: *seconds },
            LoopAction::Work => LoopActionView::Work,
            LoopAction::Complete => LoopActionView::Complete,
            LoopAction::Stop(msg) => LoopActionView::Stop(msg@),
        }
    }
}

/// The next state of the loop, and what to put into the log.
#[derive(Debug)]
pub struct LoopStep {
    pub state: LoopState,
    pub log: Option<String>,
}

pub struct LoopStepView {
    pub state: LoopStateView,
    pub log: Option<Seq<char>>,
}

impl View for LoopStep {
    type V = LoopStepView;

    open spec fn view(&self) -> LoopStepView {
        LoopStepView { state: self.state@, log: self.log.deep_view() }
    }
}

pub open spec fn msg_no_job() -> Seq<char> {
    "Failed to get job."@
}

impl LoopStateView {
    pub open spec fn action(self) -> LoopActionView {
        match self {
            LoopStateView::Leasing => LoopActionView::Lease { seconds: LEASE_SECONDS },
            LoopStateView::Working => LoopActionView::Work,
            LoopStateView::Completing => LoopActionView::Complete,
            LoopStateView::Stopped(msg) => LoopActionView::Stop(msg),
        }
    }

    /// The loop after `event`. A lease that fails or brings no job is logged
    /// and asked for again. A job that ended well, or beyond cure, is marked
    /// complete; one that may yet succeed is left to its lease. Only a failure
    /// to mark a job complete stops the loop.
    pub open spec fn step(self, event: LoopEventView) -> LoopStepView {
        match (self, event) {
            (LoopStateView::Leasing, LoopEventView::Leased(Ok(true))) => LoopStepView {
                state: LoopStateView::Working,
                log: None,
            },
            (LoopStateView::Leasing, LoopEventView::Leased(Ok(false))) => LoopStepView {
                state: LoopStateView::Leasing,
                log: Some(msg_no_job()),
            },
            (LoopStateView::Leasing, LoopEventView::Leased(Err(msg))) => LoopStepView {
                state: LoopStateView::Leasing,
                log: Some(msg),
            },
            (LoopStateView::Working, LoopEventView::Worked(Ok(_))) => LoopStepView {
                state: LoopStateView::Completing,
                log: None,
            },
            (LoopStateView::Working, LoopEventView::Worked(Err(e))) => LoopStepView {
                state: if e.should_retry {
                    LoopStateView::Leasing
                } else {
                    LoopStateView::Completing
                },
                log: Some(e.msg),
            },
            (LoopStateView::Completing, LoopEventView::Completed(Ok(_))) => LoopStepView {
                state: LoopStateView::Leasing,
                log: None,
            },
            (LoopStateView::Completing, LoopEventView::Completed(Err(msg))) => LoopStepView {
                state: LoopStateView::Stopped(msg),
                log: None,
            },
            (state, _) => LoopStepView { state, log: None },
        }
    }
}

impl LoopState {
    /// The state in which the loop begins.
    pub fn start() -> (s: LoopState)
        ensures
            s@ == LoopStateView::Leasing,
    {
        LoopState::Leasing
    }

    pub fn action(&self) -> (a: LoopAction)
        ensures
            a@ == self@.action(),
    {
        match self {
            LoopState::Leasing => LoopAction::Lease { seconds: LEASE_SECONDS },
            LoopState::Working => LoopAction::Work,
            LoopState::Completing => LoopAction::Complete,
            LoopState::Stopped(msg) => LoopAction::Stop(msg.clone()),
        }
    }

    pub fn step(self, event: LoopEvent) -> (next: LoopStep)
        ensures
            next@ == self@.step(event@),
    {
        match (self, event) {
            (LoopState::Leasing, LoopEvent::Leased(Ok(true))) => LoopStep {
                state: LoopState::Working,
                log: None,
            },
            (LoopState::Leasing, LoopEvent::Leased(Ok(false))) => LoopStep {
                state: LoopState::Leasing,
                log: Some("Failed to get job.".to_string()),
            },
            (LoopState::Leasing, LoopEvent::Leased(Err(msg))) => LoopStep {
                state: LoopState::Leasing,
                log: Some(msg),
            },
            (LoopState::Working, LoopEvent::Worked(outcome)) => {
                let complete = should_complete(&outcome);
                match outcome {
                    Ok(_) => LoopStep { state: LoopState::Completing, log: None },
                    Err(e) => LoopStep {
                        state: if complete {
                            LoopState::Completing
                        } else {
                            LoopState::Leasing
                        },
                        log: Some(e.msg),
                    },
                }
            },
            (LoopState::Completing, LoopEvent::Completed(Ok(_))) => LoopStep {
                state: LoopState::Leasing,
                log: None,
            },
            (LoopState::Completing, LoopEvent::Completed(Err(msg))) => LoopStep {
                state: LoopState::Stopped(msg),
                log: None,
            },
            (state, _) => LoopStep { state, log: None },
        }
    }
}

/// After the work on a job ended, the loop asks to mark the job complete
/// exactly if `completes` says so; else it goes back to leasing, and asks for
/// nothing to be marked.
pub proof fn lemma_loop_settles(o: OutcomeView)
    ensures
        completes(o) ==> LoopStateView::Working.step(LoopEventView::Worked(o)).state
            == LoopStateView::Completing,
        !completes(o) ==> LoopStateView::Working.step(LoopEventView::Worked(o)).state
            == LoopStateView::Leasing,
        LoopStateView::Completing.action() == LoopActionView::Complete,
        LoopStateView::Leasing.action() != LoopActionView::Complete,
{
}

/// Once the queue answered the request to mark a job complete, the loop does
/// not ask for it again: a job is marked complete at most once.
pub proof fn lemma_completes_once(answer: Result<(), Seq<char>>)
    ensures
        LoopStateView::Completing.step(LoopEventView::Completed(answer)).state.action()
            != LoopActionView::Complete,
{
}

impl WorkStateView {
    /// A delivery of this job failed, and the job will not be marked
    /// complete: it has ended as worth another attempt, or it goes on telling
    /// riders and remembers the failure.
    pub open spec fn bound_to_retry(self) -> bool {
        match self {
            WorkStateView::Done(Err(e)) => e.should_retry,
            WorkStateView::RosterSend { failed, .. } => failed is Some,
            _ => false,
        }
    }
}

/// A delivery that fails leaves the job incomplete: whatever state asked for
/// the delivery, the job is from then on bound to end as worth another
/// attempt.
pub proof fn lemma_failed_delivery_keeps_job(s: WorkStateView, cause: Seq<char>)
    requires
        s.action() is Send,
    ensures
        s.step(WorkEventView::Sent(Err(cause))).bound_to_retry(),
{
}

/// A job that is bound to end as worth another attempt stays so whatever
/// happens, and once it has ended, the loop goes back to leasing without
/// marking the job complete.
pub proof fn lemma_bound_to_retry_stays(s: WorkStateView, event: WorkEventView)
    requires
        s.bound_to_retry(),
    ensures
        s.step(event).bound_to_retry(),
        s matches WorkStateView::Done(outcome) ==> !completes(outcome) && LoopStateView::Working.step(
            LoopEventView::Worked(outcome),
        ).state == LoopStateView::Leasing,
{
}

/// A delivery that fails keeps nobody from being told. After a notification
/// of a roster change, the job goes on in the same way whether the delivery
/// went through or not: the same rider is told next, or the work ends at the
/// same place. Only what the job remembers of failures differs, and with it
/// how the job ends.
pub proof fn lemma_failed_delivery_skips_nobody(s: WorkStateView, cause: Seq<char>)
    requires
        s is RosterSend,
    ensures
        ({
            let failed = s.step(WorkEventView::Sent(Err(cause)));
            let sent = s.step(WorkEventView::Sent(Ok(())));
            &&& failed.action() is Send <==> sent.action() is Send
            &&& failed.action() is Send ==> failed.action() == sent.action()
            &&& failed is RosterSend || failed is Done
            &&& sent is RosterSend || sent is Done
        }),
{
}

/// A job whose payload does not parse ends with a failure beyond cure, and
/// the loop marks it complete although it failed.
pub proof fn lemma_bad_payload_is_dropped()
    ensures
        WorkStateView::Decoding.step(WorkEventView::Decoded(None)) == WorkStateView::Done(
            permanent(msg_bad_payload()),
        ),
        completes(permanent(msg_bad_payload())),
        LoopStateView::Working.step(
            LoopEventView::Worked(permanent(msg_bad_payload())),
        ).state == LoopStateView::Completing,
{
}

/// Who is a target of a roster change: a rider named before and not after is
/// due `Remove`, one named after and not before is due `Add`, nobody else is
/// a target, and nobody is a target twice.
pub proof fn lemma_targets_are_the_changed(old: Seq<Seq<char>>, new: Seq<Seq<char>>)
    ensures
        forall|i: int|
            0 <= i < targets_of(diff_of(old, new)).len() ==> {
                let t = #[trigger] targets_of(diff_of(old, new))[i];
                &&& t.kind == PingKind::Remove || t.kind == PingKind::Add
                &&& t.kind == PingKind::Remove ==> old.contains(t.id) && !new.contains(t.id)
                &&& t.kind == PingKind::Add ==> new.contains(t.id) && !old.contains(t.id)
            },
        forall|id: Seq<char>|
            old.contains(id) != new.contains(id) ==> exists|i: int|
                0 <= i < targets_of(diff_of(old, new)).len() && #[trigger] targets_of(
                    diff_of(old, new),
                )[i].id == id,
        forall|i: int, j: int|
            0 <= i < j < targets_of(diff_of(old, new)).len() ==> #[trigger] targets_of(
                diff_of(old, new),
            )[i].id != #[trigger] targets_of(diff_of(old, new))[j].id,
{
    let removed = only_in(old, new);
    let added = only_in(new, old);
    let t = targets_of(diff_of(old, new));
    lemma_only_in(old, new);
    lemma_only_in(new, old);
    assert forall|i: int| 0 <= i < t.len() implies {
        let x = #[trigger] t[i];
        &&& x.kind == PingKind::Remove || x.kind == PingKind::Add
        &&& x.kind == PingKind::Remove ==> old.contains(x.id) && !new.contains(x.id)
        &&& x.kind == PingKind::Add ==> new.contains(x.id) && !old.contains(x.id)
    } by {
        if i < removed.len() {
            assert(t[i].id == removed[i]);
            assert(removed.contains(removed[i]));
        } else {
            assert(t[i].id == added[i - removed.len()]);
            assert(added.contains(added[i - removed.len()]));
        }
    }
    assert forall|id: Seq<char>| old.contains(id) != new.contains(id) implies exists|i: int|
        0 <= i < t.len() && #[trigger] t[i].id == id by {
        if old.contains(id) {
            assert(removed.contains(id));
            let k = choose|k: int| 0 <= k < removed.len() && removed[k] == id;
            assert(t[k].id == id);
        } else {
            assert(added.contains(id));
            let k = choose|k: int| 0 <= k < added.len() && added[k] == id;
            assert(t[removed.len() + k].id == id);
        }
    }
    assert forall|i: int, j: int| 0 <= i < j < t.len() implies #[trigger] t[i].id
        != #[trigger] t[j].id by {
        if j < removed.len() {
            assert(t[i].id == removed[i] && t[j].id == removed[j]);
        } else if i >= removed.len() {
            assert(t[i].id == added[i - removed.len()] && t[j].id == added[j - removed.len()]);
        } else {
            assert(t[i].id == removed[i]);
            assert(t[j].id == added[j - removed.len()]);
            assert(removed.contains(removed[i]));
            assert(added.contains(added[j - removed.len()]));
        }
    }
}

/// A search that finds a target finds one at or after its start, and a search
/// from that very target finds the same.
pub proof fn lemma_scan_finds(
    targets: Seq<TargetView>,
    users: Map<Seq<char>, UserDataView>,
    who: Seq<char>,
    event: Seq<char>,
    from: int,
)
    requires
        scan(targets, users, who, event, from) is Next,
    ensures
        ({
            let found = scan(targets, users, who, event, from);
            &&& 0 <= from <= found->at < targets.len()
            &&& scan(targets, users, who, event, found->at) == found
            &&& find_user(users, targets[found->at].id) matches Some(u) && u.receives_pings()
                && found->ping == (PingView {
                kind: targets[found->at].kind,
                to: recipient(u.email),
                who,
                event,
            })
            &&& forall|i: int|
                from <= i < found->at ==> (#[trigger] find_user(users, targets[i].id) matches Some(
                    u,
                ) && !u.receives_pings())
        }),
    decreases targets.len() - from,
{
    let found = scan(targets, users, who, event, from);
    let u = find_user(users, targets[from].id)->Some_0;
    if !u.receives_pings() {
        lemma_scan_finds(targets, users, who, event, from + 1);
    }
}

impl WorkStateView {
    /// What holds of every state that a job can get into: one rider joined
    /// or left; the targets of a roster change are due `Remove` or `Add`; and
    /// a notification of a roster change is the one that the search found.
    pub open spec fn wf(self) -> bool {
        match self {
            WorkStateView::Decoding => true,
            WorkStateView::SimpleRider { kind, .. } => kind == PingKind::Join || kind
                == PingKind::Leave,
            WorkStateView::SimpleEvent { kind, .. } => kind == PingKind::Join || kind
                == PingKind::Leave,
            WorkStateView::SimpleDriver { kind, .. } => kind == PingKind::Join || kind
                == PingKind::Leave,
            WorkStateView::SimpleSend { ping } => ping.kind == PingKind::Join || ping.kind
                == PingKind::Leave,
            WorkStateView::RosterEvent { .. } => true,
            WorkStateView::RosterDriver { .. } => true,
            WorkStateView::RosterUsers { targets, .. } => forall|i: int|
                0 <= i < targets.len() ==> (#[trigger] targets[i]).kind == PingKind::Remove
                    || targets[i].kind == PingKind::Add,
            WorkStateView::RosterSend { targets, users, who, event, at, ping, .. } => {
                &&& forall|i: int|
                    0 <= i < targets.len() ==> (#[trigger] targets[i]).kind == PingKind::Remove
                        || targets[i].kind == PingKind::Add
                &&& scan(targets, users, who, event, at) == (Scan::Next { at, ping })
            },
            WorkStateView::Done(_) => true,
        }
    }
}

/// The work on a job begins in a state that is well formed, and no event
/// leads out of the well-formed states.
pub proof fn lemma_step_keeps_wf(s: WorkStateView, event: WorkEventView)
    requires
        s.wf(),
    ensures
        WorkStateView::Decoding.wf(),
        s.step(event).wf(),
{
    match (s, event) {
        (WorkStateView::RosterDriver { change, .. }, WorkEventView::Driver(Ok(_))) => {
            lemma_targets_are_the_changed(change.old_riders, change.new_riders);
        },
        (WorkStateView::RosterUsers { targets, who, event, .. }, WorkEventView::Users(Ok(users))) => {
            if scan(targets, users_by_id(users), who, event, 0) is Next {
                lemma_scan_finds(targets, users_by_id(users), who, event, 0);
            }
        },
        (WorkStateView::RosterSend { targets, users, who, event, at, .. }, WorkEventView::Sent(_)) => {
            if scan(targets, users, who, event, at + 1) is Next {
                lemma_scan_finds(targets, users, who, event, at + 1);
            }
        },
        _ => {},
    }
}

/// Whom a roster change notifies: a notification that is due in a
/// well-formed state goes to a target of the change who is on record and
/// receives notifications, under the name that the target's mail address
/// gives, and it says whether the target was removed or added.
pub proof fn lemma_roster_ping_is_due(s: WorkStateView)
    requires
        s.wf(),
        s is RosterSend,
    ensures
        s matches WorkStateView::RosterSend { targets, users, who, event, at, ping, .. } && {
            &&& 0 <= at < targets.len()
            &&& s.action() == WorkActionView::Send(ping)
            &&& ping.kind == targets[at].kind
            &&& ping.kind == PingKind::Remove || ping.kind == PingKind::Add
            &&& find_user(users, targets[at].id) matches Some(u) && u.receives_pings() && ping.to
                == recipient(u.email)
            &&& ping.who == who
            &&& ping.event == event
        },
{
    match s {
        WorkStateView::RosterSend { targets, users, who, event, at, ping, .. } => {
            lemma_scan_finds(targets, users, who, event, at);
        },
        _ => {},
    }
}

} // verus!
