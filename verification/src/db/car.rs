//! Cars and the rules that a car has to meet before it is stored.

use vstd::prelude::*;
use vstd::string::*;
use crate::db::user::{clone_users, UserData, UserDataView};
use crate::time::Timestamp;

verus! {

/// What a driver asks for: the car's fields and the full list of its riders,
/// by id.
#[derive(Debug)]
pub struct CarData {
    pub max_capacity: i32,
    pub departure_time: Timestamp,
    pub return_time: Timestamp,
    pub comment: String,
    pub riders: Vec<String>,
}

pub struct CarDataView {
    pub max_capacity: i32,
    pub departure_time: Timestamp,
    pub return_time: Timestamp,
    pub comment: Seq<char>,
    pub riders: Seq<Seq<char>>,
}

impl View for CarData {
    type V = CarDataView;

    open spec fn view(&self) -> CarDataView {
        CarDataView {
            max_capacity: self.max_capacity,
            departure_time: self.departure_time,
            return_time: self.return_time,
            comment: self.comment@,
            riders: self.riders.deep_view(),
        }
    }
}

/// A stored car with its driver and riders.
#[derive(Debug)]
pub struct Car {
    pub id: i32,
    pub event_id: Option<i32>,
    pub driver: UserData,
    pub riders: Option<Vec<UserData>>,
    pub max_capacity: i32,
    pub departure_time: Timestamp,
    pub return_time: Timestamp,
    pub comment: String,
}

pub struct CarView {
    pub id: i32,
    pub event_id: Option<i32>,
    pub driver: UserDataView,
    pub riders: Option<Seq<UserDataView>>,
    pub max_capacity: i32,
    pub departure_time: Timestamp,
    pub return_time: Timestamp,
    pub comment: Seq<char>,
}

impl View for Car {
    type V = CarView;

    open spec fn view(&self) -> CarView {
        CarView {
            id: self.id,
            event_id: self.event_id,
            driver: self.driver@,
            riders: self.riders.deep_view(),
            max_capacity: self.max_capacity,
            departure_time: self.departure_time,
            return_time: self.return_time,
            comment: self.comment@,
        }
    }
}

impl DeepView for Car {
    type V = CarView;

    open spec fn deep_view(&self) -> CarView {
        self@
    }
}

impl Clone for CarData {
    fn clone(&self) -> (r: CarData)
        ensures
            r@ == self@,
    {
        CarData {
            max_capacity: self.max_capacity,
            departure_time: self.departure_time,
            return_time: self.return_time,
            comment: self.comment.clone(),
            riders: self.riders.clone(),
        }
    }
}

impl Clone for Car {
    fn clone(&self) -> (r: Car)
        ensures
            r@ == self@,
    {
        Car {
            id: self.id,
            event_id: self.event_id,
            driver: self.driver.clone(),
            riders: match &self.riders {
                Some(riders) => Some(clone_users(riders)),
                None => None,
            },
            max_capacity: self.max_capacity,
            departure_time: self.departure_time,
            return_time: self.return_time,
            comment: self.comment.clone(),
        }
    }
}

/// A copy of `cars`.
pub fn clone_cars(cars: &Vec<Car>) -> (r: Vec<Car>)
    ensures
        r.deep_view() == cars.deep_view(),
{
    let mut r: Vec<Car> = Vec::new();
    let mut i: usize = 0;
    while i < cars.len()
        invariant
            i <= cars.len(),
            r.len() == i,
            forall|j: int| 0 <= j < i ==> r[j]@ == cars[j]@,
        decreases cars.len() - i,
    {
        r.push(cars[i].clone());
        i += 1;
    }
    assert(r.deep_view() =~= cars.deep_view());
    r
}

/// `id` is the id of one of `users`.
pub open spec fn names_user(users: Seq<UserDataView>, id: Seq<char>) -> bool {
    exists|j: int| 0 <= j < users.len() && #[trigger] users[j].id == id
}

impl CarView {
    /// The riders on record; none where the car has no list of riders.
    pub open spec fn rider_list(self) -> Seq<UserDataView> {
        match self.riders {
            Some(riders) => riders,
            None => Seq::empty(),
        }
    }

    /// `id` drives this car or rides in it.
    pub open spec fn has_member(self, id: Seq<char>) -> bool {
        self.driver.id == id || names_user(self.rider_list(), id)
    }
}

/// `id` drives one of `cars` or rides in one.
pub open spec fn in_some_car(cars: Seq<CarView>, id: Seq<char>) -> bool {
    exists|i: int| 0 <= i < cars.len() && #[trigger] cars[i].has_member(id)
}

/// Nobody drives or rides in two of `cars`.
pub open spec fn exclusive(cars: Seq<CarView>) -> bool {
    forall|i: int, j: int, id: Seq<char>|
        0 <= i < j < cars.len() && #[trigger] cars[i].has_member(id) ==> !#[trigger] cars[j].has_member(
            id,
        )
}

fn names_user_exec(users: &Vec<UserData>, id: &String) -> (b: bool)
    ensures
        b == names_user(users.deep_view(), id@),
{
    let mut j: usize = 0;
    while j < users.len()
        invariant
            j <= users.len(),
            forall|k: int| 0 <= k < j ==> users.deep_view()[k].id != id@,
        decreases users.len() - j,
    {
        if users[j].id == *id {
            assert(users.deep_view()[j as int].id == id@);
            return true;
        }
        j += 1;
    }
    false
}

impl Car {
    /// Whether `id` drives this car or rides in it.
    pub fn has_member(&self, id: &String) -> (b: bool)
        ensures
            b == self@.has_member(id@),
    {
        if self.driver.id == *id {
            return true;
        }
        match &self.riders {
            Some(riders) => names_user_exec(riders, id),
            None => {
                assert(!names_user(Seq::<UserDataView>::empty(), id@));
                false
            },
        }
    }

    /// Whether `user_id` drives one of `cars`, the cars of one event, or rides
    /// in one.
    pub fn user_in_car(cars: &Vec<Car>, user_id: &String) -> (b: bool)
        ensures
            b == in_some_car(cars.deep_view(), user_id@),
    {
        let mut i: usize = 0;
        while i < cars.len()
            invariant
                i <= cars.len(),
                forall|k: int| 0 <= k < i ==> !cars.deep_view()[k].has_member(user_id@),
            decreases cars.len() - i,
        {
            if cars[i].has_member(user_id) {
                assert(cars.deep_view()[i as int].has_member(user_id@));
                return true;
            }
            i += 1;
        }
        false
    }
}

pub open spec fn msg_return_before_departure() -> Seq<char> {
    "Return time cannot be before departure."@
}

pub open spec fn msg_leaves_in_past() -> Seq<char> {
    "Car cannot leave in the past."@
}

pub open spec fn msg_negative_capacity() -> Seq<char> {
    "Capacity must be greater than or equal to 0"@
}

pub open spec fn msg_too_many_riders() -> Seq<char> {
    "You have too many riders for your capacity."@
}

pub open spec fn msg_own_rider() -> Seq<char> {
    "You cannot be a rider in your own car."@
}

pub open spec fn msg_taken(rider: Seq<char>) -> Seq<char> {
    rider + " is already in another car or is a driver."@
}

/// `msg` if `broken`, else nothing.
pub open spec fn complaint(broken: bool, msg: Seq<char>) -> Seq<Seq<char>> {
    if broken {
        seq![msg]
    } else {
        Seq::empty()
    }
}

/// One message for each entry of `riders` that names a member of one of
/// `others`, in the order of `riders`.
pub open spec fn taken_riders(riders: Seq<Seq<char>>, others: Seq<CarView>) -> Seq<Seq<char>>
    decreases riders.len(),
{
    if riders.len() == 0 {
        Seq::empty()
    } else {
        taken_riders(riders.drop_last(), others) + complaint(
            in_some_car(others, riders.last()),
            msg_taken(riders.last()),
        )
    }
}

impl CarDataView {
    pub open spec fn returns_before_departure(self) -> bool {
        self.return_time.before(self.departure_time)
    }

    pub open spec fn leaves_before(self, now: Timestamp) -> bool {
        self.departure_time.before(now)
    }

    pub open spec fn negative_capacity(self) -> bool {
        self.max_capacity < 0
    }

    pub open spec fn too_many_riders(self) -> bool {
        self.riders.len() > self.max_capacity
    }

    pub open spec fn rides_with(self, user: Seq<char>) -> bool {
        self.riders.contains(user)
    }

    /// Nobody of the proposed car is in one of `others`, neither `user`, who
    /// is to drive it, nor a rider; and `user` is no rider of the car.
    pub open spec fn keeps_apart(self, user: Seq<char>, others: Seq<CarView>) -> bool {
        &&& !in_some_car(others, user)
        &&& !self.rides_with(user)
        &&& forall|k: int|
            0 <= k < self.riders.len() ==> !in_some_car(others, #[trigger] self.riders[k])
    }

    /// Everything that is wrong with the car that `user` proposes at the time
    /// `now`, beside the cars `others` of the same event: every rule is
    /// checked, and the messages come in the order of the rules.
    ///
    /// The rules, in their order: the return is not before the departure; the
    /// departure is not past; the capacity is not negative; the riders fit the
    /// capacity; `user` is no rider of the car; `user` is in no other car;
    /// no rider is in another car. The last two draw the same message, which
    /// names who is in another car: first `user`, then the riders in the order
    /// of the list.
    ///
    /// A car among `others` without a list of riders counts with its driver
    /// alone.
    pub open spec fn violations(
        self,
        user: Seq<char>,
        others: Seq<CarView>,
        now: Timestamp,
    ) -> Seq<Seq<char>> {
        complaint(self.returns_before_departure(), msg_return_before_departure()) + complaint(
            self.leaves_before(now),
            msg_leaves_in_past(),
        ) + complaint(self.negative_capacity(), msg_negative_capacity()) + complaint(
            self.too_many_riders(),
            msg_too_many_riders(),
        ) + complaint(self.rides_with(user), msg_own_rider()) + complaint(
            in_some_car(others, user),
            msg_taken(user),
        ) + taken_riders(self.riders, others)
    }

    /// The verdict on the proposed car: `Ok` if nothing is wrong, else all that
    /// is.
    pub open spec fn verdict(
        self,
        user: Seq<char>,
        others: Seq<CarView>,
        now: Timestamp,
    ) -> Result<(), Seq<Seq<char>>> {
        let found = self.violations(user, others, now);
        if found.len() == 0 {
            Ok(())
        } else {
            Err(found)
        }
    }
}

/// The verdict that a validation returned, by view.
pub open spec fn verdict_view(r: Result<(), Vec<String>>) -> Result<(), Seq<Seq<char>>> {
    match r {
        Ok(_) => Ok(()),
        Err(msgs) => Err(msgs.deep_view()),
    }
}

/// Adds `msg` to `errs` if `broken`.
pub(crate) fn note(errs: &mut Vec<String>, broken: bool, msg: &str)
    ensures
        final(errs).deep_view() == old(errs).deep_view() + complaint(broken, msg@),
{
    if broken {
        errs.push(msg.to_string());
        assert(errs.deep_view() =~= old(errs).deep_view() + seq![msg@]);
    } else {
        assert(errs.deep_view() =~= old(errs).deep_view() + Seq::<Seq<char>>::empty());
    }
}

fn contains_name(names: &Vec<String>, name: &String) -> (b: bool)
    ensures
        b == names.deep_view().contains(name@),
{
    let mut i: usize = 0;
    while i < names.len()
        invariant
            i <= names.len(),
            forall|k: int| 0 <= k < i ==> names.deep_view()[k] != name@,
        decreases names.len() - i,
    {
        if names[i] == *name {
            assert(names.deep_view()[i as int] == name@);
            return true;
        }
        i += 1;
    }
    false
}

impl CarData {
    /// Checks the car that `user` proposes against every rule, at the time
    /// `now` and beside the cars `other_cars` of the same event.
    pub fn validate_at(&self, user: &String, other_cars: &Vec<Car>, now: &Timestamp) -> (r: Result<
        (),
        Vec<String>,
    >)
        ensures
            verdict_view(r) == self@.verdict(user@, other_cars.deep_view(), *now),
            self@.too_many_riders() ==> r is Err && r->Err_0.deep_view().contains(
                msg_too_many_riders(),
            ),
            in_some_car(other_cars.deep_view(), user@) ==> r is Err && r->Err_0.deep_view().contains(
                msg_taken(user@),
            ),
            r is Ok ==> self@.keeps_apart(user@, other_cars.deep_view()),
    {
        let mut errs: Vec<String> = Vec::new();
        assert(errs.deep_view() =~= Seq::<Seq<char>>::empty());
        note(
            &mut errs,
            self.return_time.is_before(&self.departure_time),
            "Return time cannot be before departure.",
        );
        note(&mut errs, self.departure_time.is_before(now), "Car cannot leave in the past.");
        note(&mut errs, self.max_capacity < 0, "Capacity must be greater than or equal to 0");
        let too_many = self.max_capacity < 0 || self.riders.len() > self.max_capacity as usize;
        assert(too_many == self@.too_many_riders());
        note(&mut errs, too_many, "You have too many riders for your capacity.");
        let ghost at_capacity = errs.deep_view();
        note(&mut errs, contains_name(&self.riders, user), "You cannot be a rider in your own car.");
        let ghost others = other_cars.deep_view();
        let ghost at_self = errs.deep_view();
        if Car::user_in_car(other_cars, user) {
            errs.push(user.clone().concat(" is already in another car or is a driver."));
            assert(errs.deep_view() =~= at_self + seq![msg_taken(user@)]);
        } else {
            assert(errs.deep_view() =~= at_self + Seq::<Seq<char>>::empty());
        }
        let ghost fixed = errs.deep_view();
        let ghost riders = self.riders.deep_view();
        assert(riders.take(0) =~= Seq::<Seq<char>>::empty());
        let mut i: usize = 0;
        while i < self.riders.len()
            invariant
                i <= self.riders.len(),
                riders == self.riders.deep_view(),
                others == other_cars.deep_view(),
                errs.deep_view() == fixed + taken_riders(riders.take(i as int), others),
            decreases self.riders.len() - i,
        {
            let rider = &self.riders[i];
            let taken = Car::user_in_car(other_cars, rider);
            let ghost before = errs.deep_view();
            if taken {
                errs.push(rider.clone().concat(" is already in another car or is a driver."));
                assert(errs.deep_view() =~= before + seq![msg_taken(rider@)]);
            }
            proof {
                assert(riders.take(i + 1).drop_last() =~= riders.take(i as int));
                assert(riders.take(i + 1).last() == rider@);
                assert(errs.deep_view() =~= fixed + taken_riders(riders.take(i + 1), others));
            }
            i += 1;
        }
        proof {
            assert(riders.take(self.riders.len() as int) =~= riders);
            assert(errs.deep_view() =~= self@.violations(user@, others, *now));
            if self@.too_many_riders() {
                let k = at_capacity.len() - 1;
                assert(at_capacity[k] == msg_too_many_riders());
                assert(errs.deep_view()[k] == msg_too_many_riders());
            }
            if in_some_car(others, user@) {
                let k = fixed.len() - 1;
                assert(fixed[k] == msg_taken(user@));
                assert(errs.deep_view()[k] == msg_taken(user@));
            }
            if errs.deep_view().len() == 0 {
                assert(taken_riders(riders, others).len() == 0);
                lemma_no_taken_riders(riders, others);
            }
            assert(errs.deep_view().len() == errs.len());
        }
        if errs.len() > 0 {
            Err(errs)
        } else {
            Ok(())
        }
    }

    /// Checks the car that `user` proposes against every rule, as of now and
    /// beside the cars `other_cars` of the same event.
    pub fn validate(&self, user: &String, other_cars: Vec<Car>) -> (r: Result<(), Vec<String>>)
        ensures
            exists|now: Timestamp|
                verdict_view(r) == #[trigger] self@.verdict(user@, other_cars.deep_view(), now),
            self@.too_many_riders() ==> r is Err && r->Err_0.deep_view().contains(
                msg_too_many_riders(),
            ),
            in_some_car(other_cars.deep_view(), user@) ==> r is Err && r->Err_0.deep_view().contains(
                msg_taken(user@),
            ),
            r is Ok ==> self@.keeps_apart(user@, other_cars.deep_view()),
    {
        let now = Timestamp::now();
        let r = self.validate_at(user, &other_cars, &now);
        assert(verdict_view(r) == self@.verdict(user@, other_cars.deep_view(), now));
        r
    }
}

/// Where no rider draws a message, no rider is a member of another car.
pub proof fn lemma_no_taken_riders(riders: Seq<Seq<char>>, others: Seq<CarView>)
    requires
        taken_riders(riders, others).len() == 0,
    ensures
        forall|k: int| 0 <= k < riders.len() ==> !in_some_car(others, #[trigger] riders[k]),
    decreases riders.len(),
{
    if riders.len() > 0 {
        lemma_no_taken_riders(riders.drop_last(), others);
        assert forall|k: int| 0 <= k < riders.len() implies !in_some_car(
            others,
            #[trigger] riders[k],
        ) by {
            if k < riders.len() - 1 {
                assert(riders.drop_last()[k] == riders[k]);
            }
        }
    }
}

impl CarView {
    /// This car is what storing `data` for the driver `user` gives: `user`
    /// drives it, and its riders are those of `data`, in their order.
    pub open spec fn holds(self, data: CarDataView, user: Seq<char>) -> bool {
        &&& self.driver.id == user
        &&& self.rider_list().len() == data.riders.len()
        &&& forall|k: int|
            0 <= k < data.riders.len() ==> (#[trigger] self.rider_list()[k]).id == data.riders[k]
    }
}

/// A verdict of `Ok` says that nobody of the proposed car, its driver
/// included, is in another car.
pub proof fn lemma_verdict_keeps_apart(
    data: CarDataView,
    user: Seq<char>,
    others: Seq<CarView>,
    now: Timestamp,
)
    requires
        data.verdict(user, others, now) is Ok,
    ensures
        data.keeps_apart(user, others),
{
    assert(taken_riders(data.riders, others).len() == 0);
    lemma_no_taken_riders(data.riders, others);
}

/// A car that passed validation beside the cars of its event can join them,
/// and still nobody is in two cars.
pub proof fn lemma_validated_car_keeps_exclusive(
    cars: Seq<CarView>,
    data: CarDataView,
    user: Seq<char>,
    now: Timestamp,
    car: CarView,
)
    requires
        exclusive(cars),
        data.verdict(user, cars, now) is Ok,
        car.holds(data, user),
    ensures
        exclusive(cars.push(car)),
{
    let all = cars.push(car);
    assert(taken_riders(data.riders, cars).len() == 0);
    lemma_no_taken_riders(data.riders, cars);
    assert forall|i: int, j: int, id: Seq<char>|
        0 <= i < j < all.len() && #[trigger] all[i].has_member(id) implies !#[trigger] all[j].has_member(
        id,
    ) by {
        if j < cars.len() {
            assert(cars[i].has_member(id));
            assert(!cars[j].has_member(id));
        } else {
            assert(cars[i].has_member(id));
            assert(in_some_car(cars, id));
            if car.has_member(id) {
                if car.driver.id != id {
                    let k = choose|k: int|
                        0 <= k < car.rider_list().len() && #[trigger] car.rider_list()[k].id == id;
                    assert(data.riders[k] == id);
                }
            }
        }
    }
}

/// The same for a car that takes the place of the car at position `at`:
/// validated beside the other cars of its event, it leaves nobody in two cars.
pub proof fn lemma_validated_update_keeps_exclusive(
    cars: Seq<CarView>,
    at: int,
    data: CarDataView,
    user: Seq<char>,
    now: Timestamp,
    car: CarView,
)
    requires
        exclusive(cars),
        0 <= at < cars.len(),
        data.verdict(user, cars.remove(at), now) is Ok,
        car.holds(data, user),
    ensures
        exclusive(cars.update(at, car)),
{
    let rest = cars.remove(at);
    let all = cars.update(at, car);
    assert(taken_riders(data.riders, rest).len() == 0);
    lemma_no_taken_riders(data.riders, rest);
    assert forall|i: int, id: Seq<char>|
        0 <= i < cars.len() && i != at && #[trigger] cars[i].has_member(id) implies !car.has_member(
        id,
    ) by {
        let r = if i < at {
            i
        } else {
            i - 1
        };
        assert(rest[r] == cars[i]);
        assert(rest[r].has_member(id));
        assert(in_some_car(rest, id));
        if car.has_member(id) {
            if car.driver.id != id {
                let k = choose|k: int|
                    0 <= k < car.rider_list().len() && #[trigger] car.rider_list()[k].id == id;
                assert(data.riders[k] == id);
            }
        }
    }
    assert forall|i: int, j: int, id: Seq<char>|
        0 <= i < j < all.len() && #[trigger] all[i].has_member(id) implies !#[trigger] all[j].has_member(
        id,
    ) by {
        if i != at && j != at {
            assert(cars[i].has_member(id));
            assert(!cars[j].has_member(id));
        } else if j == at {
            assert(cars[i].has_member(id));
        } else {
            if all[j].has_member(id) {
                assert(cars[j].has_member(id));
            }
        }
    }
}

impl CarView {
    /// This car is `before` with one more rider, the user `id`.
    pub open spec fn took(self, before: CarView, id: Seq<char>) -> bool {
        &&& self.driver == before.driver
        &&& self.rider_list().len() == before.rider_list().len() + 1
        &&& self.rider_list().last().id == id
        &&& self.rider_list().drop_last() == before.rider_list()
    }
}

/// A user who is in no car of an event can join one of its cars, and still
/// nobody is in two cars.
pub proof fn lemma_join_keeps_exclusive(
    cars: Seq<CarView>,
    at: int,
    user: Seq<char>,
    joined: CarView,
)
    requires
        exclusive(cars),
        0 <= at < cars.len(),
        !in_some_car(cars, user),
        joined.took(cars[at], user),
    ensures
        exclusive(cars.update(at, joined)),
{
    let all = cars.update(at, joined);
    assert forall|id: Seq<char>| joined.has_member(id) implies cars[at].has_member(id) || id
        == user by {
        if joined.driver.id != id {
            let k = choose|k: int|
                0 <= k < joined.rider_list().len() && #[trigger] joined.rider_list()[k].id == id;
            if k < joined.rider_list().len() - 1 {
                assert(joined.rider_list().drop_last()[k] == joined.rider_list()[k]);
                assert(cars[at].rider_list()[k].id == id);
            }
        }
    }
    assert forall|i: int, j: int, id: Seq<char>|
        0 <= i < j < all.len() && #[trigger] all[i].has_member(id) implies !#[trigger] all[j].has_member(
        id,
    ) by {
        if i == at {
            if id == user {
                if all[j].has_member(id) {
                    assert(cars[j].has_member(user));
                }
            } else {
                assert(cars[i].has_member(id));
                assert(!cars[j].has_member(id));
            }
        } else if j == at {
            assert(cars[i].has_member(id));
            if id != user && all[j].has_member(id) {
                assert(cars[j].has_member(id));
            }
        } else {
            assert(cars[i].has_member(id));
            assert(!cars[j].has_member(id));
        }
    }
}

impl CarView {
    /// No seat is left: the riders on record are as many as the car takes,
    /// or more.
    pub open spec fn is_full(self) -> bool {
        self.max_capacity <= self.rider_list().len()
    }
}

impl Car {
    pub fn is_full(&self) -> (b: bool)
        ensures
            b == self@.is_full(),
    {
        let riders: usize = match &self.riders {
            Some(riders) => {
                assert(riders.deep_view().len() == riders.len());
                riders.len()
            },
            None => 0,
        };
        self.max_capacity < 0 || self.max_capacity as usize <= riders
    }
}

} // verus!
