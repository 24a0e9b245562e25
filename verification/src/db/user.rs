//! Users, as the identity directory knows them.

use vstd::prelude::*;

verus! {

/// The identity provider that vouched for a user.
#[derive(Clone, Copy, Debug, PartialEq, Eq, Structural)]
pub enum UserRealm {
    Csh,
    Google,
}

impl UserRealm {
    /// The tag under which the directory stores the realm.
    pub open spec fn tag(self) -> Seq<char> {
        match self {
            UserRealm::Csh => "csh"@,
            UserRealm::Google => "google"@,
        }
    }

    pub fn as_string(&self) -> (s: String)
        ensures
            s@ == self.tag(),
    {
        match self {
            UserRealm::Csh => "csh".to_string(),
            UserRealm::Google => "google".to_string(),
        }
    }
}

/// A user record. `realm` holds the stored tag of the user's realm.
#[derive(Debug)]
pub struct UserData {
    pub id: String,
    pub realm: String,
    pub name: String,
    pub email: String,
}

/// What a `UserData` holds, as sequences of characters.
pub struct UserDataView {
    pub id: Seq<char>,
    pub realm: Seq<char>,
    pub name: Seq<char>,
    pub email: Seq<char>,
}

impl View for UserData {
    type V = UserDataView;

    open spec fn view(&self) -> UserDataView {
        UserDataView { id: self.id@, realm: self.realm@, name: self.name@, email: self.email@ }
    }
}

impl DeepView for UserData {
    type V = UserDataView;

    open spec fn deep_view(&self) -> UserDataView {
        self@
    }
}

impl Clone for UserData {
    fn clone(&self) -> (r: UserData)
        ensures
            r@ == self@,
    {
        UserData {
            id: self.id.clone(),
            realm: self.realm.clone(),
            name: self.name.clone(),
            email: self.email.clone(),
        }
    }
}

impl UserDataView {
    /// Only users of the `Csh` realm receive notifications.
    pub open spec fn receives_pings(self) -> bool {
        self.realm == UserRealm::Csh.tag()
    }
}

impl UserData {
    pub fn receives_pings(&self) -> (b: bool)
        ensures
            b == self@.receives_pings(),
    {
        let csh = UserRealm::Csh.as_string();
        self.realm == csh
    }
}

/// A copy of `users`.
pub fn clone_users(users: &Vec<UserData>) -> (r: Vec<UserData>)
    ensures
        r.deep_view() == users.deep_view(),
{
    let mut r: Vec<UserData> = Vec::new();
    let mut i: usize = 0;
    while i < users.len()
        invariant
            i <= users.len(),
            r.len() == i,
            forall|j: int| 0 <= j < i ==> r[j]@ == users[j]@,
        decreases users.len() - i,
    {
        r.push(users[i].clone());
        i += 1;
    }
    assert(r.deep_view() =~= users.deep_view());
    r
}

} // verus!
