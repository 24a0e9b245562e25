//! What the identity providers report of a user, and what a session keeps of
//! it.

use vstd::prelude::*;
use vstd::std_specs::convert::FromSpecImpl;
use vstd::string::*;

verus! {

/// The identity provider that vouched for a user.
#[derive(Clone, Copy, Debug, PartialEq, Eq, Structural)]
pub enum UserRealm {
    CSH,
    Google,
}

/// What the first provider reports of a user.
#[derive(Debug)]
pub struct CSHUserInfo {
    pub email: String,
    pub given_name: String,
    pub family_name: String,
    pub preferred_username: String,
    pub ldap_id: String,
    pub groups: Vec<String>,
}

pub struct CSHUserInfoView {
    pub email: Seq<char>,
    pub given_name: Seq<char>,
    pub family_name: Seq<char>,
    pub preferred_username: Seq<char>,
    pub ldap_id: Seq<char>,
    pub groups: Seq<Seq<char>>,
}

impl View for CSHUserInfo {
    type V = CSHUserInfoView;

    open spec fn view(&self) -> CSHUserInfoView {
        CSHUserInfoView {
            email: self.email@,
            given_name: self.given_name@,
            family_name: self.family_name@,
            preferred_username: self.preferred_username@,
            ldap_id: self.ldap_id@,
            groups: self.groups.deep_view(),
        }
    }
}

/// What the second provider reports of a user.
#[derive(Debug)]
pub struct GoogleUserInfo {
    pub email: String,
    pub given_name: String,
    pub family_name: String,
    pub picture: String,
    pub sub: String,
}

pub struct GoogleUserInfoView {
    pub email: Seq<char>,
    pub given_name: Seq<char>,
    pub family_name: Seq<char>,
    pub picture: Seq<char>,
    pub sub: Seq<char>,
}

impl View for GoogleUserInfo {
    type V = GoogleUserInfoView;

    open spec fn view(&self) -> GoogleUserInfoView {
        GoogleUserInfoView {
            email: self.email@,
            given_name: self.given_name@,
            family_name: self.family_name@,
            picture: self.picture@,
            sub: self.sub@,
        }
    }
}

/// What a session keeps of its user.
#[derive(Debug)]
pub struct UserInfo {
    pub id: String,
    pub username: Option<String>,
    pub email: String,
    pub given_name: String,
    pub family_name: String,
    pub picture: String,
    pub groups: Vec<String>,
}

pub struct UserInfoView {
    pub id: Seq<char>,
    pub username: Option<Seq<char>>,
    pub email: Seq<char>,
    pub given_name: Seq<char>,
    pub family_name: Seq<char>,
    pub picture: Seq<char>,
    pub groups: Seq<Seq<char>>,
}

impl View for UserInfo {
    type V = UserInfoView;

    open spec fn view(&self) -> UserInfoView {
        UserInfoView {
            id: self.id@,
            username: self.username.deep_view(),
            email: self.email@,
            given_name: self.given_name@,
            family_name: self.family_name@,
            picture: self.picture@,
            groups: self.groups.deep_view(),
        }
    }
}

impl DeepView for UserInfo {
    type V = UserInfoView;

    open spec fn deep_view(&self) -> UserInfoView {
        self@
    }
}

impl Clone for UserInfo {
    fn clone(&self) -> (r: UserInfo)
        ensures
            r@ == self@,
    {
        UserInfo {
            id: self.id.clone(),
            username: match &self.username {
                Some(u) => Some(u.clone()),
                None => None,
            },
            email: self.email.clone(),
            given_name: self.given_name.clone(),
            family_name: self.family_name.clone(),
            picture: self.picture.clone(),
            groups: self.groups.clone(),
        }
    }
}

/// A user as a list of users shows it.
#[derive(Debug)]
pub struct UserData {
    pub id: String,
    pub name: String,
}

pub struct UserDataView {
    pub id: Seq<char>,
    pub name: Seq<char>,
}

impl View for UserData {
    type V = UserDataView;

    open spec fn view(&self) -> UserDataView {
        UserDataView { id: self.id@, name: self.name@ }
    }
}

/// Where the first provider keeps the picture of the user `username`.
pub open spec fn profile_picture(username: Seq<char>) -> Seq<char> {
    "https://profiles.csh.rit.edu/image/"@ + username
}

/// The name under which a user is stored: given name, a space, family name.
pub open spec fn full_name(given_name: Seq<char>, family_name: Seq<char>) -> Seq<char> {
    given_name + " "@ + family_name
}

pub fn display_name(given_name: &String, family_name: &String) -> (n: String)
    ensures
        n@ == full_name(given_name@, family_name@),
{
    given_name.clone().concat(" ").concat(family_name.as_str())
}

impl CSHUserInfoView {
    /// What a session keeps of this user: the directory id as the id, the
    /// preferred user name, and the picture that goes with that name.
    pub open spec fn session_info(self) -> UserInfoView {
        UserInfoView {
            id: self.ldap_id,
            username: Some(self.preferred_username),
            email: self.email,
            given_name: self.given_name,
            family_name: self.family_name,
            picture: profile_picture(self.preferred_username),
            groups: self.groups,
        }
    }
}

impl GoogleUserInfoView {
    /// What a session keeps of this user: the subject as the id, no user
    /// name, no groups.
    pub open spec fn session_info(self) -> UserInfoView {
        UserInfoView {
            id: self.sub,
            username: None,
            email: self.email,
            given_name: self.given_name,
            family_name: self.family_name,
            picture: self.picture,
            groups: Seq::empty(),
        }
    }
}

impl From<CSHUserInfo> for UserInfo {
    fn from(user_info: CSHUserInfo) -> (r: UserInfo)
        ensures
            r@ == user_info@.session_info(),
    {
        let username = user_info.preferred_username;
        let picture = "https://profiles.csh.rit.edu/image/".to_string().concat(username.as_str());
        UserInfo {
            id: user_info.ldap_id,
            username: Some(username),
            email: user_info.email,
            given_name: user_info.given_name,
            family_name: user_info.family_name,
            picture,
            groups: user_info.groups,
        }
    }
}

/// The session's picture is a new string, which only its view can describe:
/// the conversion is specified by the `ensures` of `from`, not by `from_spec`.
impl FromSpecImpl<CSHUserInfo> for UserInfo {
    open spec fn obeys_from_spec() -> bool {
        false
    }

    open spec fn from_spec(user_info: CSHUserInfo) -> UserInfo {
        arbitrary()
    }
}

impl From<GoogleUserInfo> for UserInfo {
    fn from(user_info: GoogleUserInfo) -> (r: UserInfo)
        ensures
            r@ == user_info@.session_info(),
    {
        let groups: Vec<String> = Vec::new();
        assert(groups.deep_view() =~= Seq::<Seq<char>>::empty());
        UserInfo {
            id: user_info.sub,
            username: None,
            email: user_info.email,
            given_name: user_info.given_name,
            family_name: user_info.family_name,
            picture: user_info.picture,
            groups,
        }
    }
}

/// The session's list of groups is a new list, which only its view can
/// describe: the conversion is specified by the `ensures` of `from`, not by
/// `from_spec`.
impl FromSpecImpl<GoogleUserInfo> for UserInfo {
    open spec fn obeys_from_spec() -> bool {
        false
    }

    open spec fn from_spec(user_info: GoogleUserInfo) -> UserInfo {
        arbitrary()
    }
}

} // verus!
