//! Notifications: who is told what, and the request that tells them.

use vstd::prelude::*;
use vstd::string::*;
use crate::text::{trim_suffix, without_suffix};

verus! {

/// What a notification reports.
#[derive(Clone, Copy, Debug, PartialEq, Eq, Structural)]
pub enum PingKind {
    /// A rider joined the recipient's car.
    Join,
    /// A rider left the recipient's car.
    Leave,
    /// The driver put the recipient into the car.
    Add,
    /// The driver took the recipient out of the car.
    Remove,
}

/// One notification. `who` names the rider for `Join` and `Leave`, and the
/// driver for `Add` and `Remove`.
#[derive(Debug)]
pub struct Ping {
    pub kind: PingKind,
    pub to: String,
    pub who: String,
    pub event: String,
}

pub struct PingView {
    pub kind: PingKind,
    pub to: Seq<char>,
    pub who: Seq<char>,
    pub event: Seq<char>,
}

impl View for Ping {
    type V = PingView;

    open spec fn view(&self) -> PingView {
        PingView { kind: self.kind, to: self.to@, who: self.who@, event: self.event@ }
    }
}

impl Clone for Ping {
    fn clone(&self) -> (r: Ping)
        ensures
            r@ == self@,
    {
        Ping {
            kind: self.kind,
            to: self.to.clone(),
            who: self.who.clone(),
            event: self.event.clone(),
        }
    }
}

/// The mail domain whose local part is the notification service's user name.
pub open spec fn mail_domain() -> Seq<char> {
    "@csh.rit.edu"@
}

/// The name under which the notification service knows the owner of `email`:
/// the address with its trailing mail domain cut off.
pub open spec fn recipient(email: Seq<char>) -> Seq<char> {
    without_suffix(email, mail_domain())
}

pub fn recipient_of(email: &String) -> (r: String)
    ensures
        r@ == recipient(email@),
{
    proof {
        reveal_strlit("@csh.rit.edu");
    }
    trim_suffix(email.as_str(), "@csh.rit.edu").to_string()
}

/// The text of a notification.
pub open spec fn body_text(kind: PingKind, who: Seq<char>, event: Seq<char>) -> Seq<char> {
    match kind {
        PingKind::Join => "@"@ + who + " joined your ride to \""@ + event + "\"."@,
        PingKind::Leave => "@"@ + who + " left your ride \""@ + event + "\"."@,
        PingKind::Add => "You have been added to "@ + who + "'s ride to \""@ + event
            + "\" by the driver."@,
        PingKind::Remove => "You have been removed from "@ + who + "'s ride to \""@ + event
            + "\" by the driver."@,
    }
}

/// The address that takes notifications for `route`.
pub open spec fn route_url(route: Seq<char>) -> Seq<char> {
    "https://pings.csh.rit.edu/service/route/"@ + route + "/ping"@
}

/// The value of the `Authorization` header for `token`.
pub open spec fn bearer(token: Seq<char>) -> Seq<char> {
    "Bearer "@ + token
}

/// A notification as it goes out: the address to post to and the two fields of
/// the posted document.
#[derive(Debug)]
pub struct PingRequest {
    pub url: String,
    pub username: String,
    pub body: String,
}

pub struct PingRequestView {
    pub url: Seq<char>,
    pub username: Seq<char>,
    pub body: Seq<char>,
}

impl View for PingRequest {
    type V = PingRequestView;

    open spec fn view(&self) -> PingRequestView {
        PingRequestView { url: self.url@, username: self.username@, body: self.body@ }
    }
}

/// The notification service's settings: the access token and one route per
/// kind of notification.
pub struct PingClient {
    token: String,
    join_route: String,
    leave_route: String,
    add_route: String,
    remove_route: String,
}

pub struct PingClientView {
    pub token: Seq<char>,
    pub join_route: Seq<char>,
    pub leave_route: Seq<char>,
    pub add_route: Seq<char>,
    pub remove_route: Seq<char>,
}

impl PingClientView {
    pub open spec fn route(self, kind: PingKind) -> Seq<char> {
        match kind {
            PingKind::Join => self.join_route,
            PingKind::Leave => self.leave_route,
            PingKind::Add => self.add_route,
            PingKind::Remove => self.remove_route,
        }
    }

    /// The request that delivers `ping`.
    pub open spec fn request(self, ping: PingView) -> PingRequestView {
        PingRequestView {
            url: route_url(self.route(ping.kind)),
            username: ping.to,
            body: body_text(ping.kind, ping.who, ping.event),
        }
    }
}

impl View for PingClient {
    type V = PingClientView;

    closed spec fn view(&self) -> PingClientView {
        PingClientView {
            token: self.token@,
            join_route: self.join_route@,
            leave_route: self.leave_route@,
            add_route: self.add_route@,
            remove_route: self.remove_route@,
        }
    }
}

impl PingClient {
    pub fn new(
        token: String,
        join_route: String,
        leave_route: String,
        add_route: String,
        remove_route: String,
    ) -> (c: PingClient)
        ensures
            c@ == (PingClientView {
                token: token@,
                join_route: join_route@,
                leave_route: leave_route@,
                add_route: add_route@,
                remove_route: remove_route@,
            }),
    {
        PingClient { token, join_route, leave_route, add_route, remove_route }
    }

    /// The `Authorization` header that every request carries.
    pub fn authorization(&self) -> (h: String)
        ensures
            h@ == bearer(self@.token),
    {
        "Bearer ".to_string().concat(self.token.as_str())
    }

    pub fn request(&self, ping: &Ping) -> (r: PingRequest)
        ensures
            r@ == self@.request(ping@),
    {
        let route = match ping.kind {
            PingKind::Join => &self.join_route,
            PingKind::Leave => &self.leave_route,
            PingKind::Add => &self.add_route,
            PingKind::Remove => &self.remove_route,
        };
        let url = "https://pings.csh.rit.edu/service/route/".to_string().concat(
            route.as_str(),
        ).concat("/ping");
        let who = ping.who.as_str();
        let event = ping.event.as_str();
        let body = match ping.kind {
            PingKind::Join => "@".to_string().concat(who).concat(" joined your ride to \"").concat(
                event,
            ).concat("\"."),
            PingKind::Leave => "@".to_string().concat(who).concat(" left your ride \"").concat(
                event,
            ).concat("\"."),
            PingKind::Add => "You have been added to ".to_string().concat(who).concat(
                "'s ride to \"",
            ).concat(event).concat("\" by the driver."),
            PingKind::Remove => "You have been removed from ".to_string().concat(who).concat(
                "'s ride to \"",
            ).concat(event).concat("\" by the driver."),
        };
        PingRequest { url, username: ping.to.clone(), body }
    }
}

} // verus!
