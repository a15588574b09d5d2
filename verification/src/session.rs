//! The Home Assistant websocket session: authentication, the two event
//! subscriptions, and the routing of incoming events to their handlers.
//!
//! The session is a state machine. The caller reads a frame from the socket,
//! hands it to [`Session::step`], and carries out the [`Step`] it returns:
//! sending messages, delivering an event payload, or ending the connection.

use vstd::prelude::*;
use crate::json::Json;

verus! {

/// A message from Home Assistant: its `type`, its optional `id`, and all its
/// other members.
pub struct HaMessage {
    pub msg_type: String,
    pub id: Option<u64>,
    pub rest: Json,
}

/// What the socket delivered.
pub enum Frame {
    /// A text frame holding a Home Assistant message.
    Message(HaMessage),
    /// A text frame that is not a Home Assistant message.
    Unreadable,
    /// The server closed the connection.
    Close,
    /// Any other frame (binary, ping, pong).
    Other,
}

/// Which handler an event payload goes to.
pub enum Route {
    /// The persistent notification subscription.
    PersistentNotification,
    /// The notify service call subscription.
    NotifyCall,
    /// The event's id matches neither subscription: both handlers try it.
    Both,
}

/// What the caller does after a frame.
pub enum Step {
    /// Nothing.
    Ignore,
    /// Sends these messages, in order.
    Send(Vec<Json>),
    /// Hands the event payload to the handler(s) of the route.
    Deliver(Route, Json),
    /// The server closed the connection: the session ends normally.
    Finished,
    /// The server refused the access token: the session ends with an error.
    AuthInvalid,
}

/// The ids of the two subscriptions made after authentication.
pub struct Subscriptions {
    pub persistent_notification: u64,
    pub notify_service_call: u64,
}

/// The state of one connection: the access token, the id the next request
/// gets, and the subscriptions once made.
pub struct Session {
    token: String,
    msg_id: u64,
    subs: Option<Subscriptions>,
}

/// The mathematical content of a [`Session`].
pub struct SessionView {
    pub token: Seq<char>,
    pub msg_id: u64,
    /// The ids of the persistent notification and notify call subscriptions.
    pub subs: Option<(u64, u64)>,
}

impl SessionView {
    /// Request ids start at one; the subscriptions, once made, have two
    /// consecutive ids below the next free one.
    pub open spec fn wf(self) -> bool {
        &&& self.msg_id >= 1
        &&& (self.subs matches Some((p, n)) ==> n == p + 1 && n < self.msg_id)
    }
}

impl View for Session {
    type V = SessionView;

    closed spec fn view(&self) -> SessionView {
        SessionView {
            token: self.token@,
            msg_id: self.msg_id,
            subs: match self.subs {
                Some(s) => Some((s.persistent_notification, s.notify_service_call)),
                None => None,
            },
        }
    }
}

/// A string value with the given text.
pub open spec fn is_text(j: Json, s: Seq<char>) -> bool {
    j matches Json::Str(t) && t@ == s
}

/// A member with the given name and text value.
pub open spec fn text_member(m: (String, Json), name: Seq<char>, text: Seq<char>) -> bool {
    m.0@ == name && is_text(m.1, text)
}

/// `{"type": "auth", "access_token": token}`.
pub open spec fn auth_request(j: Json, token: Seq<char>) -> bool {
    j matches Json::Object(m) && m@.len() == 2 && text_member(m@[0], "type"@, "auth"@)
        && text_member(m@[1], "access_token"@, token)
}

/// `{"id": id, "type": "persistent_notification/subscribe"}`.
pub open spec fn persistent_subscribe_request(j: Json, id: u64) -> bool {
    j matches Json::Object(m) && m@.len() == 2 && m@[0].0@ == "id"@ && m@[0].1 == Json::UInt(id)
        && text_member(m@[1], "type"@, "persistent_notification/subscribe"@)
}

/// `{"domain": "notify"}`.
pub open spec fn notify_domain_filter(j: Json) -> bool {
    j matches Json::Object(m) && m@.len() == 1 && text_member(m@[0], "domain"@, "notify"@)
}

/// `{"platform": "event", "event_type": "call_service", "event_data": {"domain": "notify"}}`.
pub open spec fn notify_call_trigger(j: Json) -> bool {
    j matches Json::Object(m) && m@.len() == 3 && text_member(m@[0], "platform"@, "event"@)
        && text_member(m@[1], "event_type"@, "call_service"@) && m@[2].0@ == "event_data"@
        && notify_domain_filter(m@[2].1)
}

/// `{"id": id, "type": "subscribe_trigger", "trigger": {...}}`: a trigger on
/// every service call in the notify domain.
pub open spec fn notify_subscribe_request(j: Json, id: u64) -> bool {
    j matches Json::Object(m) && m@.len() == 3 && m@[0].0@ == "id"@ && m@[0].1 == Json::UInt(id)
        && text_member(m@[1], "type"@, "subscribe_trigger"@) && m@[2].0@ == "trigger"@
        && notify_call_trigger(m@[2].1)
}

/// The frame is a message of the given type.
pub open spec fn is_message_of(frame: Frame, t: Seq<char>) -> bool {
    frame matches Frame::Message(m) && m.msg_type@ == t
}

/// The route of an event with the given id, given the subscription ids.
pub open spec fn route_of(id: Option<u64>, pn: u64, notify: u64) -> Route {
    if id == Some(pn) {
        Route::PersistentNotification
    } else if id == Some(notify) {
        Route::NotifyCall
    } else {
        Route::Both
    }
}

/// What one step does: `old` and `new` are the session before and after the
/// frame, `res` the step returned.
pub open spec fn step_spec(old: SessionView, frame: Frame, new: SessionView, res: Step) -> bool {
    match frame {
        Frame::Message(m) => if m.msg_type@ == "auth_required"@ {
            &&& new == old
            &&& res matches Step::Send(v) && v@.len() == 1 && auth_request(v@[0], old.token)
        } else if m.msg_type@ == "auth_ok"@ {
            &&& new == SessionView {
                msg_id: (old.msg_id + 2) as u64,
                subs: Some((old.msg_id, (old.msg_id + 1) as u64)),
                ..old
            }
            &&& res matches Step::Send(v) && v@.len() == 2 && persistent_subscribe_request(
                v@[0],
                old.msg_id,
            ) && notify_subscribe_request(v@[1], (old.msg_id + 1) as u64)
        } else if m.msg_type@ == "auth_invalid"@ {
            new == old && res is AuthInvalid
        } else if m.msg_type@ == "event"@ {
            &&& new == old
            &&& match old.subs {
                Some((pn, notify)) => res == Step::Deliver(route_of(m.id, pn, notify), m.rest),
                None => res is Ignore,
            }
        } else {
            new == old && res is Ignore
        },
        Frame::Close => new == old && res is Finished,
        _ => new == old && res is Ignore,
    }
}

/// The session can take the frame: an `auth_ok` needs two more request ids.
pub open spec fn can_take(s: SessionView, frame: Frame) -> bool {
    is_message_of(frame, "auth_ok"@) ==> s.msg_id <= u64::MAX - 2
}

fn text_value(s: &str) -> (j: Json)
    ensures
        is_text(j, s@),
{
    Json::Str(String::from_str(s))
}

fn text_member_exec(name: &str, text: &str) -> (m: (String, Json))
    ensures
        text_member(m, name@, text@),
{
    (String::from_str(name), text_value(text))
}

/// The authentication request carrying the access token.
pub fn auth_request_exec(token: &String) -> (j: Json)
    ensures
        auth_request(j, token@),
{
    let mut m: Vec<(String, Json)> = Vec::new();
    m.push(text_member_exec("type", "auth"));
    m.push((String::from_str("access_token"), Json::Str(token.clone())));
    Json::Object(m)
}

/// The request subscribing to persistent notifications under the given id.
pub fn persistent_subscribe_request_exec(id: u64) -> (j: Json)
    ensures
        persistent_subscribe_request(j, id),
{
    let mut m: Vec<(String, Json)> = Vec::new();
    m.push((String::from_str("id"), Json::UInt(id)));
    m.push(text_member_exec("type", "persistent_notification/subscribe"));
    Json::Object(m)
}

/// The request subscribing, under the given id, to every service call in
/// the notify domain.
pub fn notify_subscribe_request_exec(id: u64) -> (j: Json)
    ensures
        notify_subscribe_request(j, id),
{
    let mut filter: Vec<(String, Json)> = Vec::new();
    filter.push(text_member_exec("domain", "notify"));
    let mut trigger: Vec<(String, Json)> = Vec::new();
    trigger.push(text_member_exec("platform", "event"));
    trigger.push(text_member_exec("event_type", "call_service"));
    trigger.push((String::from_str("event_data"), Json::Object(filter)));
    let mut m: Vec<(String, Json)> = Vec::new();
    m.push((String::from_str("id"), Json::UInt(id)));
    m.push(text_member_exec("type", "subscribe_trigger"));
    m.push((String::from_str("trigger"), Json::Object(trigger)));
    Json::Object(m)
}

/// The error a session ends with when the server refuses the access token.
pub fn auth_failed_message() -> (s: String)
    ensures
        s@ == "HA authentication failed — check your Long-Lived Access Token"@,
{
    String::from_str("HA authentication failed — check your Long-Lived Access Token")
}

/// Whether the message is of the given type.
fn has_type(m: &HaMessage, t: &str) -> (b: bool)
    ensures
        b == (m.msg_type@ == t@),
{
    m.msg_type == String::from_str(t)
}

impl Session {
    /// A fresh connection's session: no subscriptions, the first request id is 1.
    pub fn new(token: &str) -> (s: Session)
        ensures
            s@ == (SessionView { token: token@, msg_id: 1, subs: None }),
            s@.wf(),
    {
        Session { token: String::from_str(token), msg_id: 1, subs: None }
    }

    /// The id the next request gets.
    pub fn msg_id(&self) -> (id: u64)
        ensures
            id == self@.msg_id,
    {
        self.msg_id
    }

    /// The subscription ids, once subscribed.
    pub fn subscriptions(&self) -> (res: Option<(u64, u64)>)
        ensures
            res == self@.subs,
    {
        match &self.subs {
            Some(s) => Some((s.persistent_notification, s.notify_service_call)),
            None => None,
        }
    }

    /// Whether the session can take the frame without running out of request ids.
    pub fn can_take(&self, frame: &Frame) -> (b: bool)
        ensures
            b == can_take(self@, *frame),
    {
        match frame {
            Frame::Message(m) => !has_type(m, "auth_ok") || self.msg_id <= u64::MAX - 2,
            _ => true,
        }
    }

    /// Takes one frame from the server and says what to do about it.
    ///
    /// `auth_required` is answered with the access token; `auth_ok` with the
    /// two subscriptions, under the next two request ids; `auth_invalid` ends
    /// the session with an error and a close frame ends it normally. An
    /// `event` is delivered to the handler whose subscription id it carries,
    /// to both when it carries neither, and dropped before the subscriptions
    /// are made. Everything else is ignored.
    pub fn step(&mut self, frame: Frame) -> (res: Step)
        requires
            old(self)@.wf(),
            can_take(old(self)@, frame),
        ensures
            final(self)@.wf(),
            step_spec(old(self)@, frame, final(self)@, res),
    {
        match frame {
            Frame::Message(m) => {
                if has_type(&m, "auth_required") {
                    let mut out: Vec<Json> = Vec::new();
                    out.push(auth_request_exec(&self.token));
                    Step::Send(out)
                } else if has_type(&m, "auth_ok") {
                    let pn_id = self.msg_id;
                    let mut out: Vec<Json> = Vec::new();
                    out.push(persistent_subscribe_request_exec(pn_id));
                    self.msg_id = self.msg_id + 1;
                    let notify_id = self.msg_id;
                    out.push(notify_subscribe_request_exec(notify_id));
                    self.msg_id = self.msg_id + 1;
                    self.subs = Some(
                        Subscriptions { persistent_notification: pn_id, notify_service_call: notify_id },
                    );
                    Step::Send(out)
                } else if has_type(&m, "auth_invalid") {
                    Step::AuthInvalid
                } else if has_type(&m, "event") {
                    match &self.subs {
                        Some(s) => {
                            let route = if m.id == Some(s.persistent_notification) {
                                Route::PersistentNotification
                            } else if m.id == Some(s.notify_service_call) {
                                Route::NotifyCall
                            } else {
                                Route::Both
                            };
                            Step::Deliver(route, m.rest)
                        },
                        None => Step::Ignore,
                    }
                } else {
                    Step::Ignore
                }
            },
            Frame::Close => Step::Finished,
            _ => Step::Ignore,
        }
    }
}

} // verus!
