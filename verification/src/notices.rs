//! Which desktop notifications Home Assistant events raise.

use vstd::prelude::*;
use crate::json::{json_get, json_path, json_str, opt_json_str, same_json, Json};

verus! {

/// A desktop notification: its title and its body.
pub struct Notice {
    pub title: String,
    pub body: String,
}

/// The title and body of a notice, as text.
pub open spec fn notice_view(n: Notice) -> (Seq<char>, Seq<char>) {
    (n.title@, n.body@)
}

/// The title and bodies of a list of notices, in order.
pub open spec fn notices_view(ns: Seq<Notice>) -> Seq<(Seq<char>, Seq<char>)> {
    ns.map_values(|n: Notice| notice_view(n))
}

/// The title used when Home Assistant sends none.
pub open spec fn default_title() -> Seq<char> {
    "Home Assistant"@
}

/// The message text that only clears a notification on the phone apps.
pub open spec fn clear_marker() -> Seq<char> {
    "clear_notification"@
}

/// Where a `subscribe_trigger` event carries the data of a notify service call.
pub open spec fn trigger_service_data_path() -> Seq<Seq<char>> {
    seq!["variables"@, "trigger"@, "event"@, "data"@, "service_data"@]
}

/// Where a plain `call_service` event carries the data of the service call.
pub open spec fn event_service_data_path() -> Seq<Seq<char>> {
    seq!["event"@, "data"@, "service_data"@]
}

/// The service data of a notify call event, looked up first where a trigger
/// subscription puts it, then where a plain event puts it.
pub open spec fn service_data(payload: Json) -> Option<Json> {
    match json_path(payload, trigger_service_data_path()) {
        Some(d) => Some(d),
        None => json_path(payload, event_service_data_path()),
    }
}

/// A string member of the service data, or `default` when it is missing or
/// not a string.
pub open spec fn text_member_or(data: Json, key: Seq<char>, default: Seq<char>) -> Seq<char> {
    match opt_json_str(json_get(data, key)) {
        Some(s) => s,
        None => default,
    }
}

/// The notice (title, body) that a notify service call event raises: none
/// when the event has no service data, or its message is missing, empty or
/// the clearing marker.
pub open spec fn notify_call_notice(payload: Json) -> Option<(Seq<char>, Seq<char>)> {
    match service_data(payload) {
        None => None,
        Some(d) => {
            let message = text_member_or(d, "message"@, Seq::empty());
            if message.len() == 0 || message == clear_marker() {
                None
            } else {
                Some((text_member_or(d, "title"@, default_title()), message))
            }
        },
    }
}

/// One entry of a persistent notification event.
pub struct PnNotification {
    pub title: Option<String>,
    pub message: Option<String>,
}

/// The notice that one persistent notification raises: none when its
/// message is missing or empty.
pub open spec fn persistent_notice(n: PnNotification) -> Option<(Seq<char>, Seq<char>)> {
    let body = match n.message {
        Some(m) => m@,
        None => Seq::empty(),
    };
    let title = match n.title {
        Some(t) => t@,
        None => default_title(),
    };
    if body.len() == 0 {
        None
    } else {
        Some((title, body))
    }
}

/// The notices that a list of persistent notifications raises, in order.
pub open spec fn persistent_notices_of(ns: Seq<PnNotification>) -> Seq<(Seq<char>, Seq<char>)>
    decreases ns.len(),
{
    if ns.len() == 0 {
        Seq::empty()
    } else {
        persistent_notices_of(ns.drop_last()) + match persistent_notice(ns.last()) {
            Some(n) => seq![n],
            None => Seq::empty(),
        }
    }
}

fn default_title_exec() -> (s: String)
    ensures
        s@ == default_title(),
{
    String::from_str("Home Assistant")
}

/// A string member of `data`, or `default` when missing or not a string.
fn text_member_or_exec(data: &Json, key: &str, default: &str) -> (s: String)
    ensures
        s@ == text_member_or(*data, key@, default@),
{
    match data.get(key) {
        Some(v) => match v.as_str() {
            Some(s) => s.clone(),
            None => String::from_str(default),
        },
        None => String::from_str(default),
    }
}

/// The service data where a trigger subscription puts it. For this path of
/// plain member names, following the members one by one gives what the JSON
/// pointer `/variables/trigger/event/data/service_data` designates.
fn trigger_service_data(payload: &Json) -> (res: Option<&Json>)
    ensures
        same_json(res, json_path(*payload, trigger_service_data_path())),
{
    reveal_with_fuel(json_path, 6);
    let ghost keys = trigger_service_data_path();
    assert(keys.drop_first() =~= seq!["trigger"@, "event"@, "data"@, "service_data"@]);
    assert(keys.drop_first().drop_first() =~= seq!["event"@, "data"@, "service_data"@]);
    assert(keys.drop_first().drop_first().drop_first() =~= seq!["data"@, "service_data"@]);
    assert(keys.drop_first().drop_first().drop_first().drop_first() =~= seq!["service_data"@]);
    assert(keys.drop_first().drop_first().drop_first().drop_first().drop_first() =~= Seq::<
        Seq<char>,
    >::empty());
    let a = match payload.get("variables") {
        Some(a) => a,
        None => return None,
    };
    let b = match a.get("trigger") {
        Some(b) => b,
        None => return None,
    };
    let c = match b.get("event") {
        Some(c) => c,
        None => return None,
    };
    let d = match c.get("data") {
        Some(d) => d,
        None => return None,
    };
    d.get("service_data")
}

/// The service data where a plain `call_service` event puts it.
fn event_service_data(payload: &Json) -> (res: Option<&Json>)
    ensures
        same_json(res, json_path(*payload, event_service_data_path())),
{
    reveal_with_fuel(json_path, 4);
    let ghost keys = event_service_data_path();
    assert(keys.drop_first() =~= seq!["data"@, "service_data"@]);
    assert(keys.drop_first().drop_first() =~= seq!["service_data"@]);
    assert(keys.drop_first().drop_first().drop_first() =~= Seq::<Seq<char>>::empty());
    let a = match payload.get("event") {
        Some(a) => a,
        None => return None,
    };
    let b = match a.get("data") {
        Some(b) => b,
        None => return None,
    };
    b.get("service_data")
}

/// The notice a notify service call event raises, if any.
pub fn notify_notice(payload: &Json) -> (res: Option<Notice>)
    ensures
        match res {
            Some(n) => notify_call_notice(*payload) == Some(notice_view(n)),
            None => notify_call_notice(*payload) is None,
        },
{
    let data = match trigger_service_data(payload) {
        Some(d) => d,
        None => match event_service_data(payload) {
            Some(d) => d,
            None => return None,
        },
    };
    proof {
        reveal_strlit("");
    }
    let message = text_member_or_exec(data, "message", "");
    let marker = String::from_str("clear_notification");
    if message.as_str().is_empty() || message == marker {
        return None;
    }
    let title = text_member_or_exec(data, "title", "Home Assistant");
    Some(Notice { title, body: message })
}

/// The `event` member of a persistent notification event, which holds the
/// notifications.
pub fn persistent_event(payload: &Json) -> (res: Option<&Json>)
    ensures
        same_json(res, json_get(*payload, "event"@)),
{
    payload.get("event")
}

/// The notice one persistent notification raises, if any.
pub fn persistent_notice_exec(n: &PnNotification) -> (res: Option<Notice>)
    ensures
        match res {
            Some(x) => persistent_notice(*n) == Some(notice_view(x)),
            None => persistent_notice(*n) is None,
        },
{
    let body = match &n.message {
        Some(m) => m.clone(),
        None => String::new(),
    };
    if body.as_str().is_empty() {
        return None;
    }
    let title = match &n.title {
        Some(t) => t.clone(),
        None => default_title_exec(),
    };
    Some(Notice { title, body })
}

/// The notices a list of persistent notifications raises, in the list's order.
pub fn persistent_notices(ns: &Vec<PnNotification>) -> (res: Vec<Notice>)
    ensures
        notices_view(res@) == persistent_notices_of(ns@),
{
    let mut res: Vec<Notice> = Vec::new();
    let mut i: usize = 0;
    assert(ns@.take(0) =~= Seq::<PnNotification>::empty());
    while i < ns.len()
        invariant
            i <= ns@.len(),
            notices_view(res@) =~= persistent_notices_of(ns@.take(i as int)),
        decreases ns.len() - i,
    {
        assert(ns@.take(i + 1).drop_last() =~= ns@.take(i as int));
        assert(ns@.take(i + 1).last() == ns@[i as int]);
        match persistent_notice_exec(&ns[i]) {
            Some(x) => {
                res.push(x);
            },
            None => {},
        }
        i = i + 1;
    }
    assert(ns@.take(ns@.len() as int) =~= ns@);
    res
}

/// The notice actually shown, given the notifications switch: the notice
/// when notifications are on, nothing when they are off.
pub fn notice_if_enabled(enabled: bool, notice: Notice) -> (res: Option<Notice>)
    ensures
        enabled ==> res == Some(notice),
        !enabled ==> res is None,
{
    if enabled {
        Some(notice)
    } else {
        None
    }
}

/// The notice shown when an update has been found and is downloading.
pub fn update_notice(version: &str) -> (n: Notice)
    ensures
        n.title@ == "Update available"@,
        n.body@ == "Version "@ + version@ + " is downloading and will install on next launch."@,
{
    Notice {
        title: String::from_str("Update available"),
        body: String::from_str("Version ").concat(version).concat(
            " is downloading and will install on next launch.",
        ),
    }
}

} // verus!
