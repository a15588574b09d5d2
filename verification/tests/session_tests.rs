use ha_companion::json::Json;
use ha_companion::session::{auth_failed_message, Frame, HaMessage, Route, Session, Step};

fn msg(t: &str, id: Option<u64>, rest: Json) -> Frame {
    Frame::Message(HaMessage { msg_type: t.to_string(), id, rest })
}

fn members(j: &Json) -> &Vec<(String, Json)> {
    match j {
        Json::Object(m) => m,
        _ => panic!("not an object"),
    }
}

fn text(j: &Json) -> &str {
    match j {
        Json::Str(s) => s.as_str(),
        _ => panic!("not a string"),
    }
}

fn authenticated() -> Session {
    let mut s = Session::new("secret");
    let _ = s.step(msg("auth_ok", None, Json::Null));
    s
}

#[test]
fn auth_required_is_answered_with_token() {
    let mut s = Session::new("secret\"token");
    match s.step(msg("auth_required", None, Json::Null)) {
        Step::Send(v) => {
            assert_eq!(v.len(), 1);
            let m = members(&v[0]);
            assert_eq!(m.len(), 2);
            assert_eq!(m[0].0, "type");
            assert_eq!(text(&m[0].1), "auth");
            assert_eq!(m[1].0, "access_token");
            assert_eq!(text(&m[1].1), "secret\"token");
        }
        _ => panic!("expected a send"),
    }
    assert_eq!(s.msg_id(), 1);
    assert_eq!(s.subscriptions(), None);
}

#[test]
fn auth_ok_subscribes_with_fresh_ids() {
    let mut s = Session::new("t");
    match s.step(msg("auth_ok", None, Json::Null)) {
        Step::Send(v) => {
            assert_eq!(v.len(), 2);
            let pn = members(&v[0]);
            assert_eq!(pn[0].0, "id");
            assert!(matches!(pn[0].1, Json::UInt(1)));
            assert_eq!(text(&pn[1].1), "persistent_notification/subscribe");
            let nt = members(&v[1]);
            assert!(matches!(nt[0].1, Json::UInt(2)));
            assert_eq!(text(&nt[1].1), "subscribe_trigger");
            assert_eq!(nt[2].0, "trigger");
            let trig = members(&nt[2].1);
            assert_eq!(trig[0].0, "platform");
            assert_eq!(text(&trig[0].1), "event");
            assert_eq!(trig[1].0, "event_type");
            assert_eq!(text(&trig[1].1), "call_service");
            assert_eq!(trig[2].0, "event_data");
            let filter = members(&trig[2].1);
            assert_eq!(filter[0].0, "domain");
            assert_eq!(text(&filter[0].1), "notify");
        }
        _ => panic!("expected sends"),
    }
    assert_eq!(s.msg_id(), 3);
    assert_eq!(s.subscriptions(), Some((1, 2)));
}

#[test]
fn second_auth_ok_takes_new_ids() {
    let mut s = authenticated();
    let _ = s.step(msg("auth_ok", None, Json::Null));
    assert_eq!(s.msg_id(), 5);
    assert_eq!(s.subscriptions(), Some((3, 4)));
}

#[test]
fn auth_invalid_ends_with_error() {
    let mut s = Session::new("t");
    assert!(matches!(s.step(msg("auth_invalid", None, Json::Null)), Step::AuthInvalid));
    assert_eq!(
        auth_failed_message(),
        "HA authentication failed \u{2014} check your Long-Lived Access Token"
    );
}

#[test]
fn close_ends_normally_and_other_frames_are_ignored() {
    let mut s = Session::new("t");
    assert!(matches!(s.step(Frame::Close), Step::Finished));
    assert!(matches!(s.step(Frame::Other), Step::Ignore));
    assert!(matches!(s.step(Frame::Unreadable), Step::Ignore));
    assert!(matches!(s.step(msg("result", Some(1), Json::Null)), Step::Ignore));
}

#[test]
fn events_before_subscription_are_dropped() {
    let mut s = Session::new("t");
    assert!(matches!(s.step(msg("event", Some(1), Json::Null)), Step::Ignore));
}

#[test]
fn events_are_routed_by_subscription_id() {
    let mut s = authenticated();
    assert!(matches!(
        s.step(msg("event", Some(1), Json::UInt(7))),
        Step::Deliver(Route::PersistentNotification, Json::UInt(7))
    ));
    assert!(matches!(
        s.step(msg("event", Some(2), Json::Null)),
        Step::Deliver(Route::NotifyCall, Json::Null)
    ));
    assert!(matches!(s.step(msg("event", Some(9), Json::Null)), Step::Deliver(Route::Both, _)));
    assert!(matches!(s.step(msg("event", None, Json::Null)), Step::Deliver(Route::Both, _)));
}

#[test]
fn ids_running_out_are_detected() {
    let s = Session::new("t");
    assert!(s.can_take(&msg("auth_ok", None, Json::Null)));
    assert!(s.can_take(&Frame::Close));
}

fn sent_ids(step: &Step) -> Vec<u64> {
    match step {
        Step::Send(v) => v
            .iter()
            .filter_map(|m| match m {
                Json::Object(ms) => ms.iter().find(|(k, _)| k == "id").and_then(|(_, v)| match v {
                    Json::UInt(u) => Some(*u),
                    _ => None,
                }),
                _ => None,
            })
            .collect(),
        _ => Vec::new(),
    }
}

#[test]
fn request_ids_count_up_over_a_run() {
    let mut s = Session::new("t");
    let frames = vec![
        msg("auth_required", None, Json::Null),
        msg("event", Some(1), Json::Null),
        msg("auth_ok", None, Json::Null),
        Frame::Other,
        msg("auth_required", None, Json::Null),
        msg("auth_ok", None, Json::Null),
        msg("event", Some(3), Json::Null),
    ];
    let mut ids = Vec::new();
    let mut last = Step::Ignore;
    for f in frames {
        assert!(s.can_take(&f));
        last = s.step(f);
        ids.extend(sent_ids(&last));
    }
    assert_eq!(ids, vec![1, 2, 3, 4]);
    assert!(matches!(last, Step::Deliver(Route::PersistentNotification, _)));
}
