use ha_companion::json::Json;
use ha_companion::notices::{
    notice_if_enabled, notify_notice, Notice, persistent_event, persistent_notices, update_notice, PnNotification,
};

fn s(t: &str) -> Json {
    Json::Str(t.to_string())
}

fn obj(members: Vec<(&str, Json)>) -> Json {
    Json::Object(members.into_iter().map(|(k, v)| (k.to_string(), v)).collect())
}

fn trigger_payload(service_data: Json) -> Json {
    obj(vec![(
        "variables",
        obj(vec![(
            "trigger",
            obj(vec![("event", obj(vec![("data", obj(vec![("service_data", service_data)]))]))]),
        )]),
    )])
}

fn event_payload(service_data: Json) -> Json {
    obj(vec![("event", obj(vec![("data", obj(vec![("service_data", service_data)]))]))])
}

#[test]
fn json_get_and_as_str() {
    let v = obj(vec![("a", s("x")), ("b", Json::UInt(3)), ("a", s("y"))]);
    assert!(matches!(v.get("a"), Some(Json::Str(t)) if t == "x"));
    assert!(matches!(v.get("b"), Some(Json::UInt(3))));
    assert!(v.get("c").is_none());
    assert!(s("q").get("a").is_none());
    assert_eq!(v.get("a").unwrap().as_str().map(|t| t.as_str()), Some("x"));
    assert!(Json::Null.as_str().is_none());
}

#[test]
fn notify_call_through_trigger() {
    let n = notify_notice(&trigger_payload(obj(vec![
        ("message", s("Door open")),
        ("title", s("Alarm")),
    ])))
    .unwrap();
    assert_eq!(n.title, "Alarm");
    assert_eq!(n.body, "Door open");
}

#[test]
fn notify_call_through_plain_event_with_default_title() {
    let n = notify_notice(&event_payload(obj(vec![("message", s("Hello"))]))).unwrap();
    assert_eq!(n.title, "Home Assistant");
    assert_eq!(n.body, "Hello");
}

#[test]
fn trigger_path_is_preferred() {
    let mut p = match trigger_payload(obj(vec![("message", s("first"))])) {
        Json::Object(m) => m,
        _ => unreachable!(),
    };
    p.push((
        "event".to_string(),
        obj(vec![("data", obj(vec![("service_data", obj(vec![("message", s("second"))]))]))]),
    ));
    let n = notify_notice(&Json::Object(p)).unwrap();
    assert_eq!(n.body, "first");
}

#[test]
fn clearing_marker_raises_nothing() {
    assert!(notify_notice(&event_payload(obj(vec![("message", s("clear_notification"))]))).is_none());
}

#[test]
fn empty_or_missing_message_raises_nothing() {
    assert!(notify_notice(&event_payload(obj(vec![("message", s(""))]))).is_none());
    assert!(notify_notice(&event_payload(obj(vec![("title", s("t"))]))).is_none());
    assert!(notify_notice(&event_payload(obj(vec![("message", Json::UInt(5))]))).is_none());
    assert!(notify_notice(&obj(vec![])).is_none());
}

#[test]
fn non_string_title_falls_back() {
    let n = notify_notice(&event_payload(obj(vec![
        ("message", s("m")),
        ("title", Json::Bool(true)),
    ])))
    .unwrap();
    assert_eq!(n.title, "Home Assistant");
}

#[test]
fn persistent_event_member() {
    let p = obj(vec![("event", obj(vec![("notifications", Json::Null)]))]);
    assert!(matches!(persistent_event(&p), Some(Json::Object(_))));
    assert!(persistent_event(&obj(vec![])).is_none());
}

#[test]
fn persistent_notices_skip_empty_and_keep_order() {
    let ns = vec![
        PnNotification { title: Some("A".to_string()), message: Some("one".to_string()) },
        PnNotification { title: Some("B".to_string()), message: Some(String::new()) },
        PnNotification { title: None, message: Some("three".to_string()) },
        PnNotification { title: Some("D".to_string()), message: None },
    ];
    let out = persistent_notices(&ns);
    assert_eq!(out.len(), 2);
    assert_eq!(out[0].title, "A");
    assert_eq!(out[0].body, "one");
    assert_eq!(out[1].title, "Home Assistant");
    assert_eq!(out[1].body, "three");
    assert!(persistent_notices(&Vec::new()).is_empty());
}

#[test]
fn update_notice_text() {
    let n = update_notice("1.2.3");
    assert_eq!(n.title, "Update available");
    assert_eq!(n.body, "Version 1.2.3 is downloading and will install on next launch.");
}

#[test]
fn switch_gates_notices() {
    let n = Notice { title: "t".to_string(), body: "b".to_string() };
    let shown = notice_if_enabled(true, n).unwrap();
    assert_eq!(shown.body, "b");
    let m = Notice { title: "t".to_string(), body: "b".to_string() };
    assert!(notice_if_enabled(false, m).is_none());
}
