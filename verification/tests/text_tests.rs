use ha_companion::text::{replace_first_exec, trim_end_exec, websocket_url};

#[test]
fn replace_first_replaces_leftmost_only() {
    assert_eq!(replace_first_exec("a-b-c", "-", "+"), "a+b-c");
    assert_eq!(replace_first_exec("abc", "x", "y"), "abc");
    assert_eq!(replace_first_exec("", "x", "y"), "");
    assert_eq!(replace_first_exec("xx", "xx", ""), "");
    assert_eq!(replace_first_exec("ab", "", "z"), "zab");
}

#[test]
fn trim_end_removes_all_trailing() {
    assert_eq!(trim_end_exec("a///", '/'), "a");
    assert_eq!(trim_end_exec("///", '/'), "");
    assert_eq!(trim_end_exec("a/b", '/'), "a/b");
    assert_eq!(trim_end_exec("", '/'), "");
}

#[test]
fn https_becomes_wss() {
    assert_eq!(websocket_url("https://ha.example.com/"), "wss://ha.example.com/api/websocket");
}

#[test]
fn http_becomes_ws() {
    assert_eq!(
        websocket_url("http://homeassistant.local:8123"),
        "ws://homeassistant.local:8123/api/websocket"
    );
}

#[test]
fn trailing_slashes_are_trimmed() {
    assert_eq!(websocket_url("http://h:8123///"), "ws://h:8123/api/websocket");
}

#[test]
fn address_without_scheme_is_kept() {
    assert_eq!(websocket_url("ha.local"), "ha.local/api/websocket");
}

#[test]
fn first_occurrence_anywhere_is_rewritten() {
    assert_eq!(
        websocket_url("http://x/?next=https://y"),
        "ws://x/?next=wss://y/api/websocket"
    );
}

#[test]
fn non_ascii_host_is_kept() {
    assert_eq!(websocket_url("https://maison.fr/é/"), "wss://maison.fr/é/api/websocket");
}
