//! Properties of the library that span its operations.

use vstd::prelude::*;
use crate::config::{url_parses, ConfigView};
use crate::desktop::{window_action_of, WindowAction, WindowEvent};
use crate::json::{json_get, member_lookup, Json};
use crate::notices::{clear_marker, notify_call_notice, persistent_notices_of, PnNotification};
use crate::session::{
    auth_request, can_take, is_message_of, route_of, step_spec, Frame, HaMessage, Route, SessionView,
    Step,
};
use crate::text::{occurs_at, replace_first, trim_end, websocket_endpoint};

verus! {

// ---------------------------------------------------------------- configuration

/// A stored access token is read back as stored, and storing it touches
/// nothing else.
pub proof fn law_token_read_back(c: ConfigView, token: Seq<char>)
    ensures
        c.with_token(token).token == Some(token),
        c.with_token(token).url == c.url,
        c.with_token(token).device_name == c.device_name,
        c.with_token(token).auto_update == c.auto_update,
        c.with_token(token).notifications_enabled == c.notifications_enabled,
        c.with_token(token).path == c.path,
{
}

/// Stored preferences are read back as stored, and storing them leaves the
/// server URL and token alone.
pub proof fn law_prefs_read_back(c: ConfigView, name: Option<Seq<char>>, auto: bool, notify: bool)
    ensures
        c.with_prefs(name, auto, notify).device_name == name,
        c.with_prefs(name, auto, notify).auto_update == auto,
        c.with_prefs(name, auto, notify).notifications_enabled == notify,
        c.with_prefs(name, auto, notify).url == c.url,
        c.with_prefs(name, auto, notify).token == c.token,
        c.with_prefs(name, auto, notify).path == c.path,
{
}

/// A stored URL that parses stays one through every update the
/// configuration accepts (a new URL is only stored when it parses).
pub proof fn law_updates_keep_url_valid(
    c: ConfigView,
    url: Seq<char>,
    token: Seq<char>,
    name: Option<Seq<char>>,
    auto: bool,
    notify: bool,
)
    requires
        c.url_valid(),
    ensures
        url_parses(url) ==> c.with_url(url).url_valid(),
        c.with_token(token).url_valid(),
        c.with_prefs(name, auto, notify).url_valid(),
{
}

/// After a token is saved the listener runs exactly when a server URL is stored.
pub proof fn law_token_makes_configured(c: ConfigView, token: Seq<char>)
    ensures
        c.with_token(token).is_configured() == (c.url is Some),
{
}

// ---------------------------------------------------------------- session

/// Events are never delivered before authentication has succeeded and the
/// subscriptions are made.
pub proof fn law_no_delivery_before_subscription(
    old: SessionView,
    frame: Frame,
    new: SessionView,
    res: Step,
)
    requires
        step_spec(old, frame, new, res),
        old.subs is None,
    ensures
        !(res is Deliver),
{
}

/// Only `auth_ok` changes the session; the token never changes; request ids
/// never go back, so an id is never given to two requests.
pub proof fn law_session_changes_only_on_auth_ok(
    old: SessionView,
    frame: Frame,
    new: SessionView,
    res: Step,
)
    requires
        can_take(old, frame),
        step_spec(old, frame, new, res),
    ensures
        !is_message_of(frame, "auth_ok"@) ==> new == old,
        new.token == old.token,
        new.msg_id >= old.msg_id,
{
}

/// After authentication, an event carrying the persistent notification
/// subscription's id goes to that handler alone, one carrying the notify
/// subscription's id to the other alone, and any other event to both.
pub proof fn law_events_follow_their_subscription(
    s0: SessionView,
    auth_ok: Frame,
    s1: SessionView,
    r1: Step,
    event: HaMessage,
    s2: SessionView,
    r2: Step,
)
    requires
        s0.wf(),
        s0.msg_id <= u64::MAX - 2,
        is_message_of(auth_ok, "auth_ok"@),
        step_spec(s0, auth_ok, s1, r1),
        event.msg_type@ == "event"@,
        step_spec(s1, Frame::Message(event), s2, r2),
    ensures
        event.id == Some(s0.msg_id) ==> r2 == Step::Deliver(
            Route::PersistentNotification,
            event.rest,
        ),
        event.id == Some((s0.msg_id + 1) as u64) ==> r2 == Step::Deliver(
            Route::NotifyCall,
            event.rest,
        ),
        (event.id != Some(s0.msg_id) && event.id != Some((s0.msg_id + 1) as u64)) ==> r2
            == Step::Deliver(Route::Both, event.rest),
        s2 == s1,
{
    reveal_strlit("event");
    reveal_strlit("auth_required");
    reveal_strlit("auth_ok");
    reveal_strlit("auth_invalid");
    assert("event"@.len() != "auth_required"@.len());
    assert("event"@.len() != "auth_ok"@.len());
    assert("event"@.len() != "auth_invalid"@.len());
}

/// The request id a message carries: its `id` member, when that is a
/// non-negative integer.
pub open spec fn message_id(j: Json) -> Option<u64> {
    match json_get(j, "id"@) {
        Some(Json::UInt(u)) => Some(u),
        _ => None,
    }
}

/// The request ids carried by a list of messages, in order.
pub open spec fn ids_of(msgs: Seq<Json>) -> Seq<u64>
    decreases msgs.len(),
{
    if msgs.len() == 0 {
        Seq::empty()
    } else {
        ids_of(msgs.drop_last()) + match message_id(msgs.last()) {
            Some(u) => seq![u],
            None => Seq::empty(),
        }
    }
}

/// The request ids sent over a run of steps, in the order they are sent.
pub open spec fn sent_ids(steps: Seq<Step>) -> Seq<u64>
    decreases steps.len(),
{
    if steps.len() == 0 {
        Seq::empty()
    } else {
        sent_ids(steps.drop_last()) + match steps.last() {
            Step::Send(v) => ids_of(v@),
            _ => Seq::empty(),
        }
    }
}

/// The ids 1, 2, ..., n.
pub open spec fn counting_up(n: nat) -> Seq<u64> {
    Seq::new(n, |k: int| (k + 1) as u64)
}

/// Some frame of the run is an `auth_ok`.
pub open spec fn has_auth_ok(frames: Seq<Frame>) -> bool {
    exists|i: int| 0 <= i < frames.len() && is_message_of(#[trigger] frames[i], "auth_ok"@)
}

/// `ss` and `steps` are the sessions and steps of a run over `frames`,
/// started from a fresh session: `ss[k]` takes `frames[k]`, giving `steps[k]`
/// and `ss[k + 1]`.
pub open spec fn is_run(frames: Seq<Frame>, ss: Seq<SessionView>, steps: Seq<Step>) -> bool {
    &&& ss.len() == frames.len() + 1
    &&& steps.len() == frames.len()
    &&& ss[0].msg_id == 1
    &&& ss[0].subs is None
    &&& forall|k: int|
        0 <= k < frames.len() ==> can_take(ss[k], #[trigger] frames[k]) && step_spec(
            ss[k],
            frames[k],
            ss[k + 1],
            steps[k],
        )
}

/// The authentication request carries no request id.
pub proof fn law_auth_request_has_no_id(j: Json, token: Seq<char>)
    requires
        auth_request(j, token),
    ensures
        message_id(j) is None,
{
    reveal_strlit("id");
    reveal_strlit("type");
    reveal_strlit("access_token");
    assert("id"@.len() != "type"@.len());
    assert("id"@.len() != "access_token"@.len());
    if let Json::Object(m) = j {
        let ms = m@;
        assert(ms.drop_first().drop_first() =~= Seq::<(String, Json)>::empty());
        assert(member_lookup(ms.drop_first().drop_first(), "id"@) is None);
        assert(ms.drop_first()[0] == ms[1]);
        assert(ms[1].0@ != "id"@);
        assert(member_lookup(ms.drop_first(), "id"@) is None);
        assert(ms[0].0@ != "id"@);
        assert(member_lookup(ms, "id"@) is None);
    }
}

proof fn lemma_subscribe_ids(v: Seq<Json>, id: u64)
    requires
        id < u64::MAX,
        v.len() == 2,
        crate::session::persistent_subscribe_request(v[0], id),
        crate::session::notify_subscribe_request(v[1], (id + 1) as u64),
    ensures
        ids_of(v) == seq![id, (id + 1) as u64],
{
    reveal_strlit("id");
    assert(message_id(v[0]) == Some(id));
    assert(message_id(v[1]) == Some((id + 1) as u64));
    assert(v.drop_last().drop_last() =~= Seq::<Json>::empty());
    assert(ids_of(v.drop_last().drop_last()) =~= Seq::<u64>::empty());
    assert(v.drop_last().last() == v[0]);
    assert(ids_of(v.drop_last()) =~= seq![id]);
}

proof fn lemma_auth_ids(v: Seq<Json>, token: Seq<char>)
    requires
        v.len() == 1,
        auth_request(v[0], token),
    ensures
        ids_of(v) == Seq::<u64>::empty(),
{
    law_auth_request_has_no_id(v[0], token);
    assert(v.drop_last() =~= Seq::<Json>::empty());
    assert(ids_of(v.drop_last()) =~= Seq::<u64>::empty());
    assert(v.last() == v[0]);
    assert(ids_of(v) =~= Seq::<u64>::empty());
}

/// What holds after the first `k` frames of a run.
proof fn lemma_run_prefix(frames: Seq<Frame>, ss: Seq<SessionView>, steps: Seq<Step>, k: int)
    requires
        is_run(frames, ss, steps),
        0 <= k <= frames.len(),
    ensures
        ss[k].wf(),
        ss[k].token == ss[0].token,
        sent_ids(steps.take(k)) == counting_up((ss[k].msg_id - 1) as nat),
        ss[k].subs is Some <==> has_auth_ok(frames.take(k)),
        ss[k].subs matches Some((p, n)) ==> p + 2 == ss[k].msg_id && n + 1 == ss[k].msg_id,
    decreases k,
{
    reveal_strlit("auth_required");
    reveal_strlit("auth_ok");
    reveal_strlit("auth_invalid");
    reveal_strlit("event");
    assert("auth_ok"@.len() != "auth_required"@.len());
    assert("auth_invalid"@.len() != "auth_required"@.len());
    assert("auth_invalid"@.len() != "auth_ok"@.len());
    assert("event"@.len() != "auth_required"@.len());
    assert("event"@.len() != "auth_ok"@.len());
    assert("event"@.len() != "auth_invalid"@.len());
    if k == 0 {
        assert(steps.take(0) =~= Seq::<Step>::empty());
        assert(counting_up(0) =~= Seq::<u64>::empty());
        assert(!has_auth_ok(frames.take(0)));
    } else {
        let j = k - 1;
        lemma_run_prefix(frames, ss, steps, j);
        let old = ss[j];
        let new = ss[k];
        let f = frames[j];
        assert(can_take(old, f) && step_spec(old, f, new, steps[j]));
        assert(steps.take(k).drop_last() =~= steps.take(j));
        assert(steps.take(k).last() == steps[j]);
        assert(frames.take(k) =~= frames.take(j).push(f));
        let before = counting_up((old.msg_id - 1) as nat);
        if is_message_of(f, "auth_ok"@) {
            let v = steps[j]->Send_0;
            lemma_subscribe_ids(v@, old.msg_id);
            assert(counting_up((new.msg_id - 1) as nat) =~= before + seq![
                old.msg_id,
                (old.msg_id + 1) as u64,
            ]);
            assert(frames.take(k)[j] == f);
            assert(has_auth_ok(frames.take(k)));
        } else {
            assert(new == old);
            if is_message_of(f, "auth_required"@) {
                let v = steps[j]->Send_0;
                lemma_auth_ids(v@, old.token);
                assert(before + Seq::<u64>::empty() =~= before);
            } else {
                assert(!(steps[j] is Send));
                assert(before + Seq::<u64>::empty() =~= before);
            }
            if has_auth_ok(frames.take(k)) {
                let i = choose|i: int|
                    0 <= i < frames.take(k).len() && is_message_of(
                        #[trigger] frames.take(k)[i],
                        "auth_ok"@,
                    );
                assert(i != j);
                assert(frames.take(j)[i] == frames.take(k)[i]);
            }
            if has_auth_ok(frames.take(j)) {
                let i = choose|i: int|
                    0 <= i < frames.take(j).len() && is_message_of(
                        #[trigger] frames.take(j)[i],
                        "auth_ok"@,
                    );
                assert(frames.take(k)[i] == frames.take(j)[i]);
            }
        }
    }
}

/// Over a whole run from a fresh session, the request ids sent are
/// 1, 2, 3, ... in sending order (so no id is sent twice); every `auth_ok`
/// sends exactly the persistent notification subscription then the notify
/// subscription, under the next two ids; every `auth_required` is answered
/// with the token and no id; and an event is routed by the ids of the latest
/// `auth_ok`, or dropped when no `auth_ok` came before it.
pub proof fn law_request_ids_count_up(frames: Seq<Frame>, ss: Seq<SessionView>, steps: Seq<Step>)
    requires
        is_run(frames, ss, steps),
    ensures
        sent_ids(steps) == counting_up((ss.last().msg_id - 1) as nat),
        forall|k: int|
            0 <= k < frames.len() ==> sent_ids(#[trigger] steps.take(k)) == counting_up(
                (ss[k].msg_id - 1) as nat,
            ),
        forall|k: int|
            0 <= k < frames.len() && is_message_of(#[trigger] frames[k], "auth_ok"@) ==> (
            steps[k] matches Step::Send(v) && v@.len() == 2
                && crate::session::persistent_subscribe_request(v@[0], ss[k].msg_id)
                && crate::session::notify_subscribe_request(v@[1], (ss[k].msg_id + 1) as u64)
                && ids_of(v@) == seq![ss[k].msg_id, (ss[k].msg_id + 1) as u64]),
        forall|k: int|
            0 <= k < frames.len() && is_message_of(#[trigger] frames[k], "auth_required"@) ==> (
            steps[k] matches Step::Send(v) && v@.len() == 1 && auth_request(v@[0], ss[0].token)
                && message_id(v@[0]) is None),
        forall|k: int|
            0 <= k < frames.len() && (#[trigger] frames[k] matches Frame::Message(m)
                && m.msg_type@ == "event"@) ==> (if has_auth_ok(frames.take(k)) {
                steps[k] == Step::Deliver(
                    route_of(
                        frames[k]->Message_0.id,
                        (ss[k].msg_id - 2) as u64,
                        (ss[k].msg_id - 1) as u64,
                    ),
                    frames[k]->Message_0.rest,
                )
            } else {
                steps[k] is Ignore
            }),
{
    reveal_strlit("auth_required");
    reveal_strlit("auth_ok");
    reveal_strlit("auth_invalid");
    reveal_strlit("event");
    assert("auth_ok"@.len() != "auth_required"@.len());
    assert("auth_invalid"@.len() != "auth_required"@.len());
    assert("auth_invalid"@.len() != "auth_ok"@.len());
    assert("event"@.len() != "auth_required"@.len());
    assert("event"@.len() != "auth_ok"@.len());
    assert("event"@.len() != "auth_invalid"@.len());
    lemma_run_prefix(frames, ss, steps, frames.len() as int);
    assert(steps.take(frames.len() as int) =~= steps);
    assert forall|k: int|
        0 <= k < frames.len() implies sent_ids(#[trigger] steps.take(k)) == counting_up(
            (ss[k].msg_id - 1) as nat,
        ) by {
        lemma_run_prefix(frames, ss, steps, k);
    }
    assert forall|k: int|
        0 <= k < frames.len() && is_message_of(#[trigger] frames[k], "auth_ok"@) implies (
        steps[k] matches Step::Send(v) && v@.len() == 2
            && crate::session::persistent_subscribe_request(v@[0], ss[k].msg_id)
            && crate::session::notify_subscribe_request(v@[1], (ss[k].msg_id + 1) as u64)
            && ids_of(v@) == seq![ss[k].msg_id, (ss[k].msg_id + 1) as u64]) by {
        assert(can_take(ss[k], frames[k]) && step_spec(ss[k], frames[k], ss[k + 1], steps[k]));
        let v = steps[k]->Send_0;
        lemma_subscribe_ids(v@, ss[k].msg_id);
    }
    assert forall|k: int|
        0 <= k < frames.len() && is_message_of(#[trigger] frames[k], "auth_required"@) implies (
        steps[k] matches Step::Send(v) && v@.len() == 1 && auth_request(v@[0], ss[0].token)
            && message_id(v@[0]) is None) by {
        lemma_run_prefix(frames, ss, steps, k);
        assert(can_take(ss[k], frames[k]) && step_spec(ss[k], frames[k], ss[k + 1], steps[k]));
        let v = steps[k]->Send_0;
        law_auth_request_has_no_id(v@[0], ss[0].token);
    }
    assert forall|k: int|
        0 <= k < frames.len() && (#[trigger] frames[k] matches Frame::Message(m)
            && m.msg_type@ == "event"@) implies (if has_auth_ok(frames.take(k)) {
            steps[k] == Step::Deliver(
                route_of(
                    frames[k]->Message_0.id,
                    (ss[k].msg_id - 2) as u64,
                    (ss[k].msg_id - 1) as u64,
                ),
                frames[k]->Message_0.rest,
            )
        } else {
            steps[k] is Ignore
        }) by {
        lemma_run_prefix(frames, ss, steps, k);
        assert(can_take(ss[k], frames[k]) && step_spec(ss[k], frames[k], ss[k + 1], steps[k]));
        assert("event"@.len() != "auth_required"@.len());
        assert("event"@.len() != "auth_ok"@.len());
        assert("event"@.len() != "auth_invalid"@.len());
    }
}

// ---------------------------------------------------------------- notices

/// A notify call never raises a notice with an empty body or with the
/// clearing marker as its body.
pub proof fn law_notify_notice_has_content(payload: Json)
    ensures
        notify_call_notice(payload) matches Some((t, b)) ==> b.len() > 0 && b != clear_marker(),
{
}

/// Every notice raised by persistent notifications has a non-empty body,
/// and there are never more notices than notifications.
pub proof fn law_persistent_notices_have_bodies(ns: Seq<PnNotification>)
    ensures
        persistent_notices_of(ns).len() <= ns.len(),
        forall|k: int|
            0 <= k < persistent_notices_of(ns).len() ==> (#[trigger] persistent_notices_of(ns)[k]).1.len()
                > 0,
    decreases ns.len(),
{
    if ns.len() > 0 {
        law_persistent_notices_have_bodies(ns.drop_last());
        let prev = persistent_notices_of(ns.drop_last());
        let all = persistent_notices_of(ns);
        assert forall|k: int| 0 <= k < all.len() implies (#[trigger] all[k]).1.len() > 0 by {
            if k < prev.len() {
                assert(all[k] == prev[k]);
            }
        }
    }
}

// ---------------------------------------------------------------- windows

/// Only the main window is ever hidden or quits the application; while a
/// server is configured nothing quits it.
pub proof fn law_window_actions(is_main: bool, event: WindowEvent, has_url: bool)
    ensures
        !is_main ==> window_action_of(is_main, event, has_url) == WindowAction::Nothing,
        has_url ==> !(window_action_of(is_main, event, has_url) is Exit),
        (is_main && has_url && event == WindowEvent::CloseRequested) ==> window_action_of(
            is_main,
            event,
            has_url,
        ) == WindowAction::HideInsteadOfClose,
{
}

// ---------------------------------------------------------------- websocket URL

proof fn lemma_replace_first_absent(s: Seq<char>, p: Seq<char>, w: Seq<char>)
    requires
        forall|i: int| !occurs_at(s, p, i),
    ensures
        replace_first(s, p, w) == s,
    decreases s.len(),
{
    assert(!occurs_at(s, p, 0));
    if s.len() >= p.len() && s.len() > 0 {
        let t = s.drop_first();
        assert forall|i: int| !occurs_at(t, p, i) by {
            if occurs_at(t, p, i) {
                assert(s.subrange(i + 1, i + 1 + p.len()) =~= t.subrange(i, i + p.len()));
                assert(occurs_at(s, p, i + 1));
            }
        }
        lemma_replace_first_absent(t, p, w);
        assert(seq![s[0]] + t =~= s);
    }
}

proof fn lemma_replace_first_prefix(s: Seq<char>, p: Seq<char>, w: Seq<char>)
    requires
        occurs_at(s, p, 0),
    ensures
        replace_first(s, p, w) == w + s.subrange(p.len() as int, s.len() as int),
{
}

proof fn lemma_trim_end_keeps_prefix(p: Seq<char>, h: Seq<char>, c: char)
    requires
        h.len() > 0,
        h[0] != c,
    ensures
        trim_end(p + h, c) == p + trim_end(h, c),
    decreases h.len(),
{
    let s = p + h;
    if h.last() == c {
        assert(h.len() > 1);
        assert(s.drop_last() =~= p + h.drop_last());
        lemma_trim_end_keeps_prefix(p, h.drop_last(), c);
    }
}

/// `head + h` has no occurrence of `pat` when `h` has none and no suffix of
/// `head` starts `pat`: here, `pat` starts with a character that `head`
/// does not hold.
proof fn lemma_absent_after_head(head: Seq<char>, h: Seq<char>, pat: Seq<char>)
    requires
        pat.len() > 0,
        forall|j: int| 0 <= j < head.len() ==> head[j] != pat[0],
        forall|i: int| !occurs_at(h, pat, i),
    ensures
        forall|i: int| !occurs_at(head + h, pat, i),
{
    let s = head + h;
    assert forall|i: int| !occurs_at(s, pat, i) by {
        if occurs_at(s, pat, i) {
            assert(s.subrange(i, i + pat.len())[0] == pat[0]);
            if i < head.len() {
                assert(s[i] == head[i]);
            } else {
                assert(s.subrange(i, i + pat.len()) =~= h.subrange(
                    i - head.len(),
                    i - head.len() + pat.len(),
                ));
                assert(occurs_at(h, pat, i - head.len()));
            }
        }
    }
}

/// An `https://` address maps to the `wss://` endpoint of the same host and
/// path, without trailing slashes.
pub proof fn law_secure_endpoint(h: Seq<char>)
    requires
        h.len() > 0,
        h[0] != '/',
        forall|i: int| !occurs_at(h, "https://"@, i),
        forall|i: int| !occurs_at(h, "http://"@, i),
    ensures
        websocket_endpoint("https://"@ + h) == "wss://"@ + trim_end(h, '/') + "/api/websocket"@,
{
    reveal_strlit("https://");
    reveal_strlit("http://");
    reveal_strlit("wss://");
    let u = "https://"@ + h;
    assert(u.subrange(0, 8) =~= "https://"@);
    lemma_replace_first_prefix(u, "https://"@, "wss://"@);
    assert(u.subrange(8, u.len() as int) =~= h);
    lemma_absent_after_head("wss://"@, h, "http://"@);
    lemma_replace_first_absent("wss://"@ + h, "http://"@, "ws://"@);
    lemma_trim_end_keeps_prefix("wss://"@, h, '/');
}

/// An `http://` address maps to the `ws://` endpoint of the same host and
/// path, without trailing slashes.
pub proof fn law_plain_endpoint(h: Seq<char>)
    requires
        h.len() > 0,
        h[0] != '/',
        forall|i: int| !occurs_at(h, "https://"@, i),
        forall|i: int| !occurs_at(h, "http://"@, i),
    ensures
        websocket_endpoint("http://"@ + h) == "ws://"@ + trim_end(h, '/') + "/api/websocket"@,
{
    reveal_strlit("https://");
    reveal_strlit("http://");
    reveal_strlit("ws://");
    let u = "http://"@ + h;
    assert forall|i: int| !occurs_at(u, "https://"@, i) by {
        if occurs_at(u, "https://"@, i) {
            let w = u.subrange(i, i + 8);
            if i == 0 {
                assert(w[4] == 's');
                assert(u[4] == ':');
            } else if i < 7 {
                assert(w[0] == 'h');
                assert(u[i] == "http://"@[i]);
            } else {
                assert(w =~= h.subrange(i - 7, i - 7 + 8));
                assert(occurs_at(h, "https://"@, i - 7));
            }
        }
    }
    lemma_replace_first_absent(u, "https://"@, "wss://"@);
    assert(u.subrange(0, 7) =~= "http://"@);
    lemma_replace_first_prefix(u, "http://"@, "ws://"@);
    assert(u.subrange(7, u.len() as int) =~= h);
    lemma_trim_end_keeps_prefix("ws://"@, h, '/');
}

} // verus!
