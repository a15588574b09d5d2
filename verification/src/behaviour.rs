//! What each operation does, stated over its inputs and results alone.

use vstd::prelude::*;
use crate::config::ConfigView;
use crate::desktop::{window_action_of, WindowAction, WindowEvent};
use crate::json::{json_get, json_path, member_lookup, opt_json_str, Json};
use crate::notices::{notify_call_notice, persistent_notices_of, PnNotification};
use crate::session::{can_take, is_message_of, step_spec, Frame, Route, SessionView, Step};
use crate::text::{occurs_at, replace_first, trim_end};

verus! {

// ---------------------------------------------------------------- JSON lookups

/// Looking a member up gives the value of the first member with that name.
pub proof fn law_get_first_member(members: Seq<(String, Json)>, key: Seq<char>, i: int)
    requires
        0 <= i < members.len(),
        members[i].0@ == key,
        forall|j: int| 0 <= j < i ==> members[j].0@ != key,
    ensures
        member_lookup(members, key) == Some(members[i].1),
    decreases i,
{
    if i > 0 {
        assert forall|j: int| 0 <= j < i - 1 implies members.drop_first()[j].0@ != key by {
            assert(members.drop_first()[j] == members[j + 1]);
        }
        law_get_first_member(members.drop_first(), key, i - 1);
    }
}

/// Looking up a name no member has gives nothing.
pub proof fn law_get_missing_member(members: Seq<(String, Json)>, key: Seq<char>)
    requires
        forall|j: int| 0 <= j < members.len() ==> members[j].0@ != key,
    ensures
        member_lookup(members, key) is None,
    decreases members.len(),
{
    if members.len() > 0 {
        assert forall|j: int| 0 <= j < members.len() - 1 implies members.drop_first()[j].0@
            != key by {
            assert(members.drop_first()[j] == members[j + 1]);
        }
        law_get_missing_member(members.drop_first(), key);
    }
}

/// Only objects have members; strings alone have text.
pub proof fn law_members_and_text_of_values(v: Json, key: Seq<char>)
    ensures
        !(v is Object) ==> json_get(v, key) is None,
        v matches Json::Object(ms) ==> json_get(v, key) == member_lookup(ms@, key),
        v matches Json::Str(s) ==> opt_json_str(Some(v)) == Some(s@),
        !(v is Str) ==> opt_json_str(Some(v)) is None,
{
}

// ---------------------------------------------------------------- text

/// Replacing the first occurrence: where `pat` first occurs at `i`, the
/// result is the text before `i`, then `with`, then the text after the
/// occurrence.
pub proof fn law_replace_first_occurrence(s: Seq<char>, pat: Seq<char>, with: Seq<char>, i: int)
    requires
        occurs_at(s, pat, i),
        forall|j: int| 0 <= j < i ==> !occurs_at(s, pat, j),
    ensures
        replace_first(s, pat, with) == s.subrange(0, i) + with + s.subrange(
            i + pat.len(),
            s.len() as int,
        ),
    decreases i,
{
    if i == 0 {
        assert(s.subrange(0, 0) + with =~= with);
    } else {
        assert(!occurs_at(s, pat, 0));
        let t = s.drop_first();
        assert(t.subrange(i - 1, i - 1 + pat.len()) =~= s.subrange(i, i + pat.len()));
        assert forall|j: int| 0 <= j < i - 1 implies !occurs_at(t, pat, j) by {
            if occurs_at(t, pat, j) {
                assert(s.subrange(j + 1, j + 1 + pat.len()) =~= t.subrange(j, j + pat.len()));
                assert(occurs_at(s, pat, j + 1));
            }
        }
        law_replace_first_occurrence(t, pat, with, i - 1);
        if s.len() == 0 {
            assert(s.subrange(0, 0) =~= pat);
        }
        assert(seq![s[0]] + (t.subrange(0, i - 1) + with + t.subrange(
            i - 1 + pat.len(),
            t.len() as int,
        )) =~= s.subrange(0, i) + with + s.subrange(i + pat.len(), s.len() as int));
    }
}

/// Without an occurrence of `pat`, replacing leaves the text as it is.
pub proof fn law_replace_first_absent(s: Seq<char>, pat: Seq<char>, with: Seq<char>)
    requires
        forall|i: int| !occurs_at(s, pat, i),
    ensures
        replace_first(s, pat, with) == s,
    decreases s.len(),
{
    assert(!occurs_at(s, pat, 0));
    if s.len() >= pat.len() && s.len() > 0 {
        let t = s.drop_first();
        assert forall|i: int| !occurs_at(t, pat, i) by {
            if occurs_at(t, pat, i) {
                assert(s.subrange(i + 1, i + 1 + pat.len()) =~= t.subrange(i, i + pat.len()));
                assert(occurs_at(s, pat, i + 1));
            }
        }
        law_replace_first_absent(t, pat, with);
        assert(seq![s[0]] + t =~= s);
    }
}

/// Trimming keeps a prefix of the text that does not end with `c`, and
/// everything it removes is `c`.
pub proof fn law_trim_end(s: Seq<char>, c: char)
    ensures
        trim_end(s, c).len() <= s.len(),
        trim_end(s, c) == s.subrange(0, trim_end(s, c).len() as int),
        trim_end(s, c).len() == 0 || trim_end(s, c).last() != c,
        forall|j: int| trim_end(s, c).len() <= j < s.len() ==> s[j] == c,
    decreases s.len(),
{
    if s.len() > 0 && s.last() == c {
        law_trim_end(s.drop_last(), c);
        let t = trim_end(s.drop_last(), c);
        assert(s.drop_last().subrange(0, t.len() as int) =~= s.subrange(0, t.len() as int));
        assert forall|j: int| t.len() <= j < s.len() implies s[j] == c by {
            if j < s.len() - 1 {
                assert(s.drop_last()[j] == s[j]);
            }
        }
    } else {
        assert(s.subrange(0, s.len() as int) =~= s);
    }
}

// ---------------------------------------------------------------- configuration

/// An accepted URL is stored, whatever was stored before, and storing it
/// touches nothing else.
pub proof fn law_url_read_back(c: ConfigView, url: Seq<char>)
    ensures
        c.with_url(url).url == Some(url),
        c.with_url(url).token == c.token,
        c.with_url(url).device_name == c.device_name,
        c.with_url(url).auto_update == c.auto_update,
        c.with_url(url).notifications_enabled == c.notifications_enabled,
        c.with_url(url).path == c.path,
{
}

/// The listener needs both a server URL and an access token.
pub proof fn law_configured_needs_url_and_token(c: ConfigView)
    ensures
        c.url is None ==> !c.is_configured(),
        c.token is None ==> !c.is_configured(),
        (c.url is Some && c.token is Some) ==> c.is_configured(),
{
}

/// A configuration's URL is valid when it has none or one that parses, and
/// not when it holds one that does not parse.
pub proof fn law_url_validity(c: ConfigView)
    ensures
        c.url is None ==> c.url_valid(),
        c.url matches Some(u) ==> (c.url_valid() <==> crate::config::url_parses(u)),
{
}

// ---------------------------------------------------------------- session

proof fn lemma_message_types_differ()
    ensures
        "auth_required"@ != "auth_ok"@,
        "auth_required"@ != "auth_invalid"@,
        "auth_required"@ != "event"@,
        "auth_ok"@ != "auth_invalid"@,
        "auth_ok"@ != "event"@,
        "auth_invalid"@ != "event"@,
{
    reveal_strlit("auth_required");
    reveal_strlit("auth_ok");
    reveal_strlit("auth_invalid");
    reveal_strlit("event");
    assert("auth_required"@.len() == 13);
    assert("auth_ok"@.len() == 7);
    assert("auth_invalid"@.len() == 12);
    assert("event"@.len() == 5);
}

/// `auth_invalid`, whatever its id and other members, ends the session with
/// the authentication error and leaves the session as it was.
pub proof fn law_auth_invalid_ends_session(
    old: SessionView,
    frame: Frame,
    new: SessionView,
    res: Step,
)
    requires
        is_message_of(frame, "auth_invalid"@),
        step_spec(old, frame, new, res),
    ensures
        res is AuthInvalid,
        new == old,
{
    lemma_message_types_differ();
}

/// A close frame ends the session normally and leaves it as it was.
pub proof fn law_close_finishes(old: SessionView, new: SessionView, res: Step)
    requires
        step_spec(old, Frame::Close, new, res),
    ensures
        res is Finished,
        new == old,
{
}

/// Frames that are not messages, and messages of any type other than the
/// four the protocol uses, are ignored and leave the session as it was.
pub proof fn law_other_frames_ignored(old: SessionView, frame: Frame, new: SessionView, res: Step)
    requires
        step_spec(old, frame, new, res),
        !(frame is Close),
        !is_message_of(frame, "auth_required"@),
        !is_message_of(frame, "auth_ok"@),
        !is_message_of(frame, "auth_invalid"@),
        !is_message_of(frame, "event"@),
    ensures
        res is Ignore,
        new == old,
{
}

/// `auth_required` is answered by one message of type `auth` carrying the
/// session's access token and no request id; the session is unchanged.
pub proof fn law_auth_required_answered(old: SessionView, frame: Frame, new: SessionView, res: Step)
    requires
        is_message_of(frame, "auth_required"@),
        step_spec(old, frame, new, res),
    ensures
        new == old,
        res matches Step::Send(v) && v@.len() == 1 && opt_json_str(json_get(v@[0], "type"@))
            == Some("auth"@) && opt_json_str(json_get(v@[0], "access_token"@)) == Some(old.token)
            && json_get(v@[0], "id"@) is None,
{
    reveal_strlit("type");
    reveal_strlit("access_token");
    reveal_strlit("id");
    assert("type"@.len() == 4);
    assert("access_token"@.len() == 12);
    assert("id"@.len() == 2);
    let v = res->Send_0;
    let ms = v@[0]->Object_0@;
    law_get_first_member(ms, "type"@, 0);
    law_get_first_member(ms, "access_token"@, 1);
    law_get_missing_member(ms, "id"@);
}

/// `auth_ok` sends, under the next two request ids, the subscription to
/// persistent notifications and then a trigger subscription to every
/// service call in the notify domain; those ids become the subscriptions and
/// the next id moves past them.
pub proof fn law_auth_ok_subscribes(old: SessionView, frame: Frame, new: SessionView, res: Step)
    requires
        is_message_of(frame, "auth_ok"@),
        can_take(old, frame),
        step_spec(old, frame, new, res),
    ensures
        new.msg_id == old.msg_id + 2,
        new.subs == Some((old.msg_id, (old.msg_id + 1) as u64)),
        new.token == old.token,
        res matches Step::Send(v) && v@.len() == 2
            && json_get(v@[0], "id"@) == Some(Json::UInt(old.msg_id))
            && opt_json_str(json_get(v@[0], "type"@)) == Some("persistent_notification/subscribe"@)
            && json_get(v@[1], "id"@) == Some(Json::UInt((old.msg_id + 1) as u64))
            && opt_json_str(json_get(v@[1], "type"@)) == Some("subscribe_trigger"@)
            && opt_json_str(json_path(v@[1], seq!["trigger"@, "platform"@])) == Some("event"@)
            && opt_json_str(json_path(v@[1], seq!["trigger"@, "event_type"@])) == Some(
                "call_service"@,
            ) && opt_json_str(json_path(v@[1], seq!["trigger"@, "event_data"@, "domain"@]))
            == Some("notify"@),
{
    lemma_message_types_differ();
    reveal_strlit("type");
    reveal_strlit("id");
    reveal_strlit("trigger");
    reveal_strlit("platform");
    reveal_strlit("event_type");
    reveal_strlit("event_data");
    reveal_strlit("domain");
    assert("id"@.len() == 2);
    assert("type"@.len() == 4);
    assert("trigger"@.len() == 7);
    assert("platform"@.len() == 8);
    assert("event_type"@[6] != "event_data"@[6]);
    let v = res->Send_0;
    let a = v@[0]->Object_0@;
    let b = v@[1]->Object_0@;
    law_get_first_member(a, "id"@, 0);
    law_get_first_member(a, "type"@, 1);
    law_get_first_member(b, "id"@, 0);
    law_get_first_member(b, "type"@, 1);
    law_get_first_member(b, "trigger"@, 2);
    let t = b[2].1;
    let tm = t->Object_0@;
    law_get_first_member(tm, "platform"@, 0);
    law_get_first_member(tm, "event_type"@, 1);
    law_get_first_member(tm, "event_data"@, 2);
    let f = tm[2].1->Object_0@;
    law_get_first_member(f, "domain"@, 0);
    reveal_with_fuel(json_path, 4);
    assert(seq!["trigger"@, "platform"@].drop_first() =~= seq!["platform"@]);
    assert(seq!["platform"@].drop_first() =~= Seq::<Seq<char>>::empty());
    assert(seq!["trigger"@, "event_type"@].drop_first() =~= seq!["event_type"@]);
    assert(seq!["event_type"@].drop_first() =~= Seq::<Seq<char>>::empty());
    assert(seq!["trigger"@, "event_data"@, "domain"@].drop_first() =~= seq![
        "event_data"@,
        "domain"@,
    ]);
    assert(seq!["event_data"@, "domain"@].drop_first() =~= seq!["domain"@]);
    assert(seq!["domain"@].drop_first() =~= Seq::<Seq<char>>::empty());
}

/// An event goes to the handler whose subscription id it carries, to both
/// when it carries neither, and is dropped before the subscriptions exist;
/// the session is unchanged.
pub proof fn law_event_routing(old: SessionView, frame: Frame, new: SessionView, res: Step)
    requires
        frame matches Frame::Message(m) && m.msg_type@ == "event"@,
        step_spec(old, frame, new, res),
    ensures
        new == old,
        old.subs is None ==> res is Ignore,
        old.subs matches Some((p, n)) ==> {
            let m = frame->Message_0;
            &&& m.id == Some(p) ==> res == Step::Deliver(Route::PersistentNotification, m.rest)
            &&& (m.id == Some(n) && n != p) ==> res == Step::Deliver(Route::NotifyCall, m.rest)
            &&& (m.id != Some(p) && m.id != Some(n)) ==> res == Step::Deliver(Route::Both, m.rest)
        },
{
    lemma_message_types_differ();
}

// ---------------------------------------------------------------- notices

/// A notify call event raises the notice made from its service data, read
/// where a trigger subscription puts it and otherwise where a plain event
/// puts it: the title is the data's `title` string (`Home Assistant`
/// without one) and the body its `message` string. There is no notice
/// without service data, or when the message is missing, not a string,
/// empty or the clearing marker.
pub proof fn law_notify_notice_from_service_data(payload: Json)
    ensures
        ({
            let trig = json_path(
                payload,
                seq!["variables"@, "trigger"@, "event"@, "data"@, "service_data"@],
            );
            let plain = json_path(payload, seq!["event"@, "data"@, "service_data"@]);
            let data = match trig {
                Some(d) => Some(d),
                None => plain,
            };
            match data {
                None => notify_call_notice(payload) is None,
                Some(d) => {
                    let message = opt_json_str(json_get(d, "message"@));
                    let title = opt_json_str(json_get(d, "title"@));
                    if message matches Some(m) && m.len() > 0 && m != "clear_notification"@ {
                        notify_call_notice(payload) == Some(
                            (
                                match title {
                                    Some(t) => t,
                                    None => "Home Assistant"@,
                                },
                                message->0,
                            ),
                        )
                    } else {
                        notify_call_notice(payload) is None
                    }
                },
            }
        }),
{
}

/// The notices of persistent notifications follow the notifications: a
/// further notification with a non-empty message adds its notice (titled
/// `Home Assistant` when it has no title) at the end, any other adds none.
pub proof fn law_persistent_notices_push(ns: Seq<PnNotification>, n: PnNotification)
    ensures
        persistent_notices_of(Seq::empty()) == Seq::<(Seq<char>, Seq<char>)>::empty(),
        (n.message matches Some(m) && m@.len() > 0) ==> persistent_notices_of(ns.push(n))
            == persistent_notices_of(ns) + seq![
            (
                match n.title {
                    Some(t) => t@,
                    None => "Home Assistant"@,
                },
                n.message->0@,
            ),
        ],
        !(n.message matches Some(m) && m@.len() > 0) ==> persistent_notices_of(ns.push(n))
            == persistent_notices_of(ns),
{
    assert(ns.push(n).drop_last() =~= ns);
    assert(ns.push(n).last() == n);
    if !(n.message matches Some(m) && m@.len() > 0) {
        assert(persistent_notices_of(ns) + Seq::<(Seq<char>, Seq<char>)>::empty()
            =~= persistent_notices_of(ns));
    }
}

// ---------------------------------------------------------------- windows

/// The full table of window events: gaining focus never does anything;
/// losing focus hides the main window while a server is configured; closing
/// the main window hides it while a server is configured and quits (code 0)
/// otherwise; other windows and other events are left alone.
pub proof fn law_window_action_table(is_main: bool, has_url: bool)
    ensures
        window_action_of(is_main, WindowEvent::Focused(true), has_url) == WindowAction::Nothing,
        (is_main && has_url) ==> window_action_of(is_main, WindowEvent::Focused(false), has_url)
            == WindowAction::Hide,
        !(is_main && has_url) ==> window_action_of(is_main, WindowEvent::Focused(false), has_url)
            == WindowAction::Nothing,
        (is_main && has_url) ==> window_action_of(is_main, WindowEvent::CloseRequested, has_url)
            == WindowAction::HideInsteadOfClose,
        (is_main && !has_url) ==> window_action_of(is_main, WindowEvent::CloseRequested, has_url)
            == WindowAction::Exit(0),
        !is_main ==> window_action_of(is_main, WindowEvent::CloseRequested, has_url)
            == WindowAction::Nothing,
        window_action_of(is_main, WindowEvent::Other, has_url) == WindowAction::Nothing,
{
}

} // verus!
