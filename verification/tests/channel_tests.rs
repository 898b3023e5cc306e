use serde_json::Value;
use urbit_http_api::config::Config;
use urbit_http_api::error::{check_status, status_display, Error};
use urbit_http_api::event::{ChannelStatus, UrbitEvent};
use urbit_http_api::json::{
    delete_payload, poke_payload, poke_value_payload, quote, read_channel_reply, scry_query,
    subscribe_payload,
    unsubscribe_payload, ChannelReply,
};
use urbit_http_api::urbit::{
    arvo_network_url, channel_uid, error_event, generate_uid, stream_status_event, PokeHandlers,
    SseOutcome, Urbit,
};
use urbit_http_api::sse::SseEvent;

fn j(text: &str) -> Value {
    serde_json::from_str(text).unwrap()
}

type State = Urbit<PokeHandlers<&'static str, &'static str>, u8, u8, u8>;

fn is_uid(u: &str) -> bool {
    match u.split_once('-') {
        Some((secs, hex)) => {
            !secs.is_empty()
                && secs.chars().all(|c| c.is_ascii_digit())
                && hex.len() == 6
                && hex.chars().all(|c| c.is_ascii_digit() || ('a'..='f').contains(&c))
        }
        None => false,
    }
}

fn handlers(tag: &'static str) -> PokeHandlers<&'static str, &'static str> {
    PokeHandlers { on_success: tag, on_error: tag }
}

fn reply(response: Option<&str>, id: Option<u64>, has_ok: bool, err: Option<&str>) -> ChannelReply {
    ChannelReply {
        response: response.map(|s| s.to_string()),
        id,
        has_ok,
        err: err.map(|s| s.to_string()),
    }
}

#[test]
fn json_strings_are_escaped() {
    assert_eq!(quote("plain"), "\"plain\"");
    assert_eq!(quote("a\"b\\c"), "\"a\\\"b\\\\c\"");
    assert_eq!(quote("\n\t\r\u{8}\u{c}\u{1}\u{1f}"), "\"\\n\\t\\r\\b\\f\\u0001\\u001f\"");
    assert_eq!(quote("é/"), "\"é/\"");
    for s in ["x\u{7f}y", "", "ü\"\u{0}"] {
        assert_eq!(quote(s), serde_json::to_string(s).unwrap());
    }
}

#[test]
fn poke_message_is_a_one_element_array() {
    let p = poke_payload(3, "zod", "hood", "helm-hi", "\"hi\"");
    assert_eq!(p, "[{\"action\":\"poke\",\"app\":\"hood\",\"id\":3,\"json\":\"hi\",\"mark\":\"helm-hi\",\"ship\":\"zod\"}]");
    let expected = serde_json::to_string(&vec![j(r#"{
        "id": 3, "action": "poke", "ship": "zod", "app": "hood", "mark": "helm-hi", "json": "hi"
    }"#)])
    .unwrap();
    assert_eq!(p, expected);
    let v = poke_value_payload(3, "zod", "hood", "helm-hi", &j(r#"{"b": [1, 2], "a": null}"#)).unwrap();
    let parsed: Value = serde_json::from_str(&v).unwrap();
    assert_eq!(parsed, j(r#"[{"id": 3, "action": "poke", "ship": "zod", "app": "hood", "mark": "helm-hi", "json": {"b": [1, 2], "a": null}}]"#));
}

#[test]
fn other_messages_match_their_json() {
    assert_eq!(
        subscribe_payload(12, "zod", "chat", "/updates"),
        serde_json::to_string(&vec![j(r#"{"id": 12, "action": "subscribe", "ship": "zod", "app": "chat", "path": "/updates"}"#)]).unwrap()
    );
    assert_eq!(
        unsubscribe_payload(13, 12),
        "[{\"action\":\"unsubscribe\",\"id\":13,\"subscription\":12}]"
    );
    assert_eq!(delete_payload(4294967295), "[{\"action\":\"delete\",\"id\":4294967295}]");
}

#[test]
fn status_text_and_check() {
    assert_eq!(status_display(404), "404 Not Found");
    assert_eq!(status_display(200), "200 OK");
    assert_eq!(status_display(599), "599 <unknown status code>");
    assert!(check_status("Scry HTTP error: ", 204).is_ok());
    match check_status("Scry HTTP error: ", 500) {
        Err(Error::Http(m)) => assert_eq!(m, "Scry HTTP error: 500 Internal Server Error"),
        other => panic!("unexpected {:?}", other),
    }
    match check_status("Login failed with status ", 199) {
        Err(Error::Http(m)) => assert_eq!(m, "Login failed with status 199 <unknown status code>"),
        other => panic!("unexpected {:?}", other),
    }
    assert!(check_status("x", 300).is_err());
    assert!(check_status("x", 299).is_ok());
}

#[test]
fn channel_reply_fields_are_read() {
    let ev = |data: &str| SseEvent { id: None, event: None, data: Some(data.to_string()), retry: None };
    let mut s: State = Urbit::new("http://ship", None);
    let (id, _) = s.poke("hood", "helm-hi", &j("1"), handlers("h"));
    // A negative id is no poke answer.
    match s.handle_sse_event(&ev(&format!("{{\"response\":\"poke\",\"id\":-{},\"ok\":1}}", id))) {
        SseOutcome::Fact(f) => assert_eq!(f.data["id"], j(&format!("-{}", id))),
        _ => panic!("expected a fact"),
    }
    // A response that is not a string is no poke answer.
    match s.handle_sse_event(&ev(&format!("{{\"response\":[\"poke\"],\"id\":{},\"ok\":1}}", id))) {
        SseOutcome::Fact(_) => {}
        _ => panic!("expected a fact"),
    }
    // A JSON array has no members.
    match s.handle_sse_event(&ev("[1,2]")) {
        SseOutcome::Fact(f) => assert_eq!(f.data, j("[1,2]")),
        _ => panic!("expected a fact"),
    }
    // An "ok" member that is null still counts.
    match s.handle_sse_event(&ev(&format!("{{\"response\":\"poke\",\"id\":{},\"ok\":null,\"err\":\"e\"}}", id))) {
        SseOutcome::PokeSucceeded(h) => assert_eq!(h.on_success, "h"),
        _ => panic!("expected success"),
    }
    assert!(matches!(s.handle_sse_event(&ev("not json")), SseOutcome::Skipped));
}

#[test]
fn new_state_has_default_settings() {
    let s: State = Urbit::new("http://localhost:8080", Some("code".to_string()));
    assert_eq!(s.url, "http://localhost:8080");
    assert_eq!(s.code.as_deref(), Some("code"));
    assert_eq!(s.last_event_id(), 0);
    assert!(is_uid(s.uid()));
    assert_eq!(s.config().reconnect_interval, std::time::Duration::from_secs(5));
    assert_eq!(s.config().timeout, None);
    assert!(!s.config().debug);
    assert_eq!(s.channel_url(), format!("http://localhost:8080/~/channel/{}", s.uid()));
    let c = Config::default();
    assert_eq!(c.reconnect_interval, std::time::Duration::from_secs(5));
}

#[test]
fn uid_shapes() {
    assert_eq!(channel_uid(1700000000, "0a1b2c"), "1700000000-0a1b2c");
    assert!(is_uid(&generate_uid()));
}

#[test]
fn urls_and_login() {
    let mut s: State = Urbit::new("http://ship", None);
    assert_eq!(s.login_url(), "http://ship/~/login");
    assert_eq!(s.login_body(), "password=");
    s.code = Some("lidlut-tabwed".to_string());
    assert_eq!(s.login_body(), "password=lidlut-tabwed");
    assert_eq!(s.host_url(), "http://ship/~/host");
    assert_eq!(s.name_url(), "http://ship/~/name");
    assert_eq!(s.scry_url("graph-store", "/keys"), "http://ship/~/scry/graph-store/keys.json");
    match s.thread_url("in", "out", "t") {
        Err(Error::Message(m)) => assert_eq!(m, "Must supply desk to run thread from"),
        other => panic!("unexpected {:?}", other),
    }
    s.desk = Some("base".to_string());
    assert_eq!(s.thread_url("in", "out", "t").unwrap(), "http://ship/spider/base/in/t/out.json");
    assert_eq!(arvo_network_url("sampel"), "https://sampel.arvo.network");
    s.record_ship_name("~zod");
    s.record_our_name("~nec");
    assert_eq!(s.ship.as_deref(), Some("zod"));
    assert_eq!(s.our.as_deref(), Some("nec"));
}

#[test]
fn pokes_take_consecutive_ids() {
    let mut s: State = Urbit::new("http://ship", None);
    s.ship = Some("zod".to_string());
    let (a, pa) = s.poke("hood", "helm-hi", &j(r#""x""#), handlers("a"));
    let (b, _) = s.poke("hood", "helm-hi", &j(r#""y""#), handlers("b"));
    assert_eq!((a, b), (1, 2));
    assert_eq!(pa.unwrap(), "[{\"action\":\"poke\",\"app\":\"hood\",\"id\":1,\"json\":\"x\",\"mark\":\"helm-hi\",\"ship\":\"zod\"}]");
    assert!(s.has_poke(1) && s.has_poke(2));
    assert_eq!(s.remove_poke(1).map(|h| h.on_success), Some("a"));
    assert!(s.remove_poke(1).is_none());
    assert!(!s.has_poke(1));
    let (d, payload) = s.delete();
    assert_eq!(d, 3);
    assert_eq!(payload, "[{\"action\":\"delete\",\"id\":3}]");
}

#[test]
fn poke_answers_deliver_handlers_once() {
    let mut s: State = Urbit::new("http://ship", None);
    let (id, _) = s.poke("hood", "helm-hi", &j(r#"1"#), handlers("h"));
    match s.route_channel_reply(&reply(Some("poke"), Some(id as u64), true, None), j(r#"{"ok": "ok"}"#), 10) {
        SseOutcome::PokeSucceeded(h) => assert_eq!(h.on_success, "h"),
        _ => panic!("expected success"),
    }
    // The same answer again is a fact.
    match s.route_channel_reply(&reply(Some("poke"), Some(id as u64), true, None), j(r#"{"ok": "ok"}"#), 11) {
        SseOutcome::Fact(f) => {
            assert_eq!(f.id, 0);
            assert_eq!(f.time, 11);
            assert_eq!(f.data, j(r#"{"ok": "ok"}"#));
        }
        _ => panic!("expected a fact"),
    }
    let (id2, _) = s.poke("hood", "helm-hi", &j(r#"1"#), handlers("g"));
    match s.route_channel_reply(&reply(Some("poke"), Some(id2 as u64), false, Some("nope")), j(r#"null"#), 0) {
        SseOutcome::PokeFailed(h, e) => {
            assert_eq!(h.on_error, "g");
            assert_eq!(e, "nope");
        }
        _ => panic!("expected failure"),
    }
    let (id3, _) = s.poke("hood", "helm-hi", &j(r#"1"#), handlers("i"));
    match s.route_channel_reply(&reply(Some("poke"), Some(id3 as u64), false, None), j(r#"{"response": "poke"}"#), 0) {
        SseOutcome::InvalidPokeResponse(v) => assert_eq!(v, j(r#"{"response": "poke"}"#)),
        _ => panic!("expected invalid"),
    }
    assert!(!s.has_poke(id3));
    // An id is cut to 32 bits.
    let (id4, _) = s.poke("hood", "helm-hi", &j(r#"1"#), handlers("j"));
    match s.route_channel_reply(&reply(Some("poke"), Some((1u64 << 32) + id4 as u64), true, None), j(r#"0"#), 0) {
        SseOutcome::PokeSucceeded(h) => assert_eq!(h.on_success, "j"),
        _ => panic!("expected success"),
    }
    // Other responses are facts.
    let (id5, _) = s.poke("hood", "helm-hi", &j(r#"1"#), handlers("k"));
    match s.route_channel_reply(&reply(Some("diff"), Some(id5 as u64), true, None), j(r#"5"#), 3) {
        SseOutcome::Fact(f) => assert_eq!(f.data, j(r#"5"#)),
        _ => panic!("expected a fact"),
    }
    assert!(s.has_poke(id5));
}

#[test]
fn sse_events_are_routed_by_their_data() {
    let mut s: State = Urbit::new("http://ship", None);
    let (id, _) = s.poke("hood", "helm-hi", &j(r#"1"#), handlers("h"));
    let ev = |data: Option<&str>| SseEvent { id: None, event: None, data: data.map(|d| d.to_string()), retry: None };
    assert!(matches!(s.handle_sse_event(&ev(None)), SseOutcome::Skipped));
    assert!(matches!(s.handle_sse_event(&ev(Some("{oops"))), SseOutcome::Skipped));
    let answer = format!("{{\"response\":\"poke\",\"id\":{},\"err\":\"bad mark\"}}", id);
    match s.handle_sse_event(&ev(Some(&answer))) {
        SseOutcome::PokeFailed(h, e) => {
            assert_eq!(h.on_error, "h");
            assert_eq!(e, "bad mark");
        }
        _ => panic!("expected failure"),
    }
    match s.handle_sse_event(&ev(Some("{\"response\":\"diff\",\"json\":[1]}"))) {
        SseOutcome::Fact(f) => assert_eq!(f.data, j(r#"{"response": "diff", "json": [1]}"#)),
        _ => panic!("expected a fact"),
    }
}

#[test]
fn subscriptions_open_and_close() {
    let mut s: State = Urbit::new("http://ship", None);
    let first = s.subscribe("chat", "/updates", true, 1, 2, 3);
    assert_eq!(first.id, 1);
    assert_eq!(first.events.len(), 2);
    assert!(matches!(first.events[0], UrbitEvent::StatusUpdate(ref e) if e.status == ChannelStatus::Opening));
    match &first.events[1] {
        UrbitEvent::Subscription(e) => {
            assert_eq!(e.id, 1);
            assert_eq!(e.app.as_deref(), Some("chat"));
            assert_eq!(e.path.as_deref(), Some("/updates"));
            assert_eq!(e.status, "open");
        }
        _ => panic!("expected a subscription event"),
    }
    assert_eq!(first.payload, "[{\"action\":\"subscribe\",\"app\":\"chat\",\"id\":1,\"path\":\"/updates\",\"ship\":\"\"}]");
    let second = s.subscribe("chat", "/other", false, 4, 5, 6);
    assert_eq!(second.id, 2);
    assert_eq!(second.events.len(), 1);
    assert!(s.has_subscription(1) && s.has_subscription(2));
    let (msg_id, payload) = s.unsubscribe(1);
    assert_eq!(msg_id, 3);
    assert_eq!(payload, "[{\"action\":\"unsubscribe\",\"id\":3,\"subscription\":1}]");
    assert!(s.has_subscription(1));
    match s.unsubscribed(1) {
        UrbitEvent::Subscription(e) => {
            assert_eq!(e.id, 1);
            assert_eq!(e.app, None);
            assert_eq!(e.status, "close");
        }
        _ => panic!("expected a subscription event"),
    }
    assert!(!s.has_subscription(1));
    assert!(s.has_subscription(2));
}

#[test]
fn reset_restarts_the_channel() {
    let mut s: State = Urbit::new("http://ship", None);
    s.poke("hood", "helm-hi", &j(r#"1"#), handlers("h"));
    s.subscribe("chat", "/updates", true, 1, 2, 3);
    match s.reset() {
        UrbitEvent::Reset(e) => assert_eq!(e.uid, *s.uid()),
        _ => panic!("expected a reset event"),
    }
    assert!(is_uid(s.uid()));
    assert_eq!(s.last_event_id(), 0);
    assert!(!s.has_poke(1));
    assert!(!s.has_subscription(2));
    let (id, _) = s.poke("hood", "helm-hi", &j(r#"1"#), handlers("h"));
    assert_eq!(id, 1);
    let before = s.uid().clone();
    s.regenerate_uid();
    assert!(is_uid(s.uid()));
    assert_eq!(s.last_event_id(), 1);
    let _ = before;
}

#[test]
fn stream_and_error_events() {
    assert!(matches!(stream_status_event(200), UrbitEvent::StatusUpdate(ref e) if e.status == ChannelStatus::Active));
    assert!(matches!(stream_status_event(404), UrbitEvent::Disconnected));
    match error_event("boom".to_string()) {
        UrbitEvent::Error(e) => assert_eq!(e.msg, "boom"),
        _ => panic!("expected an error event"),
    }
}

#[test]
fn events_as_text() {
    assert_eq!(UrbitEvent::Connected.to_string(), "Connected");
    assert_eq!(UrbitEvent::Reconnected.to_string(), "Reconnected");
    let s: State = Urbit::new("http://ship", None);
    let _ = s;
    let ev = urbit_http_api::urbit::stream_status_event(200);
    assert_eq!(ev.to_string(), "StatusUpdate: StatusUpdateEvent { status: Active }");
    let sub = urbit_http_api::event::SubscriptionEvent { id: 7, app: Some("a\"b".to_string()), path: None, status: "open".to_string() };
    assert_eq!(
        UrbitEvent::Subscription(sub.clone()).to_string(),
        format!("Subscription: {:?}", sub)
    );
    let fact = urbit_http_api::event::FactEvent { id: 0, time: 9, data: j(r#"{"k": [true]}"#) };
    assert_eq!(UrbitEvent::Fact(fact.clone()).to_string(), format!("Fact: {:?}", fact));
    let err = urbit_http_api::event::ErrorEvent { time: 1, msg: "bad\nline".to_string() };
    assert_eq!(UrbitEvent::Error(err.clone()).to_string(), format!("Error: {:?}", err));
    let reset = urbit_http_api::event::ResetEvent { uid: "1-abcdef".to_string() };
    assert_eq!(UrbitEvent::Reset(reset.clone()).to_string(), format!("Reset: {:?}", reset));
}

#[test]
fn channel_reply_members_feed_each_field() {
    let (_, r) = read_channel_reply("{\"response\":\"poke\",\"id\":4,\"err\":\"bad\"}").unwrap();
    assert_eq!(r.response.as_deref(), Some("poke"));
    assert_eq!(r.id, Some(4));
    assert!(!r.has_ok);
    assert_eq!(r.err.as_deref(), Some("bad"));
    let (_, r) = read_channel_reply("{\"ok\":0,\"id\":\"4\",\"inner\":{\"err\":\"x\"}}").unwrap();
    assert!(r.has_ok);
    assert_eq!(r.id, None);
    assert_eq!(r.err, None);
    assert_eq!(r.response, None);
    assert!(read_channel_reply("{\"ok\":").is_none());
}

#[test]
fn scry_query_writes_each_member_as_json_text() {
    let q = scry_query(&j(r#"{"since": 5, "name": "zod", "opts": {"a": [true, null]}}"#)).unwrap();
    let pairs: Vec<(&str, &str)> = q.iter().map(|(k, v)| (k.as_str(), v.as_str())).collect();
    assert_eq!(pairs, vec![("name", "\"zod\""), ("opts", "{\"a\":[true,null]}"), ("since", "5")]);
    assert_eq!(scry_query(&j("{}")).unwrap().len(), 0);
    assert!(scry_query(&j("[1, 2]")).is_none());
    assert!(scry_query(&j("\"text\"")).is_none());
}

#[test]
fn fact_text_writes_the_data_in_debug_form() {
    let data = j(r#"{"k": [1, "x"]}"#);
    let fact = urbit_http_api::event::FactEvent { id: 7, time: 11, data: data.clone() };
    assert_eq!(
        UrbitEvent::Fact(fact).to_string(),
        format!("Fact: FactEvent {{ id: 7, time: 11, data: {:?} }}", data)
    );
}
