//! The state of an Urbit channel client: its settings, the channel id, the
//! counter of message ids, and the pokes and subscriptions awaiting answers.
//! Each operation returns the channel message to send and the events to
//! emit; the transport (HTTP requests, the event stream, timers) drives it.

use vstd::prelude::*;
use std::collections::HashMap;
use std::time::{SystemTime, UNIX_EPOCH};
use serde_json::Value;
use crate::config::{seconds, Config};
use crate::error::{is_success_status, Error};
use crate::event::{
    ChannelStatus, ErrorEvent, FactEvent, ResetEvent, StatusUpdateEvent, SubscriptionEvent,
    UrbitEvent,
};
use crate::json::{
    channel_reply_of, delete_frame, delete_payload, json_value_of, poke_frame, poke_value_payload,
    read_channel_reply, subscribe_frame, subscribe_payload, unsubscribe_frame,
    unsubscribe_payload, value_text, ChannelReply, ChannelReplyView,
};
use crate::sse::{opt_view, SseEvent};
use crate::text::{chars_of, decimal, decimal_chars, push_chars, string_of};
use crate::utils::{hex_string, is_hex_char};

verus! {

broadcast use vstd::std_specs::hash::group_hash_axioms;

/// Handlers for poke responses.
pub struct PokeHandlers<S, F> {
    pub on_success: S,
    pub on_error: F,
}

/// Handlers for subscription events.
pub struct SubscriptionRequest<E, R, Q> {
    pub app: String,
    pub path: String,
    pub resub_on_quit: bool,
    pub event: E,
    pub err: R,
    pub quit: Q,
}

/// Seconds since the Unix epoch on the system clock (`SystemTime::now`), or 0
/// if the clock reads earlier than the epoch; nothing is claimed of the value.
#[verifier::external_body]
fn unix_time_secs() -> u64 {
    match SystemTime::now().duration_since(UNIX_EPOCH) {
        Ok(d) => d.as_secs(),
        Err(_) => 0,
    }
}

/// Milliseconds since the Unix epoch (`chrono::Utc::now().timestamp_millis()`);
/// nothing is claimed of the value.
#[verifier::external_body]
fn unix_time_millis() -> i64 {
    chrono::Utc::now().timestamp_millis()
}

/// A channel id: the time in seconds, a hyphen, and six hexadecimal digits.
pub open spec fn uid_text(secs: u64, hex: Seq<char>) -> Seq<char> {
    decimal(secs as nat) + "-"@ + hex
}

/// Whether `u` has the shape of a channel id.
pub open spec fn is_channel_uid(u: Seq<char>) -> bool {
    exists|secs: u64, hex: Seq<char>|
        #![trigger uid_text(secs, hex)]
        hex.len() == 6 && (forall|i: int| 0 <= i < hex.len() ==> is_hex_char(#[trigger] hex[i]))
            && u == uid_text(secs, hex)
}

/// The channel id made of the time `secs` and the digits `hex`.
pub fn channel_uid(secs: u64, hex: &str) -> (r: String)
    ensures
        r@ == uid_text(secs, hex@),
{
    let mut r = String::new();
    let d = decimal_chars(secs);
    push_chars(&mut r, &d);
    r.append("-");
    r.append(hex);
    r
}

/// Generates a unique channel id from the current time and a random hex string.
pub fn generate_uid() -> (r: String)
    ensures
        is_channel_uid(r@),
{
    let secs = unix_time_secs();
    let hex = hex_string(6);
    let r = channel_uid(secs, hex.as_str());
    assert(hex@.len() == 6 && (forall|i: int| 0 <= i < hex@.len() ==> is_hex_char(#[trigger] hex@[i]))
        && r@ == uid_text(secs, hex@));
    r
}

/// The text of an optional string, empty when there is none.
pub open spec fn text_or_empty(s: Option<String>) -> Seq<char> {
    match s {
        Some(t) => t@,
        None => Seq::empty(),
    }
}

/// The URL of the channel `uid` on the ship at `url`.
pub open spec fn channel_url_of(url: Seq<char>, uid: Seq<char>) -> Seq<char> {
    url + "/~/channel/"@ + uid
}

/// The key under which a channel message answers a poke: its `"id"` (cut to 32
/// bits) when its `"response"` is `"poke"`.
pub open spec fn poke_reply_key(r: ChannelReplyView) -> Option<u32> {
    if r.response == Some("poke"@) && r.id is Some {
        Some(r.id->0 as u32)
    } else {
        None
    }
}

/// What a server-sent event leads to.
pub enum SseOutcome<P> {
    /// The event carries no JSON data.
    Skipped,
    /// A poke was acknowledged; its handlers are handed back.
    PokeSucceeded(P),
    /// A poke was refused with the given error; its handlers are handed back.
    PokeFailed(P, String),
    /// A poke answer with neither `"ok"` nor `"err"`; its handlers are dropped.
    InvalidPokeResponse(Value),
    /// Any other message, to be emitted as a fact.
    Fact(FactEvent),
}

/// How a channel message with the fields `reply` and the value `json`, read at
/// `time`, is routed: an answer to an outstanding poke takes that poke's
/// handlers out of `before` (leaving `after`) and reports success, failure or
/// an invalid answer; any other message becomes a fact with id 0.
pub open spec fn routed<P>(
    before: Map<u32, P>,
    after: Map<u32, P>,
    reply: ChannelReplyView,
    json: Value,
    time: u64,
    o: SseOutcome<P>,
) -> bool {
    match poke_reply_key(reply) {
        Some(k) if before.contains_key(k) => {
            &&& after == before.remove(k)
            &&& if reply.has_ok {
                o == SseOutcome::PokeSucceeded(before[k])
            } else if reply.err is Some {
                o matches SseOutcome::PokeFailed(h, e) && h == before[k] && Some(e@) == reply.err
            } else {
                o == SseOutcome::<P>::InvalidPokeResponse(json)
            }
        },
        _ => {
            &&& after == before
            &&& o matches SseOutcome::Fact(f) && f.id == 0 && f.time == time && f.data == json
        },
    }
}

/// What a channel operation hands back: the message id it used, the events to
/// emit, and the channel message to send.
pub struct ChannelRequest {
    pub id: u32,
    pub events: Vec<UrbitEvent>,
    pub payload: String,
}

/// The main Urbit client state.
pub struct Urbit<P, E, R, Q> {
    /// Base URL of the ship (e.g. "http://localhost:8080")
    pub url: String,
    /// Optional access code
    pub code: Option<String>,
    /// Optional desk (used for thread calls)
    pub desk: Option<String>,
    /// Optional verbose flag
    pub verbose: bool,
    /// Cookie for non-browser contexts
    pub cookie: Option<String>,
    /// The ship name (set after authentication)
    pub ship: Option<String>,
    /// Our identity (set after authentication)
    pub our: Option<String>,
    /// Configuration
    config: Config,
    /// Outstanding poke callbacks (keyed by message id)
    outstanding_pokes: HashMap<u32, P>,
    /// Outstanding subscription callbacks (keyed by message id)
    outstanding_subscriptions: HashMap<u32, SubscriptionRequest<E, R, Q>>,
    /// The id of the last message sent
    last_event_id: u32,
    /// The channel id
    uid: String,
    /// Count of consecutive errors (for reconnection backoff)
    error_count: u32,
}

impl<P, E, R, Q> Urbit<P, E, R, Q> {
    /// Every outstanding poke and subscription is keyed by a message id
    /// already taken.
    #[verifier::type_invariant]
    closed spec fn ids_taken(self) -> bool {
        &&& forall|k: u32| #[trigger] self.outstanding_pokes@.contains_key(k) ==> k <= self.last_event_id
        &&& forall|k: u32|
            #[trigger] self.outstanding_subscriptions@.contains_key(k) ==> k <= self.last_event_id
    }

    pub closed spec fn url_view(&self) -> Seq<char> {
        self.url@
    }

    pub closed spec fn code_view(&self) -> Option<String> {
        self.code
    }

    pub closed spec fn desk_view(&self) -> Option<String> {
        self.desk
    }

    pub closed spec fn verbose_view(&self) -> bool {
        self.verbose
    }

    pub closed spec fn cookie_view(&self) -> Option<String> {
        self.cookie
    }

    pub closed spec fn ship_view(&self) -> Option<String> {
        self.ship
    }

    pub closed spec fn our_view(&self) -> Option<String> {
        self.our
    }

    pub closed spec fn pokes(&self) -> Map<u32, P> {
        self.outstanding_pokes@
    }

    pub closed spec fn subscriptions(&self) -> Map<u32, SubscriptionRequest<E, R, Q>> {
        self.outstanding_subscriptions@
    }

    pub closed spec fn last_id(&self) -> u32 {
        self.last_event_id
    }

    pub closed spec fn uid_view(&self) -> Seq<char> {
        self.uid@
    }

    pub closed spec fn config_view(&self) -> Config {
        self.config
    }

    pub closed spec fn errors(&self) -> u32 {
        self.error_count
    }

    /// `a` and `b` agree on everything but the pokes, subscriptions and message ids.
    pub open spec fn same_settings(a: &Self, b: &Self) -> bool {
        &&& a.url_view() == b.url_view()
        &&& a.code_view() == b.code_view()
        &&& a.desk_view() == b.desk_view()
        &&& a.verbose_view() == b.verbose_view()
        &&& a.cookie_view() == b.cookie_view()
        &&& a.ship_view() == b.ship_view()
        &&& a.our_view() == b.our_view()
        &&& a.config_view() == b.config_view()
        &&& a.errors() == b.errors()
    }

    /// `a` and `b` agree on everything but the ship's and our names.
    pub open spec fn same_but_names(a: &Self, b: &Self) -> bool {
        &&& a.url_view() == b.url_view()
        &&& a.code_view() == b.code_view()
        &&& a.desk_view() == b.desk_view()
        &&& a.verbose_view() == b.verbose_view()
        &&& a.cookie_view() == b.cookie_view()
        &&& a.config_view() == b.config_view()
        &&& a.errors() == b.errors()
        &&& a.uid_view() == b.uid_view()
        &&& a.last_id() == b.last_id()
        &&& a.pokes() == b.pokes()
        &&& a.subscriptions() == b.subscriptions()
    }

    /// `a` and `b` agree on everything but the pokes, subscriptions and
    /// message ids, and have the same channel id.
    pub open spec fn same_channel(a: &Self, b: &Self) -> bool {
        &&& Self::same_settings(a, b)
        &&& a.uid_view() == b.uid_view()
    }

    /// Creates a new client state with default configuration.
    pub fn new(url: &str, code: Option<String>) -> (r: Self)
        ensures
            r.url_view() == url@,
            r.code_view() == code,
            r.desk_view() is None && r.cookie_view() is None && r.ship_view() is None && r.our_view() is None,
            !r.verbose_view(),
            r.config_view().reconnect_interval == seconds(5),
            r.config_view().timeout is None,
            !r.config_view().debug,
            r.pokes() == Map::<u32, P>::empty(),
            r.subscriptions() == Map::<u32, SubscriptionRequest<E, R, Q>>::empty(),
            r.last_id() == 0,
            r.errors() == 0,
            is_channel_uid(r.uid_view()),
    {
        Self::with_config(url, code, Config::default())
    }

    /// Creates a new client state with custom configuration.
    pub fn with_config(url: &str, code: Option<String>, config: Config) -> (r: Self)
        ensures
            r.url_view() == url@,
            r.code_view() == code,
            r.desk_view() is None && r.cookie_view() is None && r.ship_view() is None && r.our_view() is None,
            !r.verbose_view(),
            r.config_view() == config,
            r.pokes() == Map::<u32, P>::empty(),
            r.subscriptions() == Map::<u32, SubscriptionRequest<E, R, Q>>::empty(),
            r.last_id() == 0,
            r.errors() == 0,
            is_channel_uid(r.uid_view()),
    {
        Urbit {
            url: String::from_str(url),
            code,
            desk: None,
            verbose: false,
            cookie: None,
            ship: None,
            our: None,
            config,
            outstanding_pokes: HashMap::new(),
            outstanding_subscriptions: HashMap::new(),
            last_event_id: 0,
            uid: generate_uid(),
            error_count: 0,
        }
    }

    /// The configuration.
    pub fn config(&self) -> (r: &Config)
        ensures
            *r == self.config_view(),
    {
        &self.config
    }

    /// The id of the last message sent on the channel.
    pub fn last_event_id(&self) -> (r: u32)
        ensures
            r == self.last_id(),
    {
        self.last_event_id
    }

    /// The channel id.
    pub fn uid(&self) -> (r: &String)
        ensures
            r@ == self.uid_view(),
    {
        &self.uid
    }

    /// Whether a poke with message id `id` awaits its answer.
    pub fn has_poke(&self, id: u32) -> (r: bool)
        ensures
            r == self.pokes().contains_key(id),
    {
        self.outstanding_pokes.contains_key(&id)
    }

    /// Whether the subscription `id` is open.
    pub fn has_subscription(&self, id: u32) -> (r: bool)
        ensures
            r == self.subscriptions().contains_key(id),
    {
        self.outstanding_subscriptions.contains_key(&id)
    }

    /// The channel URL.
    pub fn channel_url(&self) -> (r: String)
        ensures
            r@ == channel_url_of(self.url_view(), self.uid_view()),
    {
        let mut r = self.url.clone();
        r.append("/~/channel/");
        r.append(self.uid.as_str());
        r
    }

    /// Increments and returns a new event id.
    fn get_event_id(&mut self) -> (id: u32)
        requires
            old(self).last_id() < u32::MAX,
        ensures
            id == old(self).last_id() + 1,
            final(self).last_id() == id,
            Self::same_channel(&*old(self), &*final(self)),
            final(self).pokes() == old(self).pokes(),
            final(self).subscriptions() == old(self).subscriptions(),
    {
        proof {
            use_type_invariant(&*self);
        }
        self.last_event_id = self.last_event_id + 1;
        self.last_event_id
    }

    /// Takes a message id for a poke of `app` with `mark` and `json`, records
    /// its handlers under that id, and returns the id with the channel message
    /// to send.
    pub fn poke(&mut self, app: &str, mark: &str, json: &Value, handlers: P) -> (r: (
        u32,
        Result<String, Error>,
    ))
        requires
            old(self).last_id() < u32::MAX,
        ensures
            r.0 == old(self).last_id() + 1,
            final(self).last_id() == r.0,
            Self::same_channel(&*old(self), &*final(self)),
            !old(self).pokes().contains_key(r.0),
            final(self).pokes() == old(self).pokes().insert(r.0, handlers),
            final(self).subscriptions() == old(self).subscriptions(),
            r.1 is Ok,
            r.1 matches Ok(t) ==> t@ == poke_frame(
                r.0,
                text_or_empty(old(self).ship_view()),
                app@,
                mark@,
                value_text(*json),
            ),
    {
        proof {
            use_type_invariant(&*self);
        }
        let id = self.get_event_id();
        proof {
            reveal_strlit("");
        }
        assert(""@ =~= Seq::<char>::empty());
        let payload = match &self.ship {
            Some(s) => poke_value_payload(id, s.as_str(), app, mark, json),
            None => poke_value_payload(id, "", app, mark, json),
        };
        proof {
            use_type_invariant(&*self);
        }
        let mut pokes: HashMap<u32, P> = HashMap::new();
        std::mem::swap(&mut pokes, &mut self.outstanding_pokes);
        pokes.insert(id, handlers);
        self.outstanding_pokes = pokes;
        match payload {
            Ok(t) => (id, Ok(t)),
            Err(e) => (id, Err(Error::SerdeJson(e))),
        }
    }

    /// Takes out the handlers of the poke `id`, whose message could not be sent.
    pub fn remove_poke(&mut self, id: u32) -> (r: Option<P>)
        ensures
            Self::same_channel(&*old(self), &*final(self)),
            final(self).last_id() == old(self).last_id(),
            final(self).pokes() == old(self).pokes().remove(id),
            final(self).subscriptions() == old(self).subscriptions(),
            match r {
                Some(h) => old(self).pokes().contains_key(id) && h == old(self).pokes()[id],
                None => !old(self).pokes().contains_key(id),
            },
    {
        proof {
            use_type_invariant(&*self);
        }
        let mut pokes: HashMap<u32, P> = HashMap::new();
        std::mem::swap(&mut pokes, &mut self.outstanding_pokes);
        let r = pokes.remove(&id);
        self.outstanding_pokes = pokes;
        r
    }

    /// Takes a message id for a subscription to `path` of `app`, records the
    /// subscription under it, and returns the id, the events to emit (the
    /// channel opening, when this is the first message, and the subscription
    /// being opened) and the channel message to send.
    pub fn subscribe(
        &mut self,
        app: &str,
        path: &str,
        resub_on_quit: bool,
        event_cb: E,
        err_cb: R,
        quit_cb: Q,
    ) -> (r: ChannelRequest)
        requires
            old(self).last_id() < u32::MAX,
        ensures
            r.id == old(self).last_id() + 1,
            final(self).last_id() == r.id,
            Self::same_channel(&*old(self), &*final(self)),
            final(self).pokes() == old(self).pokes(),
            !old(self).subscriptions().contains_key(r.id),
            final(self).subscriptions() == old(self).subscriptions().insert(
                r.id,
                final(self).subscriptions()[r.id],
            ),
            ({
                let s = final(self).subscriptions()[r.id];
                &&& s.app@ == app@
                &&& s.path@ == path@
                &&& s.resub_on_quit == resub_on_quit
                &&& s.event == event_cb
                &&& s.err == err_cb
                &&& s.quit == quit_cb
            }),
            r.events@.len() == (if old(self).last_id() == 0 { 2int } else { 1int }),
            old(self).last_id() == 0 ==> r.events@[0] == UrbitEvent::StatusUpdate(
                StatusUpdateEvent { status: ChannelStatus::Opening },
            ),
            r.events@.last() matches UrbitEvent::Subscription(e) && e.id == r.id && opt_view(e.app)
                == Some(app@) && opt_view(e.path) == Some(path@) && e.status@ == "open"@,
            r.payload@ == subscribe_frame(r.id, text_or_empty(old(self).ship_view()), app@, path@),
    {
        proof {
            use_type_invariant(&*self);
        }
        let mut events: Vec<UrbitEvent> = Vec::new();
        if self.last_event_id == 0 {
            events.push(
                UrbitEvent::StatusUpdate(StatusUpdateEvent { status: ChannelStatus::Opening }),
            );
        }
        let id = self.get_event_id();
        proof {
            reveal_strlit("");
        }
        assert(""@ =~= Seq::<char>::empty());
        let payload = match &self.ship {
            Some(s) => subscribe_payload(id, s.as_str(), app, path),
            None => subscribe_payload(id, "", app, path),
        };
        let request = SubscriptionRequest {
            app: String::from_str(app),
            path: String::from_str(path),
            resub_on_quit,
            event: event_cb,
            err: err_cb,
            quit: quit_cb,
        };
        proof {
            use_type_invariant(&*self);
        }
        let mut subs: HashMap<u32, SubscriptionRequest<E, R, Q>> = HashMap::new();
        std::mem::swap(&mut subs, &mut self.outstanding_subscriptions);
        subs.insert(id, request);
        self.outstanding_subscriptions = subs;
        events.push(
            UrbitEvent::Subscription(
                SubscriptionEvent {
                    id,
                    app: Some(String::from_str(app)),
                    path: Some(String::from_str(path)),
                    status: String::from_str("open"),
                },
            ),
        );
        ChannelRequest { id, events, payload }
    }

    /// Takes a message id for ending the subscription `subscription`, and
    /// returns it with the channel message to send.
    pub fn unsubscribe(&mut self, subscription: u32) -> (r: (u32, String))
        requires
            old(self).last_id() < u32::MAX,
        ensures
            r.0 == old(self).last_id() + 1,
            final(self).last_id() == r.0,
            Self::same_channel(&*old(self), &*final(self)),
            final(self).pokes() == old(self).pokes(),
            final(self).subscriptions() == old(self).subscriptions(),
            r.1@ == unsubscribe_frame(r.0, subscription),
    {
        proof {
            use_type_invariant(&*self);
        }
        let id = self.get_event_id();
        (id, unsubscribe_payload(id, subscription))
    }

    /// Forgets the subscription `subscription` once its end was sent, and
    /// returns the event that reports it closed.
    pub fn unsubscribed(&mut self, subscription: u32) -> (r: UrbitEvent)
        ensures
            Self::same_channel(&*old(self), &*final(self)),
            final(self).last_id() == old(self).last_id(),
            final(self).pokes() == old(self).pokes(),
            final(self).subscriptions() == old(self).subscriptions().remove(subscription),
            r matches UrbitEvent::Subscription(e) && e.id == subscription && e.app is None
                && e.path is None && e.status@ == "close"@,
    {
        proof {
            use_type_invariant(&*self);
        }
        let mut subs: HashMap<u32, SubscriptionRequest<E, R, Q>> = HashMap::new();
        std::mem::swap(&mut subs, &mut self.outstanding_subscriptions);
        subs.remove(&subscription);
        self.outstanding_subscriptions = subs;
        UrbitEvent::Subscription(
            SubscriptionEvent { id: subscription, app: None, path: None, status: String::from_str("close") },
        )
    }

    /// Takes a message id for deleting the channel, and returns it with the
    /// channel message to send.
    pub fn delete(&mut self) -> (r: (u32, String))
        requires
            old(self).last_id() < u32::MAX,
        ensures
            r.0 == old(self).last_id() + 1,
            final(self).last_id() == r.0,
            Self::same_channel(&*old(self), &*final(self)),
            final(self).pokes() == old(self).pokes(),
            final(self).subscriptions() == old(self).subscriptions(),
            r.1@ == delete_frame(r.0),
    {
        proof {
            use_type_invariant(&*self);
        }
        let id = self.get_event_id();
        (id, delete_payload(id))
    }

    /// Resets the channel: message ids start again, the outstanding pokes and
    /// subscriptions are dropped, a new channel id is drawn, and the event that
    /// reports it is returned.
    pub fn reset(&mut self) -> (r: UrbitEvent)
        ensures
            Self::same_settings(&*old(self), &*final(self)),
            final(self).last_id() == 0,
            final(self).pokes() == Map::<u32, P>::empty(),
            final(self).subscriptions() == Map::<u32, SubscriptionRequest<E, R, Q>>::empty(),
            is_channel_uid(final(self).uid_view()),
            r matches UrbitEvent::Reset(e) && e.uid@ == final(self).uid_view(),
    {
        proof {
            use_type_invariant(&*self);
        }
        self.outstanding_subscriptions = HashMap::new();
        self.outstanding_pokes = HashMap::new();
        self.last_event_id = 0;
        self.uid = generate_uid();
        UrbitEvent::Reset(ResetEvent { uid: self.uid.clone() })
    }

    /// Draws a new channel id, as on reconnection.
    pub fn regenerate_uid(&mut self)
        ensures
            Self::same_settings(&*old(self), &*final(self)),
            final(self).last_id() == old(self).last_id(),
            final(self).pokes() == old(self).pokes(),
            final(self).subscriptions() == old(self).subscriptions(),
            is_channel_uid(final(self).uid_view()),
    {
        proof {
            use_type_invariant(&*self);
        }
        self.uid = generate_uid();
    }

    /// Routes a channel message with the fields `reply` and the value `json`,
    /// read at `time`: an answer to an outstanding poke hands back that poke's
    /// handlers, anything else becomes a fact.
    pub fn route_channel_reply(&mut self, reply: &ChannelReply, json: Value, time: u64) -> (o:
        SseOutcome<P>)
        ensures
            Self::same_channel(&*old(self), &*final(self)),
            final(self).last_id() == old(self).last_id(),
            final(self).subscriptions() == old(self).subscriptions(),
            routed(old(self).pokes(), final(self).pokes(), reply@, json, time, o),
    {
        proof {
            use_type_invariant(&*self);
        }
        let poke_text = String::from_str("poke");
        proof {
            reveal_strlit("poke");
        }
        let is_poke = match &reply.response {
            Some(t) => *t == poke_text,
            None => false,
        };
        if is_poke {
            match reply.id {
                Some(id_val) => {
                    let key = #[verifier::truncate] (id_val as u32);
                    assert(poke_reply_key(reply@) == Some(key));
                    let mut pokes: HashMap<u32, P> = HashMap::new();
                    std::mem::swap(&mut pokes, &mut self.outstanding_pokes);
                    let removed = pokes.remove(&key);
                    self.outstanding_pokes = pokes;
                    match removed {
                        Some(handlers) => {
                            if reply.has_ok {
                                return SseOutcome::PokeSucceeded(handlers);
                            } else {
                                match &reply.err {
                                    Some(err) => {
                                        return SseOutcome::PokeFailed(handlers, err.clone());
                                    },
                                    None => {
                                        return SseOutcome::InvalidPokeResponse(json);
                                    },
                                }
                            }
                        },
                        None => {
                            assert(old(self).pokes().remove(key) =~= old(self).pokes());
                        },
                    }
                },
                None => {},
            }
        }
        SseOutcome::Fact(FactEvent { id: 0, time, data: json })
    }

    /// Handles one server-sent event: its data, if it is JSON, is routed as
    /// `route_channel_reply` does, with the current time.
    pub fn handle_sse_event(&mut self, event: &SseEvent) -> (o: SseOutcome<P>)
        ensures
            Self::same_channel(&*old(self), &*final(self)),
            final(self).last_id() == old(self).last_id(),
            final(self).subscriptions() == old(self).subscriptions(),
            match opt_view(event.data) {
                Some(d) => match channel_reply_of(d) {
                    Some(reply) => exists|time: u64|
                        routed(
                            old(self).pokes(),
                            final(self).pokes(),
                            reply,
                            json_value_of(d).unwrap(),
                            time,
                            o,
                        ),
                    None => o is Skipped && final(self).pokes() == old(self).pokes(),
                },
                None => o is Skipped && final(self).pokes() == old(self).pokes(),
            },
    {
        proof {
            use_type_invariant(&*self);
        }
        match &event.data {
            Some(d) => match read_channel_reply(d.as_str()) {
                Some((json, reply)) => {
                    let ghost before = self.pokes();
                    let time = unix_time_millis() as u64;
                    let o = self.route_channel_reply(&reply, json, time);
                    assert(routed(before, self.pokes(), reply@, json_value_of(d@).unwrap(), time, o));
                    o
                },
                None => SseOutcome::Skipped,
            },
            None => SseOutcome::Skipped,
        }
    }
    /// The URL of the ship's login form.
    pub fn login_url(&self) -> (r: String)
        ensures
            r@ == self.url_view() + "/~/login"@,
    {
        let mut r = self.url.clone();
        r.append("/~/login");
        r
    }

    /// The body of the login request: the access code, or nothing.
    pub fn login_body(&self) -> (r: String)
        ensures
            r@ == "password="@ + text_or_empty(self.code_view()),
    {
        proof {
            reveal_strlit("");
        }
        let mut r = String::from_str("password=");
        match &self.code {
            Some(c) => r.append(c.as_str()),
            None => {},
        }
        r
    }

    /// The URL that answers with the ship's name.
    pub fn host_url(&self) -> (r: String)
        ensures
            r@ == self.url_view() + "/~/host"@,
    {
        let mut r = self.url.clone();
        r.append("/~/host");
        r
    }

    /// The URL that answers with our name.
    pub fn name_url(&self) -> (r: String)
        ensures
            r@ == self.url_view() + "/~/name"@,
    {
        let mut r = self.url.clone();
        r.append("/~/name");
        r
    }

    /// Records the ship's name from the answer `text` of the host URL: the
    /// text without its first character (the `~`).
    pub fn record_ship_name(&mut self, text: &str)
        requires
            text@.len() > 0,
            (text@[0] as u32) < 128,
        ensures
            Self::same_but_names(&*old(self), &*final(self)),
            final(self).our_view() == old(self).our_view(),
            opt_view(final(self).ship_view()) == Some(text@.drop_first()),
    {
        proof {
            use_type_invariant(&*self);
        }
        let v = chars_of(text);
        let n = v.len();
        let name = string_of(vstd::slice::slice_subrange(&v, 1, n));
        assert(v@.subrange(1, n as int) =~= text@.drop_first());
        self.ship = Some(name);
    }

    /// Records our name from the answer `text` of the name URL: the text
    /// without its first character (the `~`).
    pub fn record_our_name(&mut self, text: &str)
        requires
            text@.len() > 0,
            (text@[0] as u32) < 128,
        ensures
            Self::same_but_names(&*old(self), &*final(self)),
            final(self).ship_view() == old(self).ship_view(),
            opt_view(final(self).our_view()) == Some(text@.drop_first()),
    {
        proof {
            use_type_invariant(&*self);
        }
        let v = chars_of(text);
        let n = v.len();
        let name = string_of(vstd::slice::slice_subrange(&v, 1, n));
        assert(v@.subrange(1, n as int) =~= text@.drop_first());
        self.our = Some(name);
    }

    /// The URL of a scry of `path` in `app`.
    pub fn scry_url(&self, app: &str, path: &str) -> (r: String)
        ensures
            r@ == self.url_view() + "/~/scry/"@ + app@ + path@ + ".json"@,
    {
        let mut r = self.url.clone();
        r.append("/~/scry/");
        r.append(app);
        r.append(path);
        r.append(".json");
        r
    }

    /// The URL that runs the thread `thread_name` from the desk, or the error
    /// that no desk is set.
    pub fn thread_url(&self, input_mark: &str, output_mark: &str, thread_name: &str) -> (r: Result<
        String,
        Error,
    >)
        ensures
            match self.desk_view() {
                Some(d) => r matches Ok(u) && u@ == self.url_view() + "/spider/"@ + d@ + "/"@
                    + input_mark@ + "/"@ + thread_name@ + "/"@ + output_mark@ + ".json"@,
                None => r matches Err(Error::Message(m)) && m@ == "Must supply desk to run thread from"@,
            },
    {
        match &self.desk {
            Some(d) => {
                let mut r = self.url.clone();
                r.append("/spider/");
                r.append(d.as_str());
                r.append("/");
                r.append(input_mark);
                r.append("/");
                r.append(thread_name);
                r.append("/");
                r.append(output_mark);
                r.append(".json");
                Ok(r)
            },
            None => Err(Error::Message(String::from_str("Must supply desk to run thread from"))),
        }
    }
}

/// The URL of `ship` on the Arvo network.
pub fn arvo_network_url(ship: &str) -> (r: String)
    ensures
        r@ == "https://"@ + ship@ + ".arvo.network"@,
{
    let mut r = String::from_str("https://");
    r.append(ship);
    r.append(".arvo.network");
    r
}

/// The event that the status `code` of the event stream's response leads to:
/// the channel is active on success, and disconnected otherwise.
pub fn stream_status_event(code: u16) -> (r: UrbitEvent)
    ensures
        is_success_status(code) ==> r == UrbitEvent::StatusUpdate(
            StatusUpdateEvent { status: ChannelStatus::Active },
        ),
        !is_success_status(code) ==> r is Disconnected,
{
    if 200 <= code && code <= 299 {
        UrbitEvent::StatusUpdate(StatusUpdateEvent { status: ChannelStatus::Active })
    } else {
        UrbitEvent::Disconnected
    }
}

/// The event that reports the error `msg`, stamped with the current time.
pub fn error_event(msg: String) -> (r: UrbitEvent)
    ensures
        r matches UrbitEvent::Error(e) && e.msg == msg,
{
    let time = unix_time_millis() as u64;
    UrbitEvent::Error(ErrorEvent { time, msg })
}

/// An answer to an outstanding poke hands back the handlers registered for it,
/// and only once: for a poke `k` registered with handlers `h`, an answer
/// `{"response":"poke","id":k}` reports success with `h` when it has `"ok"`,
/// failure with `h` and the error text when it has `"err"`, and removes `k`;
/// the same answer routed again becomes a fact.
pub proof fn law_poke_answer_delivers_handlers_once<P>(
    pokes: Map<u32, P>,
    k: u32,
    h: P,
    reply: ChannelReplyView,
    json: Value,
    time: u64,
    after: Map<u32, P>,
    o: SseOutcome<P>,
    after2: Map<u32, P>,
    o2: SseOutcome<P>,
)
    requires
        reply.response == Some("poke"@),
        reply.id == Some(k as u64),
        routed(pokes.insert(k, h), after, reply, json, time, o),
        routed(after, after2, reply, json, time, o2),
    ensures
        after == pokes.insert(k, h).remove(k),
        reply.has_ok ==> o == SseOutcome::PokeSucceeded(h),
        !reply.has_ok && reply.err is Some ==> (o matches SseOutcome::PokeFailed(g, e) && g == h
            && Some(e@) == reply.err),
        after2 == after,
        o2 matches SseOutcome::Fact(f) && f.id == 0 && f.data == json,
{
    assert((k as u64) as u32 == k) by (bit_vector);
    assert(poke_reply_key(reply) == Some(k));
    assert(pokes.insert(k, h).contains_key(k));
    assert(!after.contains_key(k));
}

/// A message that answers no outstanding poke is handed on as a fact and
/// leaves the outstanding pokes as they are.
pub proof fn law_other_messages_become_facts<P>(
    pokes: Map<u32, P>,
    reply: ChannelReplyView,
    json: Value,
    time: u64,
    after: Map<u32, P>,
    o: SseOutcome<P>,
)
    requires
        !(poke_reply_key(reply) matches Some(k) && pokes.contains_key(k)),
        routed(pokes, after, reply, json, time, o),
    ensures
        after == pokes,
        o matches SseOutcome::Fact(f) && f.id == 0 && f.time == time && f.data == json,
{
}

/// Ending a subscription undoes opening it: a subscription opened under a
/// fresh id and then closed leaves the subscriptions as they were before.
pub proof fn law_unsubscribed_undoes_subscribe<P, E, R, Q>(
    before: Urbit<P, E, R, Q>,
    opened: Urbit<P, E, R, Q>,
    closed: Urbit<P, E, R, Q>,
    id: u32,
)
    requires
        !before.subscriptions().contains_key(id),
        opened.subscriptions() == before.subscriptions().insert(id, opened.subscriptions()[id]),
        closed.subscriptions() == opened.subscriptions().remove(id),
    ensures
        closed.subscriptions() == before.subscriptions(),
{
    assert(closed.subscriptions() =~= before.subscriptions());
}

} // verus!
