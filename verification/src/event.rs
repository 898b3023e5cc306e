//! Event definitions for the Urbit HTTP API client.

use vstd::prelude::*;
use serde_json::Value;
use crate::sse::opt_view;
use crate::text::{decimal, decimal_chars, push_chars};

verus! {

#[derive(Clone, Copy, Debug, PartialEq, Eq, Structural)]
pub enum ChannelStatus {
    Initial,
    Opening,
    Active,
    Reconnecting,
    Reconnected,
    Errored,
}

#[derive(Clone, Copy, Debug, PartialEq, Eq, Structural)]
pub struct StatusUpdateEvent {
    pub status: ChannelStatus,
}

#[derive(Clone, Debug)]
pub struct FactEvent {
    pub id: u32,
    pub time: u64,
    pub data: Value,
}

#[derive(Clone, Debug)]
pub struct SubscriptionEvent {
    pub id: u32,
    pub app: Option<String>,
    pub path: Option<String>,
    /// `"open"` or `"close"`.
    pub status: String,
}

#[derive(Clone, Debug)]
pub struct ErrorEvent {
    pub time: u64,
    pub msg: String,
}

#[derive(Clone, Debug)]
pub struct ResetEvent {
    pub uid: String,
}

/// Top-level event enum.
#[derive(Clone, Debug)]
pub enum UrbitEvent {
    Connected,
    Disconnected,
    Reconnected,
    StatusUpdate(StatusUpdateEvent),
    Fact(FactEvent),
    Subscription(SubscriptionEvent),
    Error(ErrorEvent),
    Reset(ResetEvent),
}

/// How `format!("{:?}", s)` writes the string `s` (quoted, with escapes).
pub uninterp spec fn debug_text(s: Seq<char>) -> Seq<char>;

/// `Debug` of `str`: claims the text that `debug_text` names for `s`.
#[verifier::external_body]
fn debug_str(s: &str) -> (r: String)
    ensures
        r@ == debug_text(s@),
{
    format!("{:?}", s)
}

/// How `format!("{:?}", v)` writes the JSON value `v` (`serde_json`'s own format).
pub uninterp spec fn value_debug_text(v: Value) -> Seq<char>;

/// `Debug` of a JSON value: claims the text that `value_debug_text` names for `v`.
#[verifier::external_body]
fn debug_value(v: &Value) -> (r: String)
    ensures
        r@ == value_debug_text(*v),
{
    format!("{:?}", v)
}

/// The name of a channel status.
pub open spec fn status_name(s: ChannelStatus) -> Seq<char> {
    match s {
        ChannelStatus::Initial => "Initial"@,
        ChannelStatus::Opening => "Opening"@,
        ChannelStatus::Active => "Active"@,
        ChannelStatus::Reconnecting => "Reconnecting"@,
        ChannelStatus::Reconnected => "Reconnected"@,
        ChannelStatus::Errored => "Errored"@,
    }
}

/// How an optional string is written in debug form.
pub open spec fn opt_debug_text(s: Option<Seq<char>>) -> Seq<char> {
    match s {
        Some(t) => "Some("@ + debug_text(t) + ")"@,
        None => "None"@,
    }
}

fn push_u64(s: &mut String, n: u64)
    ensures
        final(s)@ == old(s)@ + decimal(n as nat),
{
    let d = decimal_chars(n);
    push_chars(s, &d);
}

fn push_opt_debug(s: &mut String, o: &Option<String>)
    ensures
        final(s)@ == old(s)@ + opt_debug_text(opt_view(*o)),
{
    match o {
        Some(t) => {
            s.append("Some(");
            s.append(debug_str(t.as_str()).as_str());
            s.append(")");
        },
        None => s.append("None"),
    }
}

impl UrbitEvent {
    /// The event as text: its name, and for the events that carry one, the
    /// record in debug form.
    pub fn to_string(&self) -> (r: String)
        ensures
            match self {
                UrbitEvent::Connected => r@ == "Connected"@,
                UrbitEvent::Disconnected => r@ == "Disconnected"@,
                UrbitEvent::Reconnected => r@ == "Reconnected"@,
                UrbitEvent::StatusUpdate(e) => r@ == "StatusUpdate: StatusUpdateEvent { status: "@
                    + status_name(e.status) + " }"@,
                UrbitEvent::Fact(e) => r@ == fact_text(e.id, e.time, value_debug_text(e.data)),
                UrbitEvent::Subscription(e) => r@ == "Subscription: SubscriptionEvent { id: "@
                    + decimal(e.id as nat) + ", app: "@ + opt_debug_text(opt_view(e.app))
                    + ", path: "@ + opt_debug_text(opt_view(e.path)) + ", status: "@ + debug_text(
                    e.status@,
                ) + " }"@,
                UrbitEvent::Error(e) => r@ == "Error: ErrorEvent { time: "@ + decimal(e.time as nat)
                    + ", msg: "@ + debug_text(e.msg@) + " }"@,
                UrbitEvent::Reset(e) => r@ == "Reset: ResetEvent { uid: "@ + debug_text(e.uid@)
                    + " }"@,
            },
    {
        match self {
            UrbitEvent::Connected => String::from_str("Connected"),
            UrbitEvent::Disconnected => String::from_str("Disconnected"),
            UrbitEvent::Reconnected => String::from_str("Reconnected"),
            UrbitEvent::StatusUpdate(e) => {
                let mut s = String::from_str("StatusUpdate: StatusUpdateEvent { status: ");
                let name = match e.status {
                    ChannelStatus::Initial => "Initial",
                    ChannelStatus::Opening => "Opening",
                    ChannelStatus::Active => "Active",
                    ChannelStatus::Reconnecting => "Reconnecting",
                    ChannelStatus::Reconnected => "Reconnected",
                    ChannelStatus::Errored => "Errored",
                };
                s.append(name);
                s.append(" }");
                s
            },
            UrbitEvent::Fact(e) => {
                let mut s = String::from_str("Fact: FactEvent { id: ");
                push_u64(&mut s, e.id as u64);
                s.append(", time: ");
                push_u64(&mut s, e.time);
                s.append(", data: ");
                let d = debug_value(&e.data);
                s.append(d.as_str());
                s.append(" }");
                assert(fact_text(e.id, e.time, d@) == s@);
                s
            },
            UrbitEvent::Subscription(e) => {
                let mut s = String::from_str("Subscription: SubscriptionEvent { id: ");
                push_u64(&mut s, e.id as u64);
                s.append(", app: ");
                push_opt_debug(&mut s, &e.app);
                s.append(", path: ");
                push_opt_debug(&mut s, &e.path);
                s.append(", status: ");
                s.append(debug_str(e.status.as_str()).as_str());
                s.append(" }");
                s
            },
            UrbitEvent::Error(e) => {
                let mut s = String::from_str("Error: ErrorEvent { time: ");
                push_u64(&mut s, e.time);
                s.append(", msg: ");
                s.append(debug_str(e.msg.as_str()).as_str());
                s.append(" }");
                s
            },
            UrbitEvent::Reset(e) => {
                let mut s = String::from_str("Reset: ResetEvent { uid: ");
                s.append(debug_str(e.uid.as_str()).as_str());
                s.append(" }");
                s
            },
        }
    }
}

/// The text of a fact with the id `id`, the time `time` and the data written as `data`.
pub open spec fn fact_text(id: u32, time: u64, data: Seq<char>) -> Seq<char> {
    "Fact: FactEvent { id: "@ + decimal(id as nat) + ", time: "@ + decimal(time as nat)
        + ", data: "@ + data + " }"@
}

/// Each channel status is written as the name of its variant.
pub proof fn law_status_names()
    ensures
        status_name(ChannelStatus::Initial) == "Initial"@,
        status_name(ChannelStatus::Opening) == "Opening"@,
        status_name(ChannelStatus::Active) == "Active"@,
        status_name(ChannelStatus::Reconnecting) == "Reconnecting"@,
        status_name(ChannelStatus::Reconnected) == "Reconnected"@,
        status_name(ChannelStatus::Errored) == "Errored"@,
{
}

/// Different channel statuses give different status-update text: when the
/// text that `to_string` writes for the status `a` equals the one for `b`,
/// `a == b`.
pub proof fn law_status_update_text_is_injective(a: ChannelStatus, b: ChannelStatus)
    requires
        "StatusUpdate: StatusUpdateEvent { status: "@ + status_name(a) + " }"@
            == "StatusUpdate: StatusUpdateEvent { status: "@ + status_name(b) + " }"@,
    ensures
        a == b,
{
    reveal_strlit("Initial");
    reveal_strlit("Opening");
    reveal_strlit("Active");
    reveal_strlit("Reconnecting");
    reveal_strlit("Reconnected");
    reveal_strlit("Errored");
    let pre = "StatusUpdate: StatusUpdateEvent { status: "@;
    let post = " }"@;
    let ta = pre + status_name(a) + post;
    let tb = pre + status_name(b) + post;
    let na = status_name(a);
    let nb = status_name(b);
    assert(na.len() == nb.len()) by {
        assert(ta.len() == pre.len() + na.len() + post.len());
        assert(tb.len() == pre.len() + nb.len() + post.len());
    }
    assert(na =~= nb) by {
        assert forall|i: int| 0 <= i < na.len() implies na[i] == nb[i] by {
            assert(ta[pre.len() + i] == na[i]);
            assert(tb[pre.len() + i] == nb[i]);
        }
    }
    assert(na[0] == nb[0]);
}

} // verus!
