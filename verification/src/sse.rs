//! Server-sent events: the lines of one event are gathered until a blank
//! line, the `id:`, `event:`, `data:` and `retry:` fields are read from them,
//! and the `data:` lines are joined into one payload.

use vstd::prelude::*;
use vstd::slice::slice_subrange;
use crate::text::{
    chars_of, has_prefix, parse_u64, parse_u64_spec, push_chars, push_char, starts_with,
    string_of, trim, trimmed,
};

verus! {

/// One complete server-sent event.
#[derive(Debug)]
pub struct SseEvent {
    pub id: Option<String>,
    pub event: Option<String>,
    pub data: Option<String>,
    pub retry: Option<u64>,
}

/// The fields of a server-sent event, as text.
pub struct SseEventView {
    pub id: Option<Seq<char>>,
    pub event: Option<Seq<char>>,
    pub data: Option<Seq<char>>,
    pub retry: Option<u64>,
}

/// The view of an optional string.
pub open spec fn opt_view(s: Option<String>) -> Option<Seq<char>> {
    match s {
        Some(t) => Some(t@),
        None => None,
    }
}

impl View for SseEvent {
    type V = SseEventView;

    open spec fn view(&self) -> SseEventView {
        SseEventView {
            id: opt_view(self.id),
            event: opt_view(self.event),
            data: opt_view(self.data),
            retry: self.retry,
        }
    }
}

/// The fields gathered from the lines of an event read so far.
pub struct SseFields {
    pub id: Option<Seq<char>>,
    pub event: Option<Seq<char>>,
    pub data_lines: Seq<Seq<char>>,
    pub retry: Option<u64>,
}

pub open spec fn no_fields() -> SseFields {
    SseFields { id: None, event: None, data_lines: Seq::empty(), retry: None }
}

pub open spec fn id_prefix() -> Seq<char> {
    seq!['i', 'd', ':']
}

pub open spec fn event_prefix() -> Seq<char> {
    seq!['e', 'v', 'e', 'n', 't', ':']
}

pub open spec fn data_prefix() -> Seq<char> {
    seq!['d', 'a', 't', 'a', ':']
}

pub open spec fn retry_prefix() -> Seq<char> {
    seq!['r', 'e', 't', 'r', 'y', ':']
}

/// Whether `line` ends an event: nothing but white space.
pub open spec fn is_blank(line: Seq<char>) -> bool {
    trim(line).len() == 0
}

/// The fields after reading one more line: the trimmed line's `id:`, `event:`
/// or `data:` value (itself trimmed) is recorded, a `retry:` value only when it
/// is a valid `u64`; any other line leaves the fields as they are.
pub open spec fn apply_line(f: SseFields, line: Seq<char>) -> SseFields {
    let t = trim(line);
    if has_prefix(t, id_prefix()) {
        SseFields { id: Some(trim(t.skip(3))), ..f }
    } else if has_prefix(t, event_prefix()) {
        SseFields { event: Some(trim(t.skip(6))), ..f }
    } else if has_prefix(t, data_prefix()) {
        SseFields { data_lines: f.data_lines.push(trim(t.skip(5))), ..f }
    } else if has_prefix(t, retry_prefix()) {
        match parse_u64_spec(trim(t.skip(6))) {
            Some(r) => SseFields { retry: Some(r), ..f },
            None => f,
        }
    } else {
        f
    }
}

/// The fields gathered from `lines`, read in order.
pub open spec fn fields_of(lines: Seq<Seq<char>>) -> SseFields
    decreases lines.len(),
{
    if lines.len() == 0 {
        no_fields()
    } else {
        apply_line(fields_of(lines.drop_last()), lines.last())
    }
}

/// The lines joined with `'\n'` between them.
pub open spec fn join_lines(lines: Seq<Seq<char>>) -> Seq<char>
    decreases lines.len(),
{
    if lines.len() == 0 {
        Seq::empty()
    } else if lines.len() == 1 {
        lines[0]
    } else {
        join_lines(lines.drop_last()).push('\n') + lines.last()
    }
}

/// The event that the gathered fields make: none when there is no data, id or
/// event name; otherwise the `data:` lines joined by newlines, if there are any.
pub open spec fn event_of(f: SseFields) -> Option<SseEventView> {
    if f.data_lines.len() == 0 && f.id is None && f.event is None {
        None
    } else {
        Some(
            SseEventView {
                id: f.id,
                event: f.event,
                data: if f.data_lines.len() == 0 {
                    None
                } else {
                    Some(join_lines(f.data_lines))
                },
                retry: f.retry,
            },
        )
    }
}

/// The event read so far, one line at a time.
pub struct SseEventReader {
    id: Option<String>,
    event: Option<String>,
    data_lines: Vec<Vec<char>>,
    retry: Option<u64>,
}

impl SseEventReader {
    /// The fields gathered so far.
    pub closed spec fn fields(&self) -> SseFields {
        SseFields {
            id: opt_view(self.id),
            event: opt_view(self.event),
            data_lines: self.data_lines@.map_values(|l: Vec<char>| l@),
            retry: self.retry,
        }
    }

    /// A reader that has read nothing.
    pub fn new() -> (r: Self)
        ensures
            r.fields() == no_fields(),
    {
        let r = SseEventReader { id: None, event: None, data_lines: Vec::new(), retry: None };
        assert(r.fields().data_lines =~= Seq::<Seq<char>>::empty());
        r
    }

    /// Reads one line. Returns `true` when the line is blank, which ends the
    /// event; otherwise records what the line says.
    pub fn push_line(&mut self, line: &str) -> (done: bool)
        ensures
            done == is_blank(line@),
            done ==> final(self).fields() == old(self).fields(),
            !done ==> final(self).fields() == apply_line(old(self).fields(), line@),
    {
        let raw = chars_of(line);
        let t = trimmed(&raw);
        let n = t.len();
        if n == 0 {
            return true;
        }
        proof {
            reveal_strlit("id:");
            reveal_strlit("event:");
            reveal_strlit("data:");
            reveal_strlit("retry:");
        }
        assert("id:"@ =~= id_prefix());
        assert("event:"@ =~= event_prefix());
        assert("data:"@ =~= data_prefix());
        assert("retry:"@ =~= retry_prefix());
        if starts_with(&t, "id:") {
            let v = trimmed(slice_subrange(&t, 3, n));
            assert(t@.subrange(3, n as int) =~= t@.skip(3));
            self.id = Some(string_of(&v));
        } else if starts_with(&t, "event:") {
            let v = trimmed(slice_subrange(&t, 6, n));
            assert(t@.subrange(6, n as int) =~= t@.skip(6));
            self.event = Some(string_of(&v));
        } else if starts_with(&t, "data:") {
            let v = trimmed(slice_subrange(&t, 5, n));
            assert(t@.subrange(5, n as int) =~= t@.skip(5));
            let ghost before = self.data_lines@;
            self.data_lines.push(v);
            assert(self.data_lines@.map_values(|l: Vec<char>| l@) =~= before.map_values(
                |l: Vec<char>| l@,
            ).push(v@));
        } else if starts_with(&t, "retry:") {
            let v = trimmed(slice_subrange(&t, 6, n));
            assert(t@.subrange(6, n as int) =~= t@.skip(6));
            match parse_u64(&v) {
                Some(r) => {
                    self.retry = Some(r);
                },
                None => {},
            }
        }
        false
    }

    /// The event that the lines read so far make, if any.
    pub fn finish(&self) -> (r: Option<SseEvent>)
        ensures
            match r {
                Some(e) => event_of(self.fields()) == Some(e@),
                None => event_of(self.fields()) is None,
            },
    {
        let n = self.data_lines.len();
        if n == 0 && self.id.is_none() && self.event.is_none() {
            return None;
        }
        let ghost lines = self.fields().data_lines;
        let data = if n == 0 {
            None
        } else {
            let mut s = String::new();
            for i in 0..n
                invariant
                    n == self.data_lines@.len(),
                    lines == self.data_lines@.map_values(|l: Vec<char>| l@),
                    0 < n,
                    i == 0 ==> s@ == Seq::<char>::empty(),
                    i > 0 ==> s@ == join_lines(lines.take(i as int)),
            {
                let ghost before = s@;
                if i > 0 {
                    push_char(&mut s, '\n');
                }
                push_chars(&mut s, &self.data_lines[i]);
                proof {
                    let tk = lines.take(i + 1);
                    assert(tk.drop_last() =~= lines.take(i as int));
                    assert(tk.last() == self.data_lines@[i as int]@);
                    if i == 0 {
                        assert(s@ =~= tk[0]);
                    }
                }
            }
            assert(lines.take(n as int) =~= lines);
            Some(s)
        };
        let id = match &self.id {
            Some(x) => Some(x.clone()),
            None => None,
        };
        let event = match &self.event {
            Some(x) => Some(x.clone()),
            None => None,
        };
        Some(SseEvent { id, event, data, retry: self.retry })
    }
}

/// The number of lines before the first blank one in `lines`, or all of them.
pub open spec fn block_len(lines: Seq<Seq<char>>, k: int) -> bool {
    &&& 0 <= k <= lines.len()
    &&& forall|j: int| 0 <= j < k ==> !is_blank(#[trigger] lines[j])
    &&& k < lines.len() ==> is_blank(lines[k])
}

/// The views of a sequence of strings.
pub open spec fn lines_view(lines: Seq<String>) -> Seq<Seq<char>> {
    lines.map_values(|l: String| l@)
}

/// Reads one event from `lines`, the lines available until the end of the
/// stream: lines are read up to and including the first blank one, or all of
/// them. Returns the event those lines make, if any, and how many lines were
/// read.
pub fn read_sse_event(lines: &[String]) -> (r: (Option<SseEvent>, usize))
    ensures
        ({
            let k = if r.1 as int <= lines@.len() && r.1 > 0 && is_blank(lines@[r.1 - 1]@) {
                r.1 - 1
            } else {
                r.1 as int
            };
            &&& block_len(lines_view(lines@), k)
            &&& r.1 == (if k < lines@.len() { k + 1 } else { k })
            &&& match r.0 {
                Some(e) => event_of(fields_of(lines_view(lines@).take(k))) == Some(e@),
                None => event_of(fields_of(lines_view(lines@).take(k))) is None,
            }
        }),
{
    let ghost lv = lines_view(lines@);
    let mut reader = SseEventReader::new();
    let n = lines.len();
    let mut i: usize = 0;
    while i < n
        invariant
            n == lines@.len(),
            lv == lines_view(lines@),
            i <= n,
            forall|j: int| 0 <= j < i ==> !is_blank(#[trigger] lv[j]),
            reader.fields() == fields_of(lv.take(i as int)),
        decreases n - i,
    {
        let done = reader.push_line(lines[i].as_str());
        if done {
            let ev = reader.finish();
            assert(lv[i as int] == lines@[i as int]@);
            return (ev, i + 1);
        }
        assert(lv.take(i + 1).drop_last() =~= lv.take(i as int));
        i = i + 1;
    }
    assert(n == 0 || !is_blank(lines@[n - 1]@)) by {
        if n > 0 {
            assert(lv[n - 1] == lines@[n - 1]@);
        }
    }
    (reader.finish(), n)
}

/// The event name that the line `line` gives, when it is an `event:` line.
pub open spec fn event_name_of_line(line: Seq<char>) -> Option<Seq<char>> {
    let t = trim(line);
    if has_prefix(t, event_prefix()) {
        Some(trim(t.skip(6)))
    } else {
        None
    }
}

proof fn lemma_fields_keep_event_name(lines: Seq<Seq<char>>, i: int)
    requires
        0 <= i < lines.len(),
        event_name_of_line(lines[i]) is Some,
        forall|j: int| i < j < lines.len() ==> event_name_of_line(#[trigger] lines[j]) is None,
    ensures
        fields_of(lines).event == event_name_of_line(lines[i]),
    decreases lines.len(),
{
    let p = lines.drop_last();
    let l = lines.last();
    let t = trim(l);
    if i < lines.len() - 1 {
        assert forall|j: int| i < j < p.len() implies event_name_of_line(#[trigger] p[j]) is None by {
            assert(p[j] == lines[j]);
        }
        assert(p[i] == lines[i]);
        lemma_fields_keep_event_name(p, i);
        assert(event_name_of_line(lines[lines.len() - 1]) is None);
        assert(!has_prefix(t, event_prefix()));
        if has_prefix(t, id_prefix()) {
            assert(t.take(3) == id_prefix());
        }
    } else {
        assert(l == lines[i]);
        assert(has_prefix(t, event_prefix()));
        if has_prefix(t, id_prefix()) {
            assert(t.take(3)[0] == t.take(6)[0]);
            assert(t.take(3)[1] == t.take(6)[1]);
        }
    }
}

/// A block of lines with an `event:` line makes an event that carries the
/// trimmed name of the last such line, with or without data or an id: for the
/// lines of an event, where line `i` is an `event:` line and no later one is,
/// the event read from them is `Some` and its `event` field is that name.
pub proof fn law_event_line_makes_event(lines: Seq<Seq<char>>, i: int)
    requires
        0 <= i < lines.len(),
        event_name_of_line(lines[i]) is Some,
        forall|j: int| i < j < lines.len() ==> event_name_of_line(#[trigger] lines[j]) is None,
    ensures
        event_of(fields_of(lines)) matches Some(e) && e.event == event_name_of_line(lines[i]),
{
    lemma_fields_keep_event_name(lines, i);
}

/// What the event stream hands to the reader: a line, a failure to read, or
/// the end of the stream.
pub enum SseInput {
    Line(String),
    Failed,
    End,
}

/// What the reader makes of it: read on, handle a complete event, or stop
/// reading the stream.
pub enum SseStep {
    Continue,
    Event(SseEvent),
    Stop,
}

/// The step that completing an event with the fields `f` gives: the event if
/// there is one, and otherwise the end of reading (an empty event ends the
/// stream).
pub open spec fn completed(f: SseFields, r: SseStep) -> bool {
    match event_of(f) {
        Some(v) => r matches SseStep::Event(e) && e@ == v,
        None => r is Stop,
    }
}

impl SseEventReader {
    /// Reads one input of the event stream. A line that is not blank is
    /// recorded; a blank line or the end of the stream completes the event and
    /// starts a new one; a failure to read stops the stream.
    pub fn step(&mut self, input: SseInput) -> (r: SseStep)
        ensures
            match input {
                SseInput::Line(l) => if is_blank(l@) {
                    final(self).fields() == no_fields() && completed(old(self).fields(), r)
                } else {
                    r is Continue && final(self).fields() == apply_line(old(self).fields(), l@)
                },
                SseInput::Failed => r is Stop && final(self).fields() == old(self).fields(),
                SseInput::End => final(self).fields() == no_fields() && completed(old(self).fields(), r),
            },
    {
        match input {
            SseInput::Line(l) => {
                if self.push_line(l.as_str()) {
                    let ev = self.finish();
                    *self = SseEventReader::new();
                    match ev {
                        Some(e) => SseStep::Event(e),
                        None => SseStep::Stop,
                    }
                } else {
                    SseStep::Continue
                }
            },
            SseInput::Failed => SseStep::Stop,
            SseInput::End => {
                let ev = self.finish();
                *self = SseEventReader::new();
                match ev {
                    Some(e) => SseStep::Event(e),
                    None => SseStep::Stop,
                }
            },
        }
    }
}

/// Completing an event whose gathered fields hold an event name hands on an
/// event with that name, and does not stop the stream, whether or not it has
/// data or an id.
pub proof fn law_named_event_is_not_lost(f: SseFields, r: SseStep)
    requires
        f.event is Some,
        completed(f, r),
    ensures
        r matches SseStep::Event(e) && e@.event == f.event,
{
}

} // verus!
