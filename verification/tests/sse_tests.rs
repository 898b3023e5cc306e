use urbit_http_api::sse::{read_sse_event, SseEventReader};

fn lines(ls: &[&str]) -> Vec<String> {
    ls.iter().map(|s| s.to_string()).collect()
}

#[test]
fn reads_fields_until_blank_line() {
    let input = lines(&["id: 5", "event: message", "data: {\"a\":", "data:  1}", "retry: 3000", "", "data: next"]);
    let (ev, used) = read_sse_event(&input);
    let ev = ev.expect("an event");
    assert_eq!(used, 6);
    assert_eq!(ev.id.as_deref(), Some("5"));
    assert_eq!(ev.event.as_deref(), Some("message"));
    assert_eq!(ev.data.as_deref(), Some("{\"a\":\n1}"));
    assert_eq!(ev.retry, Some(3000));
}

#[test]
fn invalid_retry_is_ignored() {
    let (ev, _) = read_sse_event(&lines(&["data: x", "retry: soon", "retry:+12", "retry: -1"]));
    let ev = ev.unwrap();
    assert_eq!(ev.retry, Some(12));
    assert_eq!(ev.data.as_deref(), Some("x"));
}

#[test]
fn empty_block_gives_no_event() {
    let (ev, used) = read_sse_event(&lines(&["", "data: later"]));
    assert!(ev.is_none());
    assert_eq!(used, 1);
    let (ev, used) = read_sse_event(&lines(&["retry: 10", ": comment", "   "]));
    assert!(ev.is_none());
    assert_eq!(used, 3);
    let (ev, used) = read_sse_event(&[]);
    assert!(ev.is_none());
    assert_eq!(used, 0);
}

#[test]
fn end_of_stream_ends_the_event() {
    let (ev, used) = read_sse_event(&lines(&["id:7", "data: last"]));
    let ev = ev.unwrap();
    assert_eq!(used, 2);
    assert_eq!(ev.id.as_deref(), Some("7"));
    assert_eq!(ev.data.as_deref(), Some("last"));
    assert_eq!(ev.event, None);
    assert_eq!(ev.retry, None);
}

#[test]
fn id_without_data_is_an_event() {
    let (ev, _) = read_sse_event(&lines(&["  id:  abc  ", ""]));
    let ev = ev.unwrap();
    assert_eq!(ev.id.as_deref(), Some("abc"));
    assert_eq!(ev.data, None);
}

#[test]
fn reader_reads_line_by_line() {
    let mut r = SseEventReader::new();
    assert!(!r.push_line("data: one"));
    assert!(!r.push_line("data: two"));
    assert!(!r.push_line("id: 1"));
    assert!(!r.push_line("id: 2"));
    assert!(r.push_line(" \t "));
    let ev = r.finish().unwrap();
    assert_eq!(ev.data.as_deref(), Some("one\ntwo"));
    assert_eq!(ev.id.as_deref(), Some("2"));
}

use urbit_http_api::sse::{SseInput, SseStep};

fn feed(r: &mut SseEventReader, line: &str) -> SseStep {
    r.step(SseInput::Line(line.to_string()))
}

#[test]
fn stream_steps_through_events() {
    let mut r = SseEventReader::new();
    assert!(matches!(feed(&mut r, "data: {\"a\":1}"), SseStep::Continue));
    match feed(&mut r, "") {
        SseStep::Event(e) => assert_eq!(e.data.as_deref(), Some("{\"a\":1}")),
        _ => panic!("expected an event"),
    }
    // The reader starts afresh after an event.
    assert!(matches!(feed(&mut r, "id: 9"), SseStep::Continue));
    match r.step(SseInput::End) {
        SseStep::Event(e) => {
            assert_eq!(e.id.as_deref(), Some("9"));
            assert_eq!(e.data, None);
        }
        _ => panic!("expected an event"),
    }
    // A second end of stream stops it.
    assert!(matches!(r.step(SseInput::End), SseStep::Stop));
}

#[test]
fn empty_event_or_failure_stops_the_stream() {
    let mut r = SseEventReader::new();
    assert!(matches!(feed(&mut r, ""), SseStep::Stop));
    let mut r = SseEventReader::new();
    assert!(matches!(feed(&mut r, "data: x"), SseStep::Continue));
    assert!(matches!(r.step(SseInput::Failed), SseStep::Stop));
    let mut r = SseEventReader::new();
    assert!(matches!(feed(&mut r, ":keep-alive"), SseStep::Continue));
    assert!(matches!(feed(&mut r, "   "), SseStep::Stop));
}
