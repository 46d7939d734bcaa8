use oddonkey::adapters::ollama::stream::{ChunkFields, PollStep};
use oddonkey::domain::error::OddOnkeyError;
use oddonkey::TokenStream;

fn chunk(done: Option<bool>, content: Option<&str>) -> ChunkFields {
    ChunkFields { done, content: content.map(|s| s.to_string()) }
}

#[test]
fn lines_come_out_one_at_a_time() {
    let mut s = TokenStream::new();
    assert_eq!(s.poll_step(), PollStep::NeedBytes);
    s.feed(b"{\"a\":1}\n\n  {\"b\":2}  \n{\"c\"");
    assert_eq!(s.poll_step(), PollStep::Decode("{\"a\":1}".to_string()));
    assert_eq!(s.poll_step(), PollStep::Skip);
    assert_eq!(s.poll_step(), PollStep::Decode("{\"b\":2}".to_string()));
    assert_eq!(s.poll_step(), PollStep::NeedBytes);
    s.feed(b":3}\n");
    assert_eq!(s.poll_step(), PollStep::Decode("{\"c\":3}".to_string()));
    assert!(!s.is_done());
}

#[test]
fn chunks_yield_text_and_done_ends_stream() {
    let mut s = TokenStream::new();
    match s.on_chunk("l", Ok(chunk(Some(false), Some("Hel")))) {
        Some(Ok(t)) => assert_eq!(t, "Hel"),
        other => panic!("unexpected {:?}", other),
    }
    match s.on_chunk("l", Ok(chunk(None, None))) {
        Some(Ok(t)) => assert_eq!(t, ""),
        other => panic!("unexpected {:?}", other),
    }
    assert!(s.on_chunk("l", Ok(chunk(Some(true), Some("ignored")))).is_none());
    assert!(s.is_done());
    s.feed(b"{\"x\":1}\n");
    assert_eq!(s.poll_step(), PollStep::Finished);
    assert_eq!(s.poll_step(), PollStep::Finished);
}

#[test]
fn bad_line_is_a_parse_error() {
    let mut s = TokenStream::new();
    match s.on_chunk("nope", Err("expected value at line 1 column 1".to_string())) {
        Some(Err(OddOnkeyError::Parse(m))) => {
            assert_eq!(m, "stream JSON parse: expected value at line 1 column 1 – line: nope")
        }
        other => panic!("unexpected {:?}", other),
    }
    assert!(!s.is_done());
}

#[test]
fn end_of_input_hands_out_the_tail() {
    let mut s = TokenStream::new();
    s.feed(b"  {\"message\":{\"content\":\"bye\"}}  ");
    assert_eq!(s.poll_step(), PollStep::NeedBytes);
    assert_eq!(s.end_of_input(), Some("{\"message\":{\"content\":\"bye\"}}".to_string()));
    assert!(s.is_done());
    assert_eq!(s.poll_step(), PollStep::Finished);

    let mut t = TokenStream::new();
    t.feed(b" \n");
    assert_eq!(t.poll_step(), PollStep::Skip);
    assert_eq!(t.end_of_input(), None);
    assert!(t.is_done());
}

#[test]
fn tail_chunk_rules() {
    assert_eq!(TokenStream::on_tail(Ok(chunk(Some(true), Some("last")))), Some("last".to_string()));
    assert_eq!(TokenStream::on_tail(Ok(chunk(None, Some("")))), None);
    assert_eq!(TokenStream::on_tail(Ok(chunk(None, None))), None);
    assert_eq!(TokenStream::on_tail(Err("bad".to_string())), None);
}

#[test]
fn chunking_does_not_change_lines() {
    let whole = "{\"a\":\"é\"}\n{\"b\":2}\n";
    let mut one = TokenStream::new();
    one.feed(whole.as_bytes());
    let mut two = TokenStream::new();
    let (x, y) = whole.split_at(5);
    two.feed(x.as_bytes());
    two.feed(y.as_bytes());
    for _ in 0..3 {
        assert_eq!(one.poll_step(), two.poll_step());
    }
}
