use vincents_llm::json::parse;
use vincents_llm::streaming::{read_candidates, read_line_piece, ChunkStream, Delta, Dialect};
use vincents_llm::types::{ChatMessage, Chunk, ChunkCompletion};

fn delta(content: &str, finish_reason: Option<&str>) -> Delta {
    Delta { content: content.to_string(), finish_reason: finish_reason.map(|s| s.to_string()) }
}

fn openai_line(content: &str) -> String {
    format!("data: {{\"choices\":[{{\"delta\":{{\"content\":\"{}\"}}}}]}}\n", content)
}

fn inner(chunk: Chunk) -> ChunkCompletion {
    match chunk {
        Chunk::Completion(c) => c,
    }
}

#[test]
fn lines_give_pieces() {
    let mut stream = ChunkStream::new(Dialect::OpenAi, "gpt-4o");
    let text = format!("{}: comment\n\ndata: not json\n{}", openai_line("Hel"), openai_line("lo"));
    assert_eq!(stream.receive_text(&text), vec![delta("Hel", None), delta("lo", None)]);
    let empty = stream.receive_text(&openai_line(""));
    assert!(empty.is_empty());
    let end = "data: {\"choices\":[{\"delta\":{\"content\":\"!\"},\"finish_reason\":\"stop\"}]}\n";
    assert_eq!(stream.receive_text(end), vec![delta("!", Some("stop"))]);
}

#[test]
fn cuts_make_no_difference() {
    let text = format!("{}{}", openai_line("one"), openai_line("two"));
    for dialect in [Dialect::OpenAi, Dialect::OpenRouter] {
        let mut whole = ChunkStream::new(dialect, "m");
        let expected = whole.receive_text(&text);
        assert_eq!(expected.len(), 2);
        for cut in 0..text.len() {
            let mut stream = ChunkStream::new(dialect, "m");
            let mut got = stream.receive_text(&text[..cut]);
            got.extend(stream.receive_text(&text[cut..]));
            assert_eq!(got, expected);
        }
    }
}

#[test]
fn end_marks() {
    let text = format!("data: [DONE]\n{}", openai_line("late"));
    let mut openai = ChunkStream::new(Dialect::OpenAi, "m");
    assert!(openai.receive_text(&text).is_empty());
    assert_eq!(openai.receive_text(""), vec![delta("late", None)]);
    let mut openrouter = ChunkStream::new(Dialect::OpenRouter, "m");
    assert_eq!(openrouter.receive_text(&text), vec![delta("late", None)]);
}

#[test]
fn anthropic_lines() {
    let mut stream = ChunkStream::new(Dialect::Anthropic, "m");
    let text = "event: x\ndata: \ndata: {\"delta\":{\"text\":\"Hi\"}}\n\
                data: {\"delta\":{\"text\":\"!\",\"stop_reason\":\"end_turn\"}}\n\
                data: {\"delta\":{}}\n";
    assert_eq!(
        stream.receive_text(text),
        vec![delta("Hi", Some("stop")), delta("!", Some("end_turn"))]
    );
}

#[test]
fn ollama_lines() {
    let mut stream = ChunkStream::new(Dialect::Ollama, "m");
    let text = "{\"message\":{\"content\":\"Hi\"},\"done\":false}\n\
                {\"message\":{\"content\":\"!\"},\"done\":true}\n{\"done\":true}\n";
    assert_eq!(stream.receive_text(text), vec![delta("Hi", None), delta("!", Some("stop"))]);
}

#[test]
fn gemini_values() {
    let mut stream = ChunkStream::new(Dialect::Gemini, "m");
    let text = "{\"candidates\":[{\"content\":{\"parts\":[{\"text\":\"Hi\"}]},\
                \"finishReason\":\"STOP\"},{\"content\":{\"parts\":[]}}]}";
    assert!(stream.receive_text(&text[..20]).is_empty());
    assert_eq!(stream.receive_text(&text[20..]), vec![delta("Hi", Some("STOP"))]);
    assert_eq!(stream.receive_text(text), vec![delta("Hi", Some("STOP"))]);
    assert!(stream.receive_text("{}").is_empty());
}

#[test]
fn pieces_of_parsed_values() {
    let j = parse("{\"choices\":[{\"delta\":{\"content\":\"x\"},\"finish_reason\":\"length\"}]}")
        .unwrap();
    assert_eq!(read_line_piece(Dialect::OpenAi, &j), Some(delta("x", Some("length"))));
    assert_eq!(read_line_piece(Dialect::Ollama, &j), None);
    let c = parse("{\"candidates\":[{\"content\":{\"parts\":[{\"text\":\"y\"}]}}]}").unwrap();
    assert_eq!(read_candidates(&c), vec![delta("y", None)]);
}

#[test]
fn bytes_that_are_no_text_are_replaced() {
    let mut stream = ChunkStream::new(Dialect::Ollama, "m");
    let mut bytes = b"{\"message\":{\"content\":\"".to_vec();
    bytes.push(0xff);
    bytes.extend_from_slice(b"\"}}\n");
    assert_eq!(stream.receive(&bytes), vec![delta("\u{fffd}", None)]);
}

#[test]
fn chunks_are_numbered() {
    let mut stream = ChunkStream::new(Dialect::OpenAi, "gpt-4o");
    let first = inner(stream.chunk_at(delta("a", None), 1700000000123, 1700000000));
    assert_eq!(first.id, "cmpl-1700000000123");
    assert_eq!(first.object, "chat.completion.chunk");
    assert_eq!(first.created, 1700000000);
    assert_eq!(first.model, "gpt-4o");
    assert_eq!(first.choices.len(), 1);
    assert_eq!(first.choices[0].index, 0);
    assert_eq!(first.choices[0].delta, Some(ChatMessage::assistant("a")));
    let second = inner(stream.chunk(delta("b", Some("stop"))));
    assert!(second.id.starts_with("cmpl-1"));
    assert_eq!(second.choices[0].index, 1);
    assert!(second.created > 1600000000);
    assert_eq!(stream.chunk_count(), 2);
    let last = inner(stream.final_chunk_at(-5, 0));
    assert_eq!(last.id, "cmpl--5");
    assert_eq!(last.choices[0].index, 2);
    assert_eq!(last.choices[0].delta, None);
    assert_eq!(last.choices[0].finish_reason, Some("stop".to_string()));
    assert_eq!(inner(stream.final_chunk()).choices[0].index, 2);
}

#[test]
fn identifiers_of_the_dialects() {
    for (dialect, id) in [
        (Dialect::OpenAi, "cmpl-7"),
        (Dialect::Anthropic, "msg_7"),
        (Dialect::Gemini, "gemini_7"),
        (Dialect::Ollama, "ollama_7"),
        (Dialect::OpenRouter, "or_7"),
    ] {
        assert_eq!(inner(ChunkStream::new(dialect, "m").final_chunk_at(7, 0)).id, id);
    }
}
