//! Streamed responses: text that arrives in pieces becomes deltas, and deltas become chunks.
//!
//! Four of the providers send lines, each with one piece of the answer; Gemini sends whole JSON
//! values. What is left of an unfinished line or value waits in a buffer for more text.

use crate::json;
use crate::json::{Json, JsonView};
use crate::outside;
use crate::text;
use crate::types;
use crate::types::{ChatMessage, ChoiceDelta, ChoiceDeltaView, Chunk, ChunkCompletion, ChunkView};
use vstd::prelude::*;

verus! {

/// How a provider writes its streams.
#[derive(Debug, Clone, Copy, PartialEq, Eq, Structural)]
pub enum Dialect {
    OpenAi,
    Anthropic,
    Gemini,
    Ollama,
    OpenRouter,
}

/// A piece of the answer.
#[derive(Debug, Clone, PartialEq)]
pub struct Delta {
    pub content: String,
    pub finish_reason: Option<String>,
}

/// A piece of the answer, mathematically.
pub struct DeltaView {
    pub content: Seq<char>,
    pub finish_reason: Option<Seq<char>>,
}

impl View for Delta {
    type V = DeltaView;

    open spec fn view(&self) -> DeltaView {
        DeltaView { content: self.content@, finish_reason: text::opt_text(self.finish_reason) }
    }
}

/// The views of some pieces.
pub open spec fn deltas_view(deltas: Seq<Delta>) -> Seq<DeltaView> {
    deltas.map_values(|d: Delta| d@)
}

/// A piece with this text; nothing where the text is missing or empty.
pub open spec fn piece(content: Option<Seq<char>>, finish_reason: Option<Seq<char>>) -> Option<
    DeltaView,
> {
    match content {
        Some(c) => if c.len() == 0 {
            None
        } else {
            Some(DeltaView { content: c, finish_reason })
        },
        None => None,
    }
}

/// The piece in the JSON value of one line. Gemini has no such lines.
pub open spec fn line_piece(dialect: Dialect, j: JsonView) -> Option<DeltaView> {
    match dialect {
        Dialect::OpenAi | Dialect::OpenRouter => {
            let choice = j.field("choices"@).first();
            piece(
                choice.field("delta"@).field("content"@).text(),
                choice.field("finish_reason"@).text(),
            )
        },
        Dialect::Anthropic => piece(
            j.field("delta"@).field("text"@).text(),
            Some(text::text_or(j.field("delta"@).field("stop_reason"@).text(), "stop"@)),
        ),
        Dialect::Ollama => piece(
            j.field("message"@).field("content"@).text(),
            if j.field("done"@).flag() == Some(true) {
                Some("stop"@)
            } else {
                None
            },
        ),
        Dialect::Gemini => None,
    }
}

/// The piece of one candidate of a Gemini answer.
pub open spec fn candidate_piece(c: JsonView) -> Option<DeltaView> {
    piece(
        c.field("content"@).field("parts"@).first().field("text"@).text(),
        c.field("finishReason"@).text(),
    )
}

/// The pieces of some candidates, in order.
pub open spec fn candidate_pieces(candidates: Seq<JsonView>) -> Seq<DeltaView>
    decreases candidates.len(),
{
    if candidates.len() == 0 {
        Seq::empty()
    } else {
        with_piece(candidate_pieces(candidates.drop_last()), candidate_piece(candidates.last()))
    }
}

/// The pieces, followed by one more where there is one.
pub open spec fn with_piece(pieces: Seq<DeltaView>, last: Option<DeltaView>) -> Seq<DeltaView> {
    match last {
        Some(d) => pieces.push(d),
        None => pieces,
    }
}

/// What a line means: a piece, nothing, or that the rest has to wait for more text.
pub enum LineEvent {
    Piece(DeltaView),
    Nothing,
    Pause,
}

/// The piece that a text holds as JSON.
pub open spec fn data_event(dialect: Dialect, data: Seq<char>) -> LineEvent {
    match json::json_parsed(data) {
        Some(j) => match line_piece(dialect, j) {
            Some(d) => LineEvent::Piece(d),
            None => LineEvent::Nothing,
        },
        None => LineEvent::Nothing,
    }
}

/// What a line means. Ollama's lines are JSON; the others' are JSON behind `data: `.
pub open spec fn line_event(dialect: Dialect, line: Seq<char>) -> LineEvent {
    if dialect == Dialect::Ollama {
        data_event(dialect, line)
    } else if !text::begins(line, "data: "@) {
        LineEvent::Nothing
    } else {
        let data = line.subrange(6, line.len() as int);
        if dialect == Dialect::OpenAi && data == "[DONE]"@ {
            LineEvent::Pause
        } else if dialect == Dialect::OpenRouter && data == "[DONE]"@ {
            LineEvent::Nothing
        } else if dialect == Dialect::Anthropic && data.len() == 0 {
            LineEvent::Nothing
        } else {
            data_event(dialect, data)
        }
    }
}

/// The position of the first line feed; the length where there is none.
pub open spec fn line_end(s: Seq<char>) -> int
    decreases s.len(),
{
    if s.len() == 0 {
        0
    } else if s[0] == '\n' {
        0
    } else {
        1 + line_end(s.drop_first())
    }
}

/// The pieces in the finished lines of a buffer, and what is left of the buffer.
pub open spec fn drained_lines(dialect: Dialect, buffer: Seq<char>) -> (Seq<DeltaView>, Seq<char>)
    decreases buffer.len(),
{
    let end = line_end(buffer);
    if 0 <= end < buffer.len() {
        let line = buffer.take(end);
        let rest = buffer.skip(end + 1);
        match line_event(dialect, line) {
            LineEvent::Pause => (Seq::empty(), rest),
            LineEvent::Nothing => drained_lines(dialect, rest),
            LineEvent::Piece(d) => {
                let after = drained_lines(dialect, rest);
                (seq![d] + after.0, after.1)
            },
        }
    } else {
        (Seq::empty(), buffer)
    }
}

/// The pieces of a buffer that is one JSON value, and what is left of the buffer.
pub open spec fn drained_value(buffer: Seq<char>) -> (Seq<DeltaView>, Seq<char>) {
    if buffer.len() == 0 {
        (Seq::empty(), buffer)
    } else {
        match json::json_parsed(buffer) {
            Some(j) => (candidate_pieces(j.field("candidates"@).items_or_none()), Seq::empty()),
            None => (Seq::empty(), buffer),
        }
    }
}

/// The pieces that a buffer gives, and what is left of the buffer.
pub open spec fn drained(dialect: Dialect, buffer: Seq<char>) -> (Seq<DeltaView>, Seq<char>) {
    if dialect == Dialect::Gemini {
        drained_value(buffer)
    } else {
        drained_lines(dialect, buffer)
    }
}

/// What the identifiers of a provider's chunks begin with.
pub open spec fn id_prefix(dialect: Dialect) -> Seq<char> {
    match dialect {
        Dialect::OpenAi => "cmpl-"@,
        Dialect::Anthropic => "msg_"@,
        Dialect::Gemini => "gemini_"@,
        Dialect::Ollama => "ollama_"@,
        Dialect::OpenRouter => "or_"@,
    }
}

/// A chunk with one choice, at a moment given in milliseconds and in seconds.
pub open spec fn chunk_view(
    dialect: Dialect,
    model: Seq<char>,
    millis: i64,
    seconds: i64,
    choice: ChoiceDeltaView,
) -> ChunkView {
    ChunkView {
        id: id_prefix(dialect) + text::signed_decimal(millis as int),
        object: "chat.completion.chunk"@,
        created: seconds as u64,
        model,
        choices: seq![choice],
    }
}

/// The choice of a chunk with a piece of the answer.
pub open spec fn piece_choice(index: u32, delta: DeltaView) -> ChoiceDeltaView {
    ChoiceDeltaView {
        index,
        delta: Some(types::assistant_text(delta.content)),
        finish_reason: delta.finish_reason,
    }
}

/// The choice of the chunk that ends a stream.
pub open spec fn last_choice(index: u32) -> ChoiceDeltaView {
    ChoiceDeltaView { index, delta: None, finish_reason: Some("stop"@) }
}

proof fn lemma_line_end(s: Seq<char>, end: int)
    requires
        0 <= end <= s.len(),
        forall|j: int| 0 <= j < end ==> s[j] != '\n',
        end < s.len() ==> s[end] == '\n',
    ensures
        line_end(s) == end,
    decreases s.len(),
{
    if s.len() > 0 && s[0] != '\n' {
        assert(end > 0);
        let rest = s.drop_first();
        assert forall|j: int| 0 <= j < end - 1 implies rest[j] != '\n' by {
            assert(rest[j] == s[j + 1]);
        }
        lemma_line_end(rest, end - 1);
    }
}

/// A piece with this text; nothing where the text is missing or empty.
fn make_piece(content: Option<&str>, finish_reason: Option<String>) -> (r: Option<Delta>)
    ensures
        (match r {
            Some(d) => Some(d@),
            None => None,
        }) == piece(text::opt_str(content), text::opt_text(finish_reason)),
{
    match content {
        Some(c) => if c.unicode_len() == 0 {
            None
        } else {
            Some(Delta { content: c.to_owned(), finish_reason })
        },
        None => None,
    }
}

/// The view of an optional piece.
pub open spec fn opt_delta(o: Option<Delta>) -> Option<DeltaView> {
    match o {
        Some(d) => Some(d@),
        None => None,
    }
}

/// The piece in the JSON value of one line.
pub fn read_line_piece(dialect: Dialect, j: &Json) -> (r: Option<Delta>)
    ensures
        opt_delta(r) == line_piece(dialect, j@),
{
    match dialect {
        Dialect::OpenAi | Dialect::OpenRouter => {
            let choice = j.at("choices").head();
            make_piece(
                choice.at("delta").at("content").as_text(),
                text::own_opt(choice.at("finish_reason").as_text()),
            )
        },
        Dialect::Anthropic => make_piece(
            j.at("delta").at("text").as_text(),
            Some(j.at("delta").at("stop_reason").text_or("stop").to_owned()),
        ),
        Dialect::Ollama => make_piece(
            j.at("message").at("content").as_text(),
            match j.at("done").as_flag() {
                Some(true) => Some("stop".to_owned()),
                _ => None,
            },
        ),
        Dialect::Gemini => None,
    }
}

/// The pieces of a Gemini answer.
pub fn read_candidates(j: &Json) -> (r: Vec<Delta>)
    ensures
        deltas_view(r@) == candidate_pieces(j@.field("candidates"@).items_or_none()),
{
    let mut out: Vec<Delta> = Vec::new();
    match j.at("candidates").as_items() {
        Some(items) => {
            let mut i: usize = 0;
            let ghost all = json::items_view(items@);
            assert(all.take(0) =~= Seq::empty());
            assert(deltas_view(out@) =~= Seq::empty());
            while i < items.len()
                invariant
                    i <= items@.len(),
                    all == json::items_view(items@),
                    deltas_view(out@) == candidate_pieces(all.take(i as int)),
                decreases items@.len() - i,
            {
                let c = &items[i];
                let found = make_piece(
                    c.at("content").at("parts").head().at("text").as_text(),
                    text::own_opt(c.at("finishReason").as_text()),
                );
                let ghost before = out@;
                assert(all[i as int] == c@);
                assert(all.take(i + 1).drop_last() =~= all.take(i as int));
                assert(all.take(i + 1).last() == c@);
                match found {
                    Some(d) => {
                        out.push(d);
                        assert(deltas_view(out@) =~= deltas_view(before).push(d@));
                    },
                    None => {},
                }
                i = i + 1;
            }
            assert(all.take(i as int) =~= all);
        },
        None => {
            assert(j@.field("candidates"@).items_or_none() =~= Seq::empty());
            assert(deltas_view(out@) =~= Seq::empty());
        },
    }
    out
}

enum Event {
    Piece(Delta),
    Nothing,
    Pause,
}

spec fn event_view(e: Event) -> LineEvent {
    match e {
        Event::Piece(d) => LineEvent::Piece(d@),
        Event::Nothing => LineEvent::Nothing,
        Event::Pause => LineEvent::Pause,
    }
}

fn read_data(dialect: Dialect, data: &str) -> (r: Event)
    ensures
        event_view(r) == data_event(dialect, data@),
{
    match json::parse(data) {
        Some(j) => match read_line_piece(dialect, &j) {
            Some(d) => Event::Piece(d),
            None => Event::Nothing,
        },
        None => Event::Nothing,
    }
}

fn read_line(dialect: Dialect, line: &str) -> (r: Event)
    ensures
        event_view(r) == line_event(dialect, line@),
{
    proof {
        reveal_strlit("data: ");
    }
    if dialect == Dialect::Ollama {
        return read_data(dialect, line);
    }
    if !text::starts_with(line, "data: ") {
        return Event::Nothing;
    }
    let data = line.substring_char(6, line.unicode_len());
    if dialect == Dialect::OpenAi && text::same(data, "[DONE]") {
        Event::Pause
    } else if dialect == Dialect::OpenRouter && text::same(data, "[DONE]") {
        Event::Nothing
    } else if dialect == Dialect::Anthropic && data.unicode_len() == 0 {
        Event::Nothing
    } else {
        read_data(dialect, data)
    }
}

/// A stream of chunks that is being received.
#[derive(Debug)]
pub struct ChunkStream {
    dialect: Dialect,
    model: String,
    buffer: String,
    chunk_count: u32,
}

impl ChunkStream {
    /// How the stream is written.
    pub closed spec fn dialect(&self) -> Dialect {
        self.dialect
    }

    /// The model that answers.
    pub closed spec fn model(&self) -> Seq<char> {
        self.model@
    }

    /// The text that waits for more.
    pub closed spec fn buffer(&self) -> Seq<char> {
        self.buffer@
    }

    /// The number of chunks that were made so far.
    pub closed spec fn count(&self) -> u32 {
        self.chunk_count
    }

    /// A stream of which nothing has come yet.
    pub fn new(dialect: Dialect, model: &str) -> (r: ChunkStream)
        ensures
            r.dialect() == dialect,
            r.model() == model@,
            r.buffer() == Seq::<char>::empty(),
            r.count() == 0,
    {
        ChunkStream { dialect, model: model.to_owned(), buffer: String::new(), chunk_count: 0 }
    }

    /// The number of chunks that were made so far.
    pub fn chunk_count(&self) -> (r: u32)
        ensures
            r == self.count(),
    {
        self.chunk_count
    }

    /// Takes in some bytes and gives the pieces that they complete.
    pub fn receive(&mut self, bytes: &Vec<u8>) -> (r: Vec<Delta>)
        ensures
            (deltas_view(r@), final(self).buffer()) == drained(
                old(self).dialect(),
                old(self).buffer() + outside::lossy_text(bytes@),
            ),
            final(self).dialect() == old(self).dialect(),
            final(self).model() == old(self).model(),
            final(self).count() == old(self).count(),
    {
        let more = outside::from_utf8_lossy(bytes);
        self.receive_text(more.as_str())
    }

    /// Takes in some text and gives the pieces that it completes.
    pub fn receive_text(&mut self, more: &str) -> (r: Vec<Delta>)
        ensures
            (deltas_view(r@), final(self).buffer()) == drained(
                old(self).dialect(),
                old(self).buffer() + more@,
            ),
            final(self).dialect() == old(self).dialect(),
            final(self).model() == old(self).model(),
            final(self).count() == old(self).count(),
    {
        self.buffer = text::cat(self.buffer.as_str(), more);
        if self.dialect == Dialect::Gemini {
            self.take_value()
        } else {
            self.take_lines()
        }
    }

    fn take_value(&mut self) -> (r: Vec<Delta>)
        ensures
            (deltas_view(r@), final(self).buffer()) == drained_value(old(self).buffer()),
            final(self).dialect() == old(self).dialect(),
            final(self).model() == old(self).model(),
            final(self).count() == old(self).count(),
    {
        let nothing: Vec<Delta> = Vec::new();
        assert(deltas_view(nothing@) =~= Seq::empty());
        if self.buffer.as_str().unicode_len() == 0 {
            return nothing;
        }
        match json::parse(self.buffer.as_str()) {
            Some(j) => {
                self.buffer = String::new();
                read_candidates(&j)
            },
            None => nothing,
        }
    }

    fn take_lines(&mut self) -> (r: Vec<Delta>)
        ensures
            (deltas_view(r@), final(self).buffer()) == drained_lines(
                old(self).dialect(),
                old(self).buffer(),
            ),
            final(self).dialect() == old(self).dialect(),
            final(self).model() == old(self).model(),
            final(self).count() == old(self).count(),
    {
        let mut out: Vec<Delta> = Vec::new();
        let ghost whole = drained_lines(self.dialect, self.buffer@);
        assert(deltas_view(out@) =~= Seq::empty());
        assert(deltas_view(out@) + whole.0 =~= whole.0);
        loop
            invariant_except_break
                whole == (
                    deltas_view(out@) + drained_lines(self.dialect, self.buffer@).0,
                    drained_lines(self.dialect, self.buffer@).1,
                ),
            invariant
                self.dialect == old(self).dialect,
                self.model@ == old(self).model@,
                self.chunk_count == old(self).chunk_count,
            ensures
                whole == (deltas_view(out@), self.buffer@),
            decreases self.buffer@.len(),
        {
            let ghost before = self.buffer@;
            let end: usize = match text::find_line_feed(self.buffer.as_str()) {
                Some(p) => p,
                None => {
                    proof {
                        lemma_line_end(before, before.len() as int);
                        assert(deltas_view(out@) + Seq::empty() =~= deltas_view(out@));
                    }
                    break;
                },
            };
            proof {
                lemma_line_end(before, end as int);
            }
            let total: usize = self.buffer.as_str().unicode_len();
            let line = self.buffer.as_str().substring_char(0, end).to_owned();
            let rest = self.buffer.as_str().substring_char(end + 1, total).to_owned();
            assert(line@ =~= before.take(end as int));
            assert(rest@ =~= before.skip(end + 1));
            self.buffer = rest;
            match read_line(self.dialect, line.as_str()) {
                Event::Pause => {
                    assert(deltas_view(out@) + Seq::empty() =~= deltas_view(out@));
                    break;
                },
                Event::Nothing => {},
                Event::Piece(d) => {
                    let ghost so_far = out@;
                    out.push(d);
                    assert(deltas_view(out@) =~= deltas_view(so_far).push(d@));
                    assert(deltas_view(so_far) + (seq![d@] + drained_lines(
                        self.dialect,
                        self.buffer@,
                    ).0) =~= deltas_view(out@) + drained_lines(self.dialect, self.buffer@).0);
                },
            }
        }
        out
    }

    /// The chunk for a piece, with the clock as it reads now.
    pub fn chunk(&mut self, delta: Delta) -> (r: Chunk)
        requires
            old(self).count() < u32::MAX,
        ensures
            exists|millis: i64, seconds: i64|
                r@ == #[trigger] chunk_view(
                    old(self).dialect(),
                    old(self).model(),
                    millis,
                    seconds,
                    piece_choice(old(self).count(), delta@),
                ),
            final(self).count() == old(self).count() + 1,
            final(self).dialect() == old(self).dialect(),
            final(self).model() == old(self).model(),
            final(self).buffer() == old(self).buffer(),
    {
        let millis: i64 = outside::timestamp_millis();
        let seconds: i64 = outside::timestamp();
        self.chunk_at(delta, millis, seconds)
    }

    /// The chunk for a piece, at a moment given in milliseconds and in seconds.
    pub fn chunk_at(&mut self, delta: Delta, millis: i64, seconds: i64) -> (r: Chunk)
        requires
            old(self).count() < u32::MAX,
        ensures
            r@ == chunk_view(
                old(self).dialect(),
                old(self).model(),
                millis,
                seconds,
                piece_choice(old(self).count(), delta@),
            ),
            final(self).count() == old(self).count() + 1,
            final(self).dialect() == old(self).dialect(),
            final(self).model() == old(self).model(),
            final(self).buffer() == old(self).buffer(),
    {
        let choice = ChoiceDelta {
            index: self.chunk_count,
            delta: Some(ChatMessage::assistant(delta.content.as_str())),
            finish_reason: delta.finish_reason,
        };
        self.chunk_count = self.chunk_count + 1;
        make_chunk(self.dialect, self.model.as_str(), millis, seconds, choice)
    }

    /// The chunk that ends the stream, with the clock as it reads now.
    pub fn final_chunk(&self) -> (r: Chunk)
        ensures
            exists|millis: i64, seconds: i64|
                r@ == #[trigger] chunk_view(
                    self.dialect(),
                    self.model(),
                    millis,
                    seconds,
                    last_choice(self.count()),
                ),
    {
        let millis: i64 = outside::timestamp_millis();
        let seconds: i64 = outside::timestamp();
        self.final_chunk_at(millis, seconds)
    }

    /// The chunk that ends the stream, at a moment given in milliseconds and in seconds.
    pub fn final_chunk_at(&self, millis: i64, seconds: i64) -> (r: Chunk)
        ensures
            r@ == chunk_view(
                self.dialect(),
                self.model(),
                millis,
                seconds,
                last_choice(self.count()),
            ),
    {
        let choice = ChoiceDelta {
            index: self.chunk_count,
            delta: None,
            finish_reason: Some("stop".to_owned()),
        };
        make_chunk(self.dialect, self.model.as_str(), millis, seconds, choice)
    }
}

fn make_chunk(
    dialect: Dialect,
    model: &str,
    millis: i64,
    seconds: i64,
    choice: ChoiceDelta,
) -> (r: Chunk)
    ensures
        r@ == chunk_view(dialect, model@, millis, seconds, choice@),
{
    let prefix = match dialect {
        Dialect::OpenAi => "cmpl-",
        Dialect::Anthropic => "msg_",
        Dialect::Gemini => "gemini_",
        Dialect::Ollama => "ollama_",
        Dialect::OpenRouter => "or_",
    };
    let ghost view = choice@;
    let mut choices: Vec<ChoiceDelta> = Vec::new();
    choices.push(choice);
    assert(choices@.map_values(|c: ChoiceDelta| c@) =~= seq![view]);
    Chunk::Completion(
        ChunkCompletion {
            id: text::cat(prefix, text::signed_decimal_text(millis).as_str()),
            object: "chat.completion.chunk".to_owned(),
            created: seconds as u64,
            model: model.to_owned(),
            choices,
        },
    )
}

proof fn lemma_line_end_found(s: Seq<char>)
    ensures
        0 <= line_end(s) <= s.len(),
        forall|j: int| 0 <= j < line_end(s) ==> s[j] != '\n',
        line_end(s) < s.len() ==> s[line_end(s)] == '\n',
    decreases s.len(),
{
    if s.len() > 0 && s[0] != '\n' {
        let rest = s.drop_first();
        lemma_line_end_found(rest);
        assert forall|j: int| 0 <= j < line_end(s) implies s[j] != '\n' by {
            if j > 0 {
                assert(s[j] == rest[j - 1]);
            }
        }
        if line_end(s) < s.len() {
            assert(s[line_end(s)] == rest[line_end(s) - 1]);
        }
    }
}

/// Some finished line of the buffer makes the rest wait for more text.
pub open spec fn pauses(dialect: Dialect, buffer: Seq<char>) -> bool
    decreases buffer.len(),
{
    let end = line_end(buffer);
    if 0 <= end < buffer.len() {
        line_event(dialect, buffer.take(end)) is Pause || pauses(dialect, buffer.skip(end + 1))
    } else {
        false
    }
}

/// Only OpenAI's end mark makes the rest wait.
pub proof fn law_only_openai_pauses(dialect: Dialect, buffer: Seq<char>)
    requires
        dialect != Dialect::OpenAi,
    ensures
        !pauses(dialect, buffer),
    decreases buffer.len(),
{
    let end = line_end(buffer);
    if 0 <= end < buffer.len() {
        law_only_openai_pauses(dialect, buffer.skip(end + 1));
    }
}

/// It makes no difference where a text is cut on its way: what comes of `first` and then of
/// `second` is what comes of both at once. With OpenAI this holds as long as no end mark stands in
/// the first part.
pub proof fn law_cuts_make_no_difference(dialect: Dialect, first: Seq<char>, second: Seq<char>)
    requires
        dialect != Dialect::Gemini,
        !pauses(dialect, first),
    ensures
        drained(dialect, first + second) == (
            drained(dialect, first).0 + drained(dialect, drained(dialect, first).1 + second).0,
            drained(dialect, drained(dialect, first).1 + second).1,
        ),
    decreases first.len(),
{
    lemma_line_end_found(first);
    let end = line_end(first);
    let all = first + second;
    if end < first.len() {
        assert forall|j: int| 0 <= j < end implies all[j] != '\n' by {
            assert(all[j] == first[j]);
        }
        assert(all[end] == first[end]);
        lemma_line_end(all, end);
        assert(all.take(end) =~= first.take(end));
        assert(all.skip(end + 1) =~= first.skip(end + 1) + second);
        law_cuts_make_no_difference(dialect, first.skip(end + 1), second);
        match line_event(dialect, first.take(end)) {
            LineEvent::Piece(d) => {
                let after = drained(dialect, first.skip(end + 1));
                assert(seq![d] + (after.0 + drained(dialect, after.1 + second).0) =~= (seq![d]
                    + after.0) + drained(dialect, after.1 + second).0);
            },
            _ => {},
        }
    } else {
        assert(drained(dialect, first).0 + drained(dialect, all).0 =~= drained(dialect, all).0);
    }
}

/// No finished line stays in the buffer, unless the end mark makes it wait.
pub proof fn law_finished_lines_leave(dialect: Dialect, buffer: Seq<char>)
    requires
        dialect != Dialect::Gemini,
        !pauses(dialect, buffer),
    ensures
        line_end(drained(dialect, buffer).1) == drained(dialect, buffer).1.len(),
    decreases buffer.len(),
{
    lemma_line_end_found(buffer);
    let end = line_end(buffer);
    if end < buffer.len() {
        law_finished_lines_leave(dialect, buffer.skip(end + 1));
    }
}

/// Every piece has text.
pub proof fn law_pieces_have_text(dialect: Dialect, buffer: Seq<char>)
    ensures
        forall|i: int|
            0 <= i < drained(dialect, buffer).0.len() ==> (#[trigger] drained(
                dialect,
                buffer,
            ).0[i]).content.len() > 0,
    decreases buffer.len(),
{
    if dialect == Dialect::Gemini {
        if buffer.len() > 0 {
            match json::json_parsed(buffer) {
                Some(j) => {
                    lemma_candidates_have_text(j.field("candidates"@).items_or_none());
                },
                None => {},
            }
        }
    } else {
        lemma_line_end_found(buffer);
        let end = line_end(buffer);
        if end < buffer.len() {
            law_pieces_have_text(dialect, buffer.skip(end + 1));
        }
    }
}

proof fn lemma_candidates_have_text(candidates: Seq<JsonView>)
    ensures
        forall|i: int|
            0 <= i < candidate_pieces(candidates).len() ==> (#[trigger] candidate_pieces(
                candidates,
            )[i]).content.len() > 0,
    decreases candidates.len(),
{
    if candidates.len() > 0 {
        lemma_candidates_have_text(candidates.drop_last());
    }
}

proof fn lemma_first_line(dialect: Dialect, line: Seq<char>, rest: Seq<char>)
    requires
        !line.contains('\n'),
    ensures
        line_end(line + seq!['\n'] + rest) == line.len(),
        (line + seq!['\n'] + rest).take(line.len() as int) == line,
        (line + seq!['\n'] + rest).skip(line.len() as int + 1) == rest,
        (line + seq!['\n'] + rest).len() > line.len(),
{
    let s = line + seq!['\n'] + rest;
    assert forall|j: int| 0 <= j < line.len() implies s[j] != '\n' by {
        assert(s[j] == line[j]);
        assert(line.contains(line[j]));
    }
    assert(s[line.len() as int] == '\n');
    lemma_line_end(s, line.len() as int);
    assert(s.take(line.len() as int) =~= line);
    assert(s.skip(line.len() as int + 1) =~= rest);
}

proof fn lemma_data_line(data: Seq<char>)
    requires
        !data.contains('\n'),
    ensures
        !("data: "@ + data).contains('\n'),
        text::begins("data: "@ + data, "data: "@),
        ("data: "@ + data).subrange(6, ("data: "@ + data).len() as int) == data,
{
    reveal_strlit("data: ");
    let line = "data: "@ + data;
    if line.contains('\n') {
        let j = choose|j: int| 0 <= j < line.len() && line[j] == '\n';
        if j >= 6 {
            assert(data[j - 6] == '\n');
        }
    }
    assert(line.subrange(0, 6) =~= "data: "@);
    assert(line.subrange(6, line.len() as int) =~= data);
}

/// A finished line of OpenAI or OpenRouter whose first choice has a delta with some text gives
/// exactly one piece, with that text, whatever it is, and with the choice's finish reason. It
/// comes before the pieces of what follows the line, which are the same as without the line.
pub proof fn law_choice_text_is_a_piece(
    dialect: Dialect,
    data: Seq<char>,
    rest: Seq<char>,
    j: JsonView,
    choices: Seq<JsonView>,
    delta: JsonView,
    content: Seq<char>,
    reason: Option<Seq<char>>,
)
    requires
        dialect == Dialect::OpenAi || dialect == Dialect::OpenRouter,
        !data.contains('\n'),
        data != "[DONE]"@,
        json::json_parsed(data) == Some(j),
        j.holds("choices"@, JsonView::Array(choices)),
        choices.len() > 0,
        choices[0].holds("delta"@, delta),
        delta.holds("content"@, JsonView::Text(content)),
        content.len() > 0,
        choices[0].says("finish_reason"@, reason),
    ensures
        drained(dialect, "data: "@ + data + seq!['\n'] + rest) == (
            seq![DeltaView { content, finish_reason: reason }] + drained(dialect, rest).0,
            drained(dialect, rest).1,
        ),
{
    lemma_data_line(data);
    lemma_first_line(dialect, "data: "@ + data, rest);
}

/// A finished line of Anthropic whose delta has some text gives exactly one piece, with that text
/// and with the delta's stop reason, or `stop` where the delta names none.
pub proof fn law_delta_text_is_a_piece(
    data: Seq<char>,
    rest: Seq<char>,
    j: JsonView,
    delta: JsonView,
    content: Seq<char>,
    reason: Option<Seq<char>>,
)
    requires
        data.len() > 0,
        !data.contains('\n'),
        json::json_parsed(data) == Some(j),
        j.holds("delta"@, delta),
        delta.holds("text"@, JsonView::Text(content)),
        content.len() > 0,
        delta.says("stop_reason"@, reason),
    ensures
        drained(Dialect::Anthropic, "data: "@ + data + seq!['\n'] + rest) == (
            seq![
                DeltaView {
                    content,
                    finish_reason: Some(
                        if reason is Some {
                            reason->0
                        } else {
                            "stop"@
                        },
                    ),
                },
            ] + drained(Dialect::Anthropic, rest).0,
            drained(Dialect::Anthropic, rest).1,
        ),
{
    lemma_data_line(data);
    lemma_first_line(Dialect::Anthropic, "data: "@ + data, rest);
}

/// A finished line of Ollama whose message has some text gives exactly one piece, with that text.
/// Its finish reason is `stop` where the line says that the answer is done, and nothing otherwise.
pub proof fn law_message_text_is_a_piece(
    line: Seq<char>,
    rest: Seq<char>,
    j: JsonView,
    message: JsonView,
    content: Seq<char>,
)
    requires
        !line.contains('\n'),
        json::json_parsed(line) == Some(j),
        j.holds("message"@, message),
        message.holds("content"@, JsonView::Text(content)),
        content.len() > 0,
    ensures
        drained(Dialect::Ollama, line + seq!['\n'] + rest) == (
            seq![
                DeltaView {
                    content,
                    finish_reason: if j.holds("done"@, JsonView::Bool(true)) {
                        Some("stop"@)
                    } else {
                        None
                    },
                },
            ] + drained(Dialect::Ollama, rest).0,
            drained(Dialect::Ollama, rest).1,
        ),
{
    lemma_first_line(Dialect::Ollama, line, rest);
}

/// A finished line that is no data makes no difference at all.
pub proof fn law_other_lines(dialect: Dialect, line: Seq<char>, rest: Seq<char>)
    requires
        dialect != Dialect::Gemini,
        dialect != Dialect::Ollama,
        !line.contains('\n'),
        !"data: "@.is_prefix_of(line),
    ensures
        drained(dialect, line + seq!['\n'] + rest) == drained(dialect, rest),
{
    reveal_strlit("data: ");
    lemma_first_line(dialect, line, rest);
    if text::begins(line, "data: "@) {
        assert(line.subrange(0, 6) == "data: "@);
        assert("data: "@.is_prefix_of(line));
    }
}

/// A finished line whose data is no JSON makes no difference at all.
pub proof fn law_unreadable_lines(dialect: Dialect, data: Seq<char>, rest: Seq<char>)
    requires
        dialect != Dialect::Gemini,
        !data.contains('\n'),
        json::json_parsed(data) is None,
        dialect == Dialect::OpenAi ==> data != "[DONE]"@,
    ensures
        dialect != Dialect::Ollama ==> drained(dialect, "data: "@ + data + seq!['\n'] + rest)
            == drained(dialect, rest),
        dialect == Dialect::Ollama ==> drained(dialect, data + seq!['\n'] + rest) == drained(
            dialect,
            rest,
        ),
{
    reveal_strlit("data: ");
    lemma_first_line(dialect, data, rest);
    lemma_data_line(data);
    lemma_first_line(dialect, "data: "@ + data, rest);
}

/// A finished line of OpenAI or OpenRouter makes no difference where its first choice has no
/// delta with text in it.
pub proof fn law_choices_without_text(
    dialect: Dialect,
    data: Seq<char>,
    rest: Seq<char>,
    j: JsonView,
)
    requires
        dialect == Dialect::OpenAi || dialect == Dialect::OpenRouter,
        !data.contains('\n'),
        data != "[DONE]"@,
        json::json_parsed(data) == Some(j),
        forall|choices: Seq<JsonView>, delta: JsonView, content: Seq<char>|
            #![trigger choices[0].holds("delta"@, delta),
                delta.holds("content"@, JsonView::Text(content))]
            j.holds("choices"@, JsonView::Array(choices)) && choices.len() > 0
                && choices[0].holds("delta"@, delta) && delta.holds(
                "content"@,
                JsonView::Text(content),
            ) ==> content.len() == 0,
    ensures
        drained(dialect, "data: "@ + data + seq!['\n'] + rest) == drained(dialect, rest),
{
    lemma_data_line(data);
    lemma_first_line(dialect, "data: "@ + data, rest);
    if let JsonView::Array(choices) = j.field("choices"@) {
        if choices.len() > 0 {
            let delta = choices[0].field("delta"@);
            if let JsonView::Text(content) = delta.field("content"@) {
                assert(choices[0].holds("delta"@, delta));
                assert(delta.holds("content"@, JsonView::Text(content)));
            }
        }
    }
}

/// A finished line of Anthropic makes no difference where it has no delta with text in it.
pub proof fn law_deltas_without_text(data: Seq<char>, rest: Seq<char>, j: JsonView)
    requires
        !data.contains('\n'),
        json::json_parsed(data) == Some(j),
        forall|delta: JsonView, content: Seq<char>|
            #![trigger j.holds("delta"@, delta), delta.holds("text"@, JsonView::Text(content))]
            j.holds("delta"@, delta) && delta.holds("text"@, JsonView::Text(content))
                ==> content.len() == 0,
    ensures
        drained(Dialect::Anthropic, "data: "@ + data + seq!['\n'] + rest) == drained(
            Dialect::Anthropic,
            rest,
        ),
{
    lemma_data_line(data);
    lemma_first_line(Dialect::Anthropic, "data: "@ + data, rest);
    let delta = j.field("delta"@);
    if let JsonView::Text(content) = delta.field("text"@) {
        assert(j.holds("delta"@, delta));
        assert(delta.holds("text"@, JsonView::Text(content)));
    }
}

/// A finished line of Ollama makes no difference where it has no message with text in it.
pub proof fn law_messages_without_text(line: Seq<char>, rest: Seq<char>, j: JsonView)
    requires
        !line.contains('\n'),
        json::json_parsed(line) == Some(j),
        forall|message: JsonView, content: Seq<char>|
            #![trigger j.holds("message"@, message),
                message.holds("content"@, JsonView::Text(content))]
            j.holds("message"@, message) && message.holds("content"@, JsonView::Text(content))
                ==> content.len() == 0,
    ensures
        drained(Dialect::Ollama, line + seq!['\n'] + rest) == drained(Dialect::Ollama, rest),
{
    lemma_first_line(Dialect::Ollama, line, rest);
    let message = j.field("message"@);
    if let JsonView::Text(content) = message.field("content"@) {
        assert(j.holds("message"@, message));
        assert(message.holds("content"@, JsonView::Text(content)));
    }
}

/// OpenAI's end mark leaves what follows it in the buffer, OpenRouter's leaves no trace, and so
/// does a line of Anthropic without data.
pub proof fn law_end_marks(rest: Seq<char>)
    ensures
        drained(Dialect::OpenAi, "data: [DONE]\n"@ + rest) == (Seq::<DeltaView>::empty(), rest),
        drained(Dialect::OpenRouter, "data: [DONE]\n"@ + rest)
            == drained(Dialect::OpenRouter, rest),
        drained(Dialect::Anthropic, "data: \n"@ + rest) == drained(Dialect::Anthropic, rest),
{
    reveal_strlit("data: [DONE]\n");
    reveal_strlit("data: ");
    reveal_strlit("data: \n");
    reveal_strlit("[DONE]");
    lemma_data_line("[DONE]"@);
    lemma_data_line(Seq::empty());
    lemma_first_line(Dialect::OpenAi, "data: "@ + "[DONE]"@, rest);
    lemma_first_line(Dialect::Anthropic, "data: "@ + Seq::<char>::empty(), rest);
    assert("data: "@ + "[DONE]"@ + seq!['\n'] + rest =~= "data: [DONE]\n"@ + rest);
    assert("data: "@ + Seq::<char>::empty() + seq!['\n'] + rest =~= "data: \n"@ + rest);
}

/// A line without its line feed gives nothing yet and stays whole.
pub proof fn law_unfinished_lines_wait(dialect: Dialect, line: Seq<char>)
    requires
        dialect != Dialect::Gemini,
        !line.contains('\n'),
    ensures
        drained(dialect, line) == (Seq::<DeltaView>::empty(), line),
{
    assert forall|j: int| 0 <= j < line.len() implies line[j] != '\n' by {
        assert(line.contains(line[j]));
    }
    lemma_line_end(line, line.len() as int);
}

/// A text of Gemini that is no JSON waits whole; one that is JSON leaves nothing behind.
pub proof fn law_whole_values(buffer: Seq<char>)
    requires
        buffer.len() > 0,
    ensures
        json::json_parsed(buffer) is None ==> drained(Dialect::Gemini, buffer) == (
            Seq::<DeltaView>::empty(),
            buffer,
        ),
        json::json_parsed(buffer) is Some ==> drained(Dialect::Gemini, buffer).1 == Seq::<
            char,
        >::empty(),
        json::json_parsed(buffer) matches Some(j) && j.lists("candidates"@, Seq::empty())
            ==> drained(Dialect::Gemini, buffer).0 == Seq::<DeltaView>::empty(),
{
}

/// One more candidate at the end of a Gemini answer, whose first part has some text, adds exactly
/// one piece at the end, with that text and with the candidate's finish reason.
pub proof fn law_candidate_text_is_a_piece(
    buffer: Seq<char>,
    longer: Seq<char>,
    j: JsonView,
    k: JsonView,
    candidates: Seq<JsonView>,
    candidate: JsonView,
    body: JsonView,
    parts: Seq<JsonView>,
    content: Seq<char>,
    reason: Option<Seq<char>>,
)
    requires
        buffer.len() > 0,
        longer.len() > 0,
        json::json_parsed(buffer) == Some(j),
        json::json_parsed(longer) == Some(k),
        j.lists("candidates"@, candidates),
        k.lists("candidates"@, candidates.push(candidate)),
        candidate.holds("content"@, body),
        body.holds("parts"@, JsonView::Array(parts)),
        parts.len() > 0,
        parts[0].holds("text"@, JsonView::Text(content)),
        content.len() > 0,
        candidate.says("finishReason"@, reason),
    ensures
        drained(Dialect::Gemini, longer).0 == drained(Dialect::Gemini, buffer).0.push(
            DeltaView { content, finish_reason: reason },
        ),
{
    assert(candidates.push(candidate).drop_last() =~= candidates);
    if candidates.len() == 0 {
        assert(j.field("candidates"@).items_or_none() =~= candidates);
    }
}

/// One more candidate at the end of a Gemini answer, without text in its first part, adds no
/// piece.
pub proof fn law_silent_candidates(
    buffer: Seq<char>,
    longer: Seq<char>,
    j: JsonView,
    k: JsonView,
    candidates: Seq<JsonView>,
    candidate: JsonView,
)
    requires
        buffer.len() > 0,
        longer.len() > 0,
        json::json_parsed(buffer) == Some(j),
        json::json_parsed(longer) == Some(k),
        j.lists("candidates"@, candidates),
        k.lists("candidates"@, candidates.push(candidate)),
        forall|body: JsonView, parts: Seq<JsonView>, content: Seq<char>|
            #![trigger body.holds("parts"@, JsonView::Array(parts)),
                parts[0].holds("text"@, JsonView::Text(content))]
            candidate.holds("content"@, body) && body.holds("parts"@, JsonView::Array(parts))
                && parts.len() > 0 && parts[0].holds("text"@, JsonView::Text(content))
                ==> content.len() == 0,
    ensures
        drained(Dialect::Gemini, longer).0 == drained(Dialect::Gemini, buffer).0,
{
    assert(candidates.push(candidate).drop_last() =~= candidates);
    if candidates.len() == 0 {
        assert(j.field("candidates"@).items_or_none() =~= candidates);
    }
    let body = candidate.field("content"@);
    if let JsonView::Array(parts) = body.field("parts"@) {
        if parts.len() > 0 {
            if let JsonView::Text(content) = parts[0].field("text"@) {
                assert(body.holds("parts"@, JsonView::Array(parts)));
                assert(parts[0].holds("text"@, JsonView::Text(content)));
            }
        }
    }
}

/// The chunk for a piece says all of the piece and nothing else: the text as the assistant's, the
/// finish reason, the number of chunks before it, the model and the moment.
pub proof fn law_chunks_carry_pieces(
    dialect: Dialect,
    model: Seq<char>,
    millis: i64,
    seconds: i64,
    index: u32,
    delta: DeltaView,
)
    ensures
        ({
            let c = chunk_view(dialect, model, millis, seconds, piece_choice(index, delta));
            &&& c.choices.len() == 1
            &&& c.choices[0].index == index
            &&& c.choices[0].delta == Some(
                types::MessageView::Assistant {
                    content: Some(delta.content),
                    tool_calls: None,
                    name: None,
                },
            )
            &&& c.choices[0].finish_reason == delta.finish_reason
            &&& c.model == model
            &&& c.created == seconds as u64
            &&& c.object == "chat.completion.chunk"@
            &&& c.id == (match dialect {
                Dialect::OpenAi => "cmpl-"@,
                Dialect::Anthropic => "msg_"@,
                Dialect::Gemini => "gemini_"@,
                Dialect::Ollama => "ollama_"@,
                Dialect::OpenRouter => "or_"@,
            }) + text::signed_decimal(millis as int)
        }),
{
}

/// The chunk that ends a stream has no text and says `stop`; otherwise it is like the one that
/// would have come next.
pub proof fn law_last_chunk(
    dialect: Dialect,
    model: Seq<char>,
    millis: i64,
    seconds: i64,
    index: u32,
    delta: DeltaView,
)
    ensures
        ({
            let last = chunk_view(dialect, model, millis, seconds, last_choice(index));
            let next = chunk_view(dialect, model, millis, seconds, piece_choice(index, delta));
            &&& last.choices.len() == 1
            &&& last.choices[0].index == next.choices[0].index
            &&& last.choices[0].delta is None
            &&& last.choices[0].finish_reason == Some("stop"@)
            &&& last.model == next.model
            &&& last.created == next.created
            &&& last.object == next.object
            &&& last.id == next.id
        }),
{
}

/// A piece is seen with its text and its finish reason, and pieces in their order.
pub proof fn law_pieces_as_seen(deltas: Seq<Delta>, i: int)
    requires
        0 <= i < deltas.len(),
    ensures
        deltas_view(deltas).len() == deltas.len(),
        deltas_view(deltas)[i].content == deltas[i].content@,
        types::same_text(deltas_view(deltas)[i].finish_reason, deltas[i].finish_reason),
{
}

/// A piece that may be missing is seen as it is where it is there.
pub proof fn law_optional_pieces_as_seen(d: Delta)
    ensures
        opt_delta(Some(d)) == Some(d@),
        opt_delta(None) is None,
{
}

} // verus!
