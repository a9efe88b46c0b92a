//! Estimates of token counts, with a cache of bounded size.

use crate::text;
use crate::types;
use crate::types::{ChatMessage, Float64, MessageRole, MessageView};
use std::collections::VecDeque;
use vstd::hash_map::StringHashMap;
use vstd::prelude::*;

verus! {

/// Errors of counting tokens.
#[derive(Debug, Clone, PartialEq)]
pub enum TokenCountingError {
    UnsupportedModel { model: String },
    EncodingError { message: String },
    CacheError { message: String },
}

impl TokenCountingError {
    /// The error as it is displayed.
    pub fn display(&self) -> (r: String)
        ensures
            r@ == (match *self {
                TokenCountingError::UnsupportedModel { model } => "Model not supported: "@ + model@,
                TokenCountingError::EncodingError { message } => "Encoding error: "@ + message@,
                TokenCountingError::CacheError { message } => "Cache error: "@ + message@,
            }),
    {
        match self {
            TokenCountingError::UnsupportedModel { model } => text::cat(
                "Model not supported: ",
                model.as_str(),
            ),
            TokenCountingError::EncodingError { message } => text::cat(
                "Encoding error: ",
                message.as_str(),
            ),
            TokenCountingError::CacheError { message } => text::cat(
                "Cache error: ",
                message.as_str(),
            ),
        }
    }
}

/// The tokens of a request.
#[derive(Debug, Clone, Copy, PartialEq, Eq, Structural)]
pub struct TokenCount {
    pub prompt_tokens: u32,
    pub completion_tokens: u32,
    pub total_tokens: u32,
}

impl TokenCount {
    /// The tokens of prompt and completion.
    pub fn new(prompt_tokens: u32, completion_tokens: u32) -> (r: TokenCount)
        requires
            prompt_tokens + completion_tokens <= u32::MAX,
        ensures
            r.prompt_tokens == prompt_tokens,
            r.completion_tokens == completion_tokens,
            r.total_tokens == prompt_tokens + completion_tokens,
    {
        TokenCount {
            prompt_tokens,
            completion_tokens,
            total_tokens: prompt_tokens + completion_tokens,
        }
    }
}

/// Configuration of a token counter.
#[derive(Debug, Clone)]
pub struct TokenCounterConfig {
    pub default_model: String,
    pub cache_size: usize,
    pub enable_cache: bool,
    pub tokens_per_character: Float64,
}

impl Default for TokenCounterConfig {
    fn default() -> (r: TokenCounterConfig)
        ensures
            r.default_model@ == "gpt-4"@,
            r.cache_size == 1000,
            r.enable_cache,
            r.tokens_per_character == (Float64 { bits: 0x3FD0_0000_0000_0000 }),
    {
        TokenCounterConfig {
            default_model: "gpt-4".to_owned(),
            cache_size: 1000,
            enable_cache: true,
            tokens_per_character: Float64 { bits: 0x3FD0_0000_0000_0000 },
        }
    }
}

/// Counts tokens.
pub struct TokenCounter {
    config: TokenCounterConfig,
    cache: StringHashMap<u32>,
    cache_order: VecDeque<String>,
}

/// The estimated number of tokens of a text: one for every four characters or part of them, at
/// least one, and no more than a 32-bit number can say.
pub open spec fn estimated_tokens(s: Seq<char>) -> u32 {
    let quarters = (s.len() + 3) / 4;
    if quarters == 0 {
        1
    } else if quarters > u32::MAX {
        u32::MAX
    } else {
        quarters as u32
    }
}

/// The name of a role.
pub open spec fn role_name(role: MessageRole) -> Seq<char> {
    match role {
        MessageRole::System => "system"@,
        MessageRole::User => "user"@,
        MessageRole::Assistant => "assistant"@,
        MessageRole::Function => "function"@,
        MessageRole::Tool => "tool"@,
    }
}

/// The estimated tokens of a message: its text, its role, and four more.
pub open spec fn message_tokens(m: MessageView) -> int {
    estimated_tokens(text::text_or(m.content(), Seq::empty())) + estimated_tokens(
        role_name(m.role()),
    ) + 4
}

/// The estimated tokens of some messages.
pub open spec fn conversation_tokens(messages: Seq<MessageView>) -> int
    decreases messages.len(),
{
    if messages.len() == 0 {
        0
    } else {
        conversation_tokens(messages.drop_last()) + message_tokens(messages.last())
    }
}

/// The texts whose tokens are counted for some messages, in order.
pub open spec fn counted_texts(messages: Seq<MessageView>) -> Seq<Seq<char>>
    decreases messages.len(),
{
    if messages.len() == 0 {
        Seq::empty()
    } else {
        counted_texts(messages.drop_last()).push(
            text::text_or(messages.last().content(), Seq::empty()),
        ).push(role_name(messages.last().role()))
    }
}

/// What the cache holds, oldest first, once the tokens of a text were counted: a new text comes
/// last, and the oldest leaves where the cache is full.
pub open spec fn cached_with(held: Seq<Seq<char>>, size: int, enabled: bool, s: Seq<char>) -> Seq<
    Seq<char>,
> {
    if !enabled || held.contains(s) {
        held
    } else if held.len() >= size && held.len() > 0 {
        held.drop_first().push(s)
    } else {
        held.push(s)
    }
}

/// What the cache holds once the tokens of some texts were counted.
pub open spec fn cached_with_all(
    held: Seq<Seq<char>>,
    size: int,
    enabled: bool,
    all: Seq<Seq<char>>,
) -> Seq<Seq<char>>
    decreases all.len(),
{
    if all.len() == 0 {
        held
    } else {
        cached_with(cached_with_all(held, size, enabled, all.drop_last()), size, enabled, all.last())
    }
}

proof fn lemma_conversation_prefix(messages: Seq<MessageView>, n: int)
    requires
        0 <= n <= messages.len(),
    ensures
        0 <= conversation_tokens(messages.take(n)) <= conversation_tokens(messages),
    decreases messages.len(),
{
    if n == messages.len() {
        assert(messages.take(n) =~= messages);
        if n > 0 {
            lemma_conversation_prefix(messages.drop_last(), n - 1);
            assert(messages.drop_last().take(n - 1) =~= messages.drop_last());
        }
    } else {
        lemma_conversation_prefix(messages.drop_last(), n);
        assert(messages.drop_last().take(n) =~= messages.take(n));
    }
}

impl TokenCounter {
    /// The configuration.
    pub closed spec fn settings(&self) -> TokenCounterConfig {
        self.config
    }

    /// The texts in the cache, oldest first.
    pub closed spec fn cached(&self) -> Seq<Seq<char>> {
        Seq::new(self.cache_order@.len(), |i: int| self.cache_order@[i]@)
    }

    /// The counts in the cache.
    pub closed spec fn counts(&self) -> Map<Seq<char>, u32> {
        self.cache@
    }

    /// The cache holds each of its texts once, with its estimate, and no more texts than it may;
    /// without a cache nothing is held.
    pub open spec fn wf(&self) -> bool {
        &&& self.cached().no_duplicates()
        &&& forall|k: Seq<char>| #[trigger]
            self.counts().dom().contains(k) <==> self.cached().contains(k)
        &&& forall|k: Seq<char>| #[trigger]
            self.counts().dom().contains(k) ==> self.counts()[k] == estimated_tokens(k)
        &&& self.cached().len() <= self.settings().cache_size || self.cached().len() <= 1
        &&& !self.settings().enable_cache ==> self.cached().len() == 0
    }

    /// A counter with this configuration, or with the default one.
    pub fn new(config: Option<TokenCounterConfig>) -> (r: TokenCounter)
        ensures
            r.wf(),
            r.cached() == Seq::<Seq<char>>::empty(),
            match config {
                Some(c) => r.settings() == c,
                None => r.settings().default_model@ == "gpt-4"@ && r.settings().cache_size == 1000
                    && r.settings().enable_cache && r.settings().tokens_per_character == (Float64 {
                    bits: 0x3FD0_0000_0000_0000,
                }),
            },
    {
        let settings = match config {
            Some(c) => c,
            None => TokenCounterConfig::default(),
        };
        let r = TokenCounter {
            config: settings,
            cache: StringHashMap::new(),
            cache_order: VecDeque::new(),
        };
        assert(r.cached() =~= Seq::<Seq<char>>::empty());
        r
    }

    /// The estimated tokens of a text. The result is the same with the cache and without.
    pub fn count_tokens(&mut self, text: &str, model: &str) -> (r: Result<u32, TokenCountingError>)
        requires
            old(self).wf(),
        ensures
            final(self).wf(),
            final(self).settings() == old(self).settings(),
            r == Ok::<u32, TokenCountingError>(estimated_tokens(text@)),
            final(self).cached() == cached_with(
                old(self).cached(),
                old(self).settings().cache_size as int,
                old(self).settings().enable_cache,
                text@,
            ),
    {
        if self.config.enable_cache {
            match self.cache.get(text) {
                Some(count) => {
                    assert(self.counts().dom().contains(text@));
                    return Ok(*count);
                },
                None => {
                    assert(!self.counts().dom().contains(text@));
                },
            }
        }
        let count: u32 = Self::approximate_token_count(text);
        if self.config.enable_cache {
            self.add_to_cache(text, count);
        }
        Ok(count)
    }

    /// The estimated tokens of a conversation.
    pub fn count_messages(&mut self, messages: &Vec<ChatMessage>, model: &str) -> (r: Result<
        u32,
        TokenCountingError,
    >)
        requires
            old(self).wf(),
            conversation_tokens(types::messages_view(messages@)) + 3 <= u32::MAX,
        ensures
            final(self).wf(),
            final(self).settings() == old(self).settings(),
            r matches Ok(n) && n == conversation_tokens(types::messages_view(messages@)) + 3,
            final(self).cached() == cached_with_all(
                old(self).cached(),
                old(self).settings().cache_size as int,
                old(self).settings().enable_cache,
                counted_texts(types::messages_view(messages@)),
            ),
    {
        let mut total: u32 = 0;
        let ghost all = types::messages_view(messages@);
        let ghost held = self.cached();
        let ghost size = self.config.cache_size as int;
        let ghost enabled = self.config.enable_cache;
        let mut i: usize = 0;
        assert(all.take(0) =~= Seq::empty());
        proof {
            reveal_strlit("");
            assert(""@ =~= Seq::<char>::empty());
        }
        while i < messages.len()
            invariant
                i <= messages@.len(),
                all == types::messages_view(messages@),
                conversation_tokens(all) + 3 <= u32::MAX,
                ""@ == Seq::<char>::empty(),
                self.wf(),
                self.settings() == old(self).settings(),
                size == self.settings().cache_size,
                enabled == self.settings().enable_cache,
                total == conversation_tokens(all.take(i as int)),
                self.cached() == cached_with_all(
                    held,
                    size,
                    enabled,
                    counted_texts(all.take(i as int)),
                ),
            decreases messages@.len() - i,
        {
            let message = &messages[i];
            proof {
                assert(all.take(i + 1).drop_last() =~= all.take(i as int));
                assert(all.take(i + 1).last() == message@);
                lemma_conversation_prefix(all, i + 1);
                let before = counted_texts(all.take(i as int));
                let content = text::text_or(message@.content(), Seq::empty());
                let role = role_name(message@.role());
                reveal_with_fuel(cached_with_all, 3);
                assert(before.push(content).push(role).drop_last() =~= before.push(content));
                assert(before.push(content).drop_last() =~= before);
            }
            let content = match message.content() {
                Some(c) => c,
                None => "",
            };
            let content_tokens: u32 = match self.count_tokens(content, model) {
                Ok(n) => n,
                Err(e) => return Err(e),
            };
            total = total + content_tokens;
            let role_str = match message.role() {
                MessageRole::System => "system",
                MessageRole::User => "user",
                MessageRole::Assistant => "assistant",
                MessageRole::Function => "function",
                MessageRole::Tool => "tool",
            };
            let role_tokens: u32 = match self.count_tokens(role_str, model) {
                Ok(n) => n,
                Err(e) => return Err(e),
            };
            total = total + role_tokens;
            total = total + 4;
            i = i + 1;
        }
        assert(all.take(i as int) =~= all);
        Ok(total + 3)
    }

    /// Whether the tokens of a conversation are in range.
    pub fn can_count_messages(messages: &Vec<ChatMessage>) -> (r: bool)
        ensures
            r == (conversation_tokens(types::messages_view(messages@)) + 3 <= u32::MAX),
    {
        let mut total: u128 = 0;
        let ghost all = types::messages_view(messages@);
        let mut i: usize = 0;
        assert(all.take(0) =~= Seq::empty());
        proof {
            reveal_strlit("");
            assert(""@ =~= Seq::<char>::empty());
        }
        while i < messages.len()
            invariant
                i <= messages@.len(),
                all == types::messages_view(messages@),
                ""@ == Seq::<char>::empty(),
                total == conversation_tokens(all.take(i as int)),
                total <= i * 0x2_0000_0010,
            decreases messages@.len() - i,
        {
            let message = &messages[i];
            assert(all.take(i + 1).drop_last() =~= all.take(i as int));
            assert(all.take(i + 1).last() == message@);
            let content = match message.content() {
                Some(c) => c,
                None => "",
            };
            let role_str = match message.role() {
                MessageRole::System => "system",
                MessageRole::User => "user",
                MessageRole::Assistant => "assistant",
                MessageRole::Function => "function",
                MessageRole::Tool => "tool",
            };
            let content_tokens: u32 = Self::approximate_token_count(content);
            let role_tokens: u32 = Self::approximate_token_count(role_str);
            total = total + content_tokens as u128 + role_tokens as u128 + 4;
            i = i + 1;
        }
        assert(all.take(i as int) =~= all);
        total + 3 <= u32::MAX as u128
    }

    /// The tokens of a request with this prompt and this limit.
    pub fn estimate_tokens_for_request(
        &mut self,
        prompt: &str,
        max_tokens_to_generate: u32,
        model: &str,
    ) -> (r: Result<TokenCount, TokenCountingError>)
        requires
            old(self).wf(),
            estimated_tokens(prompt@) + max_tokens_to_generate <= u32::MAX,
        ensures
            final(self).wf(),
            final(self).settings() == old(self).settings(),
            r == Ok::<TokenCount, TokenCountingError>(
                TokenCount {
                    prompt_tokens: estimated_tokens(prompt@),
                    completion_tokens: max_tokens_to_generate,
                    total_tokens: (estimated_tokens(prompt@) + max_tokens_to_generate) as u32,
                },
            ),
            final(self).cached() == cached_with(
                old(self).cached(),
                old(self).settings().cache_size as int,
                old(self).settings().enable_cache,
                prompt@,
            ),
    {
        match self.count_tokens(prompt, model) {
            Ok(n) => Ok(TokenCount::new(n, max_tokens_to_generate)),
            Err(e) => Err(e),
        }
    }

    /// The estimated tokens of a text.
    pub fn approximate_token_count(text: &str) -> (r: u32)
        ensures
            r == estimated_tokens(text@),
    {
        let chars: usize = text.unicode_len();
        let whole: usize = chars / 4;
        let quarters: u128 = if chars % 4 == 0 {
            whole as u128
        } else {
            whole as u128 + 1
        };
        if quarters == 0 {
            1
        } else if quarters > u32::MAX as u128 {
            u32::MAX
        } else {
            quarters as u32
        }
    }

    fn add_to_cache(&mut self, key: &str, value: u32)
        requires
            old(self).wf(),
            old(self).settings().enable_cache,
            !old(self).cached().contains(key@),
            value == estimated_tokens(key@),
        ensures
            final(self).wf(),
            final(self).settings() == old(self).settings(),
            final(self).cached() == cached_with(
                old(self).cached(),
                old(self).settings().cache_size as int,
                true,
                key@,
            ),
    {
        let ghost held = self.cached();
        if self.cache_order.len() >= self.config.cache_size {
            match self.cache_order.pop_front() {
                Some(oldest) => {
                    assert(oldest@ == held[0]);
                    self.cache.remove(oldest.as_str());
                    assert(self.cached() =~= held.drop_first());
                    assert(held =~= seq![held[0]] + held.drop_first());
                    assert(held.contains(held[0]));
                },
                None => {
                    assert(self.cached() =~= held);
                },
            }
        }
        let ghost kept = self.cached();
        proof {
            assert forall|k: Seq<char>| #[trigger] self.counts().dom().contains(k)
                <==> kept.contains(k) by {
                assert(old(self).counts().dom().contains(k) <==> held.contains(k));
                if kept.len() < held.len() {
                    if held.contains(k) && k != held[0] {
                        let j = held.index_of(k);
                        assert(kept[j - 1] == k);
                    }
                    if kept.contains(k) {
                        let j = kept.index_of(k);
                        assert(held[j + 1] == k);
                        assert(held[j + 1] != held[0]);
                    }
                }
            }
            assert(kept.no_duplicates());
            assert forall|i: int| 0 <= i < kept.len() implies kept[i] != key@ by {
                assert(kept.contains(kept[i]));
                assert(held.contains(kept[i]));
            }
        }
        let ghost kept_counts = self.counts();
        let entry = key.to_owned();
        self.cache.insert(key.to_owned(), value);
        self.cache_order.push_back(entry);
        assert(self.cached() =~= kept.push(key@));
        assert forall|k: Seq<char>| #[trigger] self.counts().dom().contains(k)
            <==> self.cached().contains(k) by {
            assert(kept_counts.dom().contains(k) <==> kept.contains(k));
            if kept.contains(k) {
                let j = kept.index_of(k);
                assert(self.cached()[j] == k);
            }
            if k == key@ {
                assert(self.cached()[kept.len() as int] == k);
            }
            if self.cached().contains(k) {
                let j = self.cached().index_of(k);
                if j < kept.len() {
                    assert(kept[j] == k);
                }
            }
        }
        assert forall|k: Seq<char>| #[trigger] self.counts().dom().contains(k) implies self.counts()[k]
            == estimated_tokens(k) by {
            if k != key@ {
                assert(kept_counts.dom().contains(k));
                assert(old(self).counts().dom().contains(k));
            }
        }
    }

    /// Empties the cache.
    pub fn clear_cache(&mut self)
        requires
            old(self).wf(),
        ensures
            final(self).wf(),
            final(self).settings() == old(self).settings(),
            final(self).cached() == Seq::<Seq<char>>::empty(),
    {
        self.cache.clear();
        self.cache_order.clear();
        assert(self.cached() =~= Seq::<Seq<char>>::empty());
    }

    /// The number of texts in the cache.
    pub fn cache_size(&self) -> (r: usize)
        requires
            self.wf(),
        ensures
            r == self.cached().len(),
    {
        proof {
            assert(self.counts().dom() =~= self.cached().to_set());
            self.cached().unique_seq_to_set();
        }
        self.cache.len()
    }

    /// Takes the data of an encoding, which estimates do without.
    pub fn with_tiktoken(&mut self, bpe_data: &[u8]) -> (r: Result<(), TokenCountingError>)
        requires
            old(self).wf(),
        ensures
            *final(self) == *old(self),
            r is Ok,
    {
        Ok(())
    }
}

/// Counting never makes the cache larger than it may be, and a text that was just counted is in
/// the cache where there is one.
pub proof fn law_cache_bounded(held: Seq<Seq<char>>, size: int, enabled: bool, s: Seq<char>)
    requires
        held.len() <= size || held.len() <= 1,
    ensures
        cached_with(held, size, enabled, s).len() <= size || cached_with(
            held,
            size,
            enabled,
            s,
        ).len() <= 1,
        enabled ==> cached_with(held, size, enabled, s).contains(s),
{
    let after = cached_with(held, size, enabled, s);
    if enabled && !held.contains(s) {
        assert(after[after.len() - 1] == s);
    }
}

/// Every text counts for at least one token, and for no more than a quarter of its characters,
/// rounded up, once it has any.
pub proof fn law_estimate_bounds(s: Seq<char>)
    ensures
        estimated_tokens(s) >= 1,
        s.len() > 0 ==> 4 * (estimated_tokens(s) - 1) < s.len(),
{
}

/// A text has one token for every four characters or part of four, and at least one.
pub proof fn law_tokens_of_a_text(s: Seq<char>)
    ensures
        s.len() == 0 ==> estimated_tokens(s) == 1,
        0 < s.len() <= 4 * u32::MAX ==> 4 * (estimated_tokens(s) - 1) < s.len() <= 4
            * estimated_tokens(s),
        s.len() > 4 * u32::MAX ==> estimated_tokens(s) == u32::MAX,
{
}

/// One more message adds the tokens of its text, those of its role, and four. The text of an
/// assistant who says nothing counts as an empty one.
pub proof fn law_every_message_is_counted(
    messages: Seq<MessageView>,
    m: MessageView,
    words: Seq<char>,
)
    requires
        match m {
            MessageView::System { content, .. } => words == content,
            MessageView::User { content, .. } => words == content,
            MessageView::Assistant { content, .. } => words == (if content is Some {
                content->0
            } else {
                Seq::empty()
            }),
            MessageView::Function { arguments, .. } => words == arguments,
            MessageView::Tool { content, .. } => words == content,
        },
    ensures
        conversation_tokens(Seq::<MessageView>::empty()) == 0,
        conversation_tokens(messages.push(m)) == conversation_tokens(messages) + estimated_tokens(
            words,
        ) + 4 + (match m {
            MessageView::System { .. } => 2int,
            MessageView::User { .. } => 1,
            MessageView::Assistant { .. } => 3,
            MessageView::Function { .. } => 2,
            MessageView::Tool { .. } => 1,
        }),
        counted_texts(Seq::<MessageView>::empty()) == Seq::<Seq<char>>::empty(),
        counted_texts(messages.push(m)) == counted_texts(messages).push(words).push(
            match m {
                MessageView::System { .. } => "system"@,
                MessageView::User { .. } => "user"@,
                MessageView::Assistant { .. } => "assistant"@,
                MessageView::Function { .. } => "function"@,
                MessageView::Tool { .. } => "tool"@,
            },
        ),
{
    reveal_strlit("system");
    reveal_strlit("user");
    reveal_strlit("assistant");
    reveal_strlit("function");
    reveal_strlit("tool");
    assert("system"@.len() == 6);
    assert("user"@.len() == 4);
    assert("assistant"@.len() == 9);
    assert("function"@.len() == 8);
    assert("tool"@.len() == 4);
    assert("user"@[0] != "tool"@[0]);
    assert(messages.push(m).drop_last() =~= messages);
}

/// A text that was counted is held behind those that are held already; where there is no room, the
/// one that came first goes. A text that is held, and any text where nothing is to be held, makes
/// no difference.
pub proof fn law_cache_keeps_the_latest(
    held: Seq<Seq<char>>,
    size: int,
    s: Seq<char>,
    all: Seq<Seq<char>>,
    enabled: bool,
)
    ensures
        cached_with(held, size, false, s) == held,
        held.contains(s) ==> cached_with(held, size, true, s) == held,
        !held.contains(s) && held.len() < size ==> cached_with(held, size, true, s) == held + seq![
            s,
        ],
        !held.contains(s) && held.len() >= size && held.len() > 0 ==> cached_with(
            held,
            size,
            true,
            s,
        ) == held.skip(1) + seq![s],
        !held.contains(s) && held.len() == 0 ==> cached_with(held, size, true, s) == seq![s],
        cached_with_all(held, size, enabled, Seq::empty()) == held,
        cached_with_all(held, size, enabled, all.push(s)) == cached_with(
            cached_with_all(held, size, enabled, all),
            size,
            enabled,
            s,
        ),
{
    assert(held.push(s) =~= held + seq![s]);
    if held.len() > 0 {
        assert(held.drop_first().push(s) =~= held.skip(1) + seq![s]);
    } else {
        assert(held.push(s) =~= seq![s]);
    }
    assert(all.push(s).drop_last() =~= all);
}

} // verus!
